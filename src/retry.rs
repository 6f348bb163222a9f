use vstd::prelude::*;
use vstd::string::*;
use crate::exit::{ExitCodes, exit_code_of};
use crate::wire::{
    Evaluation, HEADER_LEN, evaluate_response, evaluation_of, is_response, is_well_formed, message_id,
    response_code,
};

verus! {

/// Where a run of NOTIFY attempts stands.
#[derive(Clone, Copy, Debug, PartialEq, Eq, Structural)]
pub enum Phase {
    /// No attempt has started.
    Idle,
    /// An attempt is waiting for its response.
    Attempting,
    /// An attempt succeeded; nothing more is sent.
    Succeeded,
    /// Every allowed attempt failed.
    Exhausted,
    /// The local transport could not be set up; nothing more is sent.
    Aborted,
}

/// What happened since the last step.
#[derive(Clone, Debug)]
pub enum Event {
    /// The run begins.
    Start,
    /// A datagram arrived on the attempt's socket.
    Datagram(Vec<u8>),
    /// Sending or receiving failed, or no response came in time; the text says how.
    TransportFailed(String),
    /// The attempt's socket could not be opened.
    SetupFailed,
}

/// What the caller does next.
#[derive(Clone, Debug, PartialEq, Eq)]
pub enum Action {
    /// Open a fresh socket and send the NOTIFY query with this transaction ID.
    Send(u16),
    /// Keep waiting for a response on the current socket.
    Wait,
    /// Stop: the run is over, with the controller's last outcome.
    Finish,
}

/// The retry controller: it runs up to `retries + 1` attempts and stops at the
/// first success.
#[derive(Clone, Debug)]
pub struct RetryController {
    /// Attempts allowed after the first one.
    pub retries: u16,
    /// Attempts started so far.
    pub attempts: u32,
    /// The transaction ID of the first attempt.
    pub first_id: u16,
    /// The transaction ID of the current attempt.
    pub current_id: u16,
    /// Where the run stands.
    pub phase: Phase,
    /// The outcome of the last attempt that ended.
    pub last: ExitCodes,
}

/// An event as the controller reads it.
pub ghost enum EventView {
    Start,
    Datagram(Seq<u8>),
    TransportFailed,
    SetupFailed,
}

/// An action as the controller's rules give it.
pub ghost enum ActionView {
    Send(u16),
    Wait,
    Finish,
}

/// The controller as its rules see it; the last outcome by its exit code.
pub ghost struct ControllerView {
    pub retries: nat,
    pub attempts: nat,
    pub first_id: u16,
    pub current_id: u16,
    pub phase: Phase,
    pub last_code: int,
}

impl Event {
    pub open spec fn view(&self) -> EventView {
        match self {
            Event::Start => EventView::Start,
            Event::Datagram(b) => EventView::Datagram(b@),
            Event::TransportFailed(_) => EventView::TransportFailed,
            Event::SetupFailed => EventView::SetupFailed,
        }
    }
}

impl Action {
    pub open spec fn view(&self) -> ActionView {
        match self {
            Action::Send(id) => ActionView::Send(*id),
            Action::Wait => ActionView::Wait,
            Action::Finish => ActionView::Finish,
        }
    }
}

impl RetryController {
    pub open spec fn view(&self) -> ControllerView {
        ControllerView {
            retries: self.retries as nat,
            attempts: self.attempts as nat,
            first_id: self.first_id,
            current_id: self.current_id,
            phase: self.phase,
            last_code: exit_code_of(self.last),
        }
    }
}

/// The transaction ID of attempt number `n` (from 1), one more than the last.
pub open spec fn attempt_id(first_id: u16, n: nat) -> u16 {
    ((first_id + n - 1) % 65536) as u16
}

/// Whether a phase ends the run.
pub open spec fn is_terminal(p: Phase) -> bool {
    p == Phase::Succeeded || p == Phase::Exhausted || p == Phase::Aborted
}

/// The controller's invariant.
pub open spec fn controller_wf(c: ControllerView) -> bool {
    &&& c.attempts <= c.retries + 1
    &&& c.phase == Phase::Idle <==> c.attempts == 0
    &&& c.phase == Phase::Exhausted ==> c.attempts == c.retries + 1
    &&& c.attempts >= 1 ==> c.current_id == attempt_id(c.first_id, c.attempts)
}

/// The end of the current attempt with outcome `code`: another attempt if the
/// budget allows, else the run ends with that outcome.
pub open spec fn attempt_failed(c: ControllerView, code: int) -> (ControllerView, ActionView) {
    if c.attempts >= c.retries + 1 {
        (ControllerView { phase: Phase::Exhausted, last_code: code, ..c }, ActionView::Finish)
    } else {
        let n = c.attempts + 1;
        (
            ControllerView { attempts: n, current_id: attempt_id(c.first_id, n), last_code: code, ..c },
            ActionView::Send(attempt_id(c.first_id, n)),
        )
    }
}

/// The controller's rules: the state and action after event `e` in state `c`.
pub open spec fn next(c: ControllerView, e: EventView) -> (ControllerView, ActionView) {
    match c.phase {
        Phase::Idle => match e {
            EventView::Start => (
                ControllerView { attempts: 1, current_id: c.first_id, phase: Phase::Attempting, ..c },
                ActionView::Send(c.first_id),
            ),
            _ => (c, ActionView::Wait),
        },
        Phase::Attempting => match e {
            EventView::Start => (c, ActionView::Wait),
            EventView::Datagram(b) => match evaluation_of(b, c.current_id) {
                Evaluation::Succeeded => (
                    ControllerView { phase: Phase::Succeeded, last_code: 0, ..c },
                    ActionView::Finish,
                ),
                Evaluation::FailedNegative(_) => attempt_failed(c, 1),
                Evaluation::Unmatched => (c, ActionView::Wait),
                Evaluation::Malformed => attempt_failed(c, 102),
            },
            EventView::TransportFailed => attempt_failed(c, 102),
            EventView::SetupFailed => (
                ControllerView { phase: Phase::Aborted, last_code: 101, ..c },
                ActionView::Finish,
            ),
        },
        _ => (c, ActionView::Finish),
    }
}

/// The controller's state after the events `evs`, taken in order from `c`.
pub open spec fn run(c: ControllerView, evs: Seq<EventView>) -> ControllerView
    decreases evs.len(),
{
    if evs.len() == 0 {
        c
    } else {
        run(next(c, evs[0]).0, evs.skip(1))
    }
}

/// How many queries the controller asks to send over the events `evs`, from `c`.
pub open spec fn sends(c: ControllerView, evs: Seq<EventView>) -> nat
    decreases evs.len(),
{
    if evs.len() == 0 {
        0
    } else {
        let (c2, a) = next(c, evs[0]);
        (if a is Send { 1nat } else { 0nat }) + sends(c2, evs.skip(1))
    }
}

/// The controller before its first event.
pub open spec fn fresh(retries: nat, first_id: u16) -> ControllerView {
    ControllerView {
        retries,
        attempts: 0,
        first_id,
        current_id: first_id,
        phase: Phase::Idle,
        last_code: -2,
    }
}

/// Each step keeps the invariant, and it asks to send exactly when it starts
/// an attempt.
pub proof fn lemma_next_wf(c: ControllerView, e: EventView)
    requires
        controller_wf(c),
    ensures
        controller_wf(next(c, e).0),
        next(c, e).1 is Send <==> next(c, e).0.attempts == c.attempts + 1,
        !(next(c, e).1 is Send) ==> next(c, e).0.attempts == c.attempts,
        next(c, e).1 matches ActionView::Send(id) ==> id == next(c, e).0.current_id,
{
}

/// Over any events, the number of attempts is the number of queries sent, and
/// never more than `retries + 1`; a run that ends without success has made
/// exactly `retries + 1` attempts.
pub proof fn law_attempt_count(retries: nat, first_id: u16, evs: Seq<EventView>)
    ensures
        sends(fresh(retries, first_id), evs) == run(fresh(retries, first_id), evs).attempts,
        run(fresh(retries, first_id), evs).attempts <= retries + 1,
        run(fresh(retries, first_id), evs).phase == Phase::Exhausted
            ==> run(fresh(retries, first_id), evs).attempts == retries + 1,
{
    lemma_run_counts(fresh(retries, first_id), evs);
}

proof fn lemma_run_counts(c: ControllerView, evs: Seq<EventView>)
    requires
        controller_wf(c),
    ensures
        controller_wf(run(c, evs)),
        run(c, evs).attempts == c.attempts + sends(c, evs),
        run(c, evs).retries == c.retries,
    decreases evs.len(),
{
    if evs.len() > 0 {
        lemma_next_wf(c, evs[0]);
        lemma_run_counts(next(c, evs[0]).0, evs.skip(1));
    }
}

/// Once an attempt has succeeded, no event changes the controller and nothing
/// more is sent.
pub proof fn law_stops_after_success(c: ControllerView, evs: Seq<EventView>)
    requires
        c.phase == Phase::Succeeded,
    ensures
        run(c, evs) == c,
        sends(c, evs) == 0,
    decreases evs.len(),
{
    if evs.len() > 0 {
        law_stops_after_success(c, evs.skip(1));
    }
}

/// A failed attempt that leaves budget is followed at once by a new attempt
/// with a fresh transaction ID.
pub proof fn law_failure_with_budget_retries(c: ControllerView, e: EventView)
    requires
        controller_wf(c),
        c.phase == Phase::Attempting,
        c.attempts < c.retries + 1,
        e is TransportFailed || (e matches EventView::Datagram(b) && !(evaluation_of(b, c.current_id)
            is Succeeded) && !(evaluation_of(b, c.current_id) is Unmatched)),
    ensures
        next(c, e).0.phase == Phase::Attempting,
        next(c, e).0.attempts == c.attempts + 1,
        next(c, e).1 == ActionView::Send(next(c, e).0.current_id),
        next(c, e).0.current_id != c.current_id,
{
}

/// A response to the current query with response code NoError ends the run in
/// success (exit code 0), whatever budget remains.
pub proof fn law_no_error_succeeds(c: ControllerView, b: Seq<u8>)
    requires
        c.phase == Phase::Attempting,
        is_well_formed(b),
        message_id(b) == c.current_id,
        is_response(b),
        response_code(b) == 0,
    ensures
        next(c, EventView::Datagram(b)).0.phase == Phase::Succeeded,
        next(c, EventView::Datagram(b)).0.last_code == 0,
        next(c, EventView::Datagram(b)).1 == ActionView::Finish,
{
}

/// A response to the current query with any other response code, on the last
/// allowed attempt, ends the run with exit code 1.
pub proof fn law_negative_on_last_attempt(c: ControllerView, b: Seq<u8>)
    requires
        controller_wf(c),
        c.phase == Phase::Attempting,
        c.attempts == c.retries + 1,
        is_well_formed(b),
        message_id(b) == c.current_id,
        is_response(b),
        response_code(b) != 0,
    ensures
        next(c, EventView::Datagram(b)).0.phase == Phase::Exhausted,
        next(c, EventView::Datagram(b)).0.last_code == 1,
        next(c, EventView::Datagram(b)).1 == ActionView::Finish,
{
}

/// A datagram whose transaction ID is not the current query's never makes a
/// run succeed: during an attempt a well-formed one is discarded and the wait
/// goes on.
pub proof fn law_unmatched_id_never_succeeds(c: ControllerView, b: Seq<u8>)
    requires
        b.len() >= HEADER_LEN,
        message_id(b) != c.current_id,
    ensures
        next(c, EventView::Datagram(b)).0.phase == Phase::Succeeded ==> c.phase == Phase::Succeeded,
        c.phase == Phase::Attempting && is_well_formed(b) ==> next(c, EventView::Datagram(b)) == (
            c,
            ActionView::Wait,
        ),
{
}

/// Bytes that do not decode as a DNS message, on the last allowed attempt, end
/// the run with exit code 102.
pub proof fn law_malformed_on_last_attempt(c: ControllerView, b: Seq<u8>)
    requires
        controller_wf(c),
        c.phase == Phase::Attempting,
        c.attempts == c.retries + 1,
        !is_well_formed(b),
    ensures
        next(c, EventView::Datagram(b)).0.phase == Phase::Exhausted,
        next(c, EventView::Datagram(b)).0.last_code == 102,
        next(c, EventView::Datagram(b)).1 == ActionView::Finish,
{
}

/// Attempts within one run use distinct transaction IDs.
pub proof fn law_attempt_ids_distinct(first_id: u16, m: nat, n: nat)
    requires
        1 <= m < n <= 65536,
    ensures
        attempt_id(first_id, m) != attempt_id(first_id, n),
{
}

impl RetryController {
    /// A controller that has started no attempt; the first attempt uses `first_id`.
    pub fn new(retries: u16, first_id: u16) -> (r: RetryController)
        ensures
            r@ == fresh(retries as nat, first_id),
            controller_wf(r@),
    {
        RetryController {
            retries,
            attempts: 0,
            first_id,
            current_id: first_id,
            phase: Phase::Idle,
            last: ExitCodes::Unknown,
        }
    }

    fn fail_attempt(&mut self, outcome: ExitCodes) -> (r: Action)
        requires
            controller_wf(old(self)@),
            old(self).phase == Phase::Attempting,
        ensures
            (final(self)@, r@) == attempt_failed(old(self)@, exit_code_of(outcome)),
            final(self).last == outcome,
    {
        self.last = outcome;
        if self.attempts as u64 >= self.retries as u64 + 1 {
            self.phase = Phase::Exhausted;
            Action::Finish
        } else {
            self.attempts = self.attempts + 1;
            self.current_id = self.current_id.wrapping_add(1);
            Action::Send(self.current_id)
        }
    }

    /// Takes one event and says what to do next.
    pub fn step(&mut self, event: Event) -> (r: Action)
        requires
            controller_wf(old(self)@),
        ensures
            (final(self)@, r@) == next(old(self)@, event@),
            controller_wf(final(self)@),
            (event is TransportFailed && old(self).phase == Phase::Attempting) ==> final(self).last
                == ExitCodes::TransportError(event->TransportFailed_0),
            is_terminal(old(self).phase) ==> final(self).last == old(self).last,
    {
        match self.phase {
            Phase::Idle => match event {
                Event::Start => {
                    self.attempts = 1;
                    self.current_id = self.first_id;
                    self.phase = Phase::Attempting;
                    Action::Send(self.first_id)
                },
                _ => Action::Wait,
            },
            Phase::Attempting => match event {
                Event::Start => Action::Wait,
                Event::Datagram(b) => match evaluate_response(b.as_slice(), self.current_id) {
                    Evaluation::Succeeded => {
                        self.phase = Phase::Succeeded;
                        self.last = ExitCodes::NotifySucceeded;
                        Action::Finish
                    },
                    Evaluation::FailedNegative(_) => self.fail_attempt(ExitCodes::NotifyFailed),
                    Evaluation::Unmatched => Action::Wait,
                    Evaluation::Malformed => self.fail_attempt(
                        ExitCodes::TransportError(String::from_str("the response is not a well-formed DNS message")),
                    ),
                },
                Event::TransportFailed(msg) => self.fail_attempt(ExitCodes::TransportError(msg)),
                Event::SetupFailed => {
                    self.phase = Phase::Aborted;
                    self.last = ExitCodes::FailedToCreateEvenLoop;
                    Action::Finish
                },
            },
            _ => Action::Finish,
        }
    }
}

} // verus!
