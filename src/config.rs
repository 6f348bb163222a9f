use vstd::prelude::*;
use vstd::string::*;
use crate::exit::{ExitCodes, exit_code_of};
use crate::record_type::{RecordType, record_type_of};

verus! {

/// Whether every byte of `d` is an ASCII decimal digit.
pub open spec fn all_digits(d: Seq<u8>) -> bool {
    forall|i: int| 0 <= i < d.len() ==> 48 <= #[trigger] d[i] <= 57
}

/// The number written by the decimal digits `d`, most significant first.
pub open spec fn digits_value(d: Seq<u8>) -> int
    decreases d.len(),
{
    if d.len() == 0 {
        0
    } else {
        digits_value(d.drop_last()) * 10 + (d.last() - 48)
    }
}

/// The digits of an unsigned number: the text without one optional leading `+`.
pub open spec fn unsigned_digits(s: Seq<u8>) -> Seq<u8> {
    if s.len() > 0 && s[0] == 43 {
        s.skip(1)
    } else {
        s
    }
}

/// The 16-bit unsigned number that the text `s` writes, if it writes one:
/// an optional `+`, then one or more decimal digits, of value at most 65535.
pub open spec fn decimal_u16(s: Seq<u8>) -> Option<u16> {
    let d = unsigned_digits(s);
    if d.len() > 0 && all_digits(d) && digits_value(d) <= 65535 {
        Some(digits_value(d) as u16)
    } else {
        None
    }
}

proof fn lemma_digits_value_nonneg(d: Seq<u8>)
    requires
        all_digits(d),
    ensures
        digits_value(d) >= 0,
    decreases d.len(),
{
    if d.len() > 0 {
        lemma_digits_value_nonneg(d.drop_last());
    }
}

/// Reads a 16-bit unsigned decimal number, as `u16`'s `FromStr` does.
pub fn parse_u16(s: &str) -> (r: Option<u16>)
    ensures
        r == decimal_u16(s.spec_bytes()),
{
    let b = s.as_bytes();
    let start: usize = if b.len() > 0 && b[0] == 43 { 1 } else { 0 };
    let ghost d = unsigned_digits(b@);
    assert(d == b@.skip(start as int));
    if start >= b.len() {
        return None;
    }
    // The value read so far, capped at 65536.
    let mut value: u32 = 0;
    let mut i: usize = start;
    while i < b.len()
        invariant
            start <= i <= b@.len(),
            d == b@.skip(start as int),
            d == unsigned_digits(b@),
            b@ == s.spec_bytes(),
            all_digits(d.take(i - start)),
            value as int == if digits_value(d.take(i - start)) < 65536 {
                digits_value(d.take(i - start))
            } else {
                65536
            },
        decreases b@.len() - i,
    {
        let c = b[i];
        let ghost p = d.take(i - start);
        let ghost q = d.take(i - start + 1);
        assert(q.drop_last() == p);
        assert(q.last() == c);
        if c < 48 || c > 57 {
            assert(d[i - start] == c);
            return None;
        }
        proof {
            lemma_digits_value_nonneg(p);
        }
        let next: u32 = value * 10 + (c - 48) as u32;
        value = if next > 65536 { 65536 } else { next };
        assert(digits_value(q) == digits_value(p) * 10 + (c - 48));
        assert(value as int == if digits_value(q) < 65536 { digits_value(q) } else { 65536 })
            by (nonlinear_arith)
            requires
                value as int == if next > 65536 { 65536 } else { next as int },
                next as int == (if digits_value(p) < 65536 { digits_value(p) } else { 65536 }) * 10 + (c - 48),
                digits_value(q) == digits_value(p) * 10 + (c - 48),
                0 <= c - 48 <= 9,
                digits_value(p) >= 0,
        ;
        i = i + 1;
    }
    assert(d.take(i - start) == d);
    if value <= 65535 {
        Some(value as u16)
    } else {
        None
    }
}

/// The settings of one run, read from the command line and its defaults.
#[derive(Clone, Debug)]
pub struct Config {
    /// Attempts made after the first one, if it fails.
    pub retries: u16,
    /// The secondary name server, as an address or a host name.
    pub secondary: String,
    /// The secondary's port.
    pub port: u16,
    /// The record type of the question.
    pub record_type: RecordType,
    /// The zone to notify about.
    pub domain_name: String,
    /// How long, in seconds, one attempt waits for its response.
    pub timeout_secs: u16,
    /// Whether each step is reported.
    pub verbose: bool,
}

/// The value given on the command line, or the default where none was given.
pub open spec fn given_or<'a>(given: Option<&'a str>, default: &'a str) -> &'a str {
    match given {
        Some(v) => v,
        None => default,
    }
}

/// `'<value>'` followed by `rest`.
pub open spec fn quoted_then(value: Seq<char>, rest: Seq<char>) -> Seq<char> {
    "'"@ + value + rest
}

/// Whether `e` is the input error that reports the value `value` with `reason`.
pub open spec fn is_input_error(e: ExitCodes, value: Seq<char>, reason: Seq<char>) -> bool {
    e is InputError && e->InputError_0@ == quoted_then(value, reason)
}

/// The number of seconds that the text `s` writes, if it is a 16-bit number of
/// at least one.
pub open spec fn timeout_secs_of(s: Seq<u8>) -> Option<u16> {
    match decimal_u16(s) {
        Some(n) => if n >= 1 {
            Some(n)
        } else {
            None
        },
        None => None,
    }
}

/// The error for the first value that cannot be read: retries, then port, then
/// record type, then timeout.
pub open spec fn first_input_error(
    retries: &str,
    port: &str,
    record_type: &str,
    timeout: &str,
    e: ExitCodes,
) -> bool {
    if decimal_u16(retries.spec_bytes()) is None {
        is_input_error(e, retries@, "' is not a valid number of retries."@)
    } else if decimal_u16(port.spec_bytes()) is None {
        is_input_error(e, port@, "' is not a valid port number."@)
    } else if record_type_of(record_type.spec_bytes()) is None {
        is_input_error(e, record_type@, "' is not a valid record type."@)
    } else {
        is_input_error(e, timeout@, "' is not a valid timeout."@)
    }
}

/// Builds the error text `'<value>'<reason>`.
fn quoted(value: &str, reason: &str) -> (r: String)
    ensures
        r@ == quoted_then(value@, reason@),
{
    String::from_str("'").concat(value).concat(reason)
}

/// Reads the command-line values into a `Config`. A value not given takes its
/// default: 0 retries, secondary `127.0.0.1`, port 53, record type SOA, a
/// timeout of 5 seconds.
pub fn parse_parameters(
    retries: Option<&str>,
    secondary: Option<&str>,
    port: Option<&str>,
    record_type: Option<&str>,
    timeout: Option<&str>,
    domain: &str,
    verbose: bool,
) -> (r: Result<Config, ExitCodes>)
    ensures
        r is Ok <==> (decimal_u16(given_or(retries, "0").spec_bytes()) is Some
            && decimal_u16(given_or(port, "53").spec_bytes()) is Some
            && record_type_of(given_or(record_type, "SOA").spec_bytes()) is Some
            && timeout_secs_of(given_or(timeout, "5").spec_bytes()) is Some),
        r matches Ok(c) ==> (
            decimal_u16(given_or(retries, "0").spec_bytes()) == Some(c.retries)
            && decimal_u16(given_or(port, "53").spec_bytes()) == Some(c.port)
            && record_type_of(given_or(record_type, "SOA").spec_bytes()) == Some(c.record_type)
            && timeout_secs_of(given_or(timeout, "5").spec_bytes()) == Some(c.timeout_secs)
            && c.secondary@ == given_or(secondary, "127.0.0.1")@
            && c.domain_name@ == domain@
            && c.verbose == verbose),
        r matches Err(e) ==> first_input_error(
            given_or(retries, "0"),
            given_or(port, "53"),
            given_or(record_type, "SOA"),
            given_or(timeout, "5"),
            e,
        ),
        r matches Err(e) ==> exit_code_of(e) == -1,
{
    let retries_text = match retries {
        Some(v) => v,
        None => "0",
    };
    let port_text = match port {
        Some(v) => v,
        None => "53",
    };
    let type_text = match record_type {
        Some(v) => v,
        None => "SOA",
    };
    let timeout_text = match timeout {
        Some(v) => v,
        None => "5",
    };
    let secondary_text = match secondary {
        Some(v) => v,
        None => "127.0.0.1",
    };
    let retries = match parse_u16(retries_text) {
        Some(n) => n,
        None => {
            return Err(ExitCodes::InputError(quoted(retries_text, "' is not a valid number of retries.")));
        },
    };
    let port = match parse_u16(port_text) {
        Some(n) => n,
        None => {
            return Err(ExitCodes::InputError(quoted(port_text, "' is not a valid port number.")));
        },
    };
    let record_type = match RecordType::from_name(type_text) {
        Some(t) => t,
        None => {
            return Err(ExitCodes::InputError(quoted(type_text, "' is not a valid record type.")));
        },
    };
    let timeout_secs = match parse_u16(timeout_text) {
        Some(n) if n >= 1 => n,
        _ => {
            return Err(ExitCodes::InputError(quoted(timeout_text, "' is not a valid timeout.")));
        },
    };
    Ok(Config {
        retries,
        secondary: String::from_str(secondary_text),
        port,
        record_type,
        domain_name: String::from_str(domain),
        timeout_secs,
        verbose,
    })
}

} // verus!
