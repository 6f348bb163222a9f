use axfrnotify::{
    build_notify_query, encode_name, evaluate_response, parse_parameters, parse_u16, split_labels,
    Action, Evaluation, Event, ExitCodes, Phase, RecordType, RetryController,
};

fn response(id: u16, rcode: u8) -> Vec<u8> {
    let mut r = vec![(id >> 8) as u8, (id & 0xff) as u8, 0xa4, rcode, 0, 1, 0, 0, 0, 0, 0, 0];
    r.extend_from_slice(b"\x07example\x03com\x00");
    r.extend_from_slice(&[0, 6, 0, 1]);
    r
}

#[test]
fn parse_u16_reads_decimal_numbers() {
    assert_eq!(parse_u16("53"), Some(53));
    assert_eq!(parse_u16("0"), Some(0));
    assert_eq!(parse_u16("+7"), Some(7));
    assert_eq!(parse_u16("65535"), Some(65535));
    assert_eq!(parse_u16("007"), Some(7));
}

#[test]
fn parse_u16_rejects_what_is_not_a_u16() {
    assert_eq!(parse_u16("65536"), None);
    assert_eq!(parse_u16("99999999999"), None);
    assert_eq!(parse_u16("abc"), None);
    assert_eq!(parse_u16(""), None);
    assert_eq!(parse_u16("+"), None);
    assert_eq!(parse_u16("-1"), None);
    assert_eq!(parse_u16("5 "), None);
}

#[test]
fn record_type_names() {
    assert_eq!(RecordType::from_name("SOA"), Some(RecordType::SOA));
    assert_eq!(RecordType::from_name("AAAA"), Some(RecordType::AAAA));
    assert_eq!(RecordType::from_name("AXFR"), Some(RecordType::AXFR));
    assert_eq!(RecordType::from_name("CNAME"), Some(RecordType::CNAME));
    assert_eq!(RecordType::from_name("soa"), None);
    assert_eq!(RecordType::from_name("CHAME"), None);
    assert_eq!(RecordType::from_name(""), None);
    assert_eq!(RecordType::SOA.code(), 6);
    assert_eq!(RecordType::AAAA.code(), 28);
    assert_eq!(RecordType::ANY.code(), 255);
}

#[test]
fn parameters_take_defaults() {
    let c = parse_parameters(None, None, None, None, None, "example.com", false).unwrap();
    assert_eq!(c.retries, 0);
    assert_eq!(c.port, 53);
    assert_eq!(c.record_type, RecordType::SOA);
    assert_eq!(c.secondary, "127.0.0.1");
    assert_eq!(c.domain_name, "example.com");
    assert_eq!(c.timeout_secs, 5);
    assert!(!c.verbose);
}

#[test]
fn parameters_take_given_values() {
    let c = parse_parameters(Some("2"), Some("ns2.example.net"), Some("5353"), Some("NS"), None, "example.org", true)
        .unwrap();
    assert_eq!(c.retries, 2);
    assert_eq!(c.port, 5353);
    assert_eq!(c.record_type, RecordType::NS);
    assert_eq!(c.secondary, "ns2.example.net");
    assert_eq!(c.domain_name, "example.org");
    assert!(c.verbose);
}

#[test]
fn invalid_port_is_input_error() {
    let e = parse_parameters(None, None, Some("abc"), None, None, "example.com", false).unwrap_err();
    assert_eq!(e, ExitCodes::InputError("'abc' is not a valid port number.".to_string()));
    assert_eq!(e.exit_code(), -1);
    assert_eq!(i32::from(e), -1);
}

#[test]
fn invalid_retries_and_type_are_input_errors() {
    let e = parse_parameters(Some("x"), None, Some("abc"), None, None, "example.com", false).unwrap_err();
    assert_eq!(e, ExitCodes::InputError("'x' is not a valid number of retries.".to_string()));
    let e = parse_parameters(None, None, None, Some("CHAME"), None, "example.com", false).unwrap_err();
    assert_eq!(e, ExitCodes::InputError("'CHAME' is not a valid record type.".to_string()));
    assert_eq!(e.message(), "Failed to parse input because 'CHAME' is not a valid record type.");
}

#[test]
fn exit_codes_map_to_shell_codes() {
    assert_eq!(i32::from(ExitCodes::Unknown), -2);
    assert_eq!(i32::from(ExitCodes::InputError(String::new())), -1);
    assert_eq!(i32::from(ExitCodes::NotifySucceeded), 0);
    assert_eq!(i32::from(ExitCodes::NotifyFailed), 1);
    assert_eq!(i32::from(ExitCodes::FailedToCreateEvenLoop), 101);
    assert_eq!(i32::from(ExitCodes::TransportError(String::new())), 102);
}

#[test]
fn outcome_messages() {
    assert_eq!(
        ExitCodes::NotifySucceeded.message(),
        "Successfully sent notification and received positive response."
    );
    assert_eq!(
        ExitCodes::TransportError("timed out".to_string()).message(),
        "Failed to send query or receive response because timed out."
    );
}

#[test]
fn labels_split_on_dots() {
    assert_eq!(split_labels("example.com"), vec![b"example".to_vec(), b"com".to_vec()]);
    assert_eq!(split_labels("example.com."), vec![b"example".to_vec(), b"com".to_vec(), vec![]]);
    assert_eq!(split_labels(""), vec![Vec::<u8>::new()]);
    assert_eq!(split_labels("a..b"), vec![b"a".to_vec(), vec![], b"b".to_vec()]);
}

#[test]
fn name_wire_form() {
    let w = encode_name(&split_labels("example.com")).unwrap();
    assert_eq!(w, b"\x07example\x03com\x00".to_vec());
    let w = encode_name(&split_labels("example.com.")).unwrap();
    assert_eq!(w, b"\x07example\x03com\x00".to_vec());
    assert_eq!(encode_name(&split_labels("")).unwrap(), vec![0]);
    let long = "a".repeat(64);
    let w = encode_name(&split_labels(&long)).unwrap();
    assert_eq!(w.len(), 66);
    assert_eq!(w[0], 64);
    let max_label = "a".repeat(255);
    assert_eq!(encode_name(&split_labels(&max_label)).unwrap()[0], 255);
    assert_eq!(encode_name(&split_labels(&"a".repeat(256))), None);
    let many = vec!["abcdefghi"; 26].join(".");
    assert_eq!(encode_name(&split_labels(&many)).unwrap().len(), 261);
}

#[test]
fn notify_query_bytes() {
    let q = build_notify_query(0x1234, "example.com", RecordType::SOA).unwrap();
    let mut want = vec![0x12, 0x34, 0x24, 0, 0, 1, 0, 0, 0, 0, 0, 0];
    want.extend_from_slice(b"\x07example\x03com\x00");
    want.extend_from_slice(&[0, 6, 0, 1]);
    assert_eq!(q, want);
    let q = build_notify_query(7, "a", RecordType::AXFR).unwrap();
    assert_eq!(q, vec![0, 7, 0x24, 0, 0, 1, 0, 0, 0, 0, 0, 0, 1, b'a', 0, 0, 252, 0, 1]);
    let q = build_notify_query(1, &"x".repeat(70), RecordType::SOA).unwrap();
    assert_eq!(q.len(), 12 + 72 + 4);
    assert_eq!(q[12], 70);
    assert_eq!(build_notify_query(1, &"x".repeat(256), RecordType::SOA), None);
}

#[test]
fn responses_are_judged() {
    assert_eq!(evaluate_response(&response(9, 0), 9), Evaluation::Succeeded);
    assert_eq!(evaluate_response(&response(9, 5), 9), Evaluation::FailedNegative(5));
    assert_eq!(evaluate_response(&response(9, 0x82), 9), Evaluation::FailedNegative(2));
    assert_eq!(evaluate_response(&response(8, 0), 9), Evaluation::Unmatched);
    let mut query = response(9, 0);
    query[2] = 0x24;
    assert_eq!(evaluate_response(&query, 9), Evaluation::Unmatched);
    assert_eq!(evaluate_response(&[0, 9, 0x80], 9), Evaluation::Malformed);
    assert_eq!(evaluate_response(&[], 9), Evaluation::Malformed);
}

#[test]
fn retries_then_success_on_third_attempt() {
    let c = parse_parameters(Some("2"), None, None, None, None, "example.com", false).unwrap();
    assert_eq!(c.record_type, RecordType::SOA);
    let mut ctl = RetryController::new(c.retries, 100);
    let mut sent = vec![];
    let mut action = ctl.step(Event::Start);
    for _ in 0..2 {
        match action {
            Action::Send(id) => sent.push(id),
            _ => panic!("expected a send"),
        }
        action = ctl.step(Event::TransportFailed("timed out".to_string()));
    }
    match action {
        Action::Send(id) => sent.push(id),
        _ => panic!("expected a send"),
    }
    let action = ctl.step(Event::Datagram(response(ctl.current_id, 0)));
    assert_eq!(action, Action::Finish);
    assert_eq!(sent, vec![100, 101, 102]);
    assert_eq!(ctl.attempts, 3);
    assert_eq!(ctl.phase, Phase::Succeeded);
    assert_eq!(ctl.last.exit_code(), 0);
}

#[test]
fn refused_without_retries_fails() {
    let mut ctl = RetryController::new(0, 1);
    assert_eq!(ctl.step(Event::Start), Action::Send(1));
    assert_eq!(ctl.step(Event::Datagram(response(1, 5))), Action::Finish);
    assert_eq!(ctl.attempts, 1);
    assert_eq!(ctl.phase, Phase::Exhausted);
    assert_eq!(ctl.last, ExitCodes::NotifyFailed);
    assert_eq!(ctl.last.exit_code(), 1);
}

#[test]
fn success_stops_with_budget_left() {
    let mut ctl = RetryController::new(5, 40);
    ctl.step(Event::Start);
    assert_eq!(ctl.step(Event::Datagram(response(40, 0))), Action::Finish);
    assert_eq!(ctl.attempts, 1);
    assert_eq!(ctl.step(Event::TransportFailed("late".to_string())), Action::Finish);
    assert_eq!(ctl.attempts, 1);
    assert_eq!(ctl.last, ExitCodes::NotifySucceeded);
}

#[test]
fn every_attempt_is_made_when_all_fail() {
    let mut ctl = RetryController::new(3, 65534);
    let mut sends = 0;
    let mut action = ctl.step(Event::Start);
    let mut ids = vec![];
    while let Action::Send(id) = action {
        sends += 1;
        ids.push(id);
        action = ctl.step(Event::Datagram(response(id, 2)));
    }
    assert_eq!(sends, 4);
    assert_eq!(ids, vec![65534, 65535, 0, 1]);
    assert_eq!(ctl.phase, Phase::Exhausted);
    assert_eq!(ctl.last.exit_code(), 1);
}

#[test]
fn unmatched_id_is_not_success() {
    let mut ctl = RetryController::new(0, 10);
    ctl.step(Event::Start);
    assert_eq!(ctl.step(Event::Datagram(response(11, 0))), Action::Wait);
    assert_eq!(ctl.phase, Phase::Attempting);
    assert_eq!(ctl.attempts, 1);
    assert_eq!(ctl.step(Event::Datagram(response(10, 0))), Action::Finish);
    assert_eq!(ctl.phase, Phase::Succeeded);
}

#[test]
fn malformed_response_on_last_attempt_is_transport_error() {
    let mut ctl = RetryController::new(1, 3);
    ctl.step(Event::Start);
    assert_eq!(ctl.step(Event::Datagram(vec![1, 2, 3])), Action::Send(4));
    assert_eq!(ctl.step(Event::Datagram(vec![0, 4])), Action::Finish);
    assert_eq!(ctl.last.exit_code(), 102);
    assert_eq!(
        ctl.last,
        ExitCodes::TransportError("the response is not a well-formed DNS message".to_string())
    );
}

#[test]
fn transport_failure_text_is_kept() {
    let mut ctl = RetryController::new(0, 3);
    ctl.step(Event::Start);
    assert_eq!(ctl.step(Event::TransportFailed("connection refused".to_string())), Action::Finish);
    assert_eq!(ctl.last, ExitCodes::TransportError("connection refused".to_string()));
}

#[test]
fn setup_failure_aborts_without_retrying() {
    let mut ctl = RetryController::new(4, 3);
    ctl.step(Event::Start);
    assert_eq!(ctl.step(Event::SetupFailed), Action::Finish);
    assert_eq!(ctl.phase, Phase::Aborted);
    assert_eq!(ctl.attempts, 1);
    assert_eq!(ctl.last.exit_code(), 101);
}

#[test]
fn timeout_is_read() {
    let c = parse_parameters(None, None, None, None, Some("12"), "example.com", false).unwrap();
    assert_eq!(c.timeout_secs, 12);
    let e = parse_parameters(None, None, None, None, Some("0"), "example.com", false).unwrap_err();
    assert_eq!(e, ExitCodes::InputError("'0' is not a valid timeout.".to_string()));
    let e = parse_parameters(None, None, None, None, Some("soon"), "example.com", false).unwrap_err();
    assert_eq!(e, ExitCodes::InputError("'soon' is not a valid timeout.".to_string()));
}

#[test]
fn announced_sections_must_be_present() {
    let header_only = vec![0, 9, 0x80, 0, 0, 1, 0, 0, 0, 0, 0, 0];
    assert_eq!(evaluate_response(&header_only, 9), Evaluation::Malformed);
    let mut no_class = response(9, 0);
    no_class.truncate(no_class.len() - 2);
    assert_eq!(evaluate_response(&no_class, 9), Evaluation::Malformed);
    let mut bad_label = response(9, 0);
    bad_label[12] = 0x47;
    assert_eq!(evaluate_response(&bad_label, 9), Evaluation::Malformed);
    let no_counts = vec![0, 9, 0x80, 0, 0, 0, 0, 0, 0, 0, 0, 0];
    assert_eq!(evaluate_response(&no_counts, 9), Evaluation::Succeeded);
}

#[test]
fn records_with_compressed_names() {
    let mut r = response(9, 0);
    r[7] = 1;
    // An answer whose name points back at the question's name, with 4 bytes of data.
    r.extend_from_slice(&[0xc0, 12, 0, 1, 0, 1, 0, 0, 0x0e, 0x10, 0, 4, 192, 0, 2, 1]);
    assert_eq!(evaluate_response(&r, 9), Evaluation::Succeeded);
    let mut short = r.clone();
    short.pop();
    assert_eq!(evaluate_response(&short, 9), Evaluation::Malformed);
    let mut forward = r.clone();
    forward[29] = 200;
    assert_eq!(evaluate_response(&forward, 9), Evaluation::Malformed);
}

#[test]
fn truncated_response_on_last_attempt_is_transport_error() {
    let mut ctl = RetryController::new(0, 9);
    ctl.step(Event::Start);
    let header_only = vec![0, 9, 0x80, 0, 0, 1, 0, 0, 0, 0, 0, 0];
    assert_eq!(ctl.step(Event::Datagram(header_only)), Action::Finish);
    assert_eq!(ctl.last.exit_code(), 102);
}
