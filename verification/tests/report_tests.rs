use trackerconqueror::report::{
    get_ser_line, parse_report, read_last_line, report_line, string_to_ser, SelfExecRequest,
    SelfExecResult, SelfExecStatus,
};
use trackerconqueror::text::{chars_of, decimal_chars, parse_u32, split_chars};

fn chars(s: &str) -> Vec<char> {
    s.chars().collect()
}

#[test]
fn decimal_has_no_leading_zeros() {
    assert_eq!(decimal_chars(0), chars("0"));
    assert_eq!(decimal_chars(7), chars("7"));
    assert_eq!(decimal_chars(10), chars("10"));
    assert_eq!(decimal_chars(4294967295), chars("4294967295"));
}

#[test]
fn parse_u32_follows_std() {
    for s in ["0", "17", "+17", "007", "4294967295", "", "+", "-1", "4294967296", " 5", "5 ", "1a", "++1", "99999999999"] {
        assert_eq!(parse_u32(&chars(s)), s.parse::<u32>().ok(), "input {:?}", s);
    }
}

#[test]
fn split_keeps_empty_pieces() {
    assert_eq!(split_chars(&chars("a,,b,"), ','), vec![chars("a"), vec![], chars("b"), vec![]]);
    assert_eq!(split_chars(&chars(""), ','), vec![Vec::<char>::new()]);
    assert_eq!(chars_of("héllo"), chars("héllo"));
}

#[test]
fn parse_report_reads_the_three_fields() {
    assert_eq!(
        parse_report("getunit,accepted,17"),
        Some(SelfExecResult { request: SelfExecRequest::GetUnit, status: SelfExecStatus::Accepted, unit: 17 })
    );
    assert_eq!(
        parse_report("complete,denied,0"),
        Some(SelfExecResult { request: SelfExecRequest::Complete, status: SelfExecStatus::Denied, unit: 0 })
    );
    assert_eq!(
        parse_report("complete,accepted,3,whatever"),
        Some(SelfExecResult { request: SelfExecRequest::Complete, status: SelfExecStatus::Accepted, unit: 3 })
    );
}

#[test]
fn parse_report_refuses_malformed_lines() {
    for line in ["", "getunit", "getunit,accepted", "invalid,accepted,1", "getunit,maybe,1", "getunit,accepted,", "getunit,accepted,-1", "GETUNIT,accepted,1", "getunit,accepted,4294967296"] {
        assert_eq!(parse_report(line), None, "line {:?}", line);
    }
}

#[test]
fn string_to_ser_reads_a_report() {
    assert_eq!(
        string_to_ser("getunit,denied,0".to_string()),
        SelfExecResult { request: SelfExecRequest::GetUnit, status: SelfExecStatus::Denied, unit: 0 }
    );
}

#[test]
fn report_line_formats_and_reads_back() {
    assert_eq!(report_line(Some(SelfExecRequest::GetUnit), SelfExecStatus::Accepted, 192), "getunit,accepted,192");
    assert_eq!(report_line(Some(SelfExecRequest::Complete), SelfExecStatus::Denied, 0), "complete,denied,0");
    assert_eq!(report_line(None, SelfExecStatus::Denied, 0), "invalid,denied,0");
    for request in [SelfExecRequest::GetUnit, SelfExecRequest::Complete] {
        for status in [SelfExecStatus::Accepted, SelfExecStatus::Denied] {
            for unit in [0u32, 1, 9, 10, 4294967295] {
                let line = report_line(Some(request), status, unit);
                assert_eq!(parse_report(&line), Some(SelfExecResult { request, status, unit }));
            }
        }
    }
    assert_eq!(parse_report(&report_line(None, SelfExecStatus::Accepted, 5)), None);
}

#[test]
fn last_line_of_output() {
    let out = b"Trying to connect\nConnected\ngetunit,accepted,5".to_vec();
    assert_eq!(get_ser_line(out), "getunit,accepted,5");
    assert_eq!(get_ser_line(b"no break".to_vec()), "no break");
    assert_eq!(get_ser_line(b"ends with break\n".to_vec()), "");
    assert_eq!(get_ser_line(Vec::new()), "");
    assert_eq!(get_ser_line("caf\u{e9}\nd\u{e9}j\u{e0}".as_bytes().to_vec()), "d\u{e9}j\u{e0}");
}

#[test]
fn output_that_is_not_utf8_is_refused() {
    assert_eq!(read_last_line(vec![b'a', 0xff, b'\n', b'b']), None);
    assert_eq!(read_last_line(b"x\ny".to_vec()), Some("y".to_string()));
}

#[test]
fn miner_reads_what_client_printed() {
    let line = report_line(Some(SelfExecRequest::Complete), SelfExecStatus::Accepted, 0);
    let mut out = b"Connected\nServer accepted client request\n".to_vec();
    out.extend_from_slice(line.as_bytes());
    let read = get_ser_line(out);
    assert_eq!(
        string_to_ser(read),
        SelfExecResult { request: SelfExecRequest::Complete, status: SelfExecStatus::Accepted, unit: 0 }
    );
}
