//! The one-line status report that a client prints when it finishes
//! (`request,status,unit`, e.g. `getunit,accepted,17`) and that a miner reads
//! back from the client's output.

use vstd::prelude::*;
use crate::text::{
    all_digits, lemma_decimal, lemma_parse_decimal, lemma_split_concat, lemma_split_without_sep,
    chars_of, decimal, decimal_chars, lemma_split_nonempty, parse_u32, parse_u32_spec, split_chars,
    split_on, string_from_chars, string_from_utf8,
};

verus! {

/// Which request a client was run for.
#[derive(Debug, Clone, Copy, PartialEq, Eq, Structural)]
pub enum SelfExecRequest {
    GetUnit,
    Complete,
}

/// What the server answered to the request.
#[derive(Debug, Clone, Copy, PartialEq, Eq, Structural)]
pub enum SelfExecStatus {
    Accepted,
    Denied,
}

/// A parsed status report: the request, the server's answer and the unit
/// that was handed out (0 when none was).
#[derive(Debug, Clone, Copy, PartialEq, Eq, Structural)]
pub struct SelfExecResult {
    pub request: SelfExecRequest,
    pub status: SelfExecStatus,
    pub unit: u32,
}

/// The word that names a request in a report.
pub open spec fn request_word(request: SelfExecRequest) -> Seq<char> {
    match request {
        SelfExecRequest::GetUnit => seq!['g', 'e', 't', 'u', 'n', 'i', 't'],
        SelfExecRequest::Complete => seq!['c', 'o', 'm', 'p', 'l', 'e', 't', 'e'],
    }
}

/// The word a client reports when it was run for no request it knows.
pub open spec fn invalid_request_word() -> Seq<char> {
    seq!['i', 'n', 'v', 'a', 'l', 'i', 'd']
}

/// The word that names a server answer in a report.
pub open spec fn status_word(status: SelfExecStatus) -> Seq<char> {
    match status {
        SelfExecStatus::Accepted => seq!['a', 'c', 'c', 'e', 'p', 't', 'e', 'd'],
        SelfExecStatus::Denied => seq!['d', 'e', 'n', 'i', 'e', 'd'],
    }
}

/// The request a report word names, if any.
pub open spec fn request_named(word: Seq<char>) -> Option<SelfExecRequest> {
    if word == request_word(SelfExecRequest::GetUnit) {
        Some(SelfExecRequest::GetUnit)
    } else if word == request_word(SelfExecRequest::Complete) {
        Some(SelfExecRequest::Complete)
    } else {
        None
    }
}

/// The answer a report word names, if any.
pub open spec fn status_named(word: Seq<char>) -> Option<SelfExecStatus> {
    if word == status_word(SelfExecStatus::Accepted) {
        Some(SelfExecStatus::Accepted)
    } else if word == status_word(SelfExecStatus::Denied) {
        Some(SelfExecStatus::Denied)
    } else {
        None
    }
}

/// The report line for a request word, an answer and a unit.
pub open spec fn report_line_spec(request: Seq<char>, status: SelfExecStatus, unit: u32) -> Seq<char> {
    request + seq![','] + status_word(status) + seq![','] + decimal(unit as nat)
}

/// How a report line reads: the first comma-separated field names the
/// request, the second the answer, the third is the unit as a `u32`; fields
/// after the third are ignored. `None` when any of the three is missing or
/// not understood.
pub open spec fn parse_report_spec(line: Seq<char>) -> Option<SelfExecResult> {
    let fields = split_on(line, ',');
    if fields.len() >= 3 && request_named(fields[0]) is Some && status_named(fields[1]) is Some
        && parse_u32_spec(fields[2]) is Some {
        Some(
            SelfExecResult {
                request: request_named(fields[0])->0,
                status: status_named(fields[1])->0,
                unit: parse_u32_spec(fields[2])->0,
            },
        )
    } else {
        None
    }
}

fn same_chars(a: &Vec<char>, b: &Vec<char>) -> (r: bool)
    ensures
        r == (a@ == b@),
{
    if a.len() != b.len() {
        return false;
    }
    let n = a.len();
    for i in 0..n
        invariant
            n == a@.len(),
            n == b@.len(),
            forall|j: int| 0 <= j < i ==> a@[j] == b@[j],
    {
        if a[i] != b[i] {
            return false;
        }
    }
    assert(a@ =~= b@);
    true
}

fn request_word_chars(request: SelfExecRequest) -> (v: Vec<char>)
    ensures
        v@ == request_word(request),
{
    match request {
        SelfExecRequest::GetUnit => {
            let v = vec!['g', 'e', 't', 'u', 'n', 'i', 't'];
            assert(v@ =~= request_word(request));
            v
        },
        SelfExecRequest::Complete => {
            let v = vec!['c', 'o', 'm', 'p', 'l', 'e', 't', 'e'];
            assert(v@ =~= request_word(request));
            v
        },
    }
}

fn invalid_request_chars() -> (v: Vec<char>)
    ensures
        v@ == invalid_request_word(),
{
    let v = vec!['i', 'n', 'v', 'a', 'l', 'i', 'd'];
    assert(v@ =~= invalid_request_word());
    v
}

fn status_word_chars(status: SelfExecStatus) -> (v: Vec<char>)
    ensures
        v@ == status_word(status),
{
    match status {
        SelfExecStatus::Accepted => {
            let v = vec!['a', 'c', 'c', 'e', 'p', 't', 'e', 'd'];
            assert(v@ =~= status_word(status));
            v
        },
        SelfExecStatus::Denied => {
            let v = vec!['d', 'e', 'n', 'i', 'e', 'd'];
            assert(v@ =~= status_word(status));
            v
        },
    }
}

fn request_of_word(word: &Vec<char>) -> (r: Option<SelfExecRequest>)
    ensures
        r == request_named(word@),
{
    if same_chars(word, &request_word_chars(SelfExecRequest::GetUnit)) {
        Some(SelfExecRequest::GetUnit)
    } else if same_chars(word, &request_word_chars(SelfExecRequest::Complete)) {
        Some(SelfExecRequest::Complete)
    } else {
        None
    }
}

fn status_of_word(word: &Vec<char>) -> (r: Option<SelfExecStatus>)
    ensures
        r == status_named(word@),
{
    if same_chars(word, &status_word_chars(SelfExecStatus::Accepted)) {
        Some(SelfExecStatus::Accepted)
    } else if same_chars(word, &status_word_chars(SelfExecStatus::Denied)) {
        Some(SelfExecStatus::Denied)
    } else {
        None
    }
}

/// Reads a report line; `None` when it is not one.
pub fn parse_report(line: &str) -> (r: Option<SelfExecResult>)
    ensures
        r == parse_report_spec(line@),
{
    let chars = chars_of(line);
    let fields = split_chars(&chars, ',');
    let ghost spec_fields = split_on(line@, ',');
    assert(fields@.len() == spec_fields.len());
    if fields.len() < 3 {
        return None;
    }
    assert(fields@[0]@ == spec_fields[0]);
    assert(fields@[1]@ == spec_fields[1]);
    assert(fields@[2]@ == spec_fields[2]);
    let request = request_of_word(&fields[0]);
    let status = status_of_word(&fields[1]);
    let unit = parse_u32(&fields[2]);
    match (request, status, unit) {
        (Some(request), Some(status), Some(unit)) => Some(SelfExecResult { request, status, unit }),
        _ => None,
    }
}

/// Reads a report line that is known to be well formed (a malformed one is
/// refused by `parse_report`).
pub fn string_to_ser(string: String) -> (r: SelfExecResult)
    requires
        parse_report_spec(string@) is Some,
    ensures
        parse_report_spec(string@) == Some(r),
{
    parse_report(string.as_str()).unwrap()
}

/// The report line for `request` (`None`: a request the client does not know),
/// the server's answer and the unit handed out.
pub fn report_line(request: Option<SelfExecRequest>, status: SelfExecStatus, unit: u32) -> (line: String)
    ensures
        line@ == report_line_spec(
            match request {
                Some(r) => request_word(r),
                None => invalid_request_word(),
            },
            status,
            unit,
        ),
{
    let mut chars = match request {
        Some(r) => request_word_chars(r),
        None => invalid_request_chars(),
    };
    chars.push(',');
    let mut status_chars = status_word_chars(status);
    chars.append(&mut status_chars);
    chars.push(',');
    let mut digits = decimal_chars(unit);
    chars.append(&mut digits);
    string_from_chars(&chars)
}

/// The text after the last line break of `text` (all of it when there is none).
pub open spec fn last_line_spec(text: Seq<char>) -> Seq<char> {
    split_on(text, '\n').last()
}

/// The last line of a child's output, or `None` when the output is not UTF-8.
pub fn read_last_line(stdout: Vec<u8>) -> (line: Option<String>)
    ensures
        line is Some <==> vstd::utf8::valid_utf8(stdout@),
        line matches Some(l) ==> l@ == last_line_spec(vstd::utf8::decode_utf8(stdout@)),
{
    match string_from_utf8(stdout) {
        None => None,
        Some(text) => {
            let chars = chars_of(text.as_str());
            let mut lines = split_chars(&chars, '\n');
            proof {
                lemma_split_nonempty(chars@, '\n');
            }
            let last = lines.pop().unwrap();
            Some(string_from_chars(&last))
        },
    }
}

/// The last line of a child's output, which must be UTF-8.
pub fn get_ser_line(stdout: Vec<u8>) -> (line: String)
    requires
        vstd::utf8::valid_utf8(stdout@),
    ensures
        line@ == last_line_spec(vstd::utf8::decode_utf8(stdout@)),
{
    read_last_line(stdout).unwrap()
}


proof fn lemma_no_comma_in_decimal(n: u32)
    ensures
        !decimal(n as nat).contains(','),
{
    lemma_decimal(n as nat);
    let d = decimal(n as nat);
    if d.contains(',') {
        let i = choose|i: int| 0 <= i < d.len() && d[i] == ',';
        assert(all_digits(d));
        assert(crate::text::is_digit(d[i]));
    }
}

proof fn lemma_words_without_comma(request: SelfExecRequest, status: SelfExecStatus)
    ensures
        !request_word(request).contains(','),
        !status_word(status).contains(','),
        request_named(request_word(request)) == Some(request),
        status_named(status_word(status)) == Some(status),
{
    let r = request_word(request);
    let s = status_word(status);
    if r.contains(',') {
        let i = choose|i: int| 0 <= i < r.len() && r[i] == ',';
        assert(false);
    }
    if s.contains(',') {
        let i = choose|i: int| 0 <= i < s.len() && s[i] == ',';
        assert(false);
    }
    assert(request_word(SelfExecRequest::GetUnit).len() != request_word(SelfExecRequest::Complete).len());
    assert(status_word(SelfExecStatus::Accepted).len() != status_word(SelfExecStatus::Denied).len());
}

/// Reading back the report line written for a request, an answer and a unit
/// gives exactly that request, answer and unit.
pub proof fn report_line_round_trip(report: SelfExecResult)
    ensures
        parse_report_spec(report_line_spec(request_word(report.request), report.status, report.unit))
            == Some(report),
{
    let r = request_word(report.request);
    let s = status_word(report.status);
    let d = decimal(report.unit as nat);
    lemma_words_without_comma(report.request, report.status);
    lemma_no_comma_in_decimal(report.unit);
    lemma_parse_decimal(report.unit);
    let line = report_line_spec(r, report.status, report.unit);
    assert(line =~= r.push(',') + (s.push(',') + d));
    lemma_split_concat(r, s.push(',') + d, ',');
    lemma_split_concat(s, d, ',');
    lemma_split_without_sep(r, ',');
    lemma_split_without_sep(s, ',');
    lemma_split_without_sep(d, ',');
    assert(split_on(line, ',') =~= seq![r, s, d]);
}

/// Fields after the third do not change how a report reads; a line with
/// fewer than three fields does not read as a report.
pub proof fn report_reads_first_three_fields(a: Seq<char>, b: Seq<char>, c: Seq<char>, rest: Seq<char>)
    requires
        !a.contains(','),
        !b.contains(','),
        !c.contains(','),
    ensures
        parse_report_spec(a.push(',') + b.push(',') + c.push(',') + rest) == parse_report_spec(
            a.push(',') + b.push(',') + c,
        ),
        parse_report_spec(a) is None,
        parse_report_spec(a.push(',') + b) is None,
{
    lemma_split_without_sep(a, ',');
    lemma_split_without_sep(b, ',');
    lemma_split_without_sep(c, ',');
    let long = a.push(',') + b.push(',') + c.push(',') + rest;
    let short = a.push(',') + b.push(',') + c;
    assert(long =~= a.push(',') + (b.push(',') + (c.push(',') + rest)));
    assert(short =~= a.push(',') + (b.push(',') + c));
    lemma_split_concat(c, rest, ',');
    lemma_split_concat(b, c.push(',') + rest, ',');
    lemma_split_concat(a, b.push(',') + (c.push(',') + rest), ',');
    lemma_split_concat(b, c, ',');
    lemma_split_concat(a, b.push(',') + c, ',');
    lemma_split_concat(a, b, ',');
    crate::text::lemma_split_nonempty(rest, ',');
    assert(split_on(long, ',')[0] == a);
    assert(split_on(long, ',')[1] == b);
    assert(split_on(long, ',')[2] == c);
    assert(split_on(short, ',') =~= seq![a, b, c]);
    assert(split_on(a.push(',') + b, ',') =~= seq![a, b]);
}

/// Whatever a child printed before, the last line of its output is the line
/// it printed last, after its final line break.
pub proof fn last_line_after_break(earlier: Seq<char>, line: Seq<char>)
    requires
        !line.contains('\n'),
    ensures
        last_line_spec(earlier.push('\n') + line) == line,
{
    lemma_split_concat(earlier, line, '\n');
    lemma_split_without_sep(line, '\n');
}

/// A miner that reads the last line of a client's output gets back the
/// report the client printed last, whatever the client printed before it.
pub proof fn miner_reads_client_report(earlier: Seq<char>, report: SelfExecResult)
    ensures
        parse_report_spec(
            last_line_spec(
                earlier.push('\n') + report_line_spec(request_word(report.request), report.status, report.unit),
            ),
        ) == Some(report),
{
    let line = report_line_spec(request_word(report.request), report.status, report.unit);
    lemma_words_without_comma(report.request, report.status);
    lemma_decimal(report.unit as nat);
    assert(!line.contains('\n')) by {
        if line.contains('\n') {
            let i = choose|i: int| 0 <= i < line.len() && line[i] == '\n';
            let r = request_word(report.request);
            let s = status_word(report.status);
            let d = decimal(report.unit as nat);
            if i >= r.len() + s.len() + 2 {
                assert(line[i] == d[i - r.len() - s.len() - 2]);
                assert(crate::text::is_digit(d[i - r.len() - s.len() - 2]));
            }
        }
    }
    last_line_after_break(earlier, line);
    report_line_round_trip(report);
}

} // verus!
