//! The two messages that travel between coordinator and runner, and their
//! form on the wire.
//!
//! A message is a JSON envelope with a `kind` and a `data` member. The
//! coordinator sends `RunExperiment`, the runner answers with `RunResult`:
//!
//! ```text
//! {"kind":"RunExperiment","data":{"job_id":7,"code":"print(1)"}}
//! {"kind":"RunResult","data":{"job_id":7,"successful":true}}
//! ```
//!
//! A text that is no JSON document, names another kind, or lacks a member of
//! the kind's shape is an invalid message. Members beyond these are ignored.

use vstd::prelude::*;
use vstd::string::*;
use crate::errors::SocketErrorKind;
use crate::json::{
    flag_at,
    integer_at,
    json_document,
    json_quoted,
    parse,
    quote,
    read_flag,
    read_integer,
    read_text,
    text_at,
};

verus! {

/// The order to run `code` as the job `job_id`.
#[derive(Clone, Debug, PartialEq, Eq)]
pub struct RunExperiment {
    pub job_id: i64,
    pub code: String,
}

/// The report that the job `job_id` has ended, and whether it went well.
#[derive(Clone, Copy, Debug, PartialEq, Eq, Structural)]
pub struct RunResult {
    pub job_id: i64,
    pub successful: bool,
}

/// The character of the decimal digit `d`.
pub open spec fn digit_char(d: nat) -> char
    recommends
        d < 10,
{
    if d == 0 {
        '0'
    } else if d == 1 {
        '1'
    } else if d == 2 {
        '2'
    } else if d == 3 {
        '3'
    } else if d == 4 {
        '4'
    } else if d == 5 {
        '5'
    } else if d == 6 {
        '6'
    } else if d == 7 {
        '7'
    } else if d == 8 {
        '8'
    } else {
        '9'
    }
}

/// The decimal digits of `n`, the most significant first, with no leading zero.
pub open spec fn decimal_digits(n: nat) -> Seq<char>
    decreases n,
{
    if n < 10 {
        seq![digit_char(n)]
    } else {
        decimal_digits(n / 10).push(digit_char(n % 10))
    }
}

/// The decimal numeral of `n`, with a minus sign in front where `n` is negative.
pub open spec fn decimal(n: int) -> Seq<char> {
    if n < 0 {
        seq!['-'] + decimal_digits((-n) as nat)
    } else {
        decimal_digits(n as nat)
    }
}

/// The envelope of a `RunExperiment` for the job `job_id`, given the JSON
/// string literal of its code.
pub open spec fn run_experiment_text(job_id: i64, quoted_code: Seq<char>) -> Seq<char> {
    "{\"kind\":\"RunExperiment\",\"data\":{\"job_id\":"@ + decimal(job_id as int)
        + ",\"code\":"@ + quoted_code + "}}"@
}

/// The envelope of a `RunResult`.
pub open spec fn run_result_text(job_id: i64, successful: bool) -> Seq<char> {
    "{\"kind\":\"RunResult\",\"data\":{\"job_id\":"@ + decimal(job_id as int)
        + ",\"successful\":"@ + (if successful {
        "true"@
    } else {
        "false"@
    }) + "}}"@
}

/// The `RunExperiment` that the three members of an envelope make up: the
/// kind must be `RunExperiment`, and the job's number and the code must both
/// be there.
pub open spec fn run_experiment_of(
    kind: Option<Seq<char>>,
    job_id: Option<i64>,
    code: Option<Seq<char>>,
) -> Option<(i64, Seq<char>)> {
    if kind == Some("RunExperiment"@) && job_id is Some && code is Some {
        Some((job_id->0, code->0))
    } else {
        None
    }
}

/// The `RunResult` that the three members of an envelope make up: the kind
/// must be `RunResult`, and the job's number and the outcome must both be
/// there.
pub open spec fn run_result_of(
    kind: Option<Seq<char>>,
    job_id: Option<i64>,
    successful: Option<bool>,
) -> Option<RunResult> {
    if kind == Some("RunResult"@) && job_id is Some && successful is Some {
        Some(RunResult { job_id: job_id->0, successful: successful->0 })
    } else {
        None
    }
}

/// The `RunExperiment` that the text `text` carries, if it carries one.
pub open spec fn run_experiment_in(text: Seq<char>) -> Option<(i64, Seq<char>)> {
    match json_document(text) {
        Some(doc) => run_experiment_of(
            text_at(doc, "/kind"@),
            integer_at(doc, "/data/job_id"@),
            text_at(doc, "/data/code"@),
        ),
        None => None,
    }
}

/// The `RunResult` that the text `text` carries, if it carries one.
pub open spec fn run_result_in(text: Seq<char>) -> Option<RunResult> {
    match json_document(text) {
        Some(doc) => run_result_of(
            text_at(doc, "/kind"@),
            integer_at(doc, "/data/job_id"@),
            flag_at(doc, "/data/successful"@),
        ),
        None => None,
    }
}

fn digit_text(d: u64) -> (text: &'static str)
    requires
        d < 10,
    ensures
        text@ == seq![digit_char(d as nat)],
{
    proof {
        reveal_strlit("0");
        reveal_strlit("1");
        reveal_strlit("2");
        reveal_strlit("3");
        reveal_strlit("4");
        reveal_strlit("5");
        reveal_strlit("6");
        reveal_strlit("7");
        reveal_strlit("8");
        reveal_strlit("9");
    }
    let text = if d == 0 {
        "0"
    } else if d == 1 {
        "1"
    } else if d == 2 {
        "2"
    } else if d == 3 {
        "3"
    } else if d == 4 {
        "4"
    } else if d == 5 {
        "5"
    } else if d == 6 {
        "6"
    } else if d == 7 {
        "7"
    } else if d == 8 {
        "8"
    } else {
        "9"
    };
    assert(text@ =~= seq![digit_char(d as nat)]);
    text
}

fn append_digits(out: &mut String, n: u64)
    ensures
        final(out)@ == old(out)@ + decimal_digits(n as nat),
    decreases n,
{
    if n >= 10 {
        append_digits(out, n / 10);
    }
    out.append(digit_text(n % 10));
    assert(out@ =~= old(out)@ + decimal_digits(n as nat));
}

/// Writes the decimal numeral of `n` at the end of `out`.
pub fn append_decimal(out: &mut String, n: i64)
    ensures
        final(out)@ == old(out)@ + decimal(n as int),
{
    if n < 0 {
        proof {
            reveal_strlit("-");
        }
        out.append("-");
        let magnitude: u64 = (-(n + 1)) as u64 + 1;
        append_digits(out, magnitude);
        assert(out@ =~= old(out)@ + decimal(n as int));
    } else {
        append_digits(out, n as u64);
    }
}

/// The envelope of a `RunExperiment` around a code that is already quoted.
pub fn frame_run_experiment(job_id: i64, quoted_code: &str) -> (text: String)
    ensures
        text@ == run_experiment_text(job_id, quoted_code@),
{
    let mut text = String::from_str("{\"kind\":\"RunExperiment\",\"data\":{\"job_id\":");
    append_decimal(&mut text, job_id);
    text.append(",\"code\":");
    text.append(quoted_code);
    text.append("}}");
    text
}

/// The text that carries `message`. The code is quoted by `serde_json`; the
/// text is refused only where that fails.
pub fn encode_run_experiment(message: &RunExperiment) -> (text: Result<String, SocketErrorKind>)
    ensures
        match json_quoted(message.code@) {
            Some(quoted) => text matches Ok(t) && t@ == run_experiment_text(
                message.job_id,
                quoted,
            ),
            None => text == Err::<String, SocketErrorKind>(SocketErrorKind::InvalidMessage),
        },
{
    match quote(message.code.as_str()) {
        Some(quoted) => Ok(frame_run_experiment(message.job_id, quoted.as_str())),
        None => Err(SocketErrorKind::InvalidMessage),
    }
}

/// The text that carries `message`.
pub fn encode_run_result(message: &RunResult) -> (text: String)
    ensures
        text@ == run_result_text(message.job_id, message.successful),
{
    let mut text = String::from_str("{\"kind\":\"RunResult\",\"data\":{\"job_id\":");
    append_decimal(&mut text, message.job_id);
    text.append(",\"successful\":");
    if message.successful {
        text.append("true");
    } else {
        text.append("false");
    }
    text.append("}}");
    text
}

/// Makes a `RunExperiment` of the members read from an envelope.
pub fn run_experiment_from_members(
    kind: Option<String>,
    job_id: Option<i64>,
    code: Option<String>,
) -> (message: Result<RunExperiment, SocketErrorKind>)
    ensures
        match run_experiment_of(
            match kind {
                Some(k) => Some(k@),
                None => None,
            },
            job_id,
            match code {
                Some(c) => Some(c@),
                None => None,
            },
        ) {
            Some((id, text)) => message matches Ok(m) && m.job_id == id && m.code@ == text,
            None => message == Err::<RunExperiment, SocketErrorKind>(
                SocketErrorKind::InvalidMessage,
            ),
        },
{
    match (kind, job_id, code) {
        (Some(kind), Some(job_id), Some(code)) => {
            if kind == String::from_str("RunExperiment") {
                Ok(RunExperiment { job_id, code })
            } else {
                Err(SocketErrorKind::InvalidMessage)
            }
        },
        _ => Err(SocketErrorKind::InvalidMessage),
    }
}

/// Makes a `RunResult` of the members read from an envelope.
pub fn run_result_from_members(
    kind: Option<String>,
    job_id: Option<i64>,
    successful: Option<bool>,
) -> (message: Result<RunResult, SocketErrorKind>)
    ensures
        message == match run_result_of(
            match kind {
                Some(k) => Some(k@),
                None => None,
            },
            job_id,
            successful,
        ) {
            Some(m) => Ok::<RunResult, SocketErrorKind>(m),
            None => Err(SocketErrorKind::InvalidMessage),
        },
{
    match (kind, job_id, successful) {
        (Some(kind), Some(job_id), Some(successful)) => {
            if kind == String::from_str("RunResult") {
                Ok(RunResult { job_id, successful })
            } else {
                Err(SocketErrorKind::InvalidMessage)
            }
        },
        _ => Err(SocketErrorKind::InvalidMessage),
    }
}

/// Reads a `RunExperiment` from the text of a frame.
pub fn decode_run_experiment(text: &str) -> (message: Result<RunExperiment, SocketErrorKind>)
    ensures
        match run_experiment_in(text@) {
            Some((id, code)) => message matches Ok(m) && m.job_id == id && m.code@ == code,
            None => message == Err::<RunExperiment, SocketErrorKind>(
                SocketErrorKind::InvalidMessage,
            ),
        },
{
    match parse(text) {
        Some(doc) => run_experiment_from_members(
            read_text(&doc, "/kind"),
            read_integer(&doc, "/data/job_id"),
            read_text(&doc, "/data/code"),
        ),
        None => Err(SocketErrorKind::InvalidMessage),
    }
}

/// Reads a `RunResult` from the text of a frame.
pub fn decode_run_result(text: &str) -> (message: Result<RunResult, SocketErrorKind>)
    ensures
        message == match run_result_in(text@) {
            Some(m) => Ok::<RunResult, SocketErrorKind>(m),
            None => Err(SocketErrorKind::InvalidMessage),
        },
{
    match parse(text) {
        Some(doc) => run_result_from_members(
            read_text(&doc, "/kind"),
            read_integer(&doc, "/data/job_id"),
            read_flag(&doc, "/data/successful"),
        ),
        None => Err(SocketErrorKind::InvalidMessage),
    }
}

} // verus!
