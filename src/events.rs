use vstd::prelude::*;

use crate::text::decimal;

verus! {

/// The text that `String::from_utf8_lossy` makes of the bytes.
pub uninterp spec fn utf8_lossy(b: Seq<u8>) -> Seq<char>;

/// Relies on `String::from_utf8_lossy`: the text depends on the bytes alone, and no bytes give
/// no text.
#[verifier::external_body]
pub(crate) fn text_of_bytes(b: &[u8]) -> (r: String)
    ensures
        r@ == utf8_lossy(b@),
        b@.len() == 0 ==> r@.len() == 0,
{
    String::from_utf8_lossy(b).into_owned()
}

/// What a finished command printed, and whether it succeeded.
#[derive(Debug)]
pub struct ProcessOutput {
    pub stdout: Vec<u8>,
    pub stderr: Vec<u8>,
    pub success: bool,
}

/// A spawned process.
#[derive(Debug)]
pub struct ProcessHandle {
    pub pid: u32,
}

/// What a running tunnel process reports.
#[derive(Debug)]
pub enum ProcessEvent {
    /// One line of standard output.
    Stdout(Vec<u8>),
    /// One line of standard error.
    Stderr(Vec<u8>),
    /// Reading the process failed.
    Error(String),
    /// The process exited, with its code when it has one.
    Terminated { code: Option<i32> },
}

/// A line of a tunnel's log.
#[derive(Debug)]
pub struct LogEntry {
    pub line: String,
    pub is_stderr: bool,
}

/// The decimal spelling of a signed number.
pub open spec fn signed_decimal(n: int) -> Seq<char> {
    if n < 0 {
        "-"@ + decimal((-n) as nat)
    } else {
        decimal(n as nat)
    }
}

/// The debug spelling of an optional exit code.
pub open spec fn exit_code_text(code: Option<i32>) -> Seq<char> {
    match code {
        Some(c) => "Some("@ + signed_decimal(c as int) + ")"@,
        None => "None"@,
    }
}

/// The log line of an event, whether it goes to standard error, and whether the event ends the
/// stream.
pub open spec fn log_of(e: ProcessEvent) -> (Seq<char>, bool, bool) {
    match e {
        ProcessEvent::Stdout(b) => (utf8_lossy(b@), false, false),
        ProcessEvent::Stderr(b) => (utf8_lossy(b@), true, false),
        ProcessEvent::Error(m) => (m@, true, false),
        ProcessEvent::Terminated { code } => (
            "Process exited with code "@ + exit_code_text(code),
            true,
            true,
        ),
    }
}

/// The decimal spelling of a signed number, as a string.
pub fn signed_decimal_string(n: i32) -> (r: String)
    ensures
        r@ == signed_decimal(n as int),
{
    if n < 0 {
        let m: u32 = (-(n as i64)) as u32;
        "-".to_string().concat(crate::text::decimal_string(m).as_str())
    } else {
        crate::text::decimal_string(n as u32)
    }
}

/// The log entry of a process event, and whether the event is the last of its stream.
pub fn handle_process_event(event: ProcessEvent) -> (r: (LogEntry, bool))
    ensures
        (r.0.line@, r.0.is_stderr, r.1) == log_of(event),
{
    match event {
        ProcessEvent::Stdout(data) => {
            (LogEntry { line: text_of_bytes(data.as_slice()), is_stderr: false }, false)
        },
        ProcessEvent::Stderr(data) => {
            (LogEntry { line: text_of_bytes(data.as_slice()), is_stderr: true }, false)
        },
        ProcessEvent::Error(e) => (LogEntry { line: e, is_stderr: true }, false),
        ProcessEvent::Terminated { code } => {
            let text = match code {
                Some(c) => "Some(".to_string().concat(signed_decimal_string(c).as_str()).concat(
                    ")",
                ),
                None => "None".to_string(),
            };
            let line = "Process exited with code ".to_string().concat(text.as_str());
            (LogEntry { line, is_stderr: true }, true)
        },
    }
}

} // verus!
