//! The external program of a backend: how it is started, and how what it
//! left behind is read.
//!
//! The host starts the program and waits for it; this module says what to
//! start and turns the captured streams into the result of the run.

use crate::error::{verdict_of, FailureKind, SniprunError, Verdict};
use vstd::prelude::*;
use vstd::utf8::{decode_utf8, encode_utf8, valid_utf8};

verus! {

/// An external program and its arguments, each a token of its own: nothing is
/// ever joined into a shell line. The host passes `args` in order and the
/// artifact's path after them.
#[derive(Debug, PartialEq, Eq)]
pub struct Invocation {
    pub program: String,
    pub args: Vec<String>,
    pub artifact_path: String,
}

/// The mathematical content of an [`Invocation`].
pub struct InvocationView {
    pub program: Seq<char>,
    pub args: Seq<Seq<char>>,
    pub artifact_path: Seq<char>,
}

impl View for Invocation {
    type V = InvocationView;

    open spec fn view(&self) -> InvocationView {
        InvocationView {
            program: self.program@,
            args: self.args@.map_values(|arg: String| arg@),
            artifact_path: self.artifact_path@,
        }
    }
}

/// What the host saw of a program that ran to its end: whether it reported
/// success, and everything it wrote to its two streams.
#[derive(Debug, PartialEq, Eq)]
pub struct ProcessReport {
    pub success: bool,
    pub stdout: Vec<u8>,
    pub stderr: Vec<u8>,
}

/// The mathematical content of a [`ProcessReport`].
pub struct Report {
    pub success: bool,
    pub stdout: Seq<u8>,
    pub stderr: Seq<u8>,
}

impl View for ProcessReport {
    type V = Report;

    open spec fn view(&self) -> Report {
        Report { success: self.success, stdout: self.stdout@, stderr: self.stderr@ }
    }
}

/// The message with which `String::from_utf8` rejects `bytes`.
pub uninterp spec fn utf8_error_text(bytes: Seq<u8>) -> Seq<char>;

/// The text that `bytes` encode, or the message that says why they encode
/// none.
pub open spec fn decoded(bytes: Seq<u8>) -> Result<Seq<char>, Seq<char>> {
    if valid_utf8(bytes) {
        Ok(decode_utf8(bytes))
    } else {
        Err(utf8_error_text(bytes))
    }
}

/// The content of a decoded stream.
pub open spec fn text_of(stream: Result<String, String>) -> Result<Seq<char>, Seq<char>> {
    match stream {
        Ok(text) => Ok(text@),
        Err(message) => Err(message@),
    }
}

/// The result of a run whose relevant stream decoded to `stream`: the output
/// of a program that succeeded, the diagnostics of one that failed, and a
/// decoding failure where the stream is no text.
pub open spec fn classified(success: bool, stream: Result<Seq<char>, Seq<char>>) -> Verdict {
    match stream {
        Ok(text) => if success {
            Verdict::Success(text)
        } else {
            Verdict::Failure(FailureKind::RuntimeError, text)
        },
        Err(message) => Verdict::Failure(FailureKind::DecodingError, message),
    }
}

/// The result of the run that `report` describes. Standard output decides
/// for a program that succeeded, standard error for one that failed; the
/// other stream is not looked at.
pub open spec fn run_verdict(report: Report) -> Verdict {
    if report.success {
        classified(true, decoded(report.stdout))
    } else {
        classified(false, decoded(report.stderr))
    }
}

/// Decodes with `String::from_utf8`, and turns its error into text with
/// `to_string`. Trusted: the call returns `Ok` exactly for valid UTF-8, the
/// string then holds the characters that the bytes encode, and the message of
/// a rejection depends on the bytes alone.
#[verifier::external_body]
fn decode(bytes: Vec<u8>) -> (stream: Result<String, String>)
    ensures
        match stream {
            Ok(text) => valid_utf8(bytes@) && text@ == decode_utf8(bytes@),
            Err(message) => !valid_utf8(bytes@) && message@ == utf8_error_text(bytes@),
        },
{
    match String::from_utf8(bytes) {
        Ok(text) => Ok(text),
        Err(e) => Err(e.to_string()),
    }
}

/// Turns a decoded stream into the result of the run.
pub fn classify(success: bool, stream: Result<String, String>) -> (result: Result<
    String,
    SniprunError,
>)
    ensures
        verdict_of(result) == classified(success, text_of(stream)),
{
    match stream {
        Ok(text) => if success {
            Ok(text)
        } else {
            Err(SniprunError::RuntimeError(text))
        },
        Err(message) => Err(SniprunError::DecodingError(message)),
    }
}

/// The result of the run that `report` describes.
pub fn interpret(report: ProcessReport) -> (result: Result<String, SniprunError>)
    ensures
        verdict_of(result) == run_verdict(report@),
{
    if report.success {
        classify(true, decode(report.stdout))
    } else {
        classify(false, decode(report.stderr))
    }
}

/// A program that succeeds and writes a text to its standard output, encoded
/// as UTF-8, yields that text.
pub proof fn output_round_trip(text: Seq<char>, stderr: Seq<u8>)
    ensures
        run_verdict(Report { success: true, stdout: encode_utf8(text), stderr })
            == Verdict::Success(text),
{
    vstd::utf8::encode_utf8_valid_utf8(text);
    vstd::utf8::encode_utf8_decode_utf8(text);
}

/// The diagnostics of a program that failed come back character for
/// character.
pub proof fn diagnostics_round_trip(text: Seq<char>, stdout: Seq<u8>)
    ensures
        run_verdict(Report { success: false, stdout, stderr: encode_utf8(text) })
            == Verdict::Failure(FailureKind::RuntimeError, text),
{
    vstd::utf8::encode_utf8_valid_utf8(text);
    vstd::utf8::encode_utf8_decode_utf8(text);
}

} // verus!
