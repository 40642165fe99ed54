//! What comes back from one run of the helper, and how it is judged: the
//! exit status first, then the text on standard output.

use vstd::prelude::*;
use vstd::string::*;
use vstd::utf8::*;
use crate::error::{ErrorKind, ErrorModel, Naps2Error};
use crate::json::{json_document, parse_json, JsonModel, JsonValue};

verus! {

/// What a finished run of the helper left behind.
#[derive(Debug, PartialEq, Eq)]
pub struct HelperOutput {
    /// The exit status, or nothing where the helper ended without one.
    pub exit_code: Option<i32>,
    /// The bytes written to standard output.
    pub stdout: Vec<u8>,
    /// The bytes written to standard error.
    pub stderr: Vec<u8>,
}

/// Something that can run the helper once and wait for it to end.
///
/// `run` starts `program` with `args` and hands back what the run left
/// behind, or a description of why the program could not be started.
pub trait HelperRunner {
    fn run(&self, program: &str, args: &Vec<String>) -> Result<HelperOutput, String>;
}

/// The text that `String::from_utf8_lossy` makes of a run of bytes.
pub uninterp spec fn utf8_lossy(bytes: Seq<u8>) -> Seq<char>;

/// Calls `String::from_utf8_lossy`. Nothing is proved here: the contract
/// names the outcome `utf8_lossy`, and says that bytes which are valid UTF-8
/// come back as the very text that they encode.
#[verifier::external_body]
fn decode_lossy(bytes: &Vec<u8>) -> (text: String)
    ensures
        text@ == utf8_lossy(bytes@),
        valid_utf8(bytes@) ==> text@ == decode_utf8(bytes@),
{
    String::from_utf8_lossy(bytes).into_owned()
}

/// The words that introduce the report of output that could not be decoded.
pub open spec fn parse_error_prefix() -> Seq<char> {
    "JSON parse error: "@
}

/// The failure of a run that did not end well.
pub open spec fn execution_failure(stderr: Seq<u8>) -> ErrorModel {
    ErrorModel { kind: ErrorKind::HelperExecution, detail: utf8_lossy(stderr) }
}

/// The failure for output that does not have the expected shape.
pub open spec fn output_failure(report: Seq<char>) -> ErrorModel {
    ErrorModel { kind: ErrorKind::HelperOutput, detail: parse_error_prefix() + report }
}

/// The failure of a helper that never started.
pub open spec fn launch_failure(description: Seq<char>) -> ErrorModel {
    ErrorModel { kind: ErrorKind::HelperExecution, detail: description }
}

impl HelperOutput {
    /// A run ended well exactly when its exit status is zero.
    pub open spec fn succeeded(&self) -> bool {
        self.exit_code == Some(0i32)
    }

    /// The text on standard output of a run that ended well, or the failure
    /// that carries the text on standard error.
    pub open spec fn spec_stdout_text(&self) -> Result<Seq<char>, ErrorModel> {
        if self.succeeded() {
            Ok(utf8_lossy(self.stdout@))
        } else {
            Err(execution_failure(self.stderr@))
        }
    }

    /// The JSON value on standard output of a run that ended well.
    pub open spec fn spec_stdout_json(&self) -> Result<JsonModel, ErrorModel> {
        match self.spec_stdout_text() {
            Ok(text) => document_or_failure(json_document(text)),
            Err(e) => Err(e),
        }
    }

    #[verifier::when_used_as_spec(succeeded)]
    pub fn success(&self) -> (ok: bool)
        ensures
            ok == self.succeeded(),
    {
        match self.exit_code {
            Some(code) => code == 0,
            None => false,
        }
    }

    /// Judges the exit status: a run that ended well gives its standard
    /// output as text; any other gives a `HelperExecutionError` with the text
    /// of standard error, whatever standard output holds.
    pub fn stdout_text(&self) -> (r: Result<String, Naps2Error>)
        ensures
            text_or_error_view(r) == self.spec_stdout_text(),
            self.succeeded() && valid_utf8(self.stdout@) ==> (r matches Ok(text) && text@
                == decode_utf8(self.stdout@)),
            !self.succeeded() && valid_utf8(self.stderr@) ==> (r matches Err(e) && e@.detail
                == decode_utf8(self.stderr@)),
    {
        if self.success() {
            Ok(decode_lossy(&self.stdout))
        } else {
            Err(Naps2Error::HelperExecutionError(decode_lossy(&self.stderr)))
        }
    }

    /// Judges the exit status and reads standard output as one JSON value.
    pub fn stdout_json(&self) -> (r: Result<JsonValue, Naps2Error>)
        ensures
            json_or_error_view(r) == self.spec_stdout_json(),
    {
        match self.stdout_text() {
            Ok(text) => document_or_error(parse_json(text.as_str())),
            Err(e) => Err(e),
        }
    }

    /// Judges the exit status alone; standard output is not looked at.
    pub fn completed(&self) -> (r: Result<(), Naps2Error>)
        ensures
            self.succeeded() ==> r is Ok,
            !self.succeeded() ==> (r matches Err(e) && e@ == execution_failure(self.stderr@)),
    {
        if self.success() {
            Ok(())
        } else {
            Err(Naps2Error::HelperExecutionError(decode_lossy(&self.stderr)))
        }
    }
}

/// The views of the two sides of a result that carries text or a failure.
pub open spec fn text_or_error_view(r: Result<String, Naps2Error>) -> Result<
    Seq<char>,
    ErrorModel,
> {
    match r {
        Ok(text) => Ok(text@),
        Err(e) => Err(e@),
    }
}

/// The views of the two sides of a result that carries a JSON value or a failure.
pub open spec fn json_or_error_view(r: Result<JsonValue, Naps2Error>) -> Result<
    JsonModel,
    ErrorModel,
> {
    match r {
        Ok(json) => Ok(json@),
        Err(e) => Err(e@),
    }
}

/// A parsed document as it is, or the failure for the parser's report.
pub open spec fn document_or_failure(parsed: Result<JsonModel, Seq<char>>) -> Result<
    JsonModel,
    ErrorModel,
> {
    match parsed {
        Ok(json) => Ok(json),
        Err(report) => Err(output_failure(report)),
    }
}

/// A decoded value as it is, or the failure for the decoder's report.
pub open spec fn shape_failure<T>(decoded: Result<T, Seq<char>>) -> Result<T, ErrorModel> {
    match decoded {
        Ok(value) => Ok(value),
        Err(report) => Err(output_failure(report)),
    }
}

/// Hands a decoded value on, or turns the decoder's report into a
/// `HelperOutputError`.
pub fn shaped<T>(decoded: Result<T, String>) -> (r: Result<T, Naps2Error>)
    ensures
        match decoded {
            Ok(value) => r == Ok::<_, Naps2Error>(value),
            Err(report) => (r matches Err(e) && e@ == output_failure(report@)),
        },
{
    match decoded {
        Ok(value) => Ok(value),
        Err(report) => Err(output_error(report.as_str())),
    }
}

/// Wraps the report of undecodable output into a `HelperOutputError`.
pub fn output_error(report: &str) -> (e: Naps2Error)
    ensures
        e@ == output_failure(report@),
{
    let mut detail = String::from_str("JSON parse error: ");
    detail.append(report);
    Naps2Error::HelperOutputError(detail)
}

/// Hands a parsed document on, or turns the parser's report into a
/// `HelperOutputError`.
pub fn document_or_error(parsed: Result<JsonValue, String>) -> (r: Result<JsonValue, Naps2Error>)
    ensures
        match parsed {
            Ok(json) => r == Ok::<_, Naps2Error>(json),
            Err(report) => (r matches Err(e) && e@ == output_failure(report@)),
        },
{
    match parsed {
        Ok(json) => Ok(json),
        Err(report) => Err(output_error(report.as_str())),
    }
}

/// Judges whether the helper ran at all: a helper that never started is a
/// `HelperExecutionError` that carries the description of why.
pub fn launched(outcome: Result<HelperOutput, String>) -> (r: Result<HelperOutput, Naps2Error>)
    ensures
        match outcome {
            Ok(output) => r == Ok::<_, Naps2Error>(output),
            Err(description) => (r matches Err(e) && e@ == launch_failure(description@)),
        },
{
    match outcome {
        Ok(output) => Ok(output),
        Err(description) => Err(Naps2Error::HelperExecutionError(description)),
    }
}

} // verus!
