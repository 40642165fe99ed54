//! The closed set of failures that an operation on the helper can report.

use vstd::prelude::*;
use vstd::string::*;

verus! {

/// The cause of a failure, without its text.
#[derive(Clone, Copy, Debug, PartialEq, Eq, Structural)]
pub enum ErrorKind {
    HelperExecution,
    HelperOutput,
    DeviceNotFound,
    Scanning,
    Pdf,
    Ocr,
}

/// A failure together with the text that describes it.
///
/// Only the first two variants are ever produced by the bindings themselves;
/// the others are there for callers that judge what a result means.
#[derive(Debug)]
pub enum Naps2Error {
    /// The helper could not be started, or it ended with a failure status.
    HelperExecutionError(String),
    /// The helper ended well but its output did not have the expected shape.
    HelperOutputError(String),
    DeviceNotFoundError(String),
    ScanningError(String),
    PdfError(String),
    OcrError(String),
}

/// What a failure denotes: its kind and the characters of its text.
pub struct ErrorModel {
    pub kind: ErrorKind,
    pub detail: Seq<char>,
}

impl View for Naps2Error {
    type V = ErrorModel;

    open spec fn view(&self) -> ErrorModel {
        ErrorModel { kind: self.spec_kind(), detail: self.spec_detail() }
    }
}

/// The fixed words that introduce the text of a failure of the given kind.
pub open spec fn kind_prefix(kind: ErrorKind) -> Seq<char> {
    match kind {
        ErrorKind::HelperExecution => "Failed to execute helper application: "@,
        ErrorKind::HelperOutput => "Failed to parse helper application output: "@,
        ErrorKind::DeviceNotFound => "Device not found: "@,
        ErrorKind::Scanning => "Scanning failed: "@,
        ErrorKind::Pdf => "PDF operation failed: "@,
        ErrorKind::Ocr => "OCR operation failed: "@,
    }
}

impl Naps2Error {
    /// Which of the six causes this failure has.
    pub open spec fn spec_kind(&self) -> ErrorKind {
        match self {
            Naps2Error::HelperExecutionError(_) => ErrorKind::HelperExecution,
            Naps2Error::HelperOutputError(_) => ErrorKind::HelperOutput,
            Naps2Error::DeviceNotFoundError(_) => ErrorKind::DeviceNotFound,
            Naps2Error::ScanningError(_) => ErrorKind::Scanning,
            Naps2Error::PdfError(_) => ErrorKind::Pdf,
            Naps2Error::OcrError(_) => ErrorKind::Ocr,
        }
    }

    /// The text that the failure carries.
    pub open spec fn spec_detail(&self) -> Seq<char> {
        match self {
            Naps2Error::HelperExecutionError(s) => s@,
            Naps2Error::HelperOutputError(s) => s@,
            Naps2Error::DeviceNotFoundError(s) => s@,
            Naps2Error::ScanningError(s) => s@,
            Naps2Error::PdfError(s) => s@,
            Naps2Error::OcrError(s) => s@,
        }
    }

    /// The full message: the words for the kind, then the carried text.
    pub open spec fn spec_message(&self) -> Seq<char> {
        kind_prefix(self.spec_kind()) + self.spec_detail()
    }

    /// True when the failure is one that the bindings raise on their own.
    pub open spec fn from_helper(&self) -> bool {
        self.spec_kind() == ErrorKind::HelperExecution || self.spec_kind()
            == ErrorKind::HelperOutput
    }

    #[verifier::when_used_as_spec(spec_kind)]
    pub fn kind(&self) -> (kind: ErrorKind)
        ensures
            kind == self.spec_kind(),
    {
        match self {
            Naps2Error::HelperExecutionError(_) => ErrorKind::HelperExecution,
            Naps2Error::HelperOutputError(_) => ErrorKind::HelperOutput,
            Naps2Error::DeviceNotFoundError(_) => ErrorKind::DeviceNotFound,
            Naps2Error::ScanningError(_) => ErrorKind::Scanning,
            Naps2Error::PdfError(_) => ErrorKind::Pdf,
            Naps2Error::OcrError(_) => ErrorKind::Ocr,
        }
    }

    pub fn detail(&self) -> (detail: &str)
        ensures
            detail@ == self.spec_detail(),
    {
        match self {
            Naps2Error::HelperExecutionError(s) => s.as_str(),
            Naps2Error::HelperOutputError(s) => s.as_str(),
            Naps2Error::DeviceNotFoundError(s) => s.as_str(),
            Naps2Error::ScanningError(s) => s.as_str(),
            Naps2Error::PdfError(s) => s.as_str(),
            Naps2Error::OcrError(s) => s.as_str(),
        }
    }

    /// The message as a reader sees it.
    pub fn message(&self) -> (text: String)
        ensures
            text@ == self.spec_message(),
    {
        let prefix: &str = match self {
            Naps2Error::HelperExecutionError(_) => "Failed to execute helper application: ",
            Naps2Error::HelperOutputError(_) => "Failed to parse helper application output: ",
            Naps2Error::DeviceNotFoundError(_) => "Device not found: ",
            Naps2Error::ScanningError(_) => "Scanning failed: ",
            Naps2Error::PdfError(_) => "PDF operation failed: ",
            Naps2Error::OcrError(_) => "OCR operation failed: ",
        };
        let mut text = String::from_str(prefix);
        text.append(self.detail());
        text
    }
}

} // verus!
