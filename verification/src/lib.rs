//! Typed bindings for a scanning, PDF and OCR helper program that is driven
//! through its command line and answers on its standard output.

pub mod client;
pub mod command;
pub mod decimal;
pub mod error;
pub mod helper;
pub mod images;
pub mod json;
pub mod ocr;
pub mod pdf;
pub mod scan;

pub use client::{JpegSaveResult, Naps2Client};
pub use error::{ErrorKind, Naps2Error};
pub use helper::{HelperOutput, HelperRunner};
pub use images::{Image, Naps2Image};
pub use json::{JsonField, JsonValue};
pub use ocr::{OcrClient, OcrLanguage};
pub use pdf::PdfClient;
pub use scan::{Driver, PaperSource, ScanClient, ScanResult, ScannerDevice};
