use naps2_poc::{ErrorKind, Naps2Error};

#[test]
fn message_of_each_kind() {
    assert_eq!(
        Naps2Error::HelperExecutionError("disk full".to_string()).message(),
        "Failed to execute helper application: disk full"
    );
    assert_eq!(
        Naps2Error::HelperOutputError("bad".to_string()).message(),
        "Failed to parse helper application output: bad"
    );
    assert_eq!(
        Naps2Error::DeviceNotFoundError("dev9".to_string()).message(),
        "Device not found: dev9"
    );
    assert_eq!(
        Naps2Error::ScanningError("jam".to_string()).message(),
        "Scanning failed: jam"
    );
    assert_eq!(
        Naps2Error::PdfError("locked".to_string()).message(),
        "PDF operation failed: locked"
    );
    assert_eq!(
        Naps2Error::OcrError("no data".to_string()).message(),
        "OCR operation failed: no data"
    );
}

#[test]
fn message_with_empty_detail_is_the_prefix() {
    assert_eq!(
        Naps2Error::HelperExecutionError(String::new()).message(),
        "Failed to execute helper application: "
    );
}

#[test]
fn kind_of_each_variant() {
    assert_eq!(
        Naps2Error::HelperExecutionError(String::new()).kind(),
        ErrorKind::HelperExecution
    );
    assert_eq!(Naps2Error::HelperOutputError(String::new()).kind(), ErrorKind::HelperOutput);
    assert_eq!(
        Naps2Error::DeviceNotFoundError(String::new()).kind(),
        ErrorKind::DeviceNotFound
    );
    assert_eq!(Naps2Error::ScanningError(String::new()).kind(), ErrorKind::Scanning);
    assert_eq!(Naps2Error::PdfError(String::new()).kind(), ErrorKind::Pdf);
    assert_eq!(Naps2Error::OcrError(String::new()).kind(), ErrorKind::Ocr);
}

#[test]
fn detail_is_the_carried_text() {
    assert_eq!(Naps2Error::PdfError("x y".to_string()).detail(), "x y");
    assert_eq!(Naps2Error::OcrError(String::new()).detail(), "");
}
