use tesseract_rs::TesseractError;

fn assert_send_sync<T: Send + Sync>() {}

#[test]
fn test_error_display() {
    let error = TesseractError::InitError;
    assert_eq!(error.message(), "Failed to initialize Tesseract");

    let error = TesseractError::SetImageError;
    assert_eq!(error.message(), "Failed to set image");

    let error = TesseractError::OcrError;
    assert_eq!(error.message(), "OCR operation failed");
}

#[test]
fn test_utf8_error_conversion() {
    let invalid_utf8 = vec![0xFF, 0xFE];
    let utf8_error = std::str::from_utf8(&invalid_utf8).unwrap_err();
    let tess_error: TesseractError = utf8_error.into();

    match tess_error {
        TesseractError::Utf8Error => {}
        _ => panic!("Expected Utf8Error variant"),
    }
}

#[test]
fn test_error_is_send_sync() {
    assert_send_sync::<TesseractError>();
}

#[test]
fn test_every_error_message_is_distinct() {
    let errors = vec![
        TesseractError::InitError,
        TesseractError::SetImageError,
        TesseractError::OcrError,
        TesseractError::Utf8Error,
        TesseractError::MutexLockError,
        TesseractError::SetVariableError,
        TesseractError::GetVariableError,
        TesseractError::NullPointerError,
        TesseractError::InvalidParameterError,
        TesseractError::AnalyseLayoutError,
        TesseractError::ProcessPagesError,
        TesseractError::IoError,
        TesseractError::MutexError,
        TesseractError::InvalidDimensions,
        TesseractError::InvalidBytesPerPixel,
        TesseractError::InvalidBytesPerLine,
        TesseractError::InvalidImageData,
        TesseractError::UninitializedError,
    ];
    for (i, a) in errors.iter().enumerate() {
        for (j, b) in errors.iter().enumerate() {
            if i != j {
                assert_ne!(a.message(), b.message());
            }
        }
    }
}
