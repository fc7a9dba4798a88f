//! The closed taxonomy of failures surfaced to callers.
//!
//! Every fallible native call is checked at the point of call and converted
//! to exactly one member of this taxonomy; no native sentinel value passes
//! through to callers.

use vstd::prelude::*;

verus! {

/// Declares `std::str::Utf8Error` so that the conversion from a standard
/// decode error can be stated; the value itself is opaque.
#[verifier::external_type_specification]
#[verifier::external_body]
pub struct ExUtf8Error(std::str::Utf8Error);

/// Errors that can occur when using the Tesseract API.
#[derive(Debug, Clone, Copy, PartialEq, Eq, Structural)]
pub enum TesseractError {
    /// The engine could not be initialized.
    InitError,
    /// The image could not be handed to the engine.
    SetImageError,
    /// A recognition operation failed.
    OcrError,
    /// Output from the engine was not valid UTF-8.
    Utf8Error,
    /// A handle's lock could not be acquired because a prior holder
    /// exited abnormally while holding it.
    MutexLockError,
    /// A configuration variable could not be set.
    SetVariableError,
    /// A configuration variable could not be read.
    GetVariableError,
    /// A native call returned a null result pointer.
    NullPointerError,
    /// A parameter was rejected by the engine.
    InvalidParameterError,
    /// Layout analysis failed.
    AnalyseLayoutError,
    /// Page processing failed.
    ProcessPagesError,
    /// An input/output operation failed.
    IoError,
    /// A lock was found in an unusable state.
    MutexError,
    /// The image width or height is not positive.
    InvalidDimensions,
    /// The bytes-per-pixel value is outside the supported range.
    InvalidBytesPerPixel,
    /// The stride is too small for one row of pixels.
    InvalidBytesPerLine,
    /// The image buffer is too short for the stated geometry.
    InvalidImageData,
    /// An operation that needs an initialized engine ran before `init`.
    UninitializedError,
}

impl TesseractError {
    /// The human-readable description of this failure kind.
    pub open spec fn message_spec(&self) -> Seq<char> {
        match self {
            TesseractError::InitError => "Failed to initialize Tesseract"@,
            TesseractError::SetImageError => "Failed to set image"@,
            TesseractError::OcrError => "OCR operation failed"@,
            TesseractError::Utf8Error => "Invalid UTF-8 in Tesseract output"@,
            TesseractError::MutexLockError => "Failed to lock mutex"@,
            TesseractError::SetVariableError => "Failed to set variable"@,
            TesseractError::GetVariableError => "Failed to get variable"@,
            TesseractError::NullPointerError => "Null pointer error"@,
            TesseractError::InvalidParameterError => "Invalid parameter"@,
            TesseractError::AnalyseLayoutError => "Layout analysis failed"@,
            TesseractError::ProcessPagesError => "Page processing failed"@,
            TesseractError::IoError => "I/O error"@,
            TesseractError::MutexError => "Mutex error"@,
            TesseractError::InvalidDimensions => "Invalid dimensions"@,
            TesseractError::InvalidBytesPerPixel => "Invalid bytes per pixel"@,
            TesseractError::InvalidBytesPerLine => "Invalid bytes per line"@,
            TesseractError::InvalidImageData => "Invalid image data"@,
            TesseractError::UninitializedError => "Uninitialized error"@,
        }
    }

    /// Returns the human-readable description of this failure kind.
    pub fn message(&self) -> (r: String)
        ensures
            r@ == self.message_spec(),
    {
        match self {
            TesseractError::InitError => "Failed to initialize Tesseract".to_owned(),
            TesseractError::SetImageError => "Failed to set image".to_owned(),
            TesseractError::OcrError => "OCR operation failed".to_owned(),
            TesseractError::Utf8Error => "Invalid UTF-8 in Tesseract output".to_owned(),
            TesseractError::MutexLockError => "Failed to lock mutex".to_owned(),
            TesseractError::SetVariableError => "Failed to set variable".to_owned(),
            TesseractError::GetVariableError => "Failed to get variable".to_owned(),
            TesseractError::NullPointerError => "Null pointer error".to_owned(),
            TesseractError::InvalidParameterError => "Invalid parameter".to_owned(),
            TesseractError::AnalyseLayoutError => "Layout analysis failed".to_owned(),
            TesseractError::ProcessPagesError => "Page processing failed".to_owned(),
            TesseractError::IoError => "I/O error".to_owned(),
            TesseractError::MutexError => "Mutex error".to_owned(),
            TesseractError::InvalidDimensions => "Invalid dimensions".to_owned(),
            TesseractError::InvalidBytesPerPixel => "Invalid bytes per pixel".to_owned(),
            TesseractError::InvalidBytesPerLine => "Invalid bytes per line".to_owned(),
            TesseractError::InvalidImageData => "Invalid image data".to_owned(),
            TesseractError::UninitializedError => "Uninitialized error".to_owned(),
        }
    }
}

impl From<std::str::Utf8Error> for TesseractError {
    /// A standard decode error maps to the invalid-text-encoding kind.
    fn from(_e: std::str::Utf8Error) -> (r: Self) {
        TesseractError::Utf8Error
    }
}

impl vstd::std_specs::convert::FromSpecImpl<std::str::Utf8Error> for TesseractError {
    open spec fn obeys_from_spec() -> bool {
        true
    }

    open spec fn from_spec(e: std::str::Utf8Error) -> Self {
        TesseractError::Utf8Error
    }
}

} // verus!
