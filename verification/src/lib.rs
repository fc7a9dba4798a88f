//! Safe, concurrency-friendly core for a Tesseract OCR binding.
//!
//! The native engine is reached through opaque handles that the surrounding
//! binding layer owns.  Everything that can be decided on the host side is
//! decided here, with a proved contract: the error taxonomy, the enumerated
//! engine constants, the converters for sentinel-terminated native buffers,
//! the lifecycle of a mutex-guarded handle, the engine session's call-order
//! gate, image-parameter validation, the iterator state machine, and the
//! renderer document state machine.

pub mod buffer;
pub mod cursor;
pub mod enums;
pub mod error;
pub mod guard;
pub mod render;
pub mod session;

pub use enums::TessPageIteratorLevel;
pub use enums::TessPageSegMode;
pub use enums::TessPolyBlockType;
pub use error::TesseractError;
