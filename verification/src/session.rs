//! The engine session: call-order gate, native status checks and image
//! parameter validation.
//!
//! The engine itself lives behind an opaque handle; its configuration and
//! recognition results stay inside the native object.  What the host side
//! can decide is decided here: whether `init` has succeeded yet (so that
//! recognition-dependent calls fail fast with the uninitialized error
//! instead of forwarding to an engine in an undefined state), how a native
//! status code maps into the error taxonomy, and whether a raw image
//! buffer is consistent with its stated geometry before it is handed to
//! the engine.

use vstd::prelude::*;

use crate::buffer::extract_string;
use crate::buffer::utf8_decoded;
use crate::error::TesseractError;

verus! {

/// Whether the engine has been initialized.
#[derive(Debug, Clone, Copy, PartialEq, Eq, Structural)]
pub enum EngineState {
    /// No successful `init` yet; recognition-dependent calls are refused.
    Uninitialized,
    /// A native `init` succeeded; recognition-dependent calls may proceed.
    Initialized,
}

/// The host-side state of one engine facade.
#[derive(Debug, Clone, Copy, PartialEq, Eq, Structural)]
pub struct EngineSession {
    /// Whether a native `init` has succeeded.
    pub state: EngineState,
}

impl EngineSession {
    /// The state after a native `init` returned `status`: zero initializes
    /// the session, anything else leaves it uninitialized — a failed
    /// `init` leaves no partial state behind.
    pub open spec fn state_after_init(self, status: i32) -> EngineState {
        if status == 0 {
            EngineState::Initialized
        } else {
            EngineState::Uninitialized
        }
    }

    /// Creates the session for a freshly constructed engine.  Construction
    /// of the engine itself takes no arguments and always succeeds; the
    /// session starts uninitialized.
    pub fn new() -> (r: EngineSession)
        ensures
            r.state is Uninitialized,
    {
        EngineSession { state: EngineState::Uninitialized }
    }

    /// Records the outcome of a native `init` entry point: status zero
    /// succeeds and initializes the session; any other status fails with
    /// the initialization error and forces the session back to
    /// uninitialized, so nothing later can silently succeed.
    pub fn apply_init(&mut self, status: i32) -> (r: Result<(), TesseractError>)
        ensures
            final(self).state == old(self).state_after_init(status),
            r is Ok <==> status == 0,
            status != 0 ==> r == Err::<(), TesseractError>(TesseractError::InitError),
    {
        if status == 0 {
            self.state = EngineState::Initialized;
            Ok(())
        } else {
            self.state = EngineState::Uninitialized;
            Err(TesseractError::InitError)
        }
    }

    /// Fail-fast gate for every recognition-dependent operation: succeeds
    /// exactly when a native `init` has succeeded, and otherwise refuses
    /// with the uninitialized error before any native call is made.
    pub fn require_initialized(&self) -> (r: Result<(), TesseractError>)
        ensures
            r is Ok <==> self.state is Initialized,
            self.state is Uninitialized ==> r == Err::<(), TesseractError>(
                TesseractError::UninitializedError,
            ),
    {
        match self.state {
            EngineState::Initialized => Ok(()),
            EngineState::Uninitialized => Err(TesseractError::UninitializedError),
        }
    }
}

/// After a failed `init` the session is uninitialized, so every gated
/// operation is refused with the uninitialized error rather than allowed
/// to silently succeed.
pub proof fn lemma_failed_init_gates(s: EngineSession, status: i32)
    requires
        status != 0,
    ensures
        s.state_after_init(status) is Uninitialized,
{
}

/// Checks a native status code that reports success as zero (the `init`
/// family, recognition, printing variables to a file): any other value
/// fails with `on_fail`.
pub fn check_status_zero(status: i32, on_fail: TesseractError) -> (r: Result<(), TesseractError>)
    ensures
        r is Ok <==> status == 0,
        status != 0 ==> r == Err::<(), TesseractError>(on_fail),
{
    if status == 0 {
        Ok(())
    } else {
        Err(on_fail)
    }
}

/// Checks a native status code that reports success as one (setting a
/// configuration or debug variable): any other value fails with `on_fail`.
pub fn check_status_one(status: i32, on_fail: TesseractError) -> (r: Result<(), TesseractError>)
    ensures
        r is Ok <==> status == 1,
        status != 1 ==> r == Err::<(), TesseractError>(on_fail),
{
    if status == 1 {
        Ok(())
    } else {
        Err(on_fail)
    }
}

/// Reads a native boolean: zero is false, every other value is true.
pub fn flag_from_int(value: i32) -> (r: bool)
    ensures
        r <==> value != 0,
{
    value != 0
}

/// The image-parameter policy, checked before a raw buffer reaches the
/// engine: positive width and height, one to four bytes per pixel, a
/// stride of at least one full row, and a buffer that covers every row.
/// The first violated rule names the error.
pub open spec fn image_check(
    data_len: int,
    width: int,
    height: int,
    bytes_per_pixel: int,
    bytes_per_line: int,
) -> Result<(), TesseractError> {
    if width <= 0 || height <= 0 {
        Err(TesseractError::InvalidDimensions)
    } else if bytes_per_pixel < 1 || bytes_per_pixel > 4 {
        Err(TesseractError::InvalidBytesPerPixel)
    } else if bytes_per_line < width * bytes_per_pixel {
        Err(TesseractError::InvalidBytesPerLine)
    } else if data_len < height * bytes_per_line {
        Err(TesseractError::InvalidImageData)
    } else {
        Ok(())
    }
}

/// Validates a raw image buffer against its stated geometry, following
/// `image_check` exactly.
pub fn validate_image(
    data_len: usize,
    width: i32,
    height: i32,
    bytes_per_pixel: i32,
    bytes_per_line: i32,
) -> (r: Result<(), TesseractError>)
    ensures
        r == image_check(
            data_len as int,
            width as int,
            height as int,
            bytes_per_pixel as int,
            bytes_per_line as int,
        ),
{
    if width <= 0 || height <= 0 {
        return Err(TesseractError::InvalidDimensions);
    }
    if bytes_per_pixel < 1 || bytes_per_pixel > 4 {
        return Err(TesseractError::InvalidBytesPerPixel);
    }
    proof {
        assert((width as i64) * (bytes_per_pixel as i64) <= 4 * 0x7fff_ffffi64 && 1 <= (
        width as i64) * (bytes_per_pixel as i64)) by (nonlinear_arith)
            requires
                1 <= width as i64 <= 0x7fff_ffffi64,
                1 <= bytes_per_pixel as i64 <= 4,
        ;
    }
    let row_bytes: i64 = (width as i64) * (bytes_per_pixel as i64);
    if (bytes_per_line as i64) < row_bytes {
        return Err(TesseractError::InvalidBytesPerLine);
    }
    proof {
        assert(1 <= bytes_per_line);
        assert((height as u64) * (bytes_per_line as u64) <= 0x7fff_ffffu64 * 0x7fff_ffffu64)
            by (nonlinear_arith)
            requires
                1 <= height as u64 <= 0x7fff_ffffu64,
                1 <= bytes_per_line as u64 <= 0x7fff_ffffu64,
        ;
    }
    let needed: u64 = (height as u64) * (bytes_per_line as u64);
    if (data_len as u64) < needed {
        return Err(TesseractError::InvalidImageData);
    }
    Ok(())
}

/// Checks an orientation-and-script detection: a zero status means the
/// detection failed; otherwise the script name is decoded, a null name
/// standing for the empty string.
pub fn detect_os_script(status: i32, script_name: &Option<Vec<u8>>) -> (r: Result<
    String,
    TesseractError,
>)
    ensures
        status == 0 ==> r == Err::<String, TesseractError>(TesseractError::OcrError),
        status != 0 && script_name is None ==> (r matches Ok(s) && s@ == Seq::<char>::empty()),
        status != 0 ==> (script_name matches Some(b) ==> {
            &&& utf8_decoded(b@) is None ==> r == Err::<String, TesseractError>(
                TesseractError::Utf8Error,
            )
            &&& utf8_decoded(b@) matches Some(cs) ==> (r matches Ok(s) && s@ == cs)
        }),
{
    if status == 0 {
        return Err(TesseractError::OcrError);
    }
    match script_name {
        Option::None => Ok(String::new()),
        Option::Some(_) => extract_string(script_name, TesseractError::NullPointerError),
    }
}

/// What to release when wrapping a page/result iterator pair fails.
#[derive(Debug, Clone, Copy, PartialEq, Eq, Structural)]
pub struct PairCleanup {
    /// The page iterator handle must be deleted.
    pub delete_page: bool,
    /// The result iterator handle must be deleted.
    pub delete_result: bool,
}

/// Decides the wrapping of a freshly created page/result iterator pair:
/// it succeeds exactly when neither native handle is null; when either is
/// null the pair fails with the null-pointer error and exactly the
/// non-null handles must be deleted, so that no native resource leaks.
pub fn iterator_pair_plan(page_is_null: bool, result_is_null: bool) -> (r: (
    Result<(), TesseractError>,
    PairCleanup,
))
    ensures
        r.0 is Ok <==> !page_is_null && !result_is_null,
        r.0 is Err ==> r.0 == Err::<(), TesseractError>(TesseractError::NullPointerError),
        r.1.delete_page <==> (r.0 is Err && !page_is_null),
        r.1.delete_result <==> (r.0 is Err && !result_is_null),
{
    if !page_is_null && !result_is_null {
        (Ok(()), PairCleanup { delete_page: false, delete_result: false })
    } else {
        (
            Err(TesseractError::NullPointerError),
            PairCleanup { delete_page: !page_is_null, delete_result: !result_is_null },
        )
    }
}

} // verus!
