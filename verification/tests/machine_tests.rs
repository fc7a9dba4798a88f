use tesseract_rs::cursor::Cursor;
use tesseract_rs::cursor::{box_result, font_attributes_result, orientation_result, paragraph_info_result};
use tesseract_rs::enums::TessOrientation;
use tesseract_rs::enums::TessParagraphJustification;
use tesseract_rs::enums::TessTextlineOrder;
use tesseract_rs::enums::TessWritingDirection;
use tesseract_rs::guard::HandleLifecycle;
use tesseract_rs::render::RenderDoc;
use tesseract_rs::session::{
    check_status_one, check_status_zero, detect_os_script, flag_from_int, iterator_pair_plan,
    validate_image, EngineSession,
};
use tesseract_rs::TesseractError;

#[test]
fn test_wrap_rejects_null_handle() {
    assert_eq!(
        HandleLifecycle::wrap(true),
        Err(TesseractError::NullPointerError)
    );
    assert!(HandleLifecycle::wrap(false).is_ok());
}

#[test]
fn test_poisoned_lock_fails_call() {
    let guard = HandleLifecycle::wrap(false).unwrap();
    assert_eq!(
        guard.begin_call(true, TesseractError::MutexLockError),
        Err(TesseractError::MutexLockError)
    );
    assert_eq!(
        guard.begin_call(true, TesseractError::MutexError),
        Err(TesseractError::MutexError)
    );
    assert!(guard.begin_call(false, TesseractError::MutexLockError).is_ok());
}

#[test]
fn test_teardown_runs_delete_exactly_once() {
    let mut guard = HandleLifecycle::wrap(false).unwrap();
    assert!(guard.teardown(false));
    assert!(!guard.teardown(false));
    assert!(!guard.teardown(true));
}

#[test]
fn test_poisoned_teardown_leaks_instead_of_deleting() {
    let mut guard = HandleLifecycle::wrap(false).unwrap();
    assert!(!guard.teardown(true));
    assert!(!guard.teardown(false));
}

#[test]
fn test_session_gates_before_init() {
    let session = EngineSession::new();
    assert_eq!(
        session.require_initialized(),
        Err(TesseractError::UninitializedError)
    );
}

#[test]
fn test_successful_init_opens_the_gate() {
    let mut session = EngineSession::new();
    assert!(session.apply_init(0).is_ok());
    assert!(session.require_initialized().is_ok());
}

#[test]
fn test_failed_init_leaves_no_partial_state() {
    let mut session = EngineSession::new();
    assert_eq!(session.apply_init(1), Err(TesseractError::InitError));
    assert_eq!(
        session.require_initialized(),
        Err(TesseractError::UninitializedError)
    );

    // A failed init after a successful one leaves the session uninitialized.
    assert!(session.apply_init(0).is_ok());
    assert_eq!(session.apply_init(-1), Err(TesseractError::InitError));
    assert_eq!(
        session.require_initialized(),
        Err(TesseractError::UninitializedError)
    );
}

#[test]
fn test_status_checks() {
    assert!(check_status_zero(0, TesseractError::InitError).is_ok());
    assert_eq!(
        check_status_zero(2, TesseractError::InitError),
        Err(TesseractError::InitError)
    );
    assert_eq!(
        check_status_zero(-5, TesseractError::OcrError),
        Err(TesseractError::OcrError)
    );
    assert!(check_status_one(1, TesseractError::SetVariableError).is_ok());
    assert_eq!(
        check_status_one(0, TesseractError::SetVariableError),
        Err(TesseractError::SetVariableError)
    );
    assert!(flag_from_int(1));
    assert!(flag_from_int(-7));
    assert!(!flag_from_int(0));
}

#[test]
fn test_validate_image_accepts_consistent_geometry() {
    // A 3x3 single-channel buffer with a tight stride.
    let data = [0xFF, 0x00, 0xFF, 0x00, 0x00, 0xFF, 0x00, 0x00, 0xFF];
    assert!(validate_image(data.len(), 3, 3, 1, 3).is_ok());
    // A padded stride and an oversized buffer are fine too.
    assert!(validate_image(100, 3, 3, 1, 4).is_ok());
}

#[test]
fn test_validate_image_rejects_bad_geometry() {
    // Empty buffer for a 100x100 RGB image.
    assert_eq!(
        validate_image(0, 100, 100, 3, 300),
        Err(TesseractError::InvalidImageData)
    );
    // Negative width.
    assert_eq!(
        validate_image(30000, -1, 100, 3, 300),
        Err(TesseractError::InvalidDimensions)
    );
    // Zero height.
    assert_eq!(
        validate_image(30000, 100, 0, 3, 300),
        Err(TesseractError::InvalidDimensions)
    );
    // Unsupported bytes per pixel.
    assert_eq!(
        validate_image(30000, 100, 100, 0, 300),
        Err(TesseractError::InvalidBytesPerPixel)
    );
    assert_eq!(
        validate_image(30000, 100, 100, 5, 300),
        Err(TesseractError::InvalidBytesPerPixel)
    );
    // Stride smaller than one row.
    assert_eq!(
        validate_image(30000, 100, 100, 3, 100),
        Err(TesseractError::InvalidBytesPerLine)
    );
}

#[test]
fn test_cursor_visits_every_node_once() {
    let mut cursor = Cursor::new(5);
    let mut visited = vec![cursor.pos];
    while cursor.next() {
        visited.push(cursor.pos);
    }
    assert_eq!(visited, vec![0, 1, 2, 3, 4]);
    // Exhausted is terminal: further advances fail and move nothing.
    assert!(!cursor.next());
    assert!(!cursor.next());
    assert_eq!(cursor.pos, 4);
}

#[test]
fn test_cursor_drain_counts_remaining_nodes() {
    let mut cursor = Cursor::new(7);
    assert_eq!(cursor.drain(), 6);
    assert_eq!(cursor.drain(), 0);
}

#[test]
fn test_cursor_begin_restarts_traversal() {
    let mut cursor = Cursor::new(3);
    assert_eq!(cursor.drain(), 2);
    cursor.begin();
    assert_eq!(cursor.pos, 0);
    assert!(!cursor.exhausted);
    assert_eq!(cursor.drain(), 2);
}

#[test]
fn test_single_node_cursor_exhausts_immediately() {
    let mut cursor = Cursor::new(1);
    assert!(!cursor.next());
    assert!(cursor.exhausted);
}

#[test]
fn test_renderer_document_order() {
    let mut doc = RenderDoc::create(false).unwrap();
    // No image and no end before a successful begin.
    assert!(!doc.add_image(true));
    assert!(!doc.end_document(true));
    // A native begin failure keeps the document unopened.
    assert!(!doc.begin_document(false));
    assert!(!doc.add_image(true));
    // Proper order: begin, images, end.
    assert!(doc.begin_document(true));
    assert!(doc.add_image(true));
    assert!(doc.add_image(true));
    assert!(!doc.add_image(false));
    assert_eq!(doc.image_count(), 2);
    assert!(doc.end_document(true));
    // Closed is final.
    assert!(!doc.add_image(true));
    assert!(!doc.begin_document(true));
    assert!(!doc.end_document(true));
    assert_eq!(doc.image_count(), 2);
}

#[test]
fn test_renderer_rejects_null_handle() {
    assert_eq!(
        RenderDoc::create(true).err(),
        Some(TesseractError::NullPointerError)
    );
}

#[test]
fn test_font_attributes_result() {
    let attrs = font_attributes_result(1, 1, 0, 0, 1, 0, 0, 12, 7).unwrap();
    assert!(attrs.is_bold);
    assert!(!attrs.is_italic);
    assert!(!attrs.is_underlined);
    assert!(attrs.is_monospace);
    assert!(!attrs.is_serif);
    assert!(!attrs.is_smallcaps);
    assert_eq!(attrs.pointsize, 12);
    assert_eq!(attrs.font_id, 7);
    assert_eq!(
        font_attributes_result(0, 1, 1, 1, 1, 1, 1, 12, 7),
        Err(TesseractError::InvalidParameterError)
    );
}

#[test]
fn test_box_result() {
    assert_eq!(box_result(1, 10, 20, 110, 220), Ok((10, 20, 110, 220)));
    assert_eq!(
        box_result(0, 10, 20, 110, 220),
        Err(TesseractError::InvalidParameterError)
    );
}

#[test]
fn test_orientation_result() {
    assert_eq!(
        orientation_result(1, 2, 1, 0),
        Ok((
            TessOrientation::ORIENTATION_PAGE_DOWN,
            TessWritingDirection::WRITING_DIRECTION_RIGHT_TO_LEFT,
            TessTextlineOrder::TEXTLINE_ORDER_LEFT_TO_RIGHT,
        ))
    );
    assert_eq!(
        orientation_result(0, 0, 0, 0),
        Err(TesseractError::InvalidParameterError)
    );
}

#[test]
fn test_paragraph_info_result() {
    assert_eq!(
        paragraph_info_result(1, 2, true, false, 4),
        Ok((
            TessParagraphJustification::JUSTIFICATION_CENTER,
            true,
            false,
            4,
        ))
    );
    assert_eq!(
        paragraph_info_result(0, 2, true, false, 4),
        Err(TesseractError::InvalidParameterError)
    );
}

#[test]
fn test_detect_os_script() {
    assert_eq!(
        detect_os_script(0, &Some(b"Latin".to_vec())),
        Err(TesseractError::OcrError)
    );
    assert_eq!(detect_os_script(1, &Some(b"Latin".to_vec())), Ok("Latin".to_string()));
    assert_eq!(detect_os_script(1, &None), Ok(String::new()));
    assert_eq!(
        detect_os_script(1, &Some(vec![0xFF, 0xFE])),
        Err(TesseractError::Utf8Error)
    );
}

#[test]
fn test_iterator_pair_plan() {
    let (outcome, cleanup) = iterator_pair_plan(false, false);
    assert!(outcome.is_ok());
    assert!(!cleanup.delete_page);
    assert!(!cleanup.delete_result);

    let (outcome, cleanup) = iterator_pair_plan(true, false);
    assert_eq!(outcome, Err(TesseractError::NullPointerError));
    assert!(!cleanup.delete_page);
    assert!(cleanup.delete_result);

    let (outcome, cleanup) = iterator_pair_plan(false, true);
    assert_eq!(outcome, Err(TesseractError::NullPointerError));
    assert!(cleanup.delete_page);
    assert!(!cleanup.delete_result);

    let (outcome, cleanup) = iterator_pair_plan(true, true);
    assert_eq!(outcome, Err(TesseractError::NullPointerError));
    assert!(!cleanup.delete_page);
    assert!(!cleanup.delete_result);
}
