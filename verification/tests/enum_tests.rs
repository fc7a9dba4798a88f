use tesseract_rs::enums::TessOrientation;
use tesseract_rs::enums::TessPageIteratorLevel;
use tesseract_rs::enums::TessPageSegMode;
use tesseract_rs::enums::TessParagraphJustification;
use tesseract_rs::enums::TessPolyBlockType;
use tesseract_rs::enums::TessTextlineOrder;
use tesseract_rs::enums::TessWritingDirection;

#[test]
fn test_page_seg_mode_from_int() {
    assert_eq!(TessPageSegMode::from_int(0), TessPageSegMode::PSM_OSD_ONLY);
    assert_eq!(TessPageSegMode::from_int(3), TessPageSegMode::PSM_AUTO);
    assert_eq!(TessPageSegMode::from_int(10), TessPageSegMode::PSM_SINGLE_CHAR);
    assert_eq!(TessPageSegMode::from_int(14), TessPageSegMode::PSM_COUNT);
    // Out-of-range values fall back to automatic segmentation.
    assert_eq!(TessPageSegMode::from_int(-1), TessPageSegMode::PSM_AUTO);
    assert_eq!(TessPageSegMode::from_int(99), TessPageSegMode::PSM_AUTO);
}

#[test]
fn test_page_seg_mode_round_trip() {
    for v in 0..15 {
        let mode = TessPageSegMode::from_int(v);
        assert_eq!(mode.to_int(), v);
        assert_eq!(TessPageSegMode::from_int(mode.to_int()), mode);
    }
}

#[test]
fn test_page_iterator_level_from_int() {
    assert_eq!(TessPageIteratorLevel::from_int(0), TessPageIteratorLevel::RIL_BLOCK);
    assert_eq!(TessPageIteratorLevel::from_int(1), TessPageIteratorLevel::RIL_PARA);
    assert_eq!(TessPageIteratorLevel::from_int(2), TessPageIteratorLevel::RIL_TEXTLINE);
    assert_eq!(TessPageIteratorLevel::from_int(3), TessPageIteratorLevel::RIL_WORD);
    assert_eq!(TessPageIteratorLevel::from_int(4), TessPageIteratorLevel::RIL_SYMBOL);
    assert_eq!(TessPageIteratorLevel::from_int(5), TessPageIteratorLevel::RIL_BLOCK);
}

#[test]
fn test_page_iterator_level_round_trip() {
    for v in 0..5 {
        let level = TessPageIteratorLevel::from_int(v);
        assert_eq!(level.to_int(), v);
    }
}

#[test]
fn test_poly_block_type_from_int() {
    assert_eq!(TessPolyBlockType::from_int(0), TessPolyBlockType::PT_UNKNOWN);
    assert_eq!(TessPolyBlockType::from_int(1), TessPolyBlockType::PT_FLOWING_TEXT);
    assert_eq!(TessPolyBlockType::from_int(6), TessPolyBlockType::PT_TABLE);
    assert_eq!(TessPolyBlockType::from_int(15), TessPolyBlockType::PT_COUNT);
    assert_eq!(TessPolyBlockType::from_int(16), TessPolyBlockType::PT_UNKNOWN);
    assert_eq!(TessPolyBlockType::from_int(-3), TessPolyBlockType::PT_UNKNOWN);
}

#[test]
fn test_poly_block_type_round_trip() {
    for v in 0..16 {
        let t = TessPolyBlockType::from_int(v);
        assert_eq!(t.to_int(), v);
    }
}

#[test]
fn test_orientation_from_int() {
    assert_eq!(TessOrientation::from_int(0), TessOrientation::ORIENTATION_PAGE_UP);
    assert_eq!(TessOrientation::from_int(1), TessOrientation::ORIENTATION_PAGE_RIGHT);
    assert_eq!(TessOrientation::from_int(2), TessOrientation::ORIENTATION_PAGE_DOWN);
    assert_eq!(TessOrientation::from_int(3), TessOrientation::ORIENTATION_PAGE_LEFT);
    assert_eq!(TessOrientation::from_int(4), TessOrientation::ORIENTATION_PAGE_UP);
}

#[test]
fn test_paragraph_justification_from_int() {
    assert_eq!(
        TessParagraphJustification::from_int(0),
        TessParagraphJustification::JUSTIFICATION_UNKNOWN
    );
    assert_eq!(
        TessParagraphJustification::from_int(1),
        TessParagraphJustification::JUSTIFICATION_LEFT
    );
    assert_eq!(
        TessParagraphJustification::from_int(2),
        TessParagraphJustification::JUSTIFICATION_CENTER
    );
    assert_eq!(
        TessParagraphJustification::from_int(3),
        TessParagraphJustification::JUSTIFICATION_RIGHT
    );
    assert_eq!(
        TessParagraphJustification::from_int(7),
        TessParagraphJustification::JUSTIFICATION_UNKNOWN
    );
}

#[test]
fn test_writing_direction_from_int() {
    assert_eq!(
        TessWritingDirection::from_int(0),
        TessWritingDirection::WRITING_DIRECTION_LEFT_TO_RIGHT
    );
    assert_eq!(
        TessWritingDirection::from_int(1),
        TessWritingDirection::WRITING_DIRECTION_RIGHT_TO_LEFT
    );
    assert_eq!(
        TessWritingDirection::from_int(2),
        TessWritingDirection::WRITING_DIRECTION_TOP_TO_BOTTOM
    );
    assert_eq!(
        TessWritingDirection::from_int(-1),
        TessWritingDirection::WRITING_DIRECTION_LEFT_TO_RIGHT
    );
}

#[test]
fn test_textline_order_from_int() {
    assert_eq!(
        TessTextlineOrder::from_int(0),
        TessTextlineOrder::TEXTLINE_ORDER_LEFT_TO_RIGHT
    );
    assert_eq!(
        TessTextlineOrder::from_int(1),
        TessTextlineOrder::TEXTLINE_ORDER_RIGHT_TO_LEFT
    );
    assert_eq!(
        TessTextlineOrder::from_int(2),
        TessTextlineOrder::TEXTLINE_ORDER_TOP_TO_BOTTOM
    );
    assert_eq!(
        TessTextlineOrder::from_int(3),
        TessTextlineOrder::TEXTLINE_ORDER_LEFT_TO_RIGHT
    );
}
