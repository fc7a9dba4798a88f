//! Enumerated engine constants and their integer encodings.
//!
//! The native interface speaks in small integers; every enumeration here has
//! a total decoding function (`from_int`, out-of-range values fall back to a
//! documented default) and an exact encoding function (`to_int`).  Encoding
//! then decoding is proved to be the identity.

use vstd::prelude::*;

verus! {

/// Page segmentation modes of the engine.
#[derive(Debug, Clone, Copy, PartialEq, Eq, Structural)]
#[allow(non_camel_case_types)]
pub enum TessPageSegMode {
    PSM_OSD_ONLY,
    PSM_AUTO_OSD,
    PSM_AUTO_ONLY,
    PSM_AUTO,
    PSM_SINGLE_COLUMN,
    PSM_SINGLE_BLOCK_VERT_TEXT,
    PSM_SINGLE_BLOCK,
    PSM_SINGLE_LINE,
    PSM_SINGLE_WORD,
    PSM_CIRCLE_WORD,
    PSM_SINGLE_CHAR,
    PSM_SPARSE_TEXT,
    PSM_SPARSE_TEXT_OSD,
    PSM_RAW_LINE,
    PSM_COUNT,
}

impl TessPageSegMode {
    /// The mode a native integer denotes; unknown values denote `PSM_AUTO`.
    pub open spec fn from_int_spec(value: i32) -> Self {
        if value == 0 {
            TessPageSegMode::PSM_OSD_ONLY
        } else if value == 1 {
            TessPageSegMode::PSM_AUTO_OSD
        } else if value == 2 {
            TessPageSegMode::PSM_AUTO_ONLY
        } else if value == 3 {
            TessPageSegMode::PSM_AUTO
        } else if value == 4 {
            TessPageSegMode::PSM_SINGLE_COLUMN
        } else if value == 5 {
            TessPageSegMode::PSM_SINGLE_BLOCK_VERT_TEXT
        } else if value == 6 {
            TessPageSegMode::PSM_SINGLE_BLOCK
        } else if value == 7 {
            TessPageSegMode::PSM_SINGLE_LINE
        } else if value == 8 {
            TessPageSegMode::PSM_SINGLE_WORD
        } else if value == 9 {
            TessPageSegMode::PSM_CIRCLE_WORD
        } else if value == 10 {
            TessPageSegMode::PSM_SINGLE_CHAR
        } else if value == 11 {
            TessPageSegMode::PSM_SPARSE_TEXT
        } else if value == 12 {
            TessPageSegMode::PSM_SPARSE_TEXT_OSD
        } else if value == 13 {
            TessPageSegMode::PSM_RAW_LINE
        } else if value == 14 {
            TessPageSegMode::PSM_COUNT
        } else {
            TessPageSegMode::PSM_AUTO
        }
    }

    /// The native integer for this mode.
    pub open spec fn to_int_spec(self) -> i32 {
        match self {
            TessPageSegMode::PSM_OSD_ONLY => 0,
            TessPageSegMode::PSM_AUTO_OSD => 1,
            TessPageSegMode::PSM_AUTO_ONLY => 2,
            TessPageSegMode::PSM_AUTO => 3,
            TessPageSegMode::PSM_SINGLE_COLUMN => 4,
            TessPageSegMode::PSM_SINGLE_BLOCK_VERT_TEXT => 5,
            TessPageSegMode::PSM_SINGLE_BLOCK => 6,
            TessPageSegMode::PSM_SINGLE_LINE => 7,
            TessPageSegMode::PSM_SINGLE_WORD => 8,
            TessPageSegMode::PSM_CIRCLE_WORD => 9,
            TessPageSegMode::PSM_SINGLE_CHAR => 10,
            TessPageSegMode::PSM_SPARSE_TEXT => 11,
            TessPageSegMode::PSM_SPARSE_TEXT_OSD => 12,
            TessPageSegMode::PSM_RAW_LINE => 13,
            TessPageSegMode::PSM_COUNT => 14,
        }
    }

    /// Decodes a native integer; unknown values yield `PSM_AUTO`.
    pub fn from_int(value: i32) -> (r: Self)
        ensures
            r == Self::from_int_spec(value),
    {
        match value {
            0 => TessPageSegMode::PSM_OSD_ONLY,
            1 => TessPageSegMode::PSM_AUTO_OSD,
            2 => TessPageSegMode::PSM_AUTO_ONLY,
            3 => TessPageSegMode::PSM_AUTO,
            4 => TessPageSegMode::PSM_SINGLE_COLUMN,
            5 => TessPageSegMode::PSM_SINGLE_BLOCK_VERT_TEXT,
            6 => TessPageSegMode::PSM_SINGLE_BLOCK,
            7 => TessPageSegMode::PSM_SINGLE_LINE,
            8 => TessPageSegMode::PSM_SINGLE_WORD,
            9 => TessPageSegMode::PSM_CIRCLE_WORD,
            10 => TessPageSegMode::PSM_SINGLE_CHAR,
            11 => TessPageSegMode::PSM_SPARSE_TEXT,
            12 => TessPageSegMode::PSM_SPARSE_TEXT_OSD,
            13 => TessPageSegMode::PSM_RAW_LINE,
            14 => TessPageSegMode::PSM_COUNT,
            _ => TessPageSegMode::PSM_AUTO,
        }
    }

    /// Encodes this mode as the native integer.
    pub fn to_int(self) -> (r: i32)
        ensures
            r == self.to_int_spec(),
    {
        match self {
            TessPageSegMode::PSM_OSD_ONLY => 0,
            TessPageSegMode::PSM_AUTO_OSD => 1,
            TessPageSegMode::PSM_AUTO_ONLY => 2,
            TessPageSegMode::PSM_AUTO => 3,
            TessPageSegMode::PSM_SINGLE_COLUMN => 4,
            TessPageSegMode::PSM_SINGLE_BLOCK_VERT_TEXT => 5,
            TessPageSegMode::PSM_SINGLE_BLOCK => 6,
            TessPageSegMode::PSM_SINGLE_LINE => 7,
            TessPageSegMode::PSM_SINGLE_WORD => 8,
            TessPageSegMode::PSM_CIRCLE_WORD => 9,
            TessPageSegMode::PSM_SINGLE_CHAR => 10,
            TessPageSegMode::PSM_SPARSE_TEXT => 11,
            TessPageSegMode::PSM_SPARSE_TEXT_OSD => 12,
            TessPageSegMode::PSM_RAW_LINE => 13,
            TessPageSegMode::PSM_COUNT => 14,
        }
    }
}

/// Encoding a page segmentation mode and decoding it again is the identity.
pub proof fn lemma_page_seg_mode_round_trip(m: TessPageSegMode)
    ensures
        TessPageSegMode::from_int_spec(m.to_int_spec()) == m,
{
}

/// Granularity levels of the recognized-layout tree.
#[derive(Debug, Clone, Copy, PartialEq, Eq, Structural)]
#[allow(non_camel_case_types)]
pub enum TessPageIteratorLevel {
    RIL_BLOCK,
    RIL_PARA,
    RIL_TEXTLINE,
    RIL_WORD,
    RIL_SYMBOL,
}

impl TessPageIteratorLevel {
    /// The level a native integer denotes; unknown values denote `RIL_BLOCK`.
    pub open spec fn from_int_spec(value: i32) -> Self {
        if value == 0 {
            TessPageIteratorLevel::RIL_BLOCK
        } else if value == 1 {
            TessPageIteratorLevel::RIL_PARA
        } else if value == 2 {
            TessPageIteratorLevel::RIL_TEXTLINE
        } else if value == 3 {
            TessPageIteratorLevel::RIL_WORD
        } else if value == 4 {
            TessPageIteratorLevel::RIL_SYMBOL
        } else {
            TessPageIteratorLevel::RIL_BLOCK
        }
    }

    /// The native integer for this level.
    pub open spec fn to_int_spec(self) -> i32 {
        match self {
            TessPageIteratorLevel::RIL_BLOCK => 0,
            TessPageIteratorLevel::RIL_PARA => 1,
            TessPageIteratorLevel::RIL_TEXTLINE => 2,
            TessPageIteratorLevel::RIL_WORD => 3,
            TessPageIteratorLevel::RIL_SYMBOL => 4,
        }
    }

    /// Decodes a native integer; unknown values yield `RIL_BLOCK`.
    pub fn from_int(value: i32) -> (r: Self)
        ensures
            r == Self::from_int_spec(value),
    {
        match value {
            0 => TessPageIteratorLevel::RIL_BLOCK,
            1 => TessPageIteratorLevel::RIL_PARA,
            2 => TessPageIteratorLevel::RIL_TEXTLINE,
            3 => TessPageIteratorLevel::RIL_WORD,
            4 => TessPageIteratorLevel::RIL_SYMBOL,
            _ => TessPageIteratorLevel::RIL_BLOCK,
        }
    }

    /// Encodes this level as the native integer.
    pub fn to_int(self) -> (r: i32)
        ensures
            r == self.to_int_spec(),
    {
        match self {
            TessPageIteratorLevel::RIL_BLOCK => 0,
            TessPageIteratorLevel::RIL_PARA => 1,
            TessPageIteratorLevel::RIL_TEXTLINE => 2,
            TessPageIteratorLevel::RIL_WORD => 3,
            TessPageIteratorLevel::RIL_SYMBOL => 4,
        }
    }
}

/// Encoding an iterator level and decoding it again is the identity.
pub proof fn lemma_page_iterator_level_round_trip(l: TessPageIteratorLevel)
    ensures
        TessPageIteratorLevel::from_int_spec(l.to_int_spec()) == l,
{
}

/// Classifications of a layout block.
#[derive(Debug, Clone, Copy, PartialEq, Eq, Structural)]
#[allow(non_camel_case_types)]
pub enum TessPolyBlockType {
    PT_UNKNOWN,
    PT_FLOWING_TEXT,
    PT_HEADING_TEXT,
    PT_PULLOUT_TEXT,
    PT_EQUATION,
    PT_INLINE_EQUATION,
    PT_TABLE,
    PT_VERTICAL_TEXT,
    PT_CAPTION_TEXT,
    PT_FLOWING_IMAGE,
    PT_HEADING_IMAGE,
    PT_PULLOUT_IMAGE,
    PT_HORZ_LINE,
    PT_VERT_LINE,
    PT_NOISE,
    PT_COUNT,
}

impl TessPolyBlockType {
    /// The block type a native integer denotes; unknown values denote
    /// `PT_UNKNOWN`.
    pub open spec fn from_int_spec(value: i32) -> Self {
        if value == 0 {
            TessPolyBlockType::PT_UNKNOWN
        } else if value == 1 {
            TessPolyBlockType::PT_FLOWING_TEXT
        } else if value == 2 {
            TessPolyBlockType::PT_HEADING_TEXT
        } else if value == 3 {
            TessPolyBlockType::PT_PULLOUT_TEXT
        } else if value == 4 {
            TessPolyBlockType::PT_EQUATION
        } else if value == 5 {
            TessPolyBlockType::PT_INLINE_EQUATION
        } else if value == 6 {
            TessPolyBlockType::PT_TABLE
        } else if value == 7 {
            TessPolyBlockType::PT_VERTICAL_TEXT
        } else if value == 8 {
            TessPolyBlockType::PT_CAPTION_TEXT
        } else if value == 9 {
            TessPolyBlockType::PT_FLOWING_IMAGE
        } else if value == 10 {
            TessPolyBlockType::PT_HEADING_IMAGE
        } else if value == 11 {
            TessPolyBlockType::PT_PULLOUT_IMAGE
        } else if value == 12 {
            TessPolyBlockType::PT_HORZ_LINE
        } else if value == 13 {
            TessPolyBlockType::PT_VERT_LINE
        } else if value == 14 {
            TessPolyBlockType::PT_NOISE
        } else if value == 15 {
            TessPolyBlockType::PT_COUNT
        } else {
            TessPolyBlockType::PT_UNKNOWN
        }
    }

    /// The native integer for this block type.
    pub open spec fn to_int_spec(self) -> i32 {
        match self {
            TessPolyBlockType::PT_UNKNOWN => 0,
            TessPolyBlockType::PT_FLOWING_TEXT => 1,
            TessPolyBlockType::PT_HEADING_TEXT => 2,
            TessPolyBlockType::PT_PULLOUT_TEXT => 3,
            TessPolyBlockType::PT_EQUATION => 4,
            TessPolyBlockType::PT_INLINE_EQUATION => 5,
            TessPolyBlockType::PT_TABLE => 6,
            TessPolyBlockType::PT_VERTICAL_TEXT => 7,
            TessPolyBlockType::PT_CAPTION_TEXT => 8,
            TessPolyBlockType::PT_FLOWING_IMAGE => 9,
            TessPolyBlockType::PT_HEADING_IMAGE => 10,
            TessPolyBlockType::PT_PULLOUT_IMAGE => 11,
            TessPolyBlockType::PT_HORZ_LINE => 12,
            TessPolyBlockType::PT_VERT_LINE => 13,
            TessPolyBlockType::PT_NOISE => 14,
            TessPolyBlockType::PT_COUNT => 15,
        }
    }

    /// Decodes a native integer; unknown values yield `PT_UNKNOWN`.
    pub fn from_int(value: i32) -> (r: Self)
        ensures
            r == Self::from_int_spec(value),
    {
        match value {
            0 => TessPolyBlockType::PT_UNKNOWN,
            1 => TessPolyBlockType::PT_FLOWING_TEXT,
            2 => TessPolyBlockType::PT_HEADING_TEXT,
            3 => TessPolyBlockType::PT_PULLOUT_TEXT,
            4 => TessPolyBlockType::PT_EQUATION,
            5 => TessPolyBlockType::PT_INLINE_EQUATION,
            6 => TessPolyBlockType::PT_TABLE,
            7 => TessPolyBlockType::PT_VERTICAL_TEXT,
            8 => TessPolyBlockType::PT_CAPTION_TEXT,
            9 => TessPolyBlockType::PT_FLOWING_IMAGE,
            10 => TessPolyBlockType::PT_HEADING_IMAGE,
            11 => TessPolyBlockType::PT_PULLOUT_IMAGE,
            12 => TessPolyBlockType::PT_HORZ_LINE,
            13 => TessPolyBlockType::PT_VERT_LINE,
            14 => TessPolyBlockType::PT_NOISE,
            15 => TessPolyBlockType::PT_COUNT,
            _ => TessPolyBlockType::PT_UNKNOWN,
        }
    }

    /// Encodes this block type as the native integer.
    pub fn to_int(self) -> (r: i32)
        ensures
            r == self.to_int_spec(),
    {
        match self {
            TessPolyBlockType::PT_UNKNOWN => 0,
            TessPolyBlockType::PT_FLOWING_TEXT => 1,
            TessPolyBlockType::PT_HEADING_TEXT => 2,
            TessPolyBlockType::PT_PULLOUT_TEXT => 3,
            TessPolyBlockType::PT_EQUATION => 4,
            TessPolyBlockType::PT_INLINE_EQUATION => 5,
            TessPolyBlockType::PT_TABLE => 6,
            TessPolyBlockType::PT_VERTICAL_TEXT => 7,
            TessPolyBlockType::PT_CAPTION_TEXT => 8,
            TessPolyBlockType::PT_FLOWING_IMAGE => 9,
            TessPolyBlockType::PT_HEADING_IMAGE => 10,
            TessPolyBlockType::PT_PULLOUT_IMAGE => 11,
            TessPolyBlockType::PT_HORZ_LINE => 12,
            TessPolyBlockType::PT_VERT_LINE => 13,
            TessPolyBlockType::PT_NOISE => 14,
            TessPolyBlockType::PT_COUNT => 15,
        }
    }
}

/// Encoding a block type and decoding it again is the identity.
pub proof fn lemma_poly_block_type_round_trip(t: TessPolyBlockType)
    ensures
        TessPolyBlockType::from_int_spec(t.to_int_spec()) == t,
{
}

/// Page orientations.
#[derive(Debug, Clone, Copy, PartialEq, Eq, Structural)]
#[allow(non_camel_case_types)]
pub enum TessOrientation {
    ORIENTATION_PAGE_UP,
    ORIENTATION_PAGE_RIGHT,
    ORIENTATION_PAGE_DOWN,
    ORIENTATION_PAGE_LEFT,
}

impl TessOrientation {
    /// The orientation a native integer denotes; unknown values denote
    /// `ORIENTATION_PAGE_UP`.
    pub open spec fn from_int_spec(value: i32) -> Self {
        if value == 0 {
            TessOrientation::ORIENTATION_PAGE_UP
        } else if value == 1 {
            TessOrientation::ORIENTATION_PAGE_RIGHT
        } else if value == 2 {
            TessOrientation::ORIENTATION_PAGE_DOWN
        } else if value == 3 {
            TessOrientation::ORIENTATION_PAGE_LEFT
        } else {
            TessOrientation::ORIENTATION_PAGE_UP
        }
    }

    /// The native integer for this orientation.
    pub open spec fn to_int_spec(self) -> i32 {
        match self {
            TessOrientation::ORIENTATION_PAGE_UP => 0,
            TessOrientation::ORIENTATION_PAGE_RIGHT => 1,
            TessOrientation::ORIENTATION_PAGE_DOWN => 2,
            TessOrientation::ORIENTATION_PAGE_LEFT => 3,
        }
    }

    /// Decodes a native integer; unknown values yield `ORIENTATION_PAGE_UP`.
    pub fn from_int(value: i32) -> (r: Self)
        ensures
            r == Self::from_int_spec(value),
    {
        match value {
            0 => TessOrientation::ORIENTATION_PAGE_UP,
            1 => TessOrientation::ORIENTATION_PAGE_RIGHT,
            2 => TessOrientation::ORIENTATION_PAGE_DOWN,
            3 => TessOrientation::ORIENTATION_PAGE_LEFT,
            _ => TessOrientation::ORIENTATION_PAGE_UP,
        }
    }

    /// Encodes this orientation as the native integer.
    pub fn to_int(self) -> (r: i32)
        ensures
            r == self.to_int_spec(),
    {
        match self {
            TessOrientation::ORIENTATION_PAGE_UP => 0,
            TessOrientation::ORIENTATION_PAGE_RIGHT => 1,
            TessOrientation::ORIENTATION_PAGE_DOWN => 2,
            TessOrientation::ORIENTATION_PAGE_LEFT => 3,
        }
    }
}

/// Encoding an orientation and decoding it again is the identity.
pub proof fn lemma_orientation_round_trip(o: TessOrientation)
    ensures
        TessOrientation::from_int_spec(o.to_int_spec()) == o,
{
}

/// Paragraph justifications.
#[derive(Debug, Clone, Copy, PartialEq, Eq, Structural)]
#[allow(non_camel_case_types)]
pub enum TessParagraphJustification {
    JUSTIFICATION_UNKNOWN,
    JUSTIFICATION_LEFT,
    JUSTIFICATION_CENTER,
    JUSTIFICATION_RIGHT,
}

impl TessParagraphJustification {
    /// The justification a native integer denotes; unknown values denote
    /// `JUSTIFICATION_UNKNOWN`.
    pub open spec fn from_int_spec(value: i32) -> Self {
        if value == 0 {
            TessParagraphJustification::JUSTIFICATION_UNKNOWN
        } else if value == 1 {
            TessParagraphJustification::JUSTIFICATION_LEFT
        } else if value == 2 {
            TessParagraphJustification::JUSTIFICATION_CENTER
        } else if value == 3 {
            TessParagraphJustification::JUSTIFICATION_RIGHT
        } else {
            TessParagraphJustification::JUSTIFICATION_UNKNOWN
        }
    }

    /// The native integer for this justification.
    pub open spec fn to_int_spec(self) -> i32 {
        match self {
            TessParagraphJustification::JUSTIFICATION_UNKNOWN => 0,
            TessParagraphJustification::JUSTIFICATION_LEFT => 1,
            TessParagraphJustification::JUSTIFICATION_CENTER => 2,
            TessParagraphJustification::JUSTIFICATION_RIGHT => 3,
        }
    }

    /// Decodes a native integer; unknown values yield
    /// `JUSTIFICATION_UNKNOWN`.
    pub fn from_int(value: i32) -> (r: Self)
        ensures
            r == Self::from_int_spec(value),
    {
        match value {
            0 => TessParagraphJustification::JUSTIFICATION_UNKNOWN,
            1 => TessParagraphJustification::JUSTIFICATION_LEFT,
            2 => TessParagraphJustification::JUSTIFICATION_CENTER,
            3 => TessParagraphJustification::JUSTIFICATION_RIGHT,
            _ => TessParagraphJustification::JUSTIFICATION_UNKNOWN,
        }
    }

    /// Encodes this justification as the native integer.
    pub fn to_int(self) -> (r: i32)
        ensures
            r == self.to_int_spec(),
    {
        match self {
            TessParagraphJustification::JUSTIFICATION_UNKNOWN => 0,
            TessParagraphJustification::JUSTIFICATION_LEFT => 1,
            TessParagraphJustification::JUSTIFICATION_CENTER => 2,
            TessParagraphJustification::JUSTIFICATION_RIGHT => 3,
        }
    }
}

/// Encoding a justification and decoding it again is the identity.
pub proof fn lemma_paragraph_justification_round_trip(j: TessParagraphJustification)
    ensures
        TessParagraphJustification::from_int_spec(j.to_int_spec()) == j,
{
}

/// Writing directions of a text block.
#[derive(Debug, Clone, Copy, PartialEq, Eq, Structural)]
#[allow(non_camel_case_types)]
pub enum TessWritingDirection {
    WRITING_DIRECTION_LEFT_TO_RIGHT,
    WRITING_DIRECTION_RIGHT_TO_LEFT,
    WRITING_DIRECTION_TOP_TO_BOTTOM,
}

impl TessWritingDirection {
    /// The direction a native integer denotes; unknown values denote
    /// `WRITING_DIRECTION_LEFT_TO_RIGHT`.
    pub open spec fn from_int_spec(value: i32) -> Self {
        if value == 0 {
            TessWritingDirection::WRITING_DIRECTION_LEFT_TO_RIGHT
        } else if value == 1 {
            TessWritingDirection::WRITING_DIRECTION_RIGHT_TO_LEFT
        } else if value == 2 {
            TessWritingDirection::WRITING_DIRECTION_TOP_TO_BOTTOM
        } else {
            TessWritingDirection::WRITING_DIRECTION_LEFT_TO_RIGHT
        }
    }

    /// The native integer for this direction.
    pub open spec fn to_int_spec(self) -> i32 {
        match self {
            TessWritingDirection::WRITING_DIRECTION_LEFT_TO_RIGHT => 0,
            TessWritingDirection::WRITING_DIRECTION_RIGHT_TO_LEFT => 1,
            TessWritingDirection::WRITING_DIRECTION_TOP_TO_BOTTOM => 2,
        }
    }

    /// Decodes a native integer; unknown values yield
    /// `WRITING_DIRECTION_LEFT_TO_RIGHT`.
    pub fn from_int(value: i32) -> (r: Self)
        ensures
            r == Self::from_int_spec(value),
    {
        match value {
            0 => TessWritingDirection::WRITING_DIRECTION_LEFT_TO_RIGHT,
            1 => TessWritingDirection::WRITING_DIRECTION_RIGHT_TO_LEFT,
            2 => TessWritingDirection::WRITING_DIRECTION_TOP_TO_BOTTOM,
            _ => TessWritingDirection::WRITING_DIRECTION_LEFT_TO_RIGHT,
        }
    }

    /// Encodes this direction as the native integer.
    pub fn to_int(self) -> (r: i32)
        ensures
            r == self.to_int_spec(),
    {
        match self {
            TessWritingDirection::WRITING_DIRECTION_LEFT_TO_RIGHT => 0,
            TessWritingDirection::WRITING_DIRECTION_RIGHT_TO_LEFT => 1,
            TessWritingDirection::WRITING_DIRECTION_TOP_TO_BOTTOM => 2,
        }
    }
}

/// Encoding a writing direction and decoding it again is the identity.
pub proof fn lemma_writing_direction_round_trip(d: TessWritingDirection)
    ensures
        TessWritingDirection::from_int_spec(d.to_int_spec()) == d,
{
}

/// Orders in which text lines flow within a block.
#[derive(Debug, Clone, Copy, PartialEq, Eq, Structural)]
#[allow(non_camel_case_types)]
pub enum TessTextlineOrder {
    TEXTLINE_ORDER_LEFT_TO_RIGHT,
    TEXTLINE_ORDER_RIGHT_TO_LEFT,
    TEXTLINE_ORDER_TOP_TO_BOTTOM,
}

impl TessTextlineOrder {
    /// The order a native integer denotes; unknown values denote
    /// `TEXTLINE_ORDER_LEFT_TO_RIGHT`.
    pub open spec fn from_int_spec(value: i32) -> Self {
        if value == 0 {
            TessTextlineOrder::TEXTLINE_ORDER_LEFT_TO_RIGHT
        } else if value == 1 {
            TessTextlineOrder::TEXTLINE_ORDER_RIGHT_TO_LEFT
        } else if value == 2 {
            TessTextlineOrder::TEXTLINE_ORDER_TOP_TO_BOTTOM
        } else {
            TessTextlineOrder::TEXTLINE_ORDER_LEFT_TO_RIGHT
        }
    }

    /// The native integer for this order.
    pub open spec fn to_int_spec(self) -> i32 {
        match self {
            TessTextlineOrder::TEXTLINE_ORDER_LEFT_TO_RIGHT => 0,
            TessTextlineOrder::TEXTLINE_ORDER_RIGHT_TO_LEFT => 1,
            TessTextlineOrder::TEXTLINE_ORDER_TOP_TO_BOTTOM => 2,
        }
    }

    /// Decodes a native integer; unknown values yield
    /// `TEXTLINE_ORDER_LEFT_TO_RIGHT`.
    pub fn from_int(value: i32) -> (r: Self)
        ensures
            r == Self::from_int_spec(value),
    {
        match value {
            0 => TessTextlineOrder::TEXTLINE_ORDER_LEFT_TO_RIGHT,
            1 => TessTextlineOrder::TEXTLINE_ORDER_RIGHT_TO_LEFT,
            2 => TessTextlineOrder::TEXTLINE_ORDER_TOP_TO_BOTTOM,
            _ => TessTextlineOrder::TEXTLINE_ORDER_LEFT_TO_RIGHT,
        }
    }

    /// Encodes this order as the native integer.
    pub fn to_int(self) -> (r: i32)
        ensures
            r == self.to_int_spec(),
    {
        match self {
            TessTextlineOrder::TEXTLINE_ORDER_LEFT_TO_RIGHT => 0,
            TessTextlineOrder::TEXTLINE_ORDER_RIGHT_TO_LEFT => 1,
            TessTextlineOrder::TEXTLINE_ORDER_TOP_TO_BOTTOM => 2,
        }
    }
}

/// Encoding a text line order and decoding it again is the identity.
pub proof fn lemma_textline_order_round_trip(o: TessTextlineOrder)
    ensures
        TessTextlineOrder::from_int_spec(o.to_int_spec()) == o,
{
}

} // verus!
