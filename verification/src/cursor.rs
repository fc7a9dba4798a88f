//! The state machine shared by the iterator family, and the per-position
//! accessor checks.
//!
//! Every iterator kind wraps a native cursor into the recognized layout
//! tree and traverses it forward only: it is *positioned* until an advance
//! fails, and *exhausted* from then on, for good.  `Cursor` is that state
//! machine over a known node count; advancing visits every node exactly
//! once, never revisits one, and stays exhausted on further calls.  The
//! accessor checks turn the raw values a native per-position query hands
//! back into taxonomy-checked results.

use vstd::prelude::*;

use crate::enums::TessOrientation;
use crate::enums::TessParagraphJustification;
use crate::enums::TessTextlineOrder;
use crate::enums::TessWritingDirection;
use crate::error::TesseractError;

verus! {

/// The forward-only traversal state of one iterator at one granularity
/// level, over `total` nodes.
#[derive(Debug, Clone, Copy, PartialEq, Eq, Structural)]
pub struct Cursor {
    /// How many nodes the level holds.
    pub total: usize,
    /// The index of the current node.
    pub pos: usize,
    /// Whether an advance has failed; no transition leaves this state.
    pub exhausted: bool,
}

impl Cursor {
    /// The cursor points at an existing node.
    pub open spec fn well_formed(self) -> bool {
        self.pos < self.total
    }

    /// A fresh iterator, positioned at the first node.
    pub fn new(total: usize) -> (r: Cursor)
        requires
            total >= 1,
        ensures
            r == (Cursor { total, pos: 0, exhausted: false }),
            r.well_formed(),
    {
        Cursor { total, pos: 0, exhausted: false }
    }

    /// Resets the traversal to the first node.
    pub fn begin(&mut self)
        requires
            old(self).well_formed(),
        ensures
            *final(self) == (Cursor { total: old(self).total, pos: 0, exhausted: false }),
            final(self).well_formed(),
    {
        self.pos = 0;
        self.exhausted = false;
    }

    /// Attempts to advance to the next node.  While nodes remain the
    /// cursor moves forward by exactly one and stays positioned; on the
    /// last node the advance fails and the cursor becomes exhausted; an
    /// exhausted cursor never moves again and every further advance fails.
    pub fn next(&mut self) -> (more: bool)
        requires
            old(self).well_formed(),
        ensures
            final(self).well_formed(),
            final(self).total == old(self).total,
            old(self).exhausted ==> !more && *final(self) == *old(self),
            !old(self).exhausted && old(self).pos + 1 < old(self).total ==> more && *final(self)
                == (Cursor { total: old(self).total, pos: (old(self).pos + 1) as usize, exhausted: false }),
            !old(self).exhausted && old(self).pos + 1 == old(self).total ==> !more && *final(self)
                == (Cursor { total: old(self).total, pos: old(self).pos, exhausted: true }),
    {
        if self.exhausted {
            return false;
        }
        if self.pos + 1 < self.total {
            self.pos = self.pos + 1;
            true
        } else {
            self.exhausted = true;
            false
        }
    }

    /// Advances until the cursor is exhausted and counts the successful
    /// advances.  From a positioned cursor this visits each of the nodes
    /// after the current one exactly once — `total - 1 - pos` successful
    /// advances — and ends exhausted; from an exhausted cursor it visits
    /// nothing.
    pub fn drain(&mut self) -> (count: usize)
        requires
            old(self).well_formed(),
        ensures
            final(self).well_formed(),
            final(self).total == old(self).total,
            final(self).exhausted,
            !old(self).exhausted ==> count == old(self).total - 1 - old(self).pos,
            old(self).exhausted ==> count == 0 && *final(self) == *old(self),
    {
        let mut count: usize = 0;
        loop
            invariant
                self.well_formed(),
                self.total == old(self).total,
                old(self).exhausted ==> count == 0 && *self == *old(self),
                !old(self).exhausted && !self.exhausted ==> count == self.pos - old(self).pos,
                !old(self).exhausted && self.exhausted ==> count == self.total - 1 - old(
                    self,
                ).pos,
            decreases self.total - self.pos, if self.exhausted { 0int } else { 1int },
        {
            if !self.next() {
                return count;
            }
            count = count + 1;
        }
    }
}

/// Font attributes of the word at an iterator's position.
#[derive(Debug, Clone, Copy, PartialEq, Eq, Structural)]
pub struct FontAttributes {
    pub is_bold: bool,
    pub is_italic: bool,
    pub is_underlined: bool,
    pub is_monospace: bool,
    pub is_serif: bool,
    pub is_smallcaps: bool,
    pub pointsize: i32,
    pub font_id: i32,
}

/// Checks a native font-attribute query: a zero status means the query
/// failed and yields the invalid-parameter error; otherwise each native
/// flag becomes a boolean (zero is false) and point size and font
/// identifier are passed through.
pub fn font_attributes_result(
    status: i32,
    is_bold: i32,
    is_italic: i32,
    is_underlined: i32,
    is_monospace: i32,
    is_serif: i32,
    is_smallcaps: i32,
    pointsize: i32,
    font_id: i32,
) -> (r: Result<FontAttributes, TesseractError>)
    ensures
        status == 0 ==> r == Err::<FontAttributes, TesseractError>(
            TesseractError::InvalidParameterError,
        ),
        status != 0 ==> r == Ok::<FontAttributes, TesseractError>(
            FontAttributes {
                is_bold: is_bold != 0,
                is_italic: is_italic != 0,
                is_underlined: is_underlined != 0,
                is_monospace: is_monospace != 0,
                is_serif: is_serif != 0,
                is_smallcaps: is_smallcaps != 0,
                pointsize,
                font_id,
            },
        ),
{
    if status == 0 {
        Err(TesseractError::InvalidParameterError)
    } else {
        Ok(
            FontAttributes {
                is_bold: is_bold != 0,
                is_italic: is_italic != 0,
                is_underlined: is_underlined != 0,
                is_monospace: is_monospace != 0,
                is_serif: is_serif != 0,
                is_smallcaps: is_smallcaps != 0,
                pointsize,
                font_id,
            },
        )
    }
}

/// Checks a native query that fills four coordinates (a bounding box as
/// left, top, right, bottom; a baseline as its two endpoints): a zero
/// status yields the invalid-parameter error, otherwise the four
/// coordinates pass through unchanged.
pub fn box_result(status: i32, a: i32, b: i32, c: i32, d: i32) -> (r: Result<
    (i32, i32, i32, i32),
    TesseractError,
>)
    ensures
        status == 0 ==> r == Err::<(i32, i32, i32, i32), TesseractError>(
            TesseractError::InvalidParameterError,
        ),
        status != 0 ==> r == Ok::<(i32, i32, i32, i32), TesseractError>((a, b, c, d)),
{
    if status == 0 {
        Err(TesseractError::InvalidParameterError)
    } else {
        Ok((a, b, c, d))
    }
}

/// Checks a native orientation query: a zero status yields the
/// invalid-parameter error, otherwise the three native integers decode to
/// the orientation, writing direction and text line order.
pub fn orientation_result(status: i32, orientation: i32, writing_direction: i32, textline_order: i32) -> (r:
    Result<(TessOrientation, TessWritingDirection, TessTextlineOrder), TesseractError>)
    ensures
        status == 0 ==> r == Err::<
            (TessOrientation, TessWritingDirection, TessTextlineOrder),
            TesseractError,
        >(TesseractError::InvalidParameterError),
        status != 0 ==> r == Ok::<
            (TessOrientation, TessWritingDirection, TessTextlineOrder),
            TesseractError,
        >(
            (
                TessOrientation::from_int_spec(orientation),
                TessWritingDirection::from_int_spec(writing_direction),
                TessTextlineOrder::from_int_spec(textline_order),
            ),
        ),
{
    if status == 0 {
        Err(TesseractError::InvalidParameterError)
    } else {
        Ok(
            (
                TessOrientation::from_int(orientation),
                TessWritingDirection::from_int(writing_direction),
                TessTextlineOrder::from_int(textline_order),
            ),
        )
    }
}

/// Checks a native paragraph-information query: a zero status yields the
/// invalid-parameter error, otherwise the justification decodes and the
/// list-item flag, crown flag and first-line indent pass through.
pub fn paragraph_info_result(
    status: i32,
    justification: i32,
    is_list_item: bool,
    is_crown: bool,
    first_line_indent: i32,
) -> (r: Result<(TessParagraphJustification, bool, bool, i32), TesseractError>)
    ensures
        status == 0 ==> r == Err::<(TessParagraphJustification, bool, bool, i32), TesseractError>(
            TesseractError::InvalidParameterError,
        ),
        status != 0 ==> r == Ok::<(TessParagraphJustification, bool, bool, i32), TesseractError>(
            (
                TessParagraphJustification::from_int_spec(justification),
                is_list_item,
                is_crown,
                first_line_indent,
            ),
        ),
{
    if status == 0 {
        Err(TesseractError::InvalidParameterError)
    } else {
        Ok(
            (
                TessParagraphJustification::from_int(justification),
                is_list_item,
                is_crown,
                first_line_indent,
            ),
        )
    }
}

} // verus!
