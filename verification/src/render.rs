//! The result renderer's document state machine.
//!
//! A renderer streams recognition output into one output format.  Its
//! document moves strictly forward: created, then opened by
//! `begin_document`, then fed zero or more images, then closed by
//! `end_document`.  The native entry points report success as a boolean;
//! the machine here additionally refuses out-of-order transitions, so an
//! image can only be added to a document that was successfully begun and
//! not yet ended.

use vstd::prelude::*;

use crate::error::TesseractError;

verus! {

/// The phases of a rendered document.
#[derive(Debug, Clone, Copy, PartialEq, Eq, Structural)]
pub enum DocState {
    /// The renderer exists but no document was begun.
    Created,
    /// A document was begun and can receive images.
    Open,
    /// The document was ended; nothing more can be added.
    Closed,
}

/// The host-side state of one renderer's document.
#[derive(Debug, Clone, Copy, PartialEq, Eq, Structural)]
pub struct RenderDoc {
    /// The current phase.
    pub state: DocState,
    /// How many images were successfully added.
    pub images: u64,
}

impl RenderDoc {
    /// Whether `begin_document` may succeed in this state.
    pub open spec fn begin_allowed(self) -> bool {
        self.state is Created
    }

    /// Whether `add_image` may succeed in this state.
    pub open spec fn add_allowed(self) -> bool {
        self.state is Open
    }

    /// Whether `end_document` may succeed in this state.
    pub open spec fn end_allowed(self) -> bool {
        self.state is Open
    }

    /// Wraps the result of a native renderer constructor: a null handle is
    /// rejected with the null-pointer error; any other handle starts a
    /// document in the created phase with no images.
    pub fn create(handle_is_null: bool) -> (r: Result<RenderDoc, TesseractError>)
        ensures
            handle_is_null ==> r == Err::<RenderDoc, TesseractError>(
                TesseractError::NullPointerError,
            ),
            !handle_is_null ==> r == Ok::<RenderDoc, TesseractError>(
                RenderDoc { state: DocState::Created, images: 0 },
            ),
    {
        if handle_is_null {
            Err(TesseractError::NullPointerError)
        } else {
            Ok(RenderDoc { state: DocState::Created, images: 0 })
        }
    }

    /// Records a `begin_document` attempt with the native success flag.
    /// It succeeds exactly when the document was still in the created
    /// phase and the native call succeeded; then the document is open.  A
    /// failed attempt changes nothing.
    pub fn begin_document(&mut self, native_ok: bool) -> (ok: bool)
        ensures
            ok <==> old(self).begin_allowed() && native_ok,
            ok ==> *final(self) == (RenderDoc { state: DocState::Open, images: old(self).images }),
            !ok ==> *final(self) == *old(self),
    {
        if matches!(self.state, DocState::Created) && native_ok {
            self.state = DocState::Open;
            true
        } else {
            false
        }
    }

    /// Records an `add_image` attempt with the native success flag.  It
    /// succeeds exactly when the document is open and the native call
    /// succeeded; then the image count grows by one.  A failed attempt
    /// changes nothing.
    pub fn add_image(&mut self, native_ok: bool) -> (ok: bool)
        requires
            old(self).images < u64::MAX,
        ensures
            ok <==> old(self).add_allowed() && native_ok,
            ok ==> *final(self) == (RenderDoc {
                state: DocState::Open,
                images: (old(self).images + 1) as u64,
            }),
            !ok ==> *final(self) == *old(self),
    {
        if matches!(self.state, DocState::Open) && native_ok {
            self.images = self.images + 1;
            true
        } else {
            false
        }
    }

    /// Records an `end_document` attempt with the native success flag.  It
    /// succeeds exactly when the document is open; then the document is
    /// closed.  A failed attempt changes nothing.
    pub fn end_document(&mut self, native_ok: bool) -> (ok: bool)
        ensures
            ok <==> old(self).end_allowed() && native_ok,
            ok ==> *final(self) == (RenderDoc { state: DocState::Closed, images: old(self).images }),
            !ok ==> *final(self) == *old(self),
    {
        if matches!(self.state, DocState::Open) && native_ok {
            self.state = DocState::Closed;
            true
        } else {
            false
        }
    }

    /// How many images were successfully added so far.
    pub fn image_count(&self) -> (r: u64)
        ensures
            r == self.images,
    {
        self.images
    }

    /// Whether `begin_document` may succeed right now.
    pub fn can_begin(&self) -> (r: bool)
        ensures
            r == self.begin_allowed(),
    {
        matches!(self.state, DocState::Created)
    }

    /// Whether `add_image` may succeed right now.
    pub fn can_add(&self) -> (r: bool)
        ensures
            r == self.add_allowed(),
    {
        matches!(self.state, DocState::Open)
    }

    /// Whether `end_document` may succeed right now.
    pub fn can_end(&self) -> (r: bool)
        ensures
            r == self.end_allowed(),
    {
        matches!(self.state, DocState::Open)
    }
}

/// A document is fed strictly in order: before `begin_document` has
/// succeeded no image can be added and the document cannot be ended, and
/// once `end_document` has succeeded the document accepts nothing at all.
pub proof fn lemma_document_order(d: RenderDoc)
    ensures
        d.state is Created ==> !d.add_allowed() && !d.end_allowed(),
        d.state is Closed ==> !d.begin_allowed() && !d.add_allowed() && !d.end_allowed(),
{
}

} // verus!
