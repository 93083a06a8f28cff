//! Creating the canvas.

use crate::errors::AccountError;
use crate::instructions::place_pixel::{
    lemma_after_all_keeps_identity, lemma_after_all_well_formed, Placement,
};
use crate::state::{Canvas, CanvasView, Pubkey, CANVAS_HEIGHT, CANVAS_WIDTH};
use vstd::prelude::*;

verus! {

/// The seed from which the address of the canvas is derived: the bytes of
/// the word "canvas". Every instruction hands the same seed on.
pub const CANVAS_SEED: [u8; 6] = [99, 97, 110, 118, 97, 115];

/// The accounts of the creation of the canvas: who creates it, and the
/// record slot at the canvas address, which is empty until the canvas
/// exists.
#[derive(Clone, Copy, Debug, PartialEq, Eq)]
pub struct InitializeCanvas {
    pub authority: Pubkey,
    pub canvas: Option<Canvas>,
}

/// The record slot as a mathematical value.
pub open spec fn slot_view(slot: Option<Canvas>) -> Option<CanvasView> {
    match slot {
        Some(canvas) => Some(canvas@),
        None => None,
    }
}

/// What a call of the creation by `authority` leaves in the record slot, and
/// what it returns: an empty slot receives the fresh canvas, a slot that
/// holds a canvas keeps it and the call fails.
pub open spec fn creation(slot: Option<CanvasView>, authority: Seq<u8>) -> (
    Option<CanvasView>,
    Result<(), AccountError>,
) {
    match slot {
        None => (Some(CanvasView::fresh(authority)), Ok(())),
        Some(_) => (slot, Err(AccountError::AlreadyInUse)),
    }
}

/// Creates the canvas in the empty record slot: 64 by 64, every pixel of
/// colour 0, no placement counted, with the caller as authority and as last
/// editor. Where the slot already holds a canvas the call fails and the
/// canvas stays as it is.
pub fn handle_initialize_canvas(ctx: &mut InitializeCanvas) -> (result: Result<(), AccountError>)
    ensures
        final(ctx).authority == old(ctx).authority,
        (slot_view(final(ctx).canvas), result) == creation(
            slot_view(old(ctx).canvas),
            old(ctx).authority@,
        ),
        result is Err <==> old(ctx).canvas is Some,
        result is Err ==> *final(ctx) == *old(ctx),
        result is Ok ==> {
            &&& final(ctx).canvas matches Some(canvas)
            &&& canvas.authority == old(ctx).authority
            &&& canvas.last_editor == old(ctx).authority
            &&& canvas@.well_formed()
        },
{
    if ctx.canvas.is_some() {
        return Err(AccountError::AlreadyInUse);
    }
    let canvas = Canvas {
        authority: ctx.authority,
        width: CANVAS_WIDTH,
        height: CANVAS_HEIGHT,
        _padding: [0u8; 6],
        last_editor: ctx.authority,
        pixel_count: 0,
        pixels: [0u8; 4096],
    };
    assert(canvas@ =~= CanvasView::fresh(ctx.authority@));
    ctx.canvas = Some(canvas);
    Ok(())
}

/// The canvas can be created exactly once. On an empty slot the creation
/// succeeds; after any call of it the slot holds a canvas, so every later
/// call, by whomever, fails and leaves that canvas untouched.
pub proof fn lemma_created_once(slot: Option<CanvasView>, first: Seq<u8>, second: Seq<u8>)
    ensures
        creation(slot, first).1 is Ok <==> slot is None,
        creation(slot, first).0 is Some,
        creation(creation(slot, first).0, second).1 == Err::<(), AccountError>(
            AccountError::AlreadyInUse,
        ),
        creation(creation(slot, first).0, second).0 == creation(slot, first).0,
{
}

/// A freshly created canvas is well formed.
pub proof fn lemma_fresh_well_formed(authority: Pubkey)
    ensures
        CanvasView::fresh(authority@).well_formed(),
{
}

/// Every canvas that can be reached is well formed: the one that the
/// creation leaves, and the one after any calls of the pixel write on it.
pub proof fn lemma_reachable_well_formed(authority: Pubkey, calls: Seq<Placement>)
    ensures
        CanvasView::fresh(authority@).after_all(calls).well_formed(),
        CanvasView::fresh(authority@).after_all(calls).authority == authority@,
{
    lemma_fresh_well_formed(authority);
    lemma_after_all_well_formed(CanvasView::fresh(authority@), calls);
    lemma_after_all_keeps_identity(CanvasView::fresh(authority@), calls);
}

} // verus!
