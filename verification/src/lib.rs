//! A collaborative 64x64 pixel canvas: the record, the rules for writing to
//! it, its stored layout, and the requests it makes for moving its custody
//! between the base chain and a rollup.
//!
//! The functions of this file are the entry points of the program, one for
//! each instruction. They take the accounts of the instruction as plain
//! values, already loaded and checked by whoever dispatches into them.

pub mod errors;
pub mod instructions;
pub mod layout;
pub mod state;

use crate::errors::{AccountError, SolPlaceError};
use crate::instructions::initialize_canvas::{creation, slot_view};
use crate::instructions::place_pixel::refusal;
use crate::instructions::{
    handle_commit_canvas, handle_delegate_canvas, handle_initialize_canvas, handle_place_pixel,
    handle_undelegate_canvas, CommitCanvas, CommitRequest, DelegateCanvas, DelegateRequest,
    InitializeCanvas, PlacePixel, Placement, UndelegateCanvas, CANVAS_SEED,
};
use vstd::prelude::*;

verus! {

/// Initialize the canvas. Succeeds once: on the empty record slot.
pub fn initialize_canvas(ctx: &mut InitializeCanvas) -> (result: Result<(), AccountError>)
    ensures
        final(ctx).authority == old(ctx).authority,
        (slot_view(final(ctx).canvas), result) == creation(
            slot_view(old(ctx).canvas),
            old(ctx).authority@,
        ),
        result is Ok ==> {
            &&& final(ctx).canvas matches Some(canvas)
            &&& canvas.authority == old(ctx).authority
            &&& canvas.last_editor == old(ctx).authority
        },
{
    handle_initialize_canvas(ctx)
}

/// Place a pixel on the canvas.
pub fn place_pixel(ctx: &mut PlacePixel, x: u8, y: u8, color: u8) -> (result: Result<
    (),
    SolPlaceError,
>)
    ensures
        result == match refusal(x, y, color) {
            Some(error) => Err(error),
            None => Ok(()),
        },
        final(ctx).painter == old(ctx).painter,
        final(ctx).canvas@ == old(ctx).canvas@.after(
            (Placement { painter: old(ctx).painter, x, y, color }),
        ),
        result is Ok ==> final(ctx).canvas.last_editor == old(ctx).painter,
        result is Err ==> *final(ctx) == *old(ctx),
{
    handle_place_pixel(ctx, x, y, color)
}

/// Delegate the canvas to the rollup: the request to make for it.
pub fn delegate_canvas(ctx: &DelegateCanvas) -> (request: DelegateRequest)
    ensures
        request.payer == ctx.authority,
        request.account == ctx.canvas,
        request.seeds@.len() == 1,
        request.seeds@[0]@ == CANVAS_SEED@,
        request.config.commit_frequency_ms == u32::MAX,
        request.config.validator is None,
{
    handle_delegate_canvas(ctx)
}

/// Commit the canvas state from the rollup without undelegating: the
/// request to make for it.
pub fn commit_canvas(ctx: &CommitCanvas) -> (request: CommitRequest)
    ensures
        request.payer == ctx.payer,
        request.accounts@ == seq![ctx.canvas],
        !request.undelegate,
{
    handle_commit_canvas(ctx)
}

/// Commit the canvas state and undelegate it: the request to make for it.
pub fn undelegate_canvas(ctx: &UndelegateCanvas) -> (request: CommitRequest)
    ensures
        request.payer == ctx.payer,
        request.accounts@ == seq![ctx.canvas],
        request.undelegate,
{
    handle_undelegate_canvas(ctx)
}

} // verus!
