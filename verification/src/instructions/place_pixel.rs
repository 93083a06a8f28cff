//! Writing one pixel.

use crate::errors::SolPlaceError;
use crate::state::{
    pixel_index, Canvas, CanvasView, Pubkey, CANVAS_HEIGHT, CANVAS_WIDTH, PALETTE_SIZE,
};
use vstd::prelude::*;

verus! {

/// The accounts of a pixel write: who paints, and the canvas that is
/// painted on.
#[derive(Clone, Copy, Debug, PartialEq, Eq)]
pub struct PlacePixel {
    pub painter: Pubkey,
    pub canvas: Canvas,
}

/// One call of the pixel write, as a mathematical value.
pub struct Placement {
    pub painter: Pubkey,
    pub x: u8,
    pub y: u8,
    pub color: u8,
}

/// The error with which a write of `color` at column `x`, row `y` is refused,
/// if it is. The column is tested first, then the row, then the colour.
pub open spec fn refusal(x: u8, y: u8, color: u8) -> Option<SolPlaceError> {
    if x >= 64 {
        Some(SolPlaceError::XOutOfBounds)
    } else if y >= 64 {
        Some(SolPlaceError::YOutOfBounds)
    } else if color >= 16 {
        Some(SolPlaceError::InvalidColor)
    } else {
        None
    }
}

impl CanvasView {
    /// The canvas after one call: written to where the call is accepted,
    /// untouched where it is refused.
    pub open spec fn after(self, call: Placement) -> CanvasView {
        if refusal(call.x, call.y, call.color) is None {
            self.placed(call.painter@, call.x as int, call.y as int, call.color)
        } else {
            self
        }
    }

    /// The canvas after a sequence of calls, made one after the other.
    pub open spec fn after_all(self, calls: Seq<Placement>) -> CanvasView
        decreases calls.len(),
    {
        if calls.len() == 0 {
            self
        } else {
            self.after_all(calls.drop_last()).after(calls.last())
        }
    }
}

/// Tests a write before it is made: the column first, then the row, then the
/// colour. The first test that fails gives the error.
pub fn check_placement(x: u8, y: u8, color: u8) -> (result: Result<(), SolPlaceError>)
    ensures
        result == match refusal(x, y, color) {
            Some(error) => Err(error),
            None => Ok(()),
        },
{
    if x >= CANVAS_WIDTH {
        return Err(SolPlaceError::XOutOfBounds);
    }
    if y >= CANVAS_HEIGHT {
        return Err(SolPlaceError::YOutOfBounds);
    }
    if color >= PALETTE_SIZE {
        return Err(SolPlaceError::InvalidColor);
    }
    Ok(())
}

/// Sets the pixel at column `x`, row `y` of the canvas to `color` on behalf
/// of the painter.
///
/// A write off the canvas or with a colour outside the palette is refused
/// and changes nothing. An accepted write stores the colour, records the
/// painter as last editor and counts the placement; the counter stops at
/// the largest value it can hold.
pub fn handle_place_pixel(ctx: &mut PlacePixel, x: u8, y: u8, color: u8) -> (result: Result<
    (),
    SolPlaceError,
>)
    ensures
        result == match refusal(x, y, color) {
            Some(error) => Err(error),
            None => Ok(()),
        },
        result is Err ==> *final(ctx) == *old(ctx),
        result is Ok ==> {
            &&& final(ctx).painter == old(ctx).painter
            &&& final(ctx).canvas@ == old(ctx).canvas@.placed(
                old(ctx).painter@,
                x as int,
                y as int,
                color,
            )
            &&& final(ctx).canvas.pixels[pixel_index(x as int, y as int)] == color
            &&& final(ctx).canvas.last_editor == old(ctx).painter
            &&& final(ctx).canvas.pixel_count == if old(ctx).canvas.pixel_count == u64::MAX {
                u64::MAX as int
            } else {
                old(ctx).canvas.pixel_count + 1
            }
        },
        final(ctx).canvas@ == old(ctx).canvas@.after(
            (Placement { painter: old(ctx).painter, x, y, color }),
        ),
        final(ctx).canvas.pixel_count >= old(ctx).canvas.pixel_count,
        old(ctx).canvas@.well_formed() ==> final(ctx).canvas@.well_formed(),
{
    match check_placement(x, y, color) {
        Err(error) => {
            return Err(error);
        },
        Ok(()) => {},
    }
    let index = (y as usize) * 64 + (x as usize);
    ctx.canvas.pixels[index] = color;
    ctx.canvas.last_editor = ctx.painter;
    ctx.canvas.pixel_count = ctx.canvas.pixel_count.saturating_add(1);
    Ok(())
}

/// An accepted write keeps a well-formed canvas well formed.
pub proof fn lemma_placed_well_formed(canvas: CanvasView, painter: Pubkey, x: u8, y: u8, color: u8)
    requires
        canvas.well_formed(),
        refusal(x, y, color) is None,
    ensures
        canvas.placed(painter@, x as int, y as int, color).well_formed(),
{
}

/// The invariant of the canvas holds after every sequence of calls that
/// starts from a well-formed canvas.
pub proof fn lemma_after_all_well_formed(canvas: CanvasView, calls: Seq<Placement>)
    requires
        canvas.well_formed(),
    ensures
        canvas.after_all(calls).well_formed(),
    decreases calls.len(),
{
    if calls.len() > 0 {
        lemma_after_all_well_formed(canvas, calls.drop_last());
        let before = canvas.after_all(calls.drop_last());
        let call = calls.last();
        if refusal(call.x, call.y, call.color) is None {
            lemma_placed_well_formed(before, call.painter, call.x, call.y, call.color);
        }
    }
}

/// Writes change the pixels, the last editor and the placement counter, and
/// nothing else: the authority, the dimensions and the padding are after
/// every sequence of calls what they were before it.
pub proof fn lemma_after_all_keeps_identity(canvas: CanvasView, calls: Seq<Placement>)
    ensures
        canvas.after_all(calls).authority == canvas.authority,
        canvas.after_all(calls).width == canvas.width,
        canvas.after_all(calls).height == canvas.height,
        canvas.after_all(calls).padding == canvas.padding,
    decreases calls.len(),
{
    if calls.len() > 0 {
        lemma_after_all_keeps_identity(canvas, calls.drop_last());
    }
}

/// The placement counter never decreases: after any further calls it is at
/// least what it was, whether those calls were accepted or refused.
pub proof fn lemma_pixel_count_monotonic(canvas: CanvasView, calls: Seq<Placement>, i: int, j: int)
    requires
        0 <= i <= j <= calls.len(),
    ensures
        canvas.after_all(calls.take(i)).pixel_count <= canvas.after_all(calls.take(j)).pixel_count,
    decreases j - i,
{
    if i < j {
        lemma_pixel_count_monotonic(canvas, calls, i, j - 1);
        assert(calls.take(j).drop_last() == calls.take(j - 1));
    }
}

} // verus!
