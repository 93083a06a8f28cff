//! The stored form of the canvas record: a fixed layout of 4184 bytes.
//!
//! | bytes        | field                                   |
//! |--------------|-----------------------------------------|
//! | 0 .. 8       | tag of a canvas record                  |
//! | 8 .. 40      | authority                               |
//! | 40           | width                                   |
//! | 41           | height                                  |
//! | 42 .. 48     | padding                                 |
//! | 48 .. 80     | last editor                             |
//! | 80 .. 88     | placement counter, little-endian        |
//! | 88 .. 4184   | pixels, row by row                      |

use crate::errors::AccountError;
use crate::instructions::place_pixel::Placement;
use crate::state::{Canvas, CanvasView, Pubkey};
use vstd::bytes::{
    lemma_auto_spec_u64_to_from_le_bytes, spec_u64_from_le_bytes, spec_u64_to_le_bytes,
    u64_from_le_bytes, u64_to_le_bytes,
};
use vstd::prelude::*;
use vstd::slice::slice_subrange;

verus! {

/// The tag that the stored form of every canvas record begins with.
pub const CANVAS_DISCRIMINATOR: [u8; 8] = [239, 248, 162, 140, 114, 179, 55, 66];

/// Where the authority begins in the stored form.
pub const AUTHORITY_OFFSET: usize = 8;

/// Where the width stands in the stored form.
pub const WIDTH_OFFSET: usize = 40;

/// Where the height stands in the stored form.
pub const HEIGHT_OFFSET: usize = 41;

/// Where the padding begins in the stored form.
pub const PADDING_OFFSET: usize = 42;

/// Where the last editor begins in the stored form.
pub const LAST_EDITOR_OFFSET: usize = 48;

/// Where the placement counter begins in the stored form.
pub const PIXEL_COUNT_OFFSET: usize = 80;

/// Where the pixels begin in the stored form.
pub const PIXELS_OFFSET: usize = 88;

impl CanvasView {
    /// The stored form of the record: the tag, then the fields in order.
    pub open spec fn layout(self) -> Seq<u8> {
        CANVAS_DISCRIMINATOR@ + self.authority + seq![self.width as u8, self.height as u8]
            + self.padding + self.last_editor + spec_u64_to_le_bytes(self.pixel_count as u64)
            + self.pixels
    }
}

/// The record that `data` is the stored form of, or why it is none: data
/// shorter than the tag, data that begins with another tag, data of another
/// size than a canvas record, in this order.
pub open spec fn parse(data: Seq<u8>) -> Result<CanvasView, AccountError> {
    if data.len() < 8 {
        Err(AccountError::DiscriminatorNotFound)
    } else if data.subrange(0, 8) != CANVAS_DISCRIMINATOR@ {
        Err(AccountError::DiscriminatorMismatch)
    } else if data.len() != Canvas::SIZE {
        Err(AccountError::DidNotDeserialize)
    } else {
        Ok(
            CanvasView {
                authority: data.subrange(8, 40),
                width: data[40] as nat,
                height: data[41] as nat,
                padding: data.subrange(42, 48),
                last_editor: data.subrange(48, 80),
                pixel_count: spec_u64_from_le_bytes(data.subrange(80, 88)) as nat,
                pixels: data.subrange(88, 4184),
            },
        )
    }
}

/// Appends `bytes` to `data`.
fn append(data: &mut Vec<u8>, bytes: &[u8])
    ensures
        final(data)@ == old(data)@ + bytes@,
{
    let mut i: usize = 0;
    while i < bytes.len()
        invariant
            i <= bytes@.len(),
            data@ == old(data)@ + bytes@.subrange(0, i as int),
        decreases bytes@.len() - i,
    {
        data.push(bytes[i]);
        i += 1;
    }
    assert(bytes@.subrange(0, i as int) == bytes@);
}

/// Copies the `N` bytes of `data` that begin at `start`.
fn read<const N: usize>(data: &[u8], start: usize) -> (bytes: [u8; N])
    requires
        start + N <= data.len(),
    ensures
        bytes@ == data@.subrange(start as int, start + N),
{
    let mut bytes = [0u8; N];
    let mut i: usize = 0;
    while i < N
        invariant
            i <= N,
            start + N <= data.len(),
            forall|k: int| 0 <= k < i ==> bytes@[k] == data@[start + k],
        decreases N - i,
    {
        bytes[i] = data[start + i];
        i += 1;
    }
    bytes
}

/// Whether `data` begins with the tag of a canvas record.
fn has_discriminator(data: &[u8]) -> (found: bool)
    requires
        data@.len() >= 8,
    ensures
        found <==> data@.subrange(0, 8) == CANVAS_DISCRIMINATOR@,
{
    let mut i: usize = 0;
    while i < 8
        invariant
            i <= 8,
            data@.len() >= 8,
            forall|k: int| 0 <= k < i ==> data@[k] == CANVAS_DISCRIMINATOR@[k],
        decreases 8 - i,
    {
        if data[i] != CANVAS_DISCRIMINATOR[i] {
            assert(data@.subrange(0, 8)[i as int] != CANVAS_DISCRIMINATOR@[i as int]);
            return false;
        }
        i += 1;
    }
    assert(data@.subrange(0, 8) =~= CANVAS_DISCRIMINATOR@);
    true
}

impl Canvas {
    /// The stored form of the record.
    pub fn serialize(&self) -> (data: Vec<u8>)
        ensures
            data@ == self@.layout(),
            data@.len() == Canvas::SIZE,
    {
        let mut data: Vec<u8> = Vec::with_capacity(Canvas::SIZE);
        append(&mut data, &CANVAS_DISCRIMINATOR);
        append(&mut data, &self.authority.0);
        data.push(self.width);
        data.push(self.height);
        append(&mut data, &self._padding);
        append(&mut data, &self.last_editor.0);
        let count = u64_to_le_bytes(self.pixel_count);
        append(&mut data, count.as_slice());
        append(&mut data, &self.pixels);
        assert(data@ =~= self@.layout());
        data
    }

    /// Reads a record from its stored form. Succeeds exactly on data of the
    /// size of a record that begins with the tag of a canvas record; the
    /// fields are taken as they stand, whatever they hold.
    pub fn deserialize(data: &[u8]) -> (result: Result<Canvas, AccountError>)
        ensures
            match result {
                Ok(canvas) => parse(data@) == Ok::<CanvasView, AccountError>(canvas@),
                Err(error) => parse(data@) == Err::<CanvasView, AccountError>(error),
            },
    {
        if data.len() < 8 {
            return Err(AccountError::DiscriminatorNotFound);
        }
        if !has_discriminator(data) {
            return Err(AccountError::DiscriminatorMismatch);
        }
        if data.len() != Canvas::SIZE {
            return Err(AccountError::DidNotDeserialize);
        }
        let canvas = Canvas {
            authority: Pubkey(read::<32>(data, AUTHORITY_OFFSET)),
            width: data[WIDTH_OFFSET],
            height: data[HEIGHT_OFFSET],
            _padding: read::<6>(data, PADDING_OFFSET),
            last_editor: Pubkey(read::<32>(data, LAST_EDITOR_OFFSET)),
            pixel_count: u64_from_le_bytes(
                slice_subrange(data, PIXEL_COUNT_OFFSET, PIXELS_OFFSET),
            ),
            pixels: read::<4096>(data, PIXELS_OFFSET),
        };
        assert(canvas@ =~= parse(data@)->Ok_0);
        Ok(canvas)
    }
}

/// The stored form of every record has the same size.
pub proof fn lemma_layout_len(canvas: CanvasView)
    requires
        canvas.storable(),
    ensures
        canvas.layout().len() == Canvas::SIZE,
{
    lemma_auto_spec_u64_to_from_le_bytes();
}

/// Reading the stored form of a record gives the record back, field for
/// field.
pub proof fn lemma_parse_layout(canvas: CanvasView)
    requires
        canvas.storable(),
    ensures
        parse(canvas.layout()) == Ok::<CanvasView, AccountError>(canvas),
{
    lemma_auto_spec_u64_to_from_le_bytes();
    let data = canvas.layout();
    let count = spec_u64_to_le_bytes(canvas.pixel_count as u64);
    assert(data.subrange(0, 8) =~= CANVAS_DISCRIMINATOR@);
    assert(data.subrange(8, 40) =~= canvas.authority);
    assert(data.subrange(42, 48) =~= canvas.padding);
    assert(data.subrange(48, 80) =~= canvas.last_editor);
    assert(data.subrange(80, 88) =~= count);
    assert(data.subrange(88, 4184) =~= canvas.pixels);
    assert(parse(data)->Ok_0 =~= canvas);
}

/// Storing a record that was read from data gives the same data back, byte
/// for byte.
pub proof fn lemma_layout_parse(data: Seq<u8>)
    requires
        parse(data) is Ok,
    ensures
        parse(data)->Ok_0.storable(),
        parse(data)->Ok_0.layout() == data,
{
    lemma_auto_spec_u64_to_from_le_bytes();
    let canvas = parse(data)->Ok_0;
    assert(spec_u64_to_le_bytes(canvas.pixel_count as u64) == data.subrange(80, 88));
    assert(canvas.layout() =~= data);
}

/// A write keeps the shape that stored records have.
pub proof fn lemma_after_all_storable(canvas: CanvasView, calls: Seq<Placement>)
    requires
        canvas.storable(),
    ensures
        canvas.after_all(calls).storable(),
    decreases calls.len(),
{
    if calls.len() > 0 {
        lemma_after_all_storable(canvas, calls.drop_last());
    }
}

/// After any number of writes the record still survives being stored and
/// read again unchanged.
pub proof fn lemma_round_trip_after_writes(canvas: CanvasView, calls: Seq<Placement>)
    requires
        canvas.storable(),
    ensures
        parse(canvas.after_all(calls).layout()) == Ok::<CanvasView, AccountError>(
            canvas.after_all(calls),
        ),
{
    lemma_after_all_storable(canvas, calls);
    lemma_parse_layout(canvas.after_all(calls));
}

} // verus!
