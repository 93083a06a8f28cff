//! The canvas record and its mathematical model.

use vstd::prelude::*;

verus! {

/// Number of pixel columns.
pub const CANVAS_WIDTH: u8 = 64;

/// Number of pixel rows.
pub const CANVAS_HEIGHT: u8 = 64;

/// Number of colours in the palette; every pixel holds an index below it.
pub const PALETTE_SIZE: u8 = 16;

/// Number of pixels on the canvas: width times height.
pub const PIXEL_TOTAL: usize = 4096;

/// Identity of an account: the 32 bytes of its public key.
#[derive(Clone, Copy, Debug, PartialEq, Eq, Hash)]
pub struct Pubkey(pub [u8; 32]);

impl View for Pubkey {
    type V = Seq<u8>;

    open spec fn view(&self) -> Seq<u8> {
        self.0@
    }
}

impl Pubkey {
    /// A public key is determined by its bytes.
    pub proof fn lemma_view_injective(self, other: Pubkey)
        requires
            self@ == other@,
        ensures
            self == other,
    {
        assert(self.0 =~= other.0);
    }
}

/// 64x64 pixel canvas. Each pixel is a single byte (colour index 0-15),
/// stored in a flat array: the pixel at (x, y) is at index `y * 64 + x`.
#[derive(Clone, Copy, Debug, PartialEq, Eq)]
pub struct Canvas {
    /// Authority who initialized the canvas.
    pub authority: Pubkey,
    /// Canvas width (always 64).
    pub width: u8,
    /// Canvas height (always 64).
    pub height: u8,
    /// Padding for alignment.
    pub _padding: [u8; 6],
    /// Last editor's public key.
    pub last_editor: Pubkey,
    /// Total number of pixel placements.
    pub pixel_count: u64,
    /// Pixel data: 64x64 = 4096 bytes, each byte a colour index (0-15).
    pub pixels: [u8; 4096],
}

/// The canvas record as a mathematical value.
#[verifier::ext_equal]
pub struct CanvasView {
    pub authority: Seq<u8>,
    pub width: nat,
    pub height: nat,
    pub padding: Seq<u8>,
    pub last_editor: Seq<u8>,
    pub pixel_count: nat,
    pub pixels: Seq<u8>,
}

impl View for Canvas {
    type V = CanvasView;

    open spec fn view(&self) -> CanvasView {
        CanvasView {
            authority: self.authority@,
            width: self.width as nat,
            height: self.height as nat,
            padding: self._padding@,
            last_editor: self.last_editor@,
            pixel_count: self.pixel_count as nat,
            pixels: self.pixels@,
        }
    }
}

/// Position in the flat pixel array of the pixel at column `x`, row `y`.
pub open spec fn pixel_index(x: int, y: int) -> int {
    y * 64 + x
}

impl CanvasView {
    /// The shape that every record in memory has: field lengths and integer
    /// ranges. It says nothing about what the fields hold.
    pub open spec fn storable(self) -> bool {
        &&& self.authority.len() == 32
        &&& self.width <= u8::MAX
        &&& self.height <= u8::MAX
        &&& self.padding.len() == 6
        &&& self.last_editor.len() == 32
        &&& self.pixel_count <= u64::MAX
        &&& self.pixels.len() == 4096
    }

    /// The invariant of a canvas: it is 64 by 64, and every pixel holds a
    /// colour of the palette.
    pub open spec fn well_formed(self) -> bool {
        &&& self.storable()
        &&& self.width == 64
        &&& self.height == 64
        &&& forall|i: int| 0 <= i < 4096 ==> #[trigger] self.pixels[i] < 16
    }

    /// The colour of the pixel at column `x`, row `y`.
    pub open spec fn pixel(self, x: int, y: int) -> u8
        recommends
            0 <= x < 64,
            0 <= y < 64,
            self.pixels.len() == 4096,
    {
        self.pixels[pixel_index(x, y)]
    }

    /// The canvas right after `authority` has created it: all pixels hold
    /// colour 0 and nothing has been placed yet.
    pub open spec fn fresh(authority: Seq<u8>) -> CanvasView {
        CanvasView {
            authority,
            width: 64,
            height: 64,
            padding: Seq::new(6, |i: int| 0u8),
            last_editor: authority,
            pixel_count: 0,
            pixels: Seq::new(4096, |i: int| 0u8),
        }
    }

    /// The canvas after `painter` has set the pixel at (`x`, `y`) to `color`.
    /// The placement counter goes up by one and stays at its ceiling once
    /// it has reached it.
    pub open spec fn placed(self, painter: Seq<u8>, x: int, y: int, color: u8) -> CanvasView {
        CanvasView {
            last_editor: painter,
            pixel_count: if self.pixel_count < u64::MAX {
                self.pixel_count + 1
            } else {
                self.pixel_count
            },
            pixels: self.pixels.update(pixel_index(x, y), color),
            ..self
        }
    }
}

impl Canvas {
    /// Size in bytes of the stored record: 8 (tag) + 32 (authority) + 1
    /// (width) + 1 (height) + 6 (padding) + 32 (last editor) + 8 (placement
    /// counter) + 4096 (pixels).
    pub const SIZE: usize = 8 + 32 + 1 + 1 + 6 + 32 + 8 + 4096;

    /// Every record in memory has the storable shape.
    pub proof fn lemma_view_storable(self)
        ensures
            self@.storable(),
    {
    }

    /// A record is determined by its view.
    pub proof fn lemma_view_injective(self, other: Canvas)
        requires
            self@ == other@,
        ensures
            self == other,
    {
        assert(self.authority.0 =~= other.authority.0);
        assert(self._padding =~= other._padding);
        assert(self.last_editor.0 =~= other.last_editor.0);
        assert(self.pixels =~= other.pixels);
    }
}

} // verus!
