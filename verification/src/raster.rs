use vstd::prelude::*;
use vstd::slice::{slice_subrange, slice_to_vec};

verus! {

/// Bytes per pixel: red, green, blue and alpha, one byte each.
pub const CHANNELS: usize = 4;

/// What a raster is: its size in pixels and its bytes, row after row from the
/// top, four bytes to the pixel.
pub struct RasterView {
    pub width: nat,
    pub height: nat,
    pub pixels: Seq<u8>,
}

impl RasterView {
    /// The bytes are exactly those of `height` rows of `width` pixels, and
    /// both sides fit in thirty-two bits.
    pub open spec fn valid(self) -> bool {
        &&& self.pixels.len() == self.width * self.height * 4
        &&& self.width <= u32::MAX
        &&& self.height <= u32::MAX
    }

    /// Bytes in one row.
    pub open spec fn stride(self) -> nat {
        self.width * 4
    }

    /// The rows `from .. to` of this raster, as a raster of the same width.
    pub open spec fn rows(self, from: nat, to: nat) -> RasterView
        recommends
            from <= to <= self.height,
    {
        RasterView {
            width: self.width,
            height: (to - from) as nat,
            pixels: self.pixels.subrange(from * self.stride() as int, to * self.stride() as int),
        }
    }

    /// This raster with `below` set under it.
    pub open spec fn stack(self, below: RasterView) -> RasterView
        recommends
            self.width == below.width,
    {
        RasterView {
            width: self.width,
            height: self.height + below.height,
            pixels: self.pixels + below.pixels,
        }
    }
}

/// An image held as plain RGBA bytes.
#[derive(Debug)]
pub struct Raster {
    width: u32,
    height: u32,
    pixels: Vec<u8>,
}

impl View for Raster {
    type V = RasterView;

    closed spec fn view(&self) -> RasterView {
        RasterView {
            width: self.width as nat,
            height: self.height as nat,
            pixels: self.pixels@,
        }
    }
}

impl Clone for Raster {
    fn clone(&self) -> (copy: Raster)
        ensures
            copy@ == self@,
    {
        proof {
            use_type_invariant(self);
        }
        Raster {
            width: self.width,
            height: self.height,
            pixels: slice_to_vec(self.pixels.as_slice()),
        }
    }
}

impl Raster {
    #[verifier::type_invariant]
    spec fn inv(self) -> bool {
        self.pixels@.len() == self.width as nat * self.height as nat * 4
    }

    /// A raster of the given size over `pixels`; none unless `pixels` holds
    /// exactly `width * height` pixels of four bytes.
    pub fn new(width: u32, height: u32, pixels: Vec<u8>) -> (raster: Option<Raster>)
        ensures
            raster is Some <==> pixels@.len() == width as nat * height as nat * 4,
            raster matches Some(r) ==> r@ == (RasterView {
                width: width as nat,
                height: height as nat,
                pixels: pixels@,
            }),
    {
        proof {
            assert(width as nat * height as nat <= 0xFFFF_FFFFu64 * 0xFFFF_FFFFu64)
                by (nonlinear_arith)
                requires
                    width <= 0xFFFF_FFFFu32,
                    height <= 0xFFFF_FFFFu32,
            ;
        }
        let area: u64 = (width as u64) * (height as u64);
        let len: usize = pixels.len();
        if len % 4 == 0 && (len / 4) as u64 == area {
            Some(Raster { width, height, pixels })
        } else {
            None
        }
    }

    pub fn width(&self) -> (w: u32)
        ensures
            w == self@.width,
            self@.valid(),
    {
        proof {
            use_type_invariant(self);
        }
        self.width
    }

    pub fn height(&self) -> (h: u32)
        ensures
            h == self@.height,
            self@.valid(),
    {
        proof {
            use_type_invariant(self);
        }
        self.height
    }

    pub fn pixels(&self) -> (bytes: &Vec<u8>)
        ensures
            bytes@ == self@.pixels,
            self@.valid(),
    {
        proof {
            use_type_invariant(self);
        }
        &self.pixels
    }

    /// Gives up the raster for its bytes.
    pub fn into_pixels(self) -> (bytes: Vec<u8>)
        ensures
            bytes@ == self@.pixels,
    {
        self.pixels
    }

    /// A copy of the rows `from .. to`.
    pub fn copy_rows(&self, from: u32, to: u32) -> (part: Raster)
        requires
            from <= to <= self@.height,
        ensures
            part@ == self@.rows(from as nat, to as nat),
    {
        proof {
            use_type_invariant(self);
            lemma_row_range(
                self.width as nat,
                self.height as nat,
                from as nat,
                to as nat,
            );
        }
        if from == to {
            let part = Raster { width: self.width, height: 0, pixels: Vec::new() };
            assert(part@.pixels =~= self@.rows(from as nat, to as nat).pixels);
            return part;
        }
        let len: usize = self.pixels.len();
        assert(self.width as nat * 4 <= len);
        let stride: usize = (self.width as usize) * CHANNELS;
        assert(from as nat * stride as nat <= to as nat * stride as nat <= self.pixels@.len());
        let start: usize = (from as usize) * stride;
        let end: usize = (to as usize) * stride;
        let pixels = slice_to_vec(slice_subrange(self.pixels.as_slice(), start, end));
        Raster { width: self.width, height: to - from, pixels }
    }
}

/// Where the rows `from .. to` of a raster lie within its bytes.
pub proof fn lemma_row_range(width: nat, height: nat, from: nat, to: nat)
    requires
        from <= to <= height,
    ensures
        from * (width * 4) <= to * (width * 4) <= width * height * 4,
        to * (width * 4) - from * (width * 4) == width * (to - from) * 4,
        width * 4 <= width * height * 4 || height == 0,
{
    assert(from * (width * 4) <= to * (width * 4)) by (nonlinear_arith)
        requires
            from <= to,
    ;
    assert(to * (width * 4) <= width * height * 4) by (nonlinear_arith)
        requires
            to <= height,
    ;
    assert(to * (width * 4) - from * (width * 4) == width * (to - from) * 4)
        by (nonlinear_arith);
    assert(width * 4 <= width * height * 4 || height == 0) by (nonlinear_arith);
}

} // verus!
