//! The output raster: 8-bit RGB pixels, rows from top to bottom, pixels of a
//! row from left to right, three bytes each.
use vstd::prelude::*;

verus! {

/// The mathematical content of a raster.
pub ghost struct RasterView {
    pub width: nat,
    pub height: nat,
    pub bytes: Seq<u8>,
}

/// An image of `width × height` RGB pixels.
pub struct Raster {
    width: u32,
    height: u32,
    bytes: Vec<u8>,
}

/// Offset of the first byte of pixel `(x, y)` in a raster `width` pixels wide.
pub open spec fn pixel_offset(width: nat, x: nat, y: nat) -> int {
    3 * (y * width + x) as int
}

/// The byte that a channel value `level = floor(255 c)` quantizes to.
pub open spec fn quantized(level: int) -> u8 {
    if level < 0 {
        0
    } else if level > 255 {
        255
    } else {
        level as u8
    }
}

impl View for Raster {
    type V = RasterView;

    closed spec fn view(&self) -> RasterView {
        RasterView { width: self.width as nat, height: self.height as nat, bytes: self.bytes@ }
    }
}

proof fn lemma_pixel_in_bounds(w: nat, h: nat, x: nat, y: nat)
    requires
        x < w,
        y < h,
    ensures
        pixel_offset(w, x, y) + 3 <= 3 * w * h,
{
    assert(3 * (y * w + x) + 3 <= 3 * w * h) by (nonlinear_arith)
        requires
            x < w,
            y < h,
    ;
}

impl Raster {
    /// The raster's bytes are exactly its pixels.
    pub open spec fn wf(&self) -> bool {
        self@.bytes.len() == 3 * self@.width * self@.height
    }

    /// A black raster of `width × height` pixels, or `None` when its bytes
    /// would not fit in memory's address range.
    pub fn new(width: u32, height: u32) -> (r: Option<Raster>)
        ensures
            r is None <==> 3 * width * height > usize::MAX,
            r matches Some(img) ==> {
                &&& img.wf()
                &&& img@.width == width
                &&& img@.height == height
                &&& forall|i: int| 0 <= i < img@.bytes.len() ==> #[trigger] img@.bytes[i] == 0
            },
    {
        assert(3 * (width as int) * (height as int) <= 3 * 0x1_0000_0000 * 0x1_0000_0000)
            by (nonlinear_arith)
            requires
                width <= u32::MAX,
                height <= u32::MAX,
        ;
        let n: u128 = 3 * (width as u128) * (height as u128);
        if n > usize::MAX as u128 {
            return None;
        }
        let n = n as usize;
        let mut bytes: Vec<u8> = Vec::new();
        while bytes.len() < n
            invariant
                bytes.len() <= n,
                forall|i: int| 0 <= i < bytes.len() ==> #[trigger] bytes@[i] == 0,
            decreases n - bytes.len(),
        {
            bytes.push(0);
        }
        Some(Raster { width, height, bytes })
    }

    /// Width in pixels.
    pub fn width(&self) -> (r: u32)
        ensures
            r == self@.width,
    {
        self.width
    }

    /// Height in pixels.
    pub fn height(&self) -> (r: u32)
        ensures
            r == self@.height,
    {
        self.height
    }

    /// Sets pixel `(x, y)` to `rgb`; no other byte changes.
    pub fn put_pixel(&mut self, x: u32, y: u32, rgb: [u8; 3])
        requires
            old(self).wf(),
            x < old(self)@.width,
            y < old(self)@.height,
        ensures
            final(self).wf(),
            final(self)@.width == old(self)@.width,
            final(self)@.height == old(self)@.height,
            final(self)@.bytes == old(self)@.bytes.update(
                pixel_offset(old(self)@.width, x as nat, y as nat),
                rgb[0],
            ).update(pixel_offset(old(self)@.width, x as nat, y as nat) + 1, rgb[1]).update(
                pixel_offset(old(self)@.width, x as nat, y as nat) + 2,
                rgb[2],
            ),
    {
        proof {
            lemma_pixel_in_bounds(self.width as nat, self.height as nat, x as nat, y as nat);
            assert(3 * ((y as int) * (self.width as int) + x as int) + 3 <= self.bytes.len());
        }
        let i = 3 * ((y as usize) * (self.width as usize) + (x as usize));
        self.bytes.set(i, rgb[0]);
        self.bytes.set(i + 1, rgb[1]);
        self.bytes.set(i + 2, rgb[2]);
    }

    /// The colour of pixel `(x, y)`.
    pub fn pixel(&self, x: u32, y: u32) -> (r: [u8; 3])
        requires
            self.wf(),
            x < self@.width,
            y < self@.height,
        ensures
            r[0] == self@.bytes[pixel_offset(self@.width, x as nat, y as nat)],
            r[1] == self@.bytes[pixel_offset(self@.width, x as nat, y as nat) + 1],
            r[2] == self@.bytes[pixel_offset(self@.width, x as nat, y as nat) + 2],
    {
        proof {
            lemma_pixel_in_bounds(self.width as nat, self.height as nat, x as nat, y as nat);
            assert(3 * ((y as int) * (self.width as int) + x as int) + 3 <= self.bytes.len());
        }
        let i = 3 * ((y as usize) * (self.width as usize) + (x as usize));
        [self.bytes[i], self.bytes[i + 1], self.bytes[i + 2]]
    }

    /// The raster's bytes, row after row from the top.
    pub fn into_bytes(self) -> (r: Vec<u8>)
        ensures
            r@ == self@.bytes,
    {
        self.bytes
    }
}

/// The pixel visited `index`-th when a raster `width` pixels wide is walked
/// row by row from the top, each row from the left.
pub fn pixel_at(index: u64, width: u32) -> (r: (u32, u32))
    requires
        width > 0,
        index < width as u64 * u32::MAX as u64,
    ensures
        r.0 as int == index as int % width as int,
        r.1 as int == index as int / width as int,
{
    let w = width as u64;
    proof {
        assert(index as int / w as int <= u32::MAX) by (nonlinear_arith)
            requires
                w > 0,
                index < w * u32::MAX,
        ;
    }
    ((index % w) as u32, (index / w) as u32)
}

/// Quantizes a channel to a byte: `level` is `floor(255 c)` for the
/// gamma-encoded channel value `c`, clamped to `0 ..= 255`.
pub fn quantize(level: i64) -> (r: u8)
    ensures
        r == quantized(level as int),
{
    if level < 0 {
        0
    } else if level > 255 {
        255
    } else {
        level as u8
    }
}

} // verus!
