//! A finished frame: pixels already encoded for display as RGBA8, row by row
//! from the top-left pixel.
use vstd::prelude::*;

verus! {

/// Byte `k` of the row-major RGBA8 buffer of `pixels`: channel `k % 4` of
/// pixel `k / 4`.
pub open spec fn buffer_byte(pixels: Seq<[u8; 4]>, k: int) -> u8 {
    pixels[k / 4]@[k % 4]
}

pub struct Image {
    dimension: (u32, u32),
    pixels: Vec<[u8; 4]>,
}

impl Image {
    pub closed spec fn width(&self) -> nat {
        self.dimension.0 as nat
    }

    pub closed spec fn height(&self) -> nat {
        self.dimension.1 as nat
    }

    pub closed spec fn pixels(&self) -> Seq<[u8; 4]> {
        self.pixels@
    }

    /// Holds one pixel for each position of the frame.
    pub open spec fn wf(&self) -> bool {
        self.pixels().len() == self.width() * self.height()
    }

    /// The frame of `width` by `height` pixels, given row by row.
    pub fn new(width: u32, height: u32, pixels: Vec<[u8; 4]>) -> (r: Self)
        requires
            pixels@.len() == width as int * height as int,
        ensures
            r.wf(),
            r.width() == width,
            r.height() == height,
            r.pixels() == pixels@,
    {
        Image { dimension: (width, height), pixels }
    }

    /// Width and height in pixels.
    pub fn dimension(&self) -> (r: (u32, u32))
        ensures
            r.0 == self.width(),
            r.1 == self.height(),
    {
        self.dimension
    }

    /// The pixels, row by row.
    pub fn pixels_rgba8(&self) -> (r: &Vec<[u8; 4]>)
        ensures
            r@ == self.pixels(),
    {
        &self.pixels
    }

    /// The frame as one buffer of bytes, four per pixel (red, green, blue,
    /// alpha), in the order of the pixels.
    pub fn to_rgba8_bytes(&self) -> (r: Vec<u8>)
        requires
            4 * self.pixels().len() <= usize::MAX,
        ensures
            r@.len() == 4 * self.pixels().len(),
            forall|k: int| 0 <= k < r@.len() ==> #[trigger] r@[k] == buffer_byte(self.pixels(), k),
    {
        let n = self.pixels.len();
        let mut buffer: Vec<u8> = Vec::with_capacity(4 * n);
        let mut i: usize = 0;
        while i < n
            invariant
                n == self.pixels@.len(),
                4 * n <= usize::MAX,
                i <= n,
                buffer@.len() == 4 * i,
                forall|k: int|
                    0 <= k < buffer@.len() ==> #[trigger] buffer@[k] == buffer_byte(
                        self.pixels@,
                        k,
                    ),
            decreases n - i,
        {
            let px: [u8; 4] = self.pixels[i];
            let mut c: usize = 0;
            while c < 4
                invariant
                    n == self.pixels@.len(),
                    4 * n <= usize::MAX,
                    i < n,
                    c <= 4,
                    px == self.pixels@[i as int],
                    buffer@.len() == 4 * i + c,
                    forall|k: int|
                        0 <= k < buffer@.len() ==> #[trigger] buffer@[k] == buffer_byte(
                            self.pixels@,
                            k,
                        ),
                decreases 4 - c,
            {
                assert((4 * i + c) / 4 == i as int && (4 * i + c) % 4 == c as int);
                buffer.push(px[c]);
                c = c + 1;
            }
            i = i + 1;
        }
        buffer
    }
}

} // verus!
