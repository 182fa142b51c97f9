use vstd::prelude::*;

use crate::Pixel;

verus! {

/// A rectangular pixel grid stored in row-major order: the pixel at
/// `(x, y)` sits at position `y * width + x`.
pub struct Grid {
    pub width: u32,
    pub height: u32,
    pub pixels: Vec<Pixel>,
}

impl Grid {
    /// The grid holds exactly one pixel per coordinate.
    pub open spec fn wf(self) -> bool {
        self.pixels@.len() == self.width * self.height
    }

    /// The pixel stored at `(x, y)`.
    pub open spec fn spec_at(self, x: int, y: int) -> Pixel {
        self.pixels@[y * self.width + x]
    }

    /// Reads the pixel at `(x, y)`.
    pub fn at(&self, x: u32, y: u32) -> (p: Pixel)
        requires
            self.wf(),
            x < self.width,
            y < self.height,
        ensures
            p == self.spec_at(x as int, y as int),
    {
        let len: usize = self.pixels.len();
        proof {
            lemma_row_major_in_range(
                x as int,
                y as int,
                self.width as int,
                self.height as int,
            );
            assert((y as int) * (self.width as int) + (x as int) < len);
        }
        self.pixels[(y as usize) * (self.width as usize) + (x as usize)]
    }

    /// Builds a grid from raw bytes laid out as `r, g, b, a` per pixel in
    /// row-major order, as an 8-bit RGBA decoder hands them out. Returns
    /// `None` exactly when the byte count does not match the dimensions.
    pub fn from_rgba_bytes(width: u32, height: u32, bytes: &Vec<u8>) -> (r: Option<Grid>)
        ensures
            match r {
                Some(g) => {
                    &&& bytes@.len() == 4 * (width * height)
                    &&& g.wf()
                    &&& g.width == width
                    &&& g.height == height
                    &&& forall|k: int|
                        0 <= k < g.pixels@.len() ==> g.pixels@[k] == (Pixel {
                            r: bytes@[4 * k],
                            g: bytes@[4 * k + 1],
                            b: bytes@[4 * k + 2],
                            a: bytes@[4 * k + 3],
                        })
                },
                None => bytes@.len() != 4 * (width * height),
            },
    {
        proof {
            assert((width as int) * (height as int) < 0x1_0000_0000_0000_0000) by (nonlinear_arith)
                requires
                    width < 0x1_0000_0000,
                    height < 0x1_0000_0000,
            ;
        }
        let n64: u64 = (width as u64) * (height as u64);
        if n64 > (usize::MAX / 4) as u64 {
            let blen: usize = bytes.len();
            proof {
                assert(4 * ((usize::MAX as int) / 4) + 3 >= usize::MAX as int);
                assert(blen < 4 * (width * height));
            }
            return None;
        }
        let n: usize = n64 as usize;
        if bytes.len() != 4 * n {
            return None;
        }
        let mut pixels: Vec<Pixel> = Vec::new();
        let mut k: usize = 0;
        while k < n
            invariant
                k <= n,
                4 * n == bytes@.len(),
                4 * n <= usize::MAX,
                pixels@.len() == k,
                forall|j: int|
                    0 <= j < k ==> pixels@[j] == (Pixel {
                        r: bytes@[4 * j],
                        g: bytes@[4 * j + 1],
                        b: bytes@[4 * j + 2],
                        a: bytes@[4 * j + 3],
                    }),
            decreases n - k,
        {
            let p = Pixel {
                r: bytes[4 * k],
                g: bytes[4 * k + 1],
                b: bytes[4 * k + 2],
                a: bytes[4 * k + 3],
            };
            pixels.push(p);
            k = k + 1;
        }
        Some(Grid { width, height, pixels })
    }

    /// Flattens the grid back into raw `r, g, b, a` bytes in row-major
    /// order, the layout an 8-bit RGBA encoder expects.
    pub fn to_rgba_bytes(&self) -> (r: Vec<u8>)
        requires
            self.wf(),
            self.pixels@.len() <= usize::MAX / 4,
        ensures
            r@.len() == 4 * self.pixels@.len(),
            forall|k: int|
                0 <= k < self.pixels@.len() ==> {
                    &&& r@[4 * k] == self.pixels@[k].r
                    &&& r@[4 * k + 1] == self.pixels@[k].g
                    &&& r@[4 * k + 2] == self.pixels@[k].b
                    &&& r@[4 * k + 3] == self.pixels@[k].a
                },
    {
        let mut out: Vec<u8> = Vec::new();
        let mut k: usize = 0;
        let n: usize = self.pixels.len();
        while k < n
            invariant
                k <= n,
                n == self.pixels@.len(),
                n <= usize::MAX / 4,
                out@.len() == 4 * k,
                forall|j: int|
                    0 <= j < k ==> {
                        &&& out@[4 * j] == self.pixels@[j].r
                        &&& out@[4 * j + 1] == self.pixels@[j].g
                        &&& out@[4 * j + 2] == self.pixels@[j].b
                        &&& out@[4 * j + 3] == self.pixels@[j].a
                    },
            decreases n - k,
        {
            let p = self.pixels[k];
            out.push(p.r);
            out.push(p.g);
            out.push(p.b);
            out.push(p.a);
            k = k + 1;
        }
        out
    }
}

/// Row-major addressing stays inside the pixel vector.
proof fn lemma_row_major_in_range(x: int, y: int, w: int, h: int)
    by (nonlinear_arith)
    requires
        0 <= x < w,
        0 <= y < h,
    ensures
        0 <= y * w + x < w * h,
{
}

} // verus!
