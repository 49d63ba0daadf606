//! The drawing surface: an RGBA pixel buffer addressed row by row, four bytes
//! per pixel, with the writes that the sketch tools make to it.
use vstd::prelude::*;

verus! {

/// Bytes that each pixel takes in a canvas texture: red, green, blue, alpha.
pub const BYTES_PER_PIXEL: usize = 4;

/// An opaque colour, as the three channels that drawing writes.
#[derive(Clone, Copy, Debug, PartialEq, Eq, Structural)]
pub struct Rgb {
    pub r: u8,
    pub g: u8,
    pub b: u8,
}

pub open spec fn black() -> Rgb {
    Rgb { r: 0, g: 0, b: 0 }
}

pub open spec fn white() -> Rgb {
    Rgb { r: 255, g: 255, b: 255 }
}

impl Rgb {
    /// The ink colour of a stroke.
    pub fn black() -> (c: Rgb)
        ensures
            c == black(),
    {
        Rgb { r: 0, g: 0, b: 0 }
    }

    /// The paper colour of a cleared canvas.
    pub fn white() -> (c: Rgb)
        ensures
            c == white(),
    {
        Rgb { r: 255, g: 255, b: 255 }
    }
}

/// Position of pixel `(x, y)` in row-major order on a surface `width` pixels wide.
pub open spec fn pixel_index(width: int, x: int, y: int) -> int {
    y * width + x
}

/// Whether `(x, y)` names a pixel of a `width` by `height` surface.
pub open spec fn on_surface(width: int, height: int, x: int, y: int) -> bool {
    0 <= x < width && 0 <= y < height
}

/// The colour channels of pixel `(x, y)` in an RGBA byte buffer.
pub open spec fn rgb_at(bytes: Seq<u8>, width: int, x: int, y: int) -> Rgb {
    let o = 4 * pixel_index(width, x, y);
    Rgb { r: bytes[o], g: bytes[o + 1], b: bytes[o + 2] }
}

/// The alpha channel of pixel `(x, y)` in an RGBA byte buffer.
pub open spec fn alpha_at(bytes: Seq<u8>, width: int, x: int, y: int) -> u8 {
    bytes[4 * pixel_index(width, x, y) + 3]
}

/// A pixel of the surface lies inside the buffer.
pub proof fn lemma_pixel_index_bounds(width: int, height: int, x: int, y: int)
    requires
        on_surface(width, height, x, y),
    ensures
        0 <= pixel_index(width, x, y) < width * height,
{
    assert(0 <= y * width + x < width * height) by (nonlinear_arith)
        requires
            0 <= x < width,
            0 <= y < height,
    ;
}

/// Two pixels of one row width have distinct positions.
pub proof fn lemma_pixel_index_distinct(width: int, x1: int, y1: int, x2: int, y2: int)
    requires
        0 <= x1 < width,
        0 <= x2 < width,
        0 <= y1,
        0 <= y2,
        x1 != x2 || y1 != y2,
    ensures
        pixel_index(width, x1, y1) != pixel_index(width, x2, y2),
{
    if y1 < y2 {
        assert(y1 * width + width <= y2 * width) by (nonlinear_arith)
            requires
                y1 < y2,
                0 <= width,
        ;
    } else if y2 < y1 {
        assert(y2 * width + width <= y1 * width) by (nonlinear_arith)
            requires
                y2 < y1,
                0 <= width,
        ;
    }
}

/// The pixel buffer that the user draws into: `width * height` pixels of
/// four bytes each, row after row.
#[derive(Debug)]
pub struct CanvasTexture {
    width: u32,
    height: u32,
    data: Vec<u8>,
}

impl CanvasTexture {
    /// Width in pixels.
    pub closed spec fn spec_width(&self) -> u32 {
        self.width
    }

    /// Height in pixels.
    pub closed spec fn spec_height(&self) -> u32 {
        self.height
    }

    /// The raw RGBA bytes.
    pub closed spec fn bytes(&self) -> Seq<u8> {
        self.data@
    }

    /// The buffer holds exactly four bytes for every pixel.
    pub open spec fn wf(&self) -> bool {
        self.bytes().len() == self.spec_width() * self.spec_height() * 4
    }

    /// Whether `(x, y)` names a pixel of this canvas.
    pub open spec fn contains(&self, x: int, y: int) -> bool {
        on_surface(self.spec_width() as int, self.spec_height() as int, x, y)
    }

    /// Colour of pixel `(x, y)`.
    pub open spec fn rgb(&self, x: int, y: int) -> Rgb {
        rgb_at(self.bytes(), self.spec_width() as int, x, y)
    }

    /// Alpha of pixel `(x, y)`.
    pub open spec fn alpha(&self, x: int, y: int) -> u8 {
        alpha_at(self.bytes(), self.spec_width() as int, x, y)
    }

    /// Takes over an RGBA buffer of `width` by `height` pixels; `None` when the
    /// buffer does not hold exactly four bytes per pixel.
    pub fn from_rgba(width: u32, height: u32, data: Vec<u8>) -> (r: Option<CanvasTexture>)
        ensures
            data@.len() == width * height * 4 <==> r is Some,
            r matches Some(t) ==> t.wf() && t.spec_width() == width && t.spec_height() == height
                && t.bytes() == data@,
    {
        let data_len = data.len();
        let pixels = (width as usize).checked_mul(height as usize);
        if pixels.is_none() {
            assert(width * height * 4 > usize::MAX) by (nonlinear_arith)
                requires
                    width * height > usize::MAX,
            ;
            return None;
        }
        let pixels = pixels.unwrap();
        let len = pixels.checked_mul(BYTES_PER_PIXEL);
        if len.is_none() {
            return None;
        }
        let len = len.unwrap();
        assert(len == width * height * 4);
        if data_len == len {
            Some(CanvasTexture { width, height, data })
        } else {
            None
        }
    }

    /// Gives the RGBA buffer back.
    pub fn into_rgba(self) -> (r: Vec<u8>)
        ensures
            r@ == self.bytes(),
    {
        self.data
    }

    #[verifier::when_used_as_spec(spec_width)]
    pub fn width(&self) -> (r: u32)
        ensures
            r == self.spec_width(),
    {
        self.width
    }

    #[verifier::when_used_as_spec(spec_height)]
    pub fn height(&self) -> (r: u32)
        ensures
            r == self.spec_height(),
    {
        self.height
    }

    /// Paints pixel `(x, y)`, given in a wide type so that callers may step
    /// past the edges; a position off the surface leaves it as it was.
    fn paint(&mut self, x: i64, y: i64, color: Rgb)
        requires
            old(self).wf(),
        ensures
            final(self).wf(),
            final(self).spec_width() == old(self).spec_width(),
            final(self).spec_height() == old(self).spec_height(),
            forall|px: int, py: int|
                #![trigger final(self).rgb(px, py)]
                old(self).contains(px, py) ==> final(self).rgb(px, py) == (if px == x && py
                    == y {
                    color
                } else {
                    old(self).rgb(px, py)
                }) && final(self).alpha(px, py) == old(self).alpha(px, py),
    {
        if x < 0 || self.width as i64 <= x || y < 0 || self.height as i64 <= y {
            return ;
        }
        let data_len = self.data.len();
        let ghost w = self.width as int;
        let ghost h = self.height as int;
        proof {
            lemma_pixel_index_bounds(w, h, x as int, y as int);
            assert(y * w <= y * w + x);
            assert(w * h <= usize::MAX);
        }
        let idx: usize = y as usize * self.width as usize + x as usize;
        let offset: usize = idx * BYTES_PER_PIXEL;
        self.data.set(offset, color.r);
        self.data.set(offset + 1, color.g);
        self.data.set(offset + 2, color.b);
        assert forall|px: int, py: int| #[trigger]
            old(self).contains(px, py) implies self.rgb(px, py) == (if px == x && py == y {
                color
            } else {
                old(self).rgb(px, py)
            }) && self.alpha(px, py) == old(self).alpha(px, py) by {
            lemma_pixel_index_bounds(w, h, px, py);
            if px != x || py != y {
                lemma_pixel_index_distinct(w, px, py, x as int, y as int);
            }
        }
    }

    /// Paints pixel `(x, y)` in `color`; a position off the surface leaves the
    /// canvas as it was. Only the colour channels are written, never alpha.
    pub fn set_pixel(&mut self, x: i32, y: i32, color: Rgb)
        requires
            old(self).wf(),
        ensures
            final(self).wf(),
            final(self).spec_width() == old(self).spec_width(),
            final(self).spec_height() == old(self).spec_height(),
            forall|px: int, py: int|
                #![trigger final(self).rgb(px, py)]
                old(self).contains(px, py) ==> final(self).rgb(px, py) == (if px == x && py
                    == y {
                    color
                } else {
                    old(self).rgb(px, py)
                }) && final(self).alpha(px, py) == old(self).alpha(px, py),
    {
        self.paint(x as i64, y as i64, color);
    }

    /// The colour channels of every pixel, three bytes each, in the canvas's
    /// row-major order: the layout of an RGB image of the same size.
    pub fn rgb_pixels(&self) -> (r: Vec<u8>)
        requires
            self.wf(),
        ensures
            r@ == rgb_bytes(self.bytes()),
    {
        let n = self.data.len();
        let pixels = n / BYTES_PER_PIXEL;
        let mut out: Vec<u8> = Vec::new();
        let mut p: usize = 0;
        while p < pixels
            invariant
                n == self.data@.len(),
                pixels == n / 4,
                p <= pixels,
                out@.len() == 3 * p,
                forall|k: int|
                    0 <= k < 3 * p ==> #[trigger] out@[k] == self.data@[4 * (k / 3) + k % 3],
            decreases pixels - p,
        {
            let o = p * BYTES_PER_PIXEL;
            out.push(self.data[o]);
            out.push(self.data[o + 1]);
            out.push(self.data[o + 2]);
            assert forall|k: int| 0 <= k < 3 * (p + 1) implies #[trigger] out@[k]
                == self.data@[4 * (k / 3) + k % 3] by {
                if k >= 3 * p {
                    assert(k / 3 == p);
                }
            }
            p = p + 1;
        }
        assert(out@ =~= rgb_bytes(self.data@));
        out
    }

    /// Whites out every pixel, leaving alpha as it was.
    pub fn clear(&mut self)
        requires
            old(self).wf(),
        ensures
            final(self).wf(),
            final(self).spec_width() == old(self).spec_width(),
            final(self).spec_height() == old(self).spec_height(),
            forall|px: int, py: int|
                #![trigger final(self).rgb(px, py)]
                old(self).contains(px, py) ==> final(self).rgb(px, py) == white()
                    && final(self).alpha(px, py) == old(self).alpha(px, py),
    {
        let n = self.data.len();
        let ghost before = self.data@;
        let mut i: usize = 0;
        while i < n
            invariant
                self.wf(),
                self.width == old(self).width,
                self.height == old(self).height,
                before == old(self).data@,
                n == self.data@.len(),
                n % 4 == 0,
                i % 4 == 0,
                i <= n,
                forall|k: int|
                    0 <= k < n ==> #[trigger] self.data@[k] == (if k < i && k % 4 != 3 {
                        255u8
                    } else {
                        before[k]
                    }),
            decreases n - i,
        {
            self.data.set(i, 255);
            self.data.set(i + 1, 255);
            self.data.set(i + 2, 255);
            i = i + BYTES_PER_PIXEL;
        }
        let ghost w = self.width as int;
        let ghost h = self.height as int;
        assert forall|px: int, py: int| #[trigger]
            old(self).contains(px, py) implies self.rgb(px, py) == white() && self.alpha(px, py)
                == old(self).alpha(px, py) by {
            lemma_pixel_index_bounds(w, h, px, py);
            let o = 4 * pixel_index(w, px, py);
            assert(o + 3 < n);
            assert(self.data@[o] == 255u8);
            assert(self.data@[o + 1] == 255u8);
            assert(self.data@[o + 2] == 255u8);
            assert(self.data@[o + 3] == before[o + 3]);
        }
    }

    /// Blackens the square of `STAMP_SPAN + 1` by `STAMP_SPAN + 1` pixels whose
    /// top left corner is `(x, y)`, clipped to the surface. This is the mark
    /// that each point of a brush leaves.
    pub fn stamp(&mut self, x: i32, y: i32)
        requires
            old(self).wf(),
        ensures
            final(self).wf(),
            final(self).spec_width() == old(self).spec_width(),
            final(self).spec_height() == old(self).spec_height(),
            forall|px: int, py: int|
                #![trigger final(self).rgb(px, py)]
                old(self).contains(px, py) ==> final(self).rgb(px, py) == (if in_stamp(
                    x as int,
                    y as int,
                    px,
                    py,
                ) {
                    black()
                } else {
                    old(self).rgb(px, py)
                }) && final(self).alpha(px, py) == old(self).alpha(px, py),
    {
        let ink = Rgb::black();
        let mut i: i64 = 0;
        while i <= STAMP_SPAN
            invariant
                0 <= i <= STAMP_SPAN + 1,
                self.wf(),
                self.width == old(self).width,
                self.height == old(self).height,
                ink == black(),
                forall|px: int, py: int|
                    #![trigger self.rgb(px, py)]
                    old(self).contains(px, py) ==> self.rgb(px, py) == (if x <= px < x + i && y
                        <= py <= y + STAMP_SPAN {
                        black()
                    } else {
                        old(self).rgb(px, py)
                    }) && self.alpha(px, py) == old(self).alpha(px, py),
            decreases STAMP_SPAN + 1 - i,
        {
            let mut j: i64 = 0;
            while j <= STAMP_SPAN
                invariant
                    0 <= i <= STAMP_SPAN,
                    0 <= j <= STAMP_SPAN + 1,
                    self.wf(),
                    self.width == old(self).width,
                    self.height == old(self).height,
                    ink == black(),
                    forall|px: int, py: int|
                        #![trigger self.rgb(px, py)]
                        old(self).contains(px, py) ==> self.rgb(px, py) == (if (x <= px < x + i
                            && y <= py <= y + STAMP_SPAN) || (px == x + i && y <= py < y + j) {
                            black()
                        } else {
                            old(self).rgb(px, py)
                        }) && self.alpha(px, py) == old(self).alpha(px, py),
                decreases STAMP_SPAN + 1 - j,
            {
                self.paint(x as i64 + i, y as i64 + j, ink);
                j = j + 1;
            }
            i = i + 1;
        }
    }
}

/// The colour channels of an RGBA byte buffer, alpha dropped: three bytes
/// for each whole pixel.
pub open spec fn rgb_bytes(rgba: Seq<u8>) -> Seq<u8> {
    Seq::new((rgba.len() / 4) * 3, |k: int| rgba[4 * (k / 3) + k % 3])
}

/// How far a stamped square reaches past its corner, in pixels, on each axis.
pub const STAMP_SPAN: i64 = 5;

/// Whether pixel `(px, py)` lies in the square stamped at `(x, y)`.
pub open spec fn in_stamp(x: int, y: int, px: int, py: int) -> bool {
    x <= px <= x + STAMP_SPAN && y <= py <= y + STAMP_SPAN
}

} // verus!
