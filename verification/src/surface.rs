//! The drawing-surface capability and an in-memory frame-buffer backend.
//!
//! A surface is a row-major `width x height` grid of [`Color`] pixels.  The
//! linear index of pixel `(x, y)` is `y * width + x`; in a byte-addressed
//! buffer the pixel occupies the four bytes starting at `4 * (y * width + x)`.
//! All composite drawing is built on one batched primitive, `set_range`.

use crate::color::Color;
use vstd::prelude::*;

verus! {

/// The row-major linear index of pixel `(x, y)` on a surface of the given
/// width.
pub open spec fn pixel_index(width: int, x: int, y: int) -> int {
    y * width + x
}

/// The component of `c` that a byte-addressed frame buffer stores at offset
/// `k` within a pixel, `0 <= k < 4`: the storage order is `r, g, b, a`.
pub open spec fn color_byte(c: Color, k: int) -> u8 {
    if k == 0 {
        c.r
    } else if k == 1 {
        c.g
    } else if k == 2 {
        c.b
    } else {
        c.a
    }
}

/// The capability every pixel backend offers: raw pixel reads and writes, a
/// batched range write, bounds checking, and a present operation.  The two
/// composite operations `clear_screen` and `filled_rect` are derived from
/// `set_range` and need never be overridden.
pub trait DrawingSurface: Sized {
    /// The backend-specific error of the present operation.
    type Error;

    /// The pixel grid, flattened row-major: pixel `(x, y)` is at
    /// `pixel_index(width, x, y)`.
    spec fn pixels(&self) -> Seq<Color>;

    /// The width, in pixels.
    spec fn width_spec(&self) -> int;

    /// The height, in pixels.
    spec fn height_spec(&self) -> int;

    /// The backend's internal well-formedness condition.
    spec fn inv(&self) -> bool;

    /// A well-formed surface has dimensions that fit the index arithmetic
    /// of the composite operations, and one pixel per grid cell.
    proof fn lemma_inv(&self)
        requires
            self.inv(),
        ensures
            0 <= self.width_spec() <= u32::MAX,
            0 <= self.height_spec() <= u32::MAX,
            self.width_spec() * self.height_spec() <= u32::MAX,
            self.pixels().len() == self.width_spec() * self.height_spec(),
    ;

    /// The current width in pixels.
    fn width(&self) -> (w: u32)
        requires
            self.inv(),
        ensures
            w == self.width_spec(),
    ;

    /// The current height in pixels.
    fn height(&self) -> (h: u32)
        requires
            self.inv(),
        ensures
            h == self.height_spec(),
    ;

    /// Pushes the in-memory buffer to the display.  May fail with a
    /// backend-specific error; it never changes the buffer contents.
    fn blit(&mut self) -> (r: Result<(), Self::Error>)
        requires
            old(self).inv(),
        ensures
            final(self).inv(),
            final(self).pixels() == old(self).pixels(),
            final(self).width_spec() == old(self).width_spec(),
            final(self).height_spec() == old(self).height_spec(),
    ;

    /// The color at pixel `(x, y)`.  Callers must bounds-check first.
    fn get(&self, x: u32, y: u32) -> (c: Color)
        requires
            self.inv(),
            x < self.width_spec(),
            y < self.height_spec(),
        ensures
            c == self.pixels()[pixel_index(self.width_spec(), x as int, y as int)],
    ;

    /// Writes `color` at pixel `(x, y)`.  Callers must bounds-check first.
    fn set(&mut self, x: u32, y: u32, color: &Color)
        requires
            old(self).inv(),
            x < old(self).width_spec(),
            y < old(self).height_spec(),
        ensures
            final(self).inv(),
            final(self).width_spec() == old(self).width_spec(),
            final(self).height_spec() == old(self).height_spec(),
            final(self).pixels() == old(self).pixels().update(
                pixel_index(old(self).width_spec(), x as int, y as int),
                *color,
            ),
    ;

    /// Writes `color` to every pixel whose linear index falls in the
    /// half-open `range`.  This is the single batched-write primitive that
    /// all composite drawing is built on.
    fn set_range(&mut self, range: core::ops::Range<usize>, color: &Color)
        requires
            old(self).inv(),
            range.start <= range.end,
            range.end <= old(self).width_spec() * old(self).height_spec(),
        ensures
            final(self).inv(),
            final(self).width_spec() == old(self).width_spec(),
            final(self).height_spec() == old(self).height_spec(),
            final(self).pixels().len() == old(self).pixels().len(),
            forall|p: int|
                range.start <= p < range.end ==> final(self).pixels()[p] == *color,
            forall|p: int|
                0 <= p < old(self).pixels().len() && !(range.start <= p < range.end)
                    ==> final(self).pixels()[p] == old(self).pixels()[p],
    ;

    /// Maps signed coordinates to the unsigned pair when `0 <= x < width`
    /// and `0 <= y < height`, and signals absence otherwise.
    fn in_bounds(&self, x: i64, y: i64) -> (r: Option<(u32, u32)>)
        requires
            self.inv(),
        ensures
            r == if 0 <= x < self.width_spec() && 0 <= y < self.height_spec() {
                Some((x as u32, y as u32))
            } else {
                None::<(u32, u32)>
            },
    ;

    /// Sets every pixel of the surface to `color`, as one batched write
    /// spanning the whole buffer.
    fn clear_screen(&mut self, color: &Color)
        requires
            old(self).inv(),
        ensures
            final(self).inv(),
            final(self).width_spec() == old(self).width_spec(),
            final(self).height_spec() == old(self).height_spec(),
            final(self).pixels().len() == old(self).pixels().len(),
            forall|p: int|
                0 <= p < final(self).pixels().len() ==> final(self).pixels()[p] == *color,
    {
        proof {
            self.lemma_inv();
        }
        let h = self.height();
        let w = self.width();
        self.set_range(0usize..(h * w) as usize, color);
    }

    /// Fills the rectangle of pixels with `x` in `[start_x, start_x + width)`
    /// and `y` in `[start_y, start_y + height)`, one batched write per row.
    /// A write never crosses a row boundary, so a rectangle narrower than
    /// the surface does not bleed into the next row.  Callers must keep the
    /// rectangle inside the surface.
    fn filled_rect(&mut self, start_x: u32, start_y: u32, width: u32, height: u32, color: &Color)
        requires
            old(self).inv(),
            start_x + width <= old(self).width_spec(),
            start_y + height <= old(self).height_spec(),
        ensures
            final(self).inv(),
            final(self).width_spec() == old(self).width_spec(),
            final(self).height_spec() == old(self).height_spec(),
            final(self).pixels().len() == old(self).pixels().len(),
            forall|x: int, y: int|
                #![trigger pixel_index(old(self).width_spec(), x, y)]
                start_x <= x < start_x + width && start_y <= y < start_y + height
                    ==> final(self).pixels()[pixel_index(old(self).width_spec(), x, y)]
                        == *color,
            forall|x: int, y: int|
                #![trigger pixel_index(old(self).width_spec(), x, y)]
                0 <= x < old(self).width_spec() && 0 <= y < old(self).height_spec()
                    && !(start_x <= x < start_x + width && start_y <= y < start_y + height)
                    ==> final(self).pixels()[pixel_index(old(self).width_spec(), x, y)]
                        == old(self).pixels()[pixel_index(old(self).width_spec(), x, y)],
    {
        proof {
            self.lemma_inv();
        }
        let w = self.width();
        let ghost w_int = self.width_spec();
        let ghost h_int = self.height_spec();
        let ghost pixels0 = self.pixels();
        let mut y = start_y;
        while y < start_y + height
            invariant
                self.inv(),
                self.width_spec() == w_int,
                self.height_spec() == h_int,
                self.pixels().len() == pixels0.len(),
                w == w_int,
                start_x + width <= w_int,
                start_y + height <= h_int,
                0 <= w_int <= u32::MAX,
                0 <= h_int <= u32::MAX,
                w_int * h_int <= u32::MAX,
                pixels0.len() == w_int * h_int,
                start_y <= y <= start_y + height,
                forall|x: int, yy: int|
                    #![trigger pixel_index(w_int, x, yy)]
                    start_x <= x < start_x + width && start_y <= yy < y
                        ==> self.pixels()[pixel_index(w_int, x, yy)] == *color,
                forall|x: int, yy: int|
                    #![trigger pixel_index(w_int, x, yy)]
                    0 <= x < w_int && 0 <= yy < h_int
                        && !(start_x <= x < start_x + width && start_y <= yy < y)
                        ==> self.pixels()[pixel_index(w_int, x, yy)] == pixels0[pixel_index(
                        w_int,
                        x,
                        yy,
                    )],
            decreases start_y + height - y,
        {
            proof {
                assert((y + 1) * w_int <= h_int * w_int) by (nonlinear_arith)
                    requires
                        y + 1 <= h_int,
                        w_int >= 0,
                ;
                assert(y * w_int + w_int == (y + 1) * w_int) by (nonlinear_arith);
            }
            let row_start = y * w + start_x;
            let row_end = y * w + start_x + width;
            let ghost pixels_before = self.pixels();
            self.set_range(row_start as usize..row_end as usize, color);
            proof {
                lemma_row_write_effect(
                    pixels_before,
                    self.pixels(),
                    w_int,
                    h_int,
                    y as int,
                    start_x as int,
                    width as int,
                    *color,
                );
            }
            y = y + 1;
        }
    }
}

/// After one row write covering linear indices
/// `[y * width + sx, y * width + sx + w)`, a pixel `(x, yy)` holds the new
/// color exactly when `yy == y` and `sx <= x < sx + w`; every other pixel of
/// the grid is unchanged.
proof fn lemma_row_write_effect(
    before: Seq<Color>,
    after: Seq<Color>,
    width: int,
    height: int,
    y: int,
    sx: int,
    w: int,
    color: Color,
)
    requires
        0 <= sx,
        sx + w <= width,
        0 <= y < height,
        width * height <= u32::MAX,
        before.len() == width * height,
        after.len() == before.len(),
        forall|p: int| y * width + sx <= p < y * width + sx + w ==> after[p] == color,
        forall|p: int|
            0 <= p < before.len() && !(y * width + sx <= p < y * width + sx + w)
                ==> after[p] == before[p],
    ensures
        forall|x: int, yy: int|
            #![trigger pixel_index(width, x, yy)]
            sx <= x < sx + w && yy == y ==> after[pixel_index(width, x, yy)] == color,
        forall|x: int, yy: int|
            #![trigger pixel_index(width, x, yy)]
            0 <= x < width && 0 <= yy < height && !(sx <= x < sx + w && yy == y)
                ==> after[pixel_index(width, x, yy)] == before[pixel_index(width, x, yy)],
{
    assert forall|x: int, yy: int|
        #![trigger pixel_index(width, x, yy)]
        sx <= x < sx + w && yy == y implies after[pixel_index(width, x, yy)] == color by {
        assert(pixel_index(width, x, yy) == y * width + x);
    }
    assert forall|x: int, yy: int|
        #![trigger pixel_index(width, x, yy)]
        0 <= x < width && 0 <= yy < height && !(sx <= x < sx + w && yy == y) implies
        after[pixel_index(width, x, yy)] == before[pixel_index(width, x, yy)] by {
        let p = pixel_index(width, x, yy);
        lemma_pixel_index_in_grid(width, height, x, yy);
        if yy < y {
            assert((yy + 1) * width <= y * width) by (nonlinear_arith)
                requires
                    yy + 1 <= y,
                    width >= 0,
            ;
            assert(yy * width + width == (yy + 1) * width) by (nonlinear_arith);
            assert(p < y * width + sx);
        } else if yy > y {
            assert((y + 1) * width <= yy * width) by (nonlinear_arith)
                requires
                    y + 1 <= yy,
                    width >= 0,
            ;
            assert(y * width + width == (y + 1) * width) by (nonlinear_arith);
            assert(p >= y * width + sx + w);
        } else {
            assert(!(sx <= x < sx + w));
        }
    }
}

/// An in-memory frame-buffer surface: a row-major grid of `width x height`
/// pixels stored as raw bytes, four per pixel.  Pixel `(x, y)` occupies the
/// four bytes starting at `4 * (y * width + x)`, in the storage order of
/// [`Color::as_bytes`].  Its present operation has no display to push to and
/// always succeeds; an embedding application copies the bytes out to a real
/// blit backend.
pub struct BufferSurface {
    width: u32,
    height: u32,
    buffer: Vec<u8>,
}

impl BufferSurface {
    /// The raw frame-buffer contents, four bytes per pixel.
    pub closed spec fn bytes_spec(&self) -> Seq<u8> {
        self.buffer@
    }

    /// Creates a surface of the given dimensions with every pixel set to
    /// transparent black, all four bytes zero.
    pub fn new(width: u32, height: u32) -> (s: BufferSurface)
        requires
            width * height <= u32::MAX,
            4 * (width * height) <= usize::MAX,
        ensures
            s.inv(),
            s.width_spec() == width,
            s.height_spec() == height,
            forall|p: int|
                0 <= p < s.pixels().len() ==> s.pixels()[p] == (Color {
                    r: 0u8,
                    g: 0u8,
                    b: 0u8,
                    a: 0u8,
                }),
    {
        proof {
            assert((width as usize) * (height as usize) == width * height) by (nonlinear_arith);
        }
        let pixel_count: usize = (width as usize) * (height as usize);
        let byte_count: usize = pixel_count * 4;
        let mut buffer: Vec<u8> = Vec::new();
        let mut i: usize = 0;
        while i < byte_count
            invariant
                i <= byte_count,
                buffer@.len() == i,
                forall|j: int| 0 <= j < i ==> buffer@[j] == 0u8,
            decreases byte_count - i,
        {
            buffer.push(0u8);
            i = i + 1;
        }
        let s = BufferSurface { width, height, buffer };
        proof {
            assert forall|p: int| 0 <= p < s.pixels().len() implies s.pixels()[p] == (Color {
                r: 0u8,
                g: 0u8,
                b: 0u8,
                a: 0u8,
            }) by {
                assert(s.buffer@[4 * p] == 0u8);
                assert(s.buffer@[4 * p + 1] == 0u8);
                assert(s.buffer@[4 * p + 2] == 0u8);
                assert(s.buffer@[4 * p + 3] == 0u8);
            }
        }
        s
    }

    /// The raw frame-buffer bytes, for an embedding application to copy to
    /// its blit backend.
    pub fn frame_bytes(&self) -> (bytes: &[u8])
        ensures
            bytes@ == self.bytes_spec(),
    {
        self.buffer.as_slice()
    }
}

impl DrawingSurface for BufferSurface {
    type Error = ();

    closed spec fn pixels(&self) -> Seq<Color> {
        Seq::new(
            (self.width * self.height) as nat,
            |p: int|
                Color {
                    r: self.buffer@[4 * p],
                    g: self.buffer@[4 * p + 1],
                    b: self.buffer@[4 * p + 2],
                    a: self.buffer@[4 * p + 3],
                },
        )
    }

    closed spec fn width_spec(&self) -> int {
        self.width as int
    }

    closed spec fn height_spec(&self) -> int {
        self.height as int
    }

    closed spec fn inv(&self) -> bool {
        &&& self.width * self.height <= u32::MAX
        &&& 4 * (self.width * self.height) <= usize::MAX
        &&& self.buffer@.len() == 4 * (self.width * self.height)
    }

    proof fn lemma_inv(&self) {
    }

    fn width(&self) -> (w: u32) {
        self.width
    }

    fn height(&self) -> (h: u32) {
        self.height
    }

    fn blit(&mut self) -> (r: Result<(), ()>) {
        Ok(())
    }

    fn get(&self, x: u32, y: u32) -> (c: Color) {
        proof {
            lemma_pixel_index_in_grid(self.width as int, self.height as int, x as int, y as int);
        }
        let idx: usize = (y as usize) * (self.width as usize) + (x as usize);
        let off: usize = idx * 4;
        Color {
            r: self.buffer[off],
            g: self.buffer[off + 1],
            b: self.buffer[off + 2],
            a: self.buffer[off + 3],
        }
    }

    fn set(&mut self, x: u32, y: u32, color: &Color) {
        proof {
            lemma_pixel_index_in_grid(self.width as int, self.height as int, x as int, y as int);
        }
        let idx: usize = (y as usize) * (self.width as usize) + (x as usize);
        let off: usize = idx * 4;
        self.buffer.set(off, color.r);
        self.buffer.set(off + 1, color.g);
        self.buffer.set(off + 2, color.b);
        self.buffer.set(off + 3, color.a);
        proof {
            let updated = old(self).pixels().update(
                pixel_index(old(self).width_spec(), x as int, y as int),
                *color,
            );
            assert forall|p: int| 0 <= p < self.pixels().len() implies self.pixels()[p]
                == updated[p] by {
                if p != idx {
                    assert(self.buffer@[4 * p] == old(self).buffer@[4 * p]);
                    assert(self.buffer@[4 * p + 1] == old(self).buffer@[4 * p + 1]);
                    assert(self.buffer@[4 * p + 2] == old(self).buffer@[4 * p + 2]);
                    assert(self.buffer@[4 * p + 3] == old(self).buffer@[4 * p + 3]);
                }
            }
            assert(self.pixels() =~= updated);
        }
    }

    fn set_range(&mut self, range: core::ops::Range<usize>, color: &Color) {
        let start = range.start;
        let end = range.end;
        let mut i = start;
        while i < end
            invariant
                start <= i <= end,
                self.width == old(self).width,
                self.height == old(self).height,
                self.inv(),
                end <= self.width * self.height,
                self.buffer@.len() == old(self).buffer@.len(),
                forall|j: int|
                    4 * start <= j < 4 * i ==> self.buffer@[j] == color_byte(*color, j % 4),
                forall|j: int|
                    0 <= j < self.buffer@.len() && !(4 * start <= j < 4 * i) ==> self.buffer@[j]
                        == old(self).buffer@[j],
            decreases end - i,
        {
            let off: usize = i * 4;
            self.buffer.set(off, color.r);
            self.buffer.set(off + 1, color.g);
            self.buffer.set(off + 2, color.b);
            self.buffer.set(off + 3, color.a);
            i = i + 1;
        }
        proof {
            assert forall|p: int| start <= p < end implies self.pixels()[p] == *color by {
                assert(self.buffer@[4 * p] == color_byte(*color, (4 * p) % 4));
                assert(self.buffer@[4 * p + 1] == color_byte(*color, (4 * p + 1) % 4));
                assert(self.buffer@[4 * p + 2] == color_byte(*color, (4 * p + 2) % 4));
                assert(self.buffer@[4 * p + 3] == color_byte(*color, (4 * p + 3) % 4));
            }
            assert forall|p: int|
                0 <= p < old(self).pixels().len() && !(start <= p < end) implies self.pixels()[p]
                == old(self).pixels()[p] by {
                assert(self.buffer@[4 * p] == old(self).buffer@[4 * p]);
                assert(self.buffer@[4 * p + 1] == old(self).buffer@[4 * p + 1]);
                assert(self.buffer@[4 * p + 2] == old(self).buffer@[4 * p + 2]);
                assert(self.buffer@[4 * p + 3] == old(self).buffer@[4 * p + 3]);
            }
        }
    }

    fn in_bounds(&self, x: i64, y: i64) -> (r: Option<(u32, u32)>) {
        if x < 0 || x >= self.width as i64 || y < 0 || y >= self.height as i64 {
            None
        } else {
            Some((x as u32, y as u32))
        }
    }
}

/// `set` followed by `get` at the same coordinates returns an identical
/// color: for surfaces `before` and `after` related as `set(x, y, c)`
/// promises, the pixel that `get(x, y)` reads from `after` is exactly `c`.
pub proof fn lemma_set_get_roundtrip<S: DrawingSurface>(before: S, after: S, x: u32, y: u32, c: Color)
    requires
        before.inv(),
        x < before.width_spec(),
        y < before.height_spec(),
        after.width_spec() == before.width_spec(),
        after.height_spec() == before.height_spec(),
        after.pixels() == before.pixels().update(
            pixel_index(before.width_spec(), x as int, y as int),
            c,
        ),
    ensures
        after.pixels()[pixel_index(after.width_spec(), x as int, y as int)] == c,
{
    before.lemma_inv();
    lemma_pixel_index_in_grid(before.width_spec(), before.height_spec(), x as int, y as int);
}

/// A pixel index formed from in-range coordinates lies inside the grid.
proof fn lemma_pixel_index_in_grid(width: int, height: int, x: int, y: int)
    requires
        0 <= x < width,
        0 <= y < height,
    ensures
        0 <= pixel_index(width, x, y) < width * height,
{
    assert(0 <= y * width + x < width * height) by (nonlinear_arith)
        requires
            0 <= x < width,
            0 <= y < height,
    ;
}

} // verus!
