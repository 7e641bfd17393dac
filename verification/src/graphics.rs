use vstd::prelude::*;

verus! {

/// The failures of drawing operations.
#[derive(Debug, Copy, Clone, PartialEq, Eq, Structural)]
pub enum GraphicsError {
    /// A coordinate lies outside the bitmap, or a size is negative.
    OutOfRange,
}

/// A rectangular grid of 32-bit pixels.
///
/// Each line holds `pixels_per_line` pixels, of which the first `width` are
/// visible. Pixel `(x, y)` is column `x` of line `y`, counted from the top
/// left.
pub trait Bitmap {
    /// What every bitmap a drawing operation is called on must satisfy.
    spec fn wf(&self) -> bool;

    /// Number of visible pixels in a line.
    spec fn spec_width(&self) -> i64;

    /// Number of lines.
    spec fn spec_height(&self) -> i64;

    /// Number of pixels stored for a line.
    spec fn spec_pixels_per_line(&self) -> i64;

    /// The color of pixel `(x, y)`, for a stored pixel.
    spec fn pixel(&self, x: int, y: int) -> u32;

    /// Number of bytes that store one pixel.
    fn bytes_per_pixel(&self) -> i64;

    /// Number of pixels stored for a line.
    fn pixels_per_line(&self) -> (r: i64)
        requires
            self.wf(),
        ensures
            r == self.spec_pixels_per_line(),
    ;

    /// Number of visible pixels in a line.
    fn width(&self) -> (r: i64)
        requires
            self.wf(),
        ensures
            r == self.spec_width(),
    ;

    /// Number of lines.
    fn height(&self) -> (r: i64)
        requires
            self.wf(),
        ensures
            r == self.spec_height(),
    ;

    /// Reads the visible pixel `(x, y)`.
    fn unchecked_pixel_at(&self, x: i64, y: i64) -> (r: u32)
        requires
            self.wf(),
            0 <= x < self.spec_width() && x < self.spec_pixels_per_line() && 0 <= y < self.spec_height(),
        ensures
            r == self.pixel(x as int, y as int),
    ;

    /// Sets the visible pixel `(x, y)` to `color` and leaves every other
    /// stored pixel as it is.
    fn unchecked_draw_point(&mut self, color: u32, x: i64, y: i64)
        requires
            old(self).wf(),
            0 <= x < old(self).spec_width() && x < old(self).spec_pixels_per_line() && 0 <= y < old(self).spec_height(),
        ensures
            final(self).wf(),
            final(self).spec_width() == old(self).spec_width(),
            final(self).spec_height() == old(self).spec_height(),
            final(self).spec_pixels_per_line() == old(self).spec_pixels_per_line(),
            final(self).pixel(x as int, y as int) == color,
            forall|i: int, j: int|
                0 <= i < old(self).spec_pixels_per_line() && 0 <= j < old(self).spec_height() && !(i
                    == x && j == y) ==> #[trigger] final(self).pixel(
                    i,
                    j,
                ) == old(self).pixel(i, j),
    ;

    /// Makes what was drawn visible, where the bitmap is not shown as it is
    /// drawn.
    fn flush(&self) {
    }

    /// Whether column `px` is visible.
    fn is_in_x_range(&self, px: i64) -> (r: bool)
        requires
            self.wf(),
        ensures
            r == (0 <= px < self.spec_width() && px < self.spec_pixels_per_line()),
    {
        let w = self.width();
        let p = self.pixels_per_line();
        let limit = if w < p {
            w
        } else {
            p
        };
        0 <= px && px < limit
    }

    /// Whether line `py` exists.
    fn is_in_y_range(&self, py: i64) -> (r: bool)
        requires
            self.wf(),
        ensures
            r == (0 <= py < self.spec_height()),
    {
        0 <= py && py < self.height()
    }

    /// The color of pixel `(x, y)`, or `None` where it is not visible.
    fn pixel_at(&self, x: i64, y: i64) -> (r: Option<u32>)
        requires
            self.wf(),
        ensures
            r == (if 0 <= x < self.spec_width() && x < self.spec_pixels_per_line() && 0 <= y < self.spec_height() {
                Some(self.pixel(x as int, y as int))
            } else {
                None
            }),
    {
        if self.is_in_x_range(x) && self.is_in_y_range(y) {
            Some(self.unchecked_pixel_at(x, y))
        } else {
            None
        }
    }
}

/// Whether column `px` of `b` is visible: it lies in the line and in what
/// is stored of it.
pub open spec fn spec_in_x_range<T: Bitmap>(b: T, px: int) -> bool {
    0 <= px && px < b.spec_width() && px < b.spec_pixels_per_line()
}

/// Whether `b` has a line `py`.
pub open spec fn spec_in_y_range<T: Bitmap>(b: T, py: int) -> bool {
    0 <= py && py < b.spec_height()
}

/// Whether `(x, y)` is a visible pixel of `b`.
pub open spec fn is_visible<T: Bitmap>(b: T, x: int, y: int) -> bool {
    spec_in_x_range(b, x) && spec_in_y_range(b, y)
}

/// Whether `b` stores a pixel `(x, y)`, visible or not.
pub open spec fn is_stored<T: Bitmap>(b: T, x: int, y: int) -> bool {
    0 <= x < b.spec_pixels_per_line() && 0 <= y < b.spec_height()
}

/// Whether two bitmaps have the same width, height and line length.
pub open spec fn same_shape<T: Bitmap>(a: T, b: T) -> bool {
    &&& a.spec_width() == b.spec_width()
    &&& a.spec_height() == b.spec_height()
    &&& a.spec_pixels_per_line() == b.spec_pixels_per_line()
}

/// Whether `(i, j)` lies in the rectangle of `w` by `h` pixels whose top
/// left corner is `(px, py)`. A rectangle with a size that is not positive
/// holds no pixel.
pub open spec fn in_rect(px: int, py: int, w: int, h: int, i: int, j: int) -> bool {
    px <= i < px + w && py <= j < py + h
}

/// Whether the corners `(px, py)` and `(px + w - 1, py + h - 1)` are both
/// visible pixels of `b`.
pub open spec fn rect_in_range<T: Bitmap>(b: T, px: int, py: int, w: int, h: int) -> bool {
    is_visible(b, px, py) && is_visible(b, px + w - 1, py + h - 1)
}

/// A bitmap in ordinary memory.
pub struct BitmapBuffer {
    buf: Vec<u32>,
    width: i64,
    height: i64,
    pixels_per_line: i64,
}

/// Two stored pixels that share a place in the buffer are the same pixel.
pub proof fn lemma_index_injective(p: int, x0: int, y0: int, x1: int, y1: int)
    requires
        0 <= x0 < p,
        0 <= x1 < p,
        y0 * p + x0 == y1 * p + x1,
    ensures
        x0 == x1,
        y0 == y1,
{
    if y0 < y1 {
        assert((y1 - y0) * p >= p) by (nonlinear_arith)
            requires
                y1 - y0 >= 1,
                p > 0,
        ;
        assert(y1 * p - y0 * p == (y1 - y0) * p) by (nonlinear_arith);
    } else if y1 < y0 {
        assert((y0 - y1) * p >= p) by (nonlinear_arith)
            requires
                y0 - y1 >= 1,
                p > 0,
        ;
        assert(y0 * p - y1 * p == (y0 - y1) * p) by (nonlinear_arith);
    }
}

/// The place of a stored pixel lies inside the buffer.
pub proof fn lemma_index_bound(p: int, h: int, x: int, y: int)
    requires
        0 <= x < p,
        0 <= y < h,
    ensures
        0 <= y * p + x < p * h,
{
    assert(y * p + x < p * h) by (nonlinear_arith)
        requires
            0 <= x < p,
            0 <= y,
            y + 1 <= h,
    ;
    assert(0 <= y * p) by (nonlinear_arith)
        requires
            0 <= y,
            0 <= p,
    ;
}

impl BitmapBuffer {
    /// The invariant of the buffer: no size is negative, a line stores at
    /// least what is visible of it, and the buffer holds every stored
    /// pixel.
    pub closed spec fn inv(&self) -> bool {
        &&& 0 <= self.width <= self.pixels_per_line
        &&& 0 <= self.height
        &&& self.buf@.len() == self.pixels_per_line * self.height
        &&& self.pixels_per_line * self.height <= isize::MAX
    }

    /// A bitmap of the given shape with every pixel zero.
    ///
    /// The sizes must not be negative, a line must store at least `width`
    /// pixels, and the whole must be allocatable: its size in bytes fits
    /// `isize`.
    pub fn new(width: i64, height: i64, pixels_per_line: i64) -> (r: BitmapBuffer)
        requires
            width >= 0,
            height >= 0,
            pixels_per_line >= width,
            pixels_per_line * height * 4 <= isize::MAX,
        ensures
            r.wf(),
            r.spec_width() == width,
            r.spec_height() == height,
            r.spec_pixels_per_line() == pixels_per_line,
            forall|x: int, y: int| is_stored(r, x, y) ==> #[trigger] r.pixel(x, y) == 0,
    {
        assert(pixels_per_line * height <= pixels_per_line * height * 4) by (nonlinear_arith)
            requires
                pixels_per_line >= 0,
                height >= 0,
        ;
        assert(0 <= pixels_per_line * height) by (nonlinear_arith)
            requires
                pixels_per_line >= 0,
                height >= 0,
        ;
        let total: i64 = pixels_per_line * height;
        let n: usize = total as usize;
        let mut buf: Vec<u32> = Vec::new();
        let mut i: usize = 0;
        while i < n
            invariant
                i <= n,
                buf@.len() == i,
                forall|k: int| 0 <= k < i ==> buf@[k] == 0,
            decreases n - i,
        {
            buf.push(0);
            i = i + 1;
        }
        let r = BitmapBuffer { buf, width, height, pixels_per_line };
        assert forall|x: int, y: int| is_stored(r, x, y) implies #[trigger] r.pixel(x, y)
            == 0 by {
            lemma_index_bound(pixels_per_line as int, height as int, x, y);
        }
        r
    }
}

impl Bitmap for BitmapBuffer {
    closed spec fn wf(&self) -> bool {
        self.inv()
    }

    closed spec fn spec_width(&self) -> i64 {
        self.width
    }

    closed spec fn spec_height(&self) -> i64 {
        self.height
    }

    closed spec fn spec_pixels_per_line(&self) -> i64 {
        self.pixels_per_line
    }

    closed spec fn pixel(&self, x: int, y: int) -> u32 {
        self.buf@[y * self.pixels_per_line + x]
    }

    fn bytes_per_pixel(&self) -> (r: i64)
        ensures
            r == 4,
    {
        4
    }

    fn pixels_per_line(&self) -> (r: i64) {
        self.pixels_per_line
    }

    fn width(&self) -> (r: i64) {
        self.width
    }

    fn height(&self) -> (r: i64) {
        self.height
    }

    fn unchecked_pixel_at(&self, x: i64, y: i64) -> (r: u32) {
        proof {
            lemma_index_bound(self.pixels_per_line as int, self.height as int, x as int, y as int);
        }
        assert(0 <= y * self.pixels_per_line) by (nonlinear_arith)
            requires
                0 <= y,
                0 <= self.pixels_per_line,
        ;
        let place: i64 = y * self.pixels_per_line + x;
        let idx: usize = place as usize;
        self.buf[idx]
    }

    fn unchecked_draw_point(&mut self, color: u32, x: i64, y: i64) {
        proof {
            lemma_index_bound(self.pixels_per_line as int, self.height as int, x as int, y as int);
        }
        assert(0 <= y * self.pixels_per_line) by (nonlinear_arith)
            requires
                0 <= y,
                0 <= self.pixels_per_line,
        ;
        let place: i64 = y * self.pixels_per_line + x;
        let idx: usize = place as usize;
        self.buf[idx] = color;
        proof {
            assert forall|i: int, j: int|
                0 <= i < old(self).spec_pixels_per_line() && 0 <= j < old(self).spec_height() && !(i
                    == x && j == y) implies #[trigger] self.pixel(i, j) == old(self).pixel(
                i,
                j,
            ) by {
                lemma_index_bound(self.pixels_per_line as int, self.height as int, i, j);
                if j * self.pixels_per_line + i == y * self.pixels_per_line + x {
                    lemma_index_injective(self.pixels_per_line as int, i, j, x as int, y as int);
                }
            }
        }
    }
}

/// A rectangle with sizes that are not negative.
#[derive(Debug, Copy, Clone, PartialEq, Eq, Structural)]
pub struct Rect {
    x: i64,
    y: i64,
    w: i64,
    h: i64,
}

impl Rect {
    /// The column of the left edge.
    pub closed spec fn spec_x(&self) -> i64 {
        self.x
    }

    /// The line of the top edge.
    pub closed spec fn spec_y(&self) -> i64 {
        self.y
    }

    /// The width.
    pub closed spec fn spec_w(&self) -> i64 {
        self.w
    }

    /// The height.
    pub closed spec fn spec_h(&self) -> i64 {
        self.h
    }

    /// The rectangle of `w` by `h` pixels at `(x, y)`; a negative size is
    /// rejected.
    pub fn new(x: i64, y: i64, w: i64, h: i64) -> (r: Result<Rect, GraphicsError>)
        ensures
            (w < 0 || h < 0) <==> r is Err,
            r matches Ok(rect) ==> rect.spec_x() == x && rect.spec_y() == y && rect.spec_w() == w
                && rect.spec_h() == h,
            r matches Err(e) ==> e == GraphicsError::OutOfRange,
    {
        if w < 0 {
            return Err(GraphicsError::OutOfRange);
        }
        if h < 0 {
            return Err(GraphicsError::OutOfRange);
        }
        Ok(Rect { x, y, w, h })
    }

    /// The column of the left edge.
    pub fn x(&self) -> (r: i64)
        ensures
            r == self.spec_x(),
    {
        self.x
    }

    /// The line of the top edge.
    pub fn y(&self) -> (r: i64)
        ensures
            r == self.spec_y(),
    {
        self.y
    }

    /// The width.
    pub fn w(&self) -> (r: i64)
        ensures
            r == self.spec_w(),
            r >= 0,
    {
        proof {
            use_type_invariant(self);
        }
        self.w
    }

    /// The height.
    pub fn h(&self) -> (r: i64)
        ensures
            r == self.spec_h(),
            r >= 0,
    {
        proof {
            use_type_invariant(self);
        }
        self.h
    }

    #[verifier::type_invariant]
    spec fn sizes_not_negative(self) -> bool {
        self.w >= 0 && self.h >= 0
    }
}

/// Whether the rectangle of `w` by `h` pixels at `(px, py)` has both
/// corners visible in `buf`.
pub fn check_rect<T: Bitmap>(buf: &T, px: i64, py: i64, w: i64, h: i64) -> (r: bool)
    requires
        buf.wf(),
    ensures
        r == rect_in_range(*buf, px as int, py as int, w as int, h as int),
{
    if !buf.is_in_x_range(px) || !buf.is_in_y_range(py) {
        return false;
    }
    let ex: i128 = px as i128 + w as i128 - 1;
    let ey: i128 = py as i128 + h as i128 - 1;
    let wd: i128 = buf.width() as i128;
    let pl: i128 = buf.pixels_per_line() as i128;
    let ht: i128 = buf.height() as i128;
    0 <= ex && ex < wd && ex < pl && 0 <= ey && ey < ht
}

/// Sets the pixel `(x, y)` to `color`. A pixel that is not visible is
/// rejected, and the bitmap is left as it is.
pub fn draw_point<T: Bitmap>(buf: &mut T, color: u32, x: i64, y: i64) -> (r: Result<
    (),
    GraphicsError,
>)
    requires
        old(buf).wf(),
    ensures
        final(buf).wf(),
        same_shape(*old(buf), *final(buf)),
        r is Ok <==> is_visible(*old(buf), x as int, y as int),
        forall|i: int, j: int|
            is_stored(*old(buf), i, j) ==> #[trigger] final(buf).pixel(i, j) == (if r is Ok && i
                == x && j == y {
                color
            } else {
                old(buf).pixel(i, j)
            }),
{
    if !buf.is_in_x_range(x) || !buf.is_in_y_range(y) {
        return Err(GraphicsError::OutOfRange);
    }
    buf.unchecked_draw_point(color, x, y);
    Ok(())
}

/// Fills the rectangle of `w` by `h` pixels at `(px, py)` with `color`.
///
/// The corners `(px, py)` and `(px + w - 1, py + h - 1)` must be visible,
/// else the rectangle is rejected and the bitmap is left as it is.
pub fn draw_rect<T: Bitmap>(buf: &mut T, color: u32, px: i64, py: i64, w: i64, h: i64) -> (r:
    Result<(), GraphicsError>)
    requires
        old(buf).wf(),
    ensures
        final(buf).wf(),
        same_shape(*old(buf), *final(buf)),
        r is Ok <==> rect_in_range(*old(buf), px as int, py as int, w as int, h as int),
        r matches Err(e) ==> e == GraphicsError::OutOfRange,
        forall|i: int, j: int|
            is_stored(*old(buf), i, j) ==> #[trigger] final(buf).pixel(i, j) == (if r is Ok
                && in_rect(px as int, py as int, w as int, h as int, i, j) {
                color
            } else {
                old(buf).pixel(i, j)
            }),
{
    if !check_rect(buf, px, py, w, h) {
        return Err(GraphicsError::OutOfRange);
    }
    let mut y: i64 = py;
    while y < py + h
        invariant
            buf.wf(),
            same_shape(*old(buf), *buf),
            rect_in_range(*old(buf), px as int, py as int, w as int, h as int),
            py <= y,
            h > 0 ==> y <= py + h,
            h <= 0 ==> y == py,
            forall|i: int, j: int|
                is_stored(*old(buf), i, j) ==> #[trigger] buf.pixel(i, j) == (if in_rect(
                    px as int,
                    py as int,
                    w as int,
                    y - py,
                    i,
                    j,
                ) {
                    color
                } else {
                    old(buf).pixel(i, j)
                }),
        decreases py + h - y,
    {
        let mut x: i64 = px;
        while x < px + w
            invariant
                buf.wf(),
                same_shape(*old(buf), *buf),
                rect_in_range(*old(buf), px as int, py as int, w as int, h as int),
                py <= y < py + h,
                px <= x,
                w > 0 ==> x <= px + w,
                w <= 0 ==> x == px,
                forall|i: int, j: int|
                    is_stored(*old(buf), i, j) ==> #[trigger] buf.pixel(i, j) == (if in_rect(
                        px as int,
                        py as int,
                        w as int,
                        y - py,
                        i,
                        j,
                    ) || (j == y && px <= i < x) {
                        color
                    } else {
                        old(buf).pixel(i, j)
                    }),
            decreases px + w - x,
        {
            buf.unchecked_draw_point(color, x, y);
            x = x + 1;
        }
        y = y + 1;
    }
    Ok(())
}

/// The fixed-point scale with which the slope of a line is held.
pub const LINE_MULTIPLIER: u128 = 1048576;

/// The distance between `a` and `b`.
pub open spec fn abs_diff(a: int, b: int) -> int {
    if a <= b {
        b - a
    } else {
        a - b
    }
}

/// Whether `j` lies between `a` and `b`, whichever of the two is smaller,
/// both included.
pub open spec fn between(a: int, j: int, b: int) -> bool {
    (a <= j <= b) || (b <= j <= a)
}

/// How far a line that covers `dy` lines in `lx` columns has moved from its
/// first line when it enters column `i`: the slope, held as a whole number
/// of 1/1048576 and rounded down, times `i`, rounded down.
pub open spec fn line_offset(dy: int, lx: int, i: int) -> int {
    ((dy * 1048576) / lx * i) / 1048576
}

/// The line of the bitmap in which the line from `y0` to `y1` over `lx`
/// columns enters column `i`.
pub open spec fn line_y(y0: int, y1: int, lx: int, i: int) -> int {
    if y0 <= y1 {
        y0 + line_offset(abs_diff(y0, y1), lx, i)
    } else {
        y0 - line_offset(abs_diff(y0, y1), lx, i)
    }
}

/// Whether `(i, j)` is drawn for the line from `(x0, y0)` to `(x1, y1)`,
/// where `x0 <= x1`.
///
/// A vertical line is the run of pixels between its ends. Any other line is
/// drawn column by column: in each column the run from the line where it
/// enters the column to the line where it enters the next; and its last
/// point.
pub open spec fn on_line_ordered(x0: int, y0: int, x1: int, y1: int, i: int, j: int) -> bool {
    if x0 == x1 {
        i == x0 && between(y0, j, y1)
    } else {
        (x0 <= i <= x1 && between(
            line_y(y0, y1, x1 - x0 + 1, i - x0),
            j,
            line_y(y0, y1, x1 - x0 + 1, i - x0 + 1),
        )) || (i == x1 && j == y1)
    }
}

/// Whether `(i, j)` is drawn for the line between `(x0, y0)` and
/// `(x1, y1)`: the line is drawn from its left end.
pub open spec fn on_line(x0: int, y0: int, x1: int, y1: int, i: int, j: int) -> bool {
    if x1 < x0 {
        on_line_ordered(x1, y1, x0, y0, i, j)
    } else {
        on_line_ordered(x0, y0, x1, y1, i, j)
    }
}

/// A line never leaves the lines between its ends, and the products that
/// give its offset stay below `dy` times the scale.
pub proof fn lemma_line_offset_bound(dy: int, lx: int, i: int)
    requires
        0 <= dy,
        1 <= lx,
        0 <= i <= lx,
    ensures
        0 <= (dy * 1048576) / lx,
        0 <= (dy * 1048576) / lx * i <= dy * 1048576,
        0 <= line_offset(dy, lx, i) <= dy,
{
    let n = dy * 1048576;
    let a = n / lx;
    assert(0 <= a && a * lx <= n) by (nonlinear_arith)
        requires
            a == n / lx,
            0 <= n,
            1 <= lx,
    ;
    assert(0 <= a * i && a * i <= a * lx) by (nonlinear_arith)
        requires
            0 <= a,
            0 <= i <= lx,
    ;
    let m = a * i;
    assert(0 <= m / 1048576 && m / 1048576 <= dy) by (nonlinear_arith)
        requires
            0 <= m <= dy * 1048576,
    ;
}

/// Every pixel drawn for a line lies in the box that its ends span.
pub proof fn lemma_on_line_in_box(x0: int, y0: int, x1: int, y1: int, i: int, j: int)
    requires
        on_line(x0, y0, x1, y1, i, j),
    ensures
        between(x0, i, x1),
        between(y0, j, y1),
{
    if x0 != x1 {
        let (ax, ay, bx, by) = if x1 < x0 {
            (x1, y1, x0, y0)
        } else {
            (x0, y0, x1, y1)
        };
        if ax <= i <= bx {
            lemma_line_offset_bound(abs_diff(ay, by), bx - ax + 1, i - ax);
            lemma_line_offset_bound(abs_diff(ay, by), bx - ax + 1, i - ax + 1);
        }
    }
}

/// Sets the pixels of column `x` between the lines `ya` and `yb`, both
/// included, to `color`.
fn draw_column<T: Bitmap>(buf: &mut T, color: u32, x: i64, ya: i64, yb: i64)
    requires
        old(buf).wf(),
        is_visible(*old(buf), x as int, ya as int),
        is_visible(*old(buf), x as int, yb as int),
    ensures
        final(buf).wf(),
        same_shape(*old(buf), *final(buf)),
        forall|i: int, j: int|
            is_stored(*old(buf), i, j) ==> #[trigger] final(buf).pixel(i, j) == (if i == x
                && between(ya as int, j, yb as int) {
                color
            } else {
                old(buf).pixel(i, j)
            }),
{
    let lo: i64 = if ya <= yb {
        ya
    } else {
        yb
    };
    let hi: i64 = if ya <= yb {
        yb
    } else {
        ya
    };
    let mut y: i64 = lo;
    while y <= hi
        invariant
            buf.wf(),
            same_shape(*old(buf), *buf),
            is_visible(*old(buf), x as int, lo as int),
            is_visible(*old(buf), x as int, hi as int),
            lo <= y <= hi + 1,
            forall|i: int, j: int|
                is_stored(*old(buf), i, j) ==> #[trigger] buf.pixel(i, j) == (if i == x && lo <= j
                    < y {
                    color
                } else {
                    old(buf).pixel(i, j)
                }),
        decreases hi + 1 - y,
    {
        buf.unchecked_draw_point(color, x, y);
        y = y + 1;
    }
}

/// The line in which the line from `y0` to `y1` over `lx` columns enters
/// column `i`.
fn line_y_at(y0: i64, y1: i64, lx: i64, i: i64) -> (r: i64)
    requires
        0 <= y0,
        0 <= y1,
        1 <= lx,
        0 <= i <= lx,
    ensures
        r == line_y(y0 as int, y1 as int, lx as int, i as int),
        between(y0 as int, r as int, y1 as int),
{
    let dy: u128 = if y0 <= y1 {
        (y1 - y0) as u128
    } else {
        (y0 - y1) as u128
    };
    proof {
        lemma_line_offset_bound(dy as int, lx as int, i as int);
    }
    let a: u128 = dy * LINE_MULTIPLIER / (lx as u128);
    let off: u128 = a * (i as u128) / LINE_MULTIPLIER;
    if y0 <= y1 {
        y0 + (off as i64)
    } else {
        y0 - (off as i64)
    }
}

/// Draws the line between `(x0, y0)` and `(x1, y1)` in `color`.
///
/// Both ends must be visible, else the line is rejected and the bitmap is
/// left as it is. The pixels drawn are those of `on_line`; all of them lie
/// in the box that the ends span.
pub fn draw_line<T: Bitmap>(buf: &mut T, color: u32, x0: i64, y0: i64, x1: i64, y1: i64) -> (r:
    Result<(), GraphicsError>)
    requires
        old(buf).wf(),
    ensures
        final(buf).wf(),
        same_shape(*old(buf), *final(buf)),
        r is Ok <==> is_visible(*old(buf), x0 as int, y0 as int) && is_visible(
            *old(buf),
            x1 as int,
            y1 as int,
        ),
        r matches Err(e) ==> e == GraphicsError::OutOfRange,
        forall|i: int, j: int|
            is_stored(*old(buf), i, j) ==> #[trigger] final(buf).pixel(i, j) == (if r is Ok
                && on_line(x0 as int, y0 as int, x1 as int, y1 as int, i, j) {
                color
            } else {
                old(buf).pixel(i, j)
            }),
{
    if !buf.is_in_x_range(x0) || !buf.is_in_x_range(x1) || !buf.is_in_y_range(y0)
        || !buf.is_in_y_range(y1) {
        return Err(GraphicsError::OutOfRange);
    }
    let ax: i64 = if x1 < x0 {
        x1
    } else {
        x0
    };
    let ay: i64 = if x1 < x0 {
        y1
    } else {
        y0
    };
    let bx: i64 = if x1 < x0 {
        x0
    } else {
        x1
    };
    let by: i64 = if x1 < x0 {
        y0
    } else {
        y1
    };
    if ax == bx {
        draw_column(buf, color, ax, ay, by);
        return Ok(());
    }
    let lx: i64 = bx - ax + 1;
    let mut i: i64 = 0;
    while i < lx
        invariant
            buf.wf(),
            same_shape(*old(buf), *buf),
            is_visible(*old(buf), ax as int, ay as int),
            is_visible(*old(buf), bx as int, by as int),
            ax < bx,
            lx == bx - ax + 1,
            0 <= i <= lx,
            forall|c: int, j: int|
                is_stored(*old(buf), c, j) ==> #[trigger] buf.pixel(c, j) == (if ax <= c < ax + i
                    && between(
                    line_y(ay as int, by as int, lx as int, c - ax),
                    j,
                    line_y(ay as int, by as int, lx as int, c - ax + 1),
                ) {
                    color
                } else {
                    old(buf).pixel(c, j)
                }),
        decreases lx - i,
    {
        let ya = line_y_at(ay, by, lx, i);
        let yb = line_y_at(ay, by, lx, i + 1);
        draw_column(buf, color, ax + i, ya, yb);
        i = i + 1;
    }
    buf.unchecked_draw_point(color, bx, by);
    Ok(())
}

/// Number of columns of a glyph.
pub const GLYPH_WIDTH: i64 = 8;

/// Number of lines of a glyph.
pub const GLYPH_HEIGHT: i64 = 16;

/// Whether the pixel in column `x` of line `y` of the glyph of `c` is
/// drawn in the foreground color: bit `x` of byte `y` of the glyph is set.
/// A character past the 256 that the font holds is a solid block.
pub open spec fn glyph_bit(font: &[[u8; 16]; 256], c: char, x: int, y: int) -> bool {
    c as u32 >= 256 || ((font[c as u32 as int][y] >> (x as u8)) & 1u8) == 1u8
}

/// Draws the glyph of `c` from `font` with its top left corner at
/// `(px, py)`, in `fg_color` on `bg_color`.
///
/// The eight by sixteen pixels of the glyph must be visible, else the
/// character is rejected and the bitmap is left as it is.
pub fn draw_char<T: Bitmap>(
    buf: &mut T,
    fg_color: u32,
    bg_color: u32,
    px: i64,
    py: i64,
    c: char,
    font: &[[u8; 16]; 256],
) -> (r: Result<(), GraphicsError>)
    requires
        old(buf).wf(),
    ensures
        final(buf).wf(),
        same_shape(*old(buf), *final(buf)),
        r is Ok <==> rect_in_range(*old(buf), px as int, py as int, 8, 16),
        r matches Err(e) ==> e == GraphicsError::OutOfRange,
        forall|i: int, j: int|
            is_stored(*old(buf), i, j) ==> #[trigger] final(buf).pixel(i, j) == (if r is Ok
                && in_rect(px as int, py as int, 8, 16, i, j) {
                if glyph_bit(font, c, i - px, j - py) {
                    fg_color
                } else {
                    bg_color
                }
            } else {
                old(buf).pixel(i, j)
            }),
{
    if !check_rect(buf, px, py, GLYPH_WIDTH, GLYPH_HEIGHT) {
        return Err(GraphicsError::OutOfRange);
    }
    let idx: u32 = c as u32;
    let mut y: i64 = 0;
    while y < GLYPH_HEIGHT
        invariant
            buf.wf(),
            same_shape(*old(buf), *buf),
            rect_in_range(*old(buf), px as int, py as int, 8, 16),
            0 <= y <= 16,
            idx == c as u32,
            forall|i: int, j: int|
                is_stored(*old(buf), i, j) ==> #[trigger] buf.pixel(i, j) == (if in_rect(
                    px as int,
                    py as int,
                    8,
                    y as int,
                    i,
                    j,
                ) {
                    if glyph_bit(font, c, i - px, j - py) {
                        fg_color
                    } else {
                        bg_color
                    }
                } else {
                    old(buf).pixel(i, j)
                }),
        decreases 16 - y,
    {
        let mut x: i64 = 0;
        while x < GLYPH_WIDTH
            invariant
                buf.wf(),
                same_shape(*old(buf), *buf),
                rect_in_range(*old(buf), px as int, py as int, 8, 16),
                0 <= y < 16,
                0 <= x <= 8,
                idx == c as u32,
                forall|i: int, j: int|
                    is_stored(*old(buf), i, j) ==> #[trigger] buf.pixel(i, j) == (if in_rect(
                        px as int,
                        py as int,
                        8,
                        y as int,
                        i,
                        j,
                    ) || (j == py + y && px <= i < px + x) {
                        if glyph_bit(font, c, i - px, j - py) {
                            fg_color
                        } else {
                            bg_color
                        }
                    } else {
                        old(buf).pixel(i, j)
                    }),
            decreases 8 - x,
        {
            let col = if idx >= 256 || ((font[idx as usize][y as usize] >> (x as u8)) & 1u8) == 1u8 {
                fg_color
            } else {
                bg_color
            };
            buf.unchecked_draw_point(col, px + x, py + y);
            x = x + 1;
        }
        y = y + 1;
    }
    Ok(())
}

/// Whether the pixel at offset `(x, y)` from the corner of a block of `w`
/// by `h` pixels has been moved, after `n` lines and `m` pixels of the next
/// line, where the lines are taken bottom first if `rev_y` and the pixels
/// of a line right first if `rev_x`.
pub open spec fn moved_yet(
    rev_y: bool,
    rev_x: bool,
    w: int,
    h: int,
    n: int,
    m: int,
    x: int,
    y: int,
) -> bool {
    let ry = if rev_y {
        h - 1 - y
    } else {
        y
    };
    let rx = if rev_x {
        w - 1 - x
    } else {
        x
    };
    0 <= x < w && 0 <= y < h && (ry < n || (ry == n && rx < m))
}

/// Copies the block of `w` by `h` pixels at `(sx, sy)` to `(dx, dy)`.
///
/// Afterwards each pixel of the block at `(dx, dy)` has the color that its
/// counterpart in the block at `(sx, sy)` had before, also where the two
/// blocks overlap; every other pixel is as it was. Both blocks must have
/// their first and last pixel visible, else the copy is rejected and the
/// bitmap is left as it is.
pub fn transfer_rect<T: Bitmap>(
    buf: &mut T,
    dx: i64,
    dy: i64,
    sx: i64,
    sy: i64,
    w: i64,
    h: i64,
) -> (r: Result<(), GraphicsError>)
    requires
        old(buf).wf(),
    ensures
        final(buf).wf(),
        same_shape(*old(buf), *final(buf)),
        r is Ok <==> rect_in_range(*old(buf), sx as int, sy as int, w as int, h as int)
            && rect_in_range(*old(buf), dx as int, dy as int, w as int, h as int),
        r matches Err(e) ==> e == GraphicsError::OutOfRange,
        forall|i: int, j: int|
            is_stored(*old(buf), i, j) ==> #[trigger] final(buf).pixel(i, j) == (if r is Ok
                && in_rect(dx as int, dy as int, w as int, h as int, i, j) {
                old(buf).pixel(i - dx + sx, j - dy + sy)
            } else {
                old(buf).pixel(i, j)
            }),
{
    if !check_rect(buf, sx, sy, w, h) || !check_rect(buf, dx, dy, w, h) {
        return Err(GraphicsError::OutOfRange);
    }
    if dy == sy && dx == sx {
        return Ok(());
    }
    let rev_y: bool = dy > sy;
    let rev_x: bool = dy == sy && dx > sx;
    let mut n: i64 = 0;
    while n < h
        invariant
            buf.wf(),
            same_shape(*old(buf), *buf),
            rect_in_range(*old(buf), sx as int, sy as int, w as int, h as int),
            rect_in_range(*old(buf), dx as int, dy as int, w as int, h as int),
            rev_y == (dy > sy),
            rev_x == (dy == sy && dx > sx),
            !(dy == sy && dx == sx),
            0 <= n,
            h <= 0 || n <= h,
            forall|i: int, j: int|
                is_stored(*old(buf), i, j) ==> #[trigger] buf.pixel(i, j) == (if moved_yet(
                    rev_y,
                    rev_x,
                    w as int,
                    h as int,
                    n as int,
                    0,
                    i - dx,
                    j - dy,
                ) {
                    old(buf).pixel(i - dx + sx, j - dy + sy)
                } else {
                    old(buf).pixel(i, j)
                }),
        decreases h - n,
    {
        let y: i64 = if rev_y {
            h - 1 - n
        } else {
            n
        };
        let mut m: i64 = 0;
        while m < w
            invariant
                buf.wf(),
                same_shape(*old(buf), *buf),
                rect_in_range(*old(buf), sx as int, sy as int, w as int, h as int),
                rect_in_range(*old(buf), dx as int, dy as int, w as int, h as int),
                rev_y == (dy > sy),
                rev_x == (dy == sy && dx > sx),
                !(dy == sy && dx == sx),
                0 <= n < h,
                y == (if rev_y {
                    h - 1 - n
                } else {
                    n as int
                }),
                0 <= m,
                w <= 0 || m <= w,
                forall|i: int, j: int|
                    is_stored(*old(buf), i, j) ==> #[trigger] buf.pixel(i, j) == (if moved_yet(
                        rev_y,
                        rev_x,
                        w as int,
                        h as int,
                        n as int,
                        m as int,
                        i - dx,
                        j - dy,
                    ) {
                        old(buf).pixel(i - dx + sx, j - dy + sy)
                    } else {
                        old(buf).pixel(i, j)
                    }),
            decreases w - m,
        {
            let x: i64 = if rev_x {
                w - 1 - m
            } else {
                m
            };
            let c = buf.unchecked_pixel_at(sx + x, sy + y);
            assert(c == old(buf).pixel(sx + x, sy + y));
            buf.unchecked_draw_point(c, dx + x, dy + y);
            m = m + 1;
        }
        n = n + 1;
    }
    Ok(())
}

/// Draws `src` into `dst` with its top left corner at `(dx, dy)`, clipped
/// to `dst`.
///
/// Only the rejection of a bitmap with a negative size is defined; for any
/// other pair of bitmaps the operation does not exist yet, so a caller must
/// not ask for it.
pub fn draw_bmp_clipped<DstBitmap: Bitmap, SrcBitmap: Bitmap>(
    dst: &mut DstBitmap,
    src: &SrcBitmap,
    dx: i64,
    dy: i64,
) -> (r: Result<(), GraphicsError>)
    requires
        old(dst).wf(),
        src.wf(),
        old(dst).spec_width() < 0 || old(dst).spec_height() < 0 || src.spec_width() < 0
            || src.spec_height() < 0,
    ensures
        r == Err::<(), GraphicsError>(GraphicsError::OutOfRange),
        *final(dst) == *old(dst),
{
    match Rect::new(0, 0, dst.width(), dst.height()) {
        Err(e) => Err(e),
        Ok(_) => {
            match Rect::new(dx, dy, src.width(), src.height()) {
                Err(e) => Err(e),
                Ok(_) => Err(GraphicsError::OutOfRange),
            }
        },
    }
}

} // verus!
