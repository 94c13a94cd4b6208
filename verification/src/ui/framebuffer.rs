//! The picture that is sent to the display: one 16-bit colour per pixel, row by row, the high
//! byte first.
use crate::geometry::{Point, Rectangle, Size};
use embedded_graphics::framebuffer::Framebuffer;
use embedded_graphics::pixelcolor::raw::{BigEndian, RawU16};
use embedded_graphics::pixelcolor::Rgb565;
use vstd::prelude::*;

verus! {

pub const DISPLAY_WIDTH: usize = 410;
pub const DISPLAY_HEIGHT: usize = 502;
/// The bytes of the picture.
pub const FRAME_BYTES: usize = 411_640;

/// The memory of a picture.
#[verifier::external_type_specification]
#[verifier::external_body]
#[verifier::reject_recursive_types(C)]
#[verifier::reject_recursive_types(R)]
#[verifier::reject_recursive_types(BO)]
pub struct ExFramebuffer<C, R, BO, const WIDTH: usize, const HEIGHT: usize, const N: usize>(
    Framebuffer<C, R, BO, WIDTH, HEIGHT, N>,
);

/// A colour of the display.
#[verifier::external_type_specification]
#[verifier::external_body]
pub struct ExRgb565(Rgb565);

/// A colour as it is kept: two bytes.
#[verifier::external_type_specification]
#[verifier::external_body]
pub struct ExRawU16(RawU16);

/// The order of those bytes: the high one first.
#[verifier::external_type_specification]
#[verifier::external_body]
pub struct ExBigEndian(BigEndian);

/// The memory of the display's picture.
pub type DisplayFramebuffer = Framebuffer<Rgb565, RawU16, BigEndian, 410, 502, 411_640>;

/// The bytes that a picture's memory holds.
pub uninterp spec fn framebuffer_bytes(frame: DisplayFramebuffer) -> Seq<u8>;

/// `Framebuffer::new` makes memory that holds zeros only, as many as the display has pixels,
/// two for each.
#[verifier::external_body]
fn new_framebuffer() -> (r: DisplayFramebuffer)
    ensures
        framebuffer_bytes(r) == Seq::new(411_640, |i: int| 0u8),
{
    DisplayFramebuffer::new()
}

/// `Framebuffer::data` lends the bytes, which are two for each pixel of the display.
#[verifier::external_body]
fn framebuffer_data(frame: &DisplayFramebuffer) -> (r: &[u8])
    ensures
        r@ == framebuffer_bytes(*frame),
        r@.len() == 411_640,
{
    frame.data()
}

/// `Framebuffer::data_mut` lends the bytes, which are two for each pixel of the display, to be
/// changed: what is written there, the memory holds.
#[verifier::external_body]
fn framebuffer_data_mut(frame: &mut DisplayFramebuffer) -> (r: &mut [u8])
    ensures
        r@ == framebuffer_bytes(*old(frame)),
        r@.len() == 411_640,
        framebuffer_bytes(*final(frame)) == final(r)@,
        final(r)@.len() == 411_640,
{
    frame.data_mut()
}

/// The picture.
pub struct FastFramebuffer {
    inner: Box<DisplayFramebuffer>,
}

/// Whether a pixel lies on the display.
pub open spec fn on_display(x: int, y: int) -> bool {
    0 <= x < 410 && 0 <= y < 502
}

/// The place of a pixel's first byte.
pub open spec fn pixel_place(x: int, y: int) -> int {
    (y * 410 + x) * 2
}

/// The colour of a pixel in the bytes of a picture.
pub open spec fn color_at(data: Seq<u8>, x: int, y: int) -> int {
    data[pixel_place(x, y)] * 256 + data[pixel_place(x, y) + 1]
}

/// The part of a rectangle that lies on the display: first column, first row, and the ones
/// behind the last.
pub open spec fn clipped(r: Rectangle) -> (int, int, int, int) {
    (
        if r.top_left.x < 0 {
            0
        } else {
            r.top_left.x as int
        },
        if r.top_left.y < 0 {
            0
        } else {
            r.top_left.y as int
        },
        if r.right() > 410 {
            410
        } else {
            r.right()
        },
        if r.bottom() > 502 {
            502
        } else {
            r.bottom()
        },
    )
}

/// The part of a rectangle that lies on the display, if there is one.
fn clip(r: Rectangle) -> (c: Option<(usize, usize, usize, usize)>)
    ensures
        match c {
            Some((x0, y0, x1, y1)) => {
                &&& clipped(r) == (x0 as int, y0 as int, x1 as int, y1 as int)
                &&& x0 < x1 <= 410
                &&& y0 < y1 <= 502
            },
            None => clipped(r).0 >= clipped(r).2 || clipped(r).1 >= clipped(r).3,
        },
{
    let left: i64 = r.top_left.x as i64;
    let top: i64 = r.top_left.y as i64;
    let right: i64 = left + r.size.width as i64;
    let bottom: i64 = top + r.size.height as i64;
    let x0: i64 = if left < 0 {
        0
    } else {
        left
    };
    let y0: i64 = if top < 0 {
        0
    } else {
        top
    };
    let x1: i64 = if right > 410 {
        410
    } else {
        right
    };
    let y1: i64 = if bottom > 502 {
        502
    } else {
        bottom
    };
    if x0 >= x1 || y0 >= y1 {
        return None;
    }
    Some((x0 as usize, y0 as usize, x1 as usize, y1 as usize))
}

/// The two bytes of a colour, the high one first.
pub fn rgb565_be(raw: u16) -> (r: (u8, u8))
    ensures
        r.0 * 256 + r.1 == raw,
{
    ((raw / 256) as u8, (raw % 256) as u8)
}

/// Writes one colour over so many pixels from a place on.
fn fill_rgb565_be_row(data: &mut [u8], start: usize, pixels: usize, raw: u16)
    requires
        start + pixels * 2 <= old(data)@.len(),
    ensures
        final(data)@.len() == old(data)@.len(),
        forall|i: int|
            0 <= i < old(data)@.len() && !(start <= i < start + pixels * 2)
                ==> #[trigger] final(data)@[i] == old(data)@[i],
        forall|k: int|
            0 <= k < pixels ==> (#[trigger] final(data)@[start + k * 2]) * 256 + final(data)@[start
                + k * 2 + 1] == raw,
{
    let (hi, lo) = rgb565_be(raw);
    let len: usize = data.len();
    let mut k: usize = 0;
    while k < pixels
        invariant
            k <= pixels,
            len == data@.len(),
            hi * 256 + lo == raw,
            start + pixels * 2 <= data@.len(),
            data@.len() == old(data)@.len(),
            forall|i: int|
                0 <= i < data@.len() && !(start <= i < start + k * 2) ==> #[trigger] data@[i]
                    == old(data)@[i],
            forall|j: int|
                0 <= j < k ==> (#[trigger] data@[start + j * 2]) == hi && data@[start + j * 2 + 1]
                    == lo,
        decreases pixels - k,
    {
        data[start + k * 2] = hi;
        data[start + k * 2 + 1] = lo;
        k = k + 1;
    }
}

impl FastFramebuffer {
    /// The picture holds every pixel of the display.
    pub closed spec fn wf(self) -> bool {
        self.bytes().len() == FRAME_BYTES
    }

    /// The bytes of the picture.
    pub closed spec fn bytes(self) -> Seq<u8> {
        framebuffer_bytes(*self.inner)
    }

    /// The colour of a pixel.
    pub open spec fn pixel(self, x: int, y: int) -> int {
        color_at(self.bytes(), x, y)
    }

    /// A black picture.
    pub fn new() -> (r: Self)
        ensures
            r.wf(),
            r.bytes().len() == 411_640,
            forall|x: int, y: int| on_display(x, y) ==> #[trigger] r.pixel(x, y) == 0,
    {
        FastFramebuffer { inner: Box::new(new_framebuffer()) }
    }

    /// The bytes of the picture.
    pub fn data(&self) -> (r: &[u8])
        ensures
            r@ == self.bytes(),
            r@.len() == 411_640,
    {
        framebuffer_data(&self.inner)
    }

    /// The extent of the picture.
    pub fn size(&self) -> (r: Size)
        ensures
            r == (Size { width: 410, height: 502 }),
    {
        Size { width: DISPLAY_WIDTH as u32, height: DISPLAY_HEIGHT as u32 }
    }

    /// The bytes of the part of a rectangle that lies on the display, row by row, and that
    /// part; nothing where no part of it does.
    pub fn rect_data(&self, rect: Rectangle) -> (r: Option<(Vec<u8>, Rectangle)>)
        requires
            self.wf(),
        ensures
            match r {
                Some((out, part)) => {
                    let (x0, y0, x1, y1) = clipped(rect);
                    &&& x0 < x1 && y0 < y1
                    &&& part.top_left.x == x0 && part.top_left.y == y0
                    &&& part.size.width == x1 - x0 && part.size.height == y1 - y0
                    &&& out@.len() == (y1 - y0) * ((x1 - x0) * 2)
                    &&& forall|row: int, i: int|
                        0 <= row < y1 - y0 && 0 <= i < (x1 - x0) * 2
                            ==> #[trigger] out@[row * ((x1 - x0) * 2) + i] == self.bytes()[
                            pixel_place(x0, y0 + row) + i]
                },
                None => clipped(rect).0 >= clipped(rect).2 || clipped(rect).1 >= clipped(rect).3,
            },
    {
        let (x0, y0, x1, y1) = match clip(rect) {
            Some(c) => c,
            None => return None,
        };
        let row_len: usize = (x1 - x0) * 2;
        let mut out: Vec<u8> = Vec::new();
        let data = framebuffer_data(&self.inner);
        let mut row: usize = y0;
        proof {
            assert((y0 - y0) * row_len == 0) by (nonlinear_arith);
        }
        while row < y1
            invariant
                data@ == self.bytes(),
                data@.len() == FRAME_BYTES,
                x0 < x1 <= 410,
                y0 <= row <= y1 <= 502,
                row_len == (x1 - x0) * 2,
                out@.len() == (row - y0) * row_len,
                forall|k: int, i: int|
                    0 <= k < row - y0 && 0 <= i < row_len ==> #[trigger] out@[k * row_len + i]
                        == self.bytes()[pixel_place(x0 as int, y0 + k) + i],
            decreases y1 - row,
        {
            let start: usize = (row * DISPLAY_WIDTH + x0) * 2;
            let ghost before = out@;
            out.extend_from_slice(&data[start..start + row_len]);
            proof {
                let done = row - y0;
                assert((done + 1) * row_len == done * row_len + row_len) by (nonlinear_arith);
                assert forall|k: int, i: int| 0 <= k < done + 1 && 0 <= i < row_len implies
                    #[trigger] out@[k * row_len + i] == self.bytes()[pixel_place(
                    x0 as int,
                    y0 + k,
                ) + i] by {
                    if k < done {
                        assert(k * row_len + i < done * row_len) by (nonlinear_arith)
                            requires
                                0 <= k < done,
                                0 <= i < row_len,
                        ;
                        assert(k * row_len >= 0) by (nonlinear_arith)
                            requires
                                k >= 0,
                                row_len >= 0,
                        ;
                        assert(out@[k * row_len + i] == before[k * row_len + i]);
                    } else {
                        assert(out@[done * row_len + i] == data@[start + i]);
                    }
                }
            }
            row = row + 1;
        }
        let part = Rectangle::new(
            Point::new(x0 as i32, y0 as i32),
            Size::new((x1 - x0) as u32, (y1 - y0) as u32),
        );
        Some((out, part))
    }

    /// Sets the colour of a pixel; one outside the display is passed over.
    pub fn set_pixel_fast(&mut self, p: Point, raw: u16)
        requires
            old(self).wf(),
        ensures
            final(self).wf(),
            forall|x: int, y: int|
                on_display(x, y) ==> #[trigger] final(self).pixel(x, y) == (if x == p.x && y
                    == p.y {
                    raw as int
                } else {
                    old(self).pixel(x, y)
                }),
            !on_display(p.x as int, p.y as int) ==> *final(self) == *old(self),
    {
        if p.x < 0 || p.y < 0 || p.x >= 410 || p.y >= 502 {
            return;
        }
        let x: usize = p.x as usize;
        let y: usize = p.y as usize;
        let (hi, lo) = rgb565_be(raw);
        let index: usize = (y * DISPLAY_WIDTH + x) * 2;
        let data = framebuffer_data_mut(&mut self.inner);
        data[index] = hi;
        data[index + 1] = lo;
    }

    /// Sets the colour of all pixels of an area that lie on the display.
    pub fn fill_solid(&mut self, area: Rectangle, raw: u16)
        requires
            old(self).wf(),
        ensures
            final(self).wf(),
            forall|x: int, y: int|
                on_display(x, y) ==> #[trigger] final(self).pixel(x, y) == (if area.holds(x, y) {
                    raw as int
                } else {
                    old(self).pixel(x, y)
                }),
    {
        let (x0, y0, x1, y1) = match clip(area) {
            Some(c) => c,
            None => return,
        };
        let width: usize = x1 - x0;
        let mut y: usize = y0;
        while y < y1
            invariant
                self.wf(),
                x0 < x1 <= 410,
                y0 <= y <= y1 <= 502,
                width == x1 - x0,
                forall|px: int, py: int|
                    on_display(px, py) ==> #[trigger] self.pixel(px, py) == (if x0 <= px < x1
                        && y0 <= py < y {
                        raw as int
                    } else {
                        old(self).pixel(px, py)
                    }),
            decreases y1 - y,
        {
            let row_start: usize = (y * DISPLAY_WIDTH + x0) * 2;
            let ghost earlier = *self;
            let ghost before = self.bytes();
            fill_rgb565_be_row(
                framebuffer_data_mut(&mut self.inner),
                row_start,
                width,
                raw,
            );
            proof {
                assert forall|px: int, py: int| on_display(px, py) implies #[trigger] self.pixel(
                    px,
                    py,
                ) == (if x0 <= px < x1 && y0 <= py < y + 1 {
                    raw as int
                } else {
                    old(self).pixel(px, py)
                }) by {
                    let at = pixel_place(px, py);
                    assert(earlier.pixel(px, py) == color_at(before, px, py));
                    if py == y && x0 <= px < x1 {
                        let k = px - x0;
                        assert(at == row_start + k * 2);
                        assert(self.bytes()[row_start + k * 2] * 256 + self.bytes()[row_start + k * 2
                            + 1] == raw);
                    } else {
                        assert(!(row_start <= at < row_start + width * 2));
                        assert(self.bytes()[at] == before[at]);
                        assert(self.bytes()[at + 1] == before[at + 1]);
                        assert(color_at(before, px, py) == color_at(self.bytes(), px, py));
                    }
                }
            }
            y = y + 1;
        }
    }

    /// Sets the colour of all pixels.
    pub fn clear(&mut self, raw: u16)
        requires
            old(self).wf(),
        ensures
            final(self).wf(),
            forall|x: int, y: int| on_display(x, y) ==> #[trigger] final(self).pixel(x, y) == raw,
    {
        self.fill_solid(
            Rectangle::new(
                Point::new(0, 0),
                Size::new(DISPLAY_WIDTH as u32, DISPLAY_HEIGHT as u32),
            ),
            raw,
        )
    }
}

/// Two pixels of the display share no byte.
pub proof fn law_pixels_share_no_byte(x1: int, y1: int, x2: int, y2: int)
    requires
        on_display(x1, y1),
        on_display(x2, y2),
        (x1, y1) != (x2, y2),
    ensures
        pixel_place(x1, y1) + 1 < pixel_place(x2, y2) || pixel_place(x2, y2) + 1 < pixel_place(
            x1,
            y1,
        ),
        0 <= pixel_place(x1, y1) < 411_639,
{
}

/// The picture is kept row by row from the upper left corner on, two bytes for each pixel, of
/// which the first is the high one: the next pixel of a row follows its neighbour, and the first
/// of a row the last one of the row above.
pub proof fn law_picture_is_kept_row_by_row(data: Seq<u8>, x: int, y: int, hi: u8, lo: u8)
    requires
        on_display(x, y),
        data.len() == 411_640,
    ensures
        pixel_place(0, 0) == 0,
        pixel_place(x + 1, y) == pixel_place(x, y) + 2,
        pixel_place(0, y + 1) == pixel_place(409, y) + 2,
        pixel_place(409, 501) + 2 == 411_640,
        color_at(
            data.update(pixel_place(x, y), hi).update(pixel_place(x, y) + 1, lo),
            x,
            y,
        ) == 256 * hi + lo,
{
}

/// The part of a rectangle on the display is what lies in both.
pub proof fn law_clipped_part_lies_in_both(r: Rectangle, x: int, y: int)
    ensures
        ({
            let (x0, y0, x1, y1) = clipped(r);
            x0 <= x < x1 && y0 <= y < y1 <==> r.holds(x, y) && on_display(x, y)
        }),
{
}

} // verus!
