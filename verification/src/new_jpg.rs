//! Pictures as they are decoded: two bytes per pixel, row by row.
use vstd::prelude::*;

verus! {

/// The extent to which pictures are decoded.
pub const JPEG_SCALE: u16 = 412;

/// A decoded picture, in units of sixteen bytes.
#[derive(Debug)]
pub struct JpegBufferu16 {
    pub data: Vec<u128>,
    pub width: usize,
    pub height: usize,
}

/// The rows of a picture that a window shows: where they start and end in its bytes, and how
/// many they are.
#[derive(Debug, Clone, Copy, PartialEq, Eq, Structural)]
pub struct WindowBytes {
    pub start: usize,
    pub end: usize,
    pub rows: usize,
}

impl JpegBufferu16 {
    /// A black picture.
    pub fn new(width: usize, height: usize) -> (r: Self)
        requires
            width * height * 2 <= usize::MAX,
        ensures
            r.width == width,
            r.height == height,
            r.data@.len() == width * height * 2 / 16,
            forall|i: int| 0 <= i < r.data@.len() ==> #[trigger] r.data@[i] == 0,
    {
        proof {
            assert(width * height >= 0) by (nonlinear_arith);
        }
        let units: usize = width * height * 2 / 16;
        let mut data: Vec<u128> = Vec::new();
        data.resize(units, 0);
        JpegBufferu16 { data, width, height }
    }

    /// The first row of a window of so many rows: at most the last one from which the window
    /// is filled.
    pub open spec fn window_top(self, offset: int, rows: int) -> int {
        let last = if self.height < rows {
            0
        } else {
            self.height - rows
        };
        if offset < last {
            offset
        } else {
            last
        }
    }

    /// The rows that a window of so many rows shows.
    pub open spec fn window_rows(self, offset: int, rows: int) -> int {
        let left = self.height - self.window_top(offset, rows);
        if left < rows {
            left
        } else {
            rows
        }
    }

    /// The bytes that a window of so many rows, from `offset` on, shows.
    pub fn flush_window(&self, offset: usize, win_h: usize) -> (r: WindowBytes)
        requires
            self.width * self.height * 2 <= usize::MAX,
        ensures
            r.rows == self.window_rows(offset as int, win_h as int),
            r.start == self.window_top(offset as int, win_h as int) * self.width * 2,
            r.end == r.start + r.rows * self.width * 2,
            r.end <= self.width * self.height * 2,
    {
        let max_offset: usize = self.height.saturating_sub(win_h);
        let off: usize = if offset < max_offset {
            offset
        } else {
            max_offset
        };
        let left: usize = self.height - off;
        let size: usize = if left < win_h {
            left
        } else {
            win_h
        };
        proof {
            let w = self.width as int;
            let h = self.height as int;
            assert(off * w <= h * w) by (nonlinear_arith)
                requires
                    off <= h,
                    w >= 0,
            ;
            assert((off + size) * w <= h * w) by (nonlinear_arith)
                requires
                    off + size <= h,
                    w >= 0,
            ;
            assert((off + size) * w == off * w + size * w) by (nonlinear_arith);
            assert(h * w == w * h) by (nonlinear_arith);
            assert(off * w >= 0 && size * w >= 0) by (nonlinear_arith)
                requires
                    w >= 0,
            ;
        }
        let start: usize = off * self.width * 2;
        let end: usize = start + size * self.width * 2;
        WindowBytes { start, end, rows: size }
    }
}

/// A window lies in its picture: it starts where it is asked to, unless the picture ends before
/// the window would, and then as low as it can; it shows as many rows as it has, or the whole
/// picture where that has fewer.
pub proof fn law_window_lies_in_the_picture(p: JpegBufferu16, offset: int, rows: int)
    requires
        0 <= offset,
        0 <= rows,
    ensures
        0 <= p.window_top(offset, rows) <= offset,
        p.window_top(offset, rows) + p.window_rows(offset, rows) <= p.height,
        offset + rows <= p.height ==> p.window_top(offset, rows) == offset && p.window_rows(
            offset,
            rows,
        ) == rows,
        rows <= p.height < offset + rows ==> p.window_top(offset, rows) + rows == p.height
            && p.window_rows(offset, rows) == rows,
        p.height < rows ==> p.window_top(offset, rows) == 0 && p.window_rows(offset, rows)
            == p.height,
{
}

} // verus!
