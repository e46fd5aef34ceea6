//! Raw RGBA frames and rectangular selections inside them.

use vstd::prelude::*;

verus! {

/// The mathematical content of a frame: its size and its bytes, row-major,
/// top-left origin, four bytes per pixel, no padding.
pub ghost struct FrameView {
    pub pixels: Seq<u8>,
    pub width: nat,
    pub height: nat,
}

impl FrameView {
    /// The byte sequence has exactly the length that the size calls for.
    pub open spec fn well_formed(self) -> bool {
        self.pixels.len() == self.width * self.height * 4
    }

    /// Position in `pixels` of channel `c` of the pixel in column `x`, row `y`.
    pub open spec fn offset(self, x: int, y: int, c: int) -> int {
        (y * self.width + x) * 4 + c
    }

    /// Channel `c` (0 = red .. 3 = alpha) of the pixel in column `x`, row `y`.
    pub open spec fn channel(self, x: int, y: int, c: int) -> u8
        recommends
            0 <= x < self.width,
            0 <= y < self.height,
            0 <= c < 4,
    {
        self.pixels[self.offset(x, y, c)]
    }
}

/// An uncompressed RGBA snapshot of a display.
#[derive(Clone, Debug)]
pub struct RawScreenshot {
    pub data: Vec<u8>,
    pub width: u32,
    pub height: u32,
}

impl View for RawScreenshot {
    type V = FrameView;

    open spec fn view(&self) -> FrameView {
        FrameView { pixels: self.data@, width: self.width as nat, height: self.height as nat }
    }
}

/// A rectangle in frame-pixel coordinates, as submitted by a selection UI.
#[derive(Clone, Copy, Debug)]
pub struct SelectionBounds {
    pub x: i32,
    pub y: i32,
    pub width: i32,
    pub height: i32,
}

impl SelectionBounds {
    /// The rectangle is non-empty, starts at non-negative coordinates and lies
    /// wholly inside a frame of the given size.
    pub open spec fn fits(self, frame_width: nat, frame_height: nat) -> bool {
        &&& self.x >= 0
        &&& self.y >= 0
        &&& self.width > 0
        &&& self.height > 0
        &&& self.x + self.width <= frame_width
        &&& self.y + self.height <= frame_height
    }

    /// Decides `fits` for a frame of the given size.
    pub fn is_inside(&self, frame_width: u32, frame_height: u32) -> (r: bool)
        ensures
            r == self.fits(frame_width as nat, frame_height as nat),
    {
        self.x >= 0 && self.y >= 0 && self.width > 0 && self.height > 0
            && self.x as i64 + self.width as i64 <= frame_width as i64
            && self.y as i64 + self.height as i64 <= frame_height as i64
    }
}

/// Why a selection was refused.
#[derive(Clone, Copy, Debug, PartialEq, Eq, Structural)]
pub enum ValidationError {
    /// The rectangle is empty, starts at a negative coordinate or reaches
    /// beyond the frame.
    InvalidRegion,
}

/// The first `rows` rows of the sub-rectangle of `f` that starts in column
/// `x`, row `y` and is `w` pixels wide, row after row.
pub open spec fn crop_rows(f: FrameView, x: int, y: int, w: int, rows: nat) -> Seq<u8>
    decreases rows,
{
    if rows == 0 {
        Seq::empty()
    } else {
        crop_rows(f, x, y, w, (rows - 1) as nat) + f.pixels.subrange(
            f.offset(x, y + rows - 1, 0),
            f.offset(x + w, y + rows - 1, 0),
        )
    }
}

/// The sub-rectangle of `f` that `rect` selects.
pub open spec fn cropped(f: FrameView, rect: SelectionBounds) -> FrameView {
    FrameView {
        pixels: crop_rows(f, rect.x as int, rect.y as int, rect.width as int, rect.height as nat),
        width: rect.width as nat,
        height: rect.height as nat,
    }
}

/// A row of the selection lies inside the byte sequence of the frame.
pub proof fn lemma_row_in_frame(f: FrameView, x: int, y: int, w: int)
    requires
        f.well_formed(),
        0 <= x,
        0 <= w,
        x + w <= f.width,
        0 <= y < f.height,
    ensures
        0 <= f.offset(x, y, 0) <= f.offset(x + w, y, 0) <= f.pixels.len(),
        f.offset(x + w, y, 0) - f.offset(x, y, 0) == w * 4,
{
    let width = f.width as int;
    let height = f.height as int;
    assert(y * width >= 0) by (nonlinear_arith)
        requires
            y >= 0,
            width >= 0,
    ;
    assert((y + 1) * width <= height * width) by (nonlinear_arith)
        requires
            y + 1 <= height,
            width >= 0,
    ;
    assert((y + 1) * width == y * width + width) by (nonlinear_arith);
    assert(height * width == width * height) by (nonlinear_arith);
}

/// `crop_rows` holds `w * 4` bytes for each row, and each of its bytes is the
/// byte of the frame that lies `x` columns and `y` rows further on.
pub proof fn lemma_crop_rows(f: FrameView, x: int, y: int, w: int, rows: nat)
    requires
        f.well_formed(),
        0 <= x,
        0 <= y,
        0 <= w,
        x + w <= f.width,
        y + rows <= f.height,
    ensures
        crop_rows(f, x, y, w, rows).len() == rows * (w * 4),
        forall|j: int, t: int|
            0 <= j < rows && 0 <= t < w * 4 ==> #[trigger] crop_rows(f, x, y, w, rows)[j * (w * 4)
                + t] == f.pixels[f.offset(x, y + j, 0) + t],
    decreases rows,
{
    if rows > 0 {
        let before = (rows - 1) as nat;
        lemma_crop_rows(f, x, y, w, before);
        lemma_row_in_frame(f, x, y + before, w);
        let head = crop_rows(f, x, y, w, before);
        let last = f.pixels.subrange(f.offset(x, y + before, 0), f.offset(x + w, y + before, 0));
        assert(rows * (w * 4) == before * (w * 4) + w * 4) by (nonlinear_arith)
            requires
                rows == before + 1,
        ;
        assert forall|j: int, t: int| 0 <= j < rows && 0 <= t < w * 4 implies #[trigger] crop_rows(
            f,
            x,
            y,
            w,
            rows,
        )[j * (w * 4) + t] == f.pixels[f.offset(x, y + j, 0) + t] by {
            if j < before {
                assert(j * (w * 4) + t < before * (w * 4)) by (nonlinear_arith)
                    requires
                        0 <= j < before,
                        0 <= t < w * 4,
                ;
                assert(j * (w * 4) + t >= 0) by (nonlinear_arith)
                    requires
                        0 <= j,
                        0 <= t,
                        0 <= w,
                ;
                assert((head + last)[j * (w * 4) + t] == head[j * (w * 4) + t]);
            } else {
                assert(j == before);
                assert((head + last)[j * (w * 4) + t] == last[t]);
            }
        }
    }
}

impl RawScreenshot {
    /// The buffer has exactly `width * height * 4` bytes.
    pub open spec fn well_formed(&self) -> bool {
        self@.well_formed()
    }

    /// Builds a frame from its size and bytes; `None` where the number of
    /// bytes is not the one that the size calls for.
    pub fn from_raw(width: u32, height: u32, data: Vec<u8>) -> (r: Option<RawScreenshot>)
        ensures
            r is Some <==> data@.len() == width as nat * height as nat * 4,
            r is Some ==> r.unwrap().well_formed() && r.unwrap().data@ == data@
                && r.unwrap().width == width && r.unwrap().height == height,
    {
        let frame = RawScreenshot { data, width, height };
        if frame.is_well_formed() {
            Some(frame)
        } else {
            None
        }
    }

    /// Decides `well_formed`.
    pub fn is_well_formed(&self) -> (r: bool)
        ensures
            r == self.well_formed(),
    {
        assert(0 <= self.width as int * self.height as int <= u64::MAX) by (nonlinear_arith)
            requires
                self.width <= u32::MAX,
                self.height <= u32::MAX,
        ;
        let area: u64 = self.width as u64 * self.height as u64;
        let len: u64 = self.data.len() as u64;
        len % 4 == 0 && len / 4 == area
    }

    /// Cuts the rectangle `rect` out of the frame.
    ///
    /// The selection is validated, never clamped: a rectangle that is empty,
    /// has a negative corner or reaches beyond the frame is refused.
    pub fn crop(&self, rect: &SelectionBounds) -> (r: Result<RawScreenshot, ValidationError>)
        requires
            self.well_formed(),
        ensures
            r is Ok <==> rect.fits(self.width as nat, self.height as nat),
            r is Ok ==> r.unwrap()@ == cropped(self@, *rect) && r.unwrap().well_formed(),
            r is Err ==> r == Err::<RawScreenshot, ValidationError>(ValidationError::InvalidRegion),
    {
        if !rect.is_inside(self.width, self.height) {
            return Err(ValidationError::InvalidRegion);
        }
        let ghost f = self@;
        let ghost gx = rect.x as int;
        let ghost gy = rect.y as int;
        let ghost gw = rect.width as int;
        let x: usize = rect.x as usize;
        let y: usize = rect.y as usize;
        let w: usize = rect.width as usize;
        let h: usize = rect.height as usize;
        let frame_width: usize = self.width as usize;
        let len: usize = self.data.len();
        let mut out: Vec<u8> = Vec::new();
        let mut j: usize = 0;
        while j < h
            invariant
                len == self.data@.len(),
                self.well_formed(),
                f == self@,
                rect.fits(self.width as nat, self.height as nat),
                gx == x == rect.x,
                gy == y == rect.y,
                gw == w == rect.width,
                h == rect.height,
                frame_width == self.width,
                j <= h,
                out@ == crop_rows(f, gx, gy, gw, j as nat),
            decreases h - j,
        {
            proof {
                lemma_row_in_frame(f, gx, gy + j, gw);
                assert((gy + j) * f.width >= 0) by (nonlinear_arith)
                    requires
                        gy + j >= 0,
                        f.width >= 0,
                ;
                let ghost row_int = (gy + j) * f.width;
                assert((y + j) * frame_width == row_int) by (nonlinear_arith)
                    requires
                        y == gy,
                        frame_width == f.width,
                        row_int == (gy + j) * f.width,
                ;
                assert((row_int + gx + gw) * 4 == f.offset(gx + gw, gy + j, 0));
                assert((row_int + gx) * 4 == f.offset(gx, gy + j, 0));
                assert(0 <= row_int <= (row_int + gx + gw) * 4 <= len);
            }
            let row: usize = (y + j) * frame_width;
            let start: usize = (row + x) * 4;
            let end: usize = (row + x + w) * 4;
            let mut k: usize = start;
            while k < end
                invariant
                    f == self@,
                    start <= k <= end <= self.data@.len(),
                    start == f.offset(gx, gy + j, 0),
                    end == f.offset(gx + gw, gy + j, 0),
                    out@ == crop_rows(f, gx, gy, gw, j as nat) + f.pixels.subrange(
                        start as int,
                        k as int,
                    ),
                decreases end - k,
            {
                out.push(self.data[k]);
                k += 1;
                assert(f.pixels.subrange(start as int, k as int) == f.pixels.subrange(
                    start as int,
                    k - 1,
                ).push(f.pixels[k - 1]));
            }
            j += 1;
        }
        proof {
            lemma_crop_rows(f, gx, gy, gw, h as nat);
            assert(h as nat * (gw * 4) == rect.width as nat * rect.height as nat * 4)
                by (nonlinear_arith)
                requires
                    h == rect.height,
                    gw == rect.width,
                    rect.width > 0,
                    rect.height > 0,
            ;
        }
        Ok(RawScreenshot { data: out, width: rect.width as u32, height: rect.height as u32 })
    }
}

/// Cropping yields a frame of the size of the rectangle, and each pixel of
/// it is the pixel of the source frame that lies `rect.x` columns and
/// `rect.y` rows further on.
pub proof fn crop_selects_the_rectangle(f: FrameView, rect: SelectionBounds, i: int, j: int, c: int)
    requires
        f.well_formed(),
        rect.fits(f.width, f.height),
        0 <= i < rect.width,
        0 <= j < rect.height,
        0 <= c < 4,
    ensures
        cropped(f, rect).width == rect.width,
        cropped(f, rect).height == rect.height,
        cropped(f, rect).well_formed(),
        cropped(f, rect).channel(i, j, c) == f.channel(rect.x + i, rect.y + j, c),
{
    let w = rect.width as int;
    lemma_crop_rows(f, rect.x as int, rect.y as int, w, rect.height as nat);
    assert(rect.height as nat * (w * 4) == rect.width as nat * rect.height as nat * 4)
        by (nonlinear_arith)
        requires
            w == rect.width,
            rect.width > 0,
            rect.height > 0,
    ;
    let t = i * 4 + c;
    assert(cropped(f, rect).offset(i, j, c) == j * (w * 4) + t) by (nonlinear_arith)
        requires
            cropped(f, rect).offset(i, j, c) == (j * w + i) * 4 + c,
            t == i * 4 + c,
    ;
    assert(f.offset(rect.x + i, rect.y + j, c) == f.offset(rect.x as int, rect.y + j, 0) + t);
    assert(crop_rows(f, rect.x as int, rect.y as int, w, rect.height as nat)[j * (w * 4) + t]
        == f.pixels[f.offset(rect.x as int, rect.y + j, 0) + t]);
}

} // verus!
