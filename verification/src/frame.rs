//! Raw frames and pixel-format conversions.

use vstd::prelude::*;

verus! {

/// One captured or decoded image: row-major pixels, 4 bytes per pixel,
/// RGBA ordering. Immutable once constructed; handed off by move from
/// one loop stage to the next.
pub struct Frame {
    pub width: u32,
    pub height: u32,
    pub pixels: Vec<u8>,
}

impl Frame {
    /// The pixel buffer holds exactly 4 bytes for each of
    /// `width * height` pixels.
    pub open spec fn wf(self) -> bool {
        self.pixels@.len() == 4 * (self.width as int) * (self.height as int)
    }

    /// Well-formed with positive dimensions.
    pub open spec fn valid(self) -> bool {
        self.wf() && self.width > 0 && self.height > 0
    }

    /// Construct a frame from its dimensions and pixel buffer.
    pub fn new(width: u32, height: u32, pixels: Vec<u8>) -> (r: Frame)
        requires
            0 < width,
            0 < height,
            pixels@.len() == 4 * (width as int) * (height as int),
        ensures
            r.valid(),
            r.width == width,
            r.height == height,
            r.pixels == pixels,
    {
        Frame { width, height, pixels }
    }
}

/// An optional capture rectangle, restricting the sender to a sub-area
/// of the screen. Set once at session start and read-only afterwards.
pub struct CaptureRegion {
    pub x: u32,
    pub y: u32,
    pub width: u32,
    pub height: u32,
}

impl CaptureRegion {
    /// Positive size, and the rectangle lies within a screen of the
    /// given dimensions.
    pub open spec fn within(self, screen_width: u32, screen_height: u32) -> bool {
        &&& 0 < self.width
        &&& 0 < self.height
        &&& self.x + self.width <= screen_width
        &&& self.y + self.height <= screen_height
    }

    /// Check the invariant at run time, as the shell must before it
    /// starts a session with a user-chosen rectangle.
    pub fn check_within(&self, screen_width: u32, screen_height: u32) -> (r: bool)
        ensures
            r == self.within(screen_width, screen_height),
    {
        0 < self.width && 0 < self.height && self.width <= screen_width && self.x <= screen_width
            - self.width && self.height <= screen_height && self.y <= screen_height - self.height
    }
}

/// Cut the region out of a full frame: row-major RGBA bytes of the
/// sub-rectangle, rows in order, nothing else.
pub fn crop_frame(frame: &Frame, region: &CaptureRegion) -> (out: Frame)
    requires
        frame.wf(),
        region.within(frame.width, frame.height),
    ensures
        out.valid(),
        out.width == region.width,
        out.height == region.height,
        forall|row: int, k: int|
            0 <= row < region.height && 0 <= k < 4 * region.width ==> (#[trigger] out.pixels@[row
                * (4 * region.width as int) + k]) == frame.pixels@[(region.y + row) * (4
                * frame.width as int) + 4 * region.x + k],
{
    let fw = frame.width as usize;
    let rw = region.width as usize;
    let rh = region.height as usize;
    proof {
        assert((frame.height as int) * (4 * fw as int) == frame.pixels@.len() && 4 * rw <= 4 * fw
            <= frame.pixels@.len()) by (nonlinear_arith)
            requires
                frame.pixels@.len() == 4 * (frame.width as int) * (frame.height as int),
                fw == frame.width,
                rw == region.width,
                0 < frame.height,
                rw <= fw,
        ;
    }
    let flen = frame.pixels.len();
    let frame_row_bytes = 4 * fw;
    let out_row_bytes = 4 * rw;
    let mut pixels: Vec<u8> = Vec::new();
    let mut row: usize = 0;
    while row < rh
        invariant
            row <= rh,
            rh == region.height,
            rw == region.width,
            fw == frame.width,
            frame_row_bytes == 4 * fw,
            out_row_bytes == 4 * rw,
            frame.wf(),
            region.within(frame.width, frame.height),
            (frame.height as int) * (4 * fw as int) == frame.pixels@.len(),
            frame.pixels@.len() == flen,
            pixels@.len() == row * (4 * rw as int),
            forall|r: int, k: int|
                0 <= r < row && 0 <= k < 4 * rw ==> (#[trigger] pixels@[r * (4 * rw as int) + k])
                    == frame.pixels@[(region.y + r) * (4 * fw as int) + 4 * region.x + k],
        decreases rh - row,
    {
        proof {
            assert((region.y + row) * (4 * fw as int) + 4 * region.x + 4 * rw
                <= frame.pixels@.len()) by (nonlinear_arith)
                requires
                    (frame.height as int) * (4 * fw as int) == frame.pixels@.len(),
                    region.y + row < frame.height,
                    region.x + rw <= fw,
                    rw <= fw,
                    0 <= region.y,
                    0 <= region.x,
                    0 <= row,
                    0 < fw,
            ;
            assert(pixels@.len() + 4 * rw <= frame.pixels@.len()) by (nonlinear_arith)
                requires
                    pixels@.len() == row * (4 * rw as int),
                    row < rh,
                    (frame.height as int) * (4 * fw as int) == frame.pixels@.len(),
                    rh <= frame.height,
                    rw <= fw,
                    0 <= row,
                    0 < rw,
            ;
        }
        let src_base = (region.y as usize + row) * frame_row_bytes + 4 * (region.x as usize);
        let ghost row_start = pixels@.len() as int;
        let mut k: usize = 0;
        while k < out_row_bytes
            invariant
                k <= out_row_bytes,
                out_row_bytes == 4 * rw,
                rw == region.width,
                fw == frame.width,
                0 <= row,
                src_base == (region.y + row) * (4 * fw as int) + 4 * region.x,
                src_base + out_row_bytes <= frame.pixels@.len(),
                frame.pixels@.len() == flen,
                pixels@.len() == row_start + k,
                row_start == row * (4 * rw as int),
                forall|r: int, kk: int|
                    0 <= r < row && 0 <= kk < 4 * rw ==> (#[trigger] pixels@[r * (4 * rw as int)
                        + kk]) == frame.pixels@[(region.y + r) * (4 * fw as int) + 4 * region.x
                        + kk],
                forall|j: int|
                    0 <= j < k ==> #[trigger] pixels@[row_start + j] == frame.pixels@[src_base
                        + j],
            decreases out_row_bytes - k,
        {
            pixels.push(frame.pixels[src_base + k]);
            proof {
                assert forall|r: int, kk: int|
                    0 <= r < row && 0 <= kk < 4 * rw implies (#[trigger] pixels@[r * (4
                    * rw as int) + kk]) == frame.pixels@[(region.y + r) * (4 * fw as int) + 4
                    * region.x + kk] by {
                    assert(r * (4 * rw as int) + kk < row_start) by (nonlinear_arith)
                        requires
                            0 <= r < row,
                            0 <= kk < 4 * rw,
                            row_start == row * (4 * rw as int),
                    ;
                }
            }
            k = k + 1;
        }
        proof {
            assert forall|r: int, kk: int|
                0 <= r < row + 1 && 0 <= kk < 4 * rw implies (#[trigger] pixels@[r * (4
                * rw as int) + kk]) == frame.pixels@[(region.y + r) * (4 * fw as int) + 4
                * region.x + kk] by {
                if r < row {
                    assert(r * (4 * rw as int) + kk < row_start) by (nonlinear_arith)
                        requires
                            0 <= r < row,
                            0 <= kk < 4 * rw,
                            row_start == row * (4 * rw as int),
                        ;
                } else {
                    assert(r * (4 * rw as int) == row_start);
                    assert(pixels@[row_start + kk] == frame.pixels@[src_base + kk]);
                }
            }
            assert(pixels@.len() == (row + 1) * (4 * rw as int)) by (nonlinear_arith)
                requires
                    pixels@.len() == row * (4 * rw as int) + 4 * rw,
                ;
        }
        row = row + 1;
    }
    proof {
        assert(pixels@.len() == 4 * (region.width as int) * (region.height as int))
            by (nonlinear_arith)
            requires
                pixels@.len() == rh * (4 * rw as int),
                rh == region.height,
                rw == region.width,
        ;
    }
    Frame { width: region.width, height: region.height, pixels }
}

/// The packed 32-bit pixel a display buffer holds for one RGBA pixel:
/// alpha in the top byte, then red, green, blue.
pub open spec fn packed_pixel(r: u8, g: u8, b: u8, a: u8) -> u32 {
    ((a as u32) << 24) | ((r as u32) << 16) | ((g as u32) << 8) | (b as u32)
}

/// Pack an RGBA frame into one 32-bit word per pixel for presentation.
pub fn display_buffer(frame: &Frame) -> (out: Vec<u32>)
    requires
        frame.wf(),
    ensures
        out@.len() == (frame.width as int) * (frame.height as int),
        forall|j: int|
            0 <= j < out@.len() ==> out@[j] == packed_pixel(
                frame.pixels@[4 * j],
                frame.pixels@[4 * j + 1],
                frame.pixels@[4 * j + 2],
                frame.pixels@[4 * j + 3],
            ),
{
    let len = frame.pixels.len();
    let n = len / 4;
    proof {
        assert(n == (frame.width as int) * (frame.height as int) && 4 * n
            == frame.pixels@.len()) by (nonlinear_arith)
            requires
                n == len / 4,
                len == frame.pixels@.len(),
                frame.pixels@.len() == 4 * (frame.width as int) * (frame.height as int),
        ;
    }
    let mut out: Vec<u32> = Vec::new();
    let mut i: usize = 0;
    while i < n
        invariant
            i <= n,
            4 * n == frame.pixels@.len(),
            4 * n <= usize::MAX,
            out@.len() == i,
            forall|j: int|
                0 <= j < i ==> out@[j] == packed_pixel(
                    frame.pixels@[4 * j],
                    frame.pixels@[4 * j + 1],
                    frame.pixels@[4 * j + 2],
                    frame.pixels@[4 * j + 3],
                ),
        decreases n - i,
    {
        let r = frame.pixels[4 * i];
        let g = frame.pixels[4 * i + 1];
        let b = frame.pixels[4 * i + 2];
        let a = frame.pixels[4 * i + 3];
        out.push(((a as u32) << 24) | ((r as u32) << 16) | ((g as u32) << 8) | (b as u32));
        i = i + 1;
    }
    out
}

/// Convert a row of 4-byte BGRA pixels, as a screen capture hands them
/// out, into RGBA with the alpha byte forced opaque.
pub fn bgra_to_rgba(src: &Vec<u8>) -> (out: Vec<u8>)
    requires
        src@.len() % 4 == 0,
    ensures
        out@.len() == src@.len(),
        forall|j: int|
            0 <= j < src@.len() / 4 ==> (#[trigger] out@[4 * j]) == src@[4 * j + 2] && out@[4 * j
                + 1] == src@[4 * j + 1] && out@[4 * j + 2] == src@[4 * j] && out@[4 * j + 3]
                == 255,
{
    let len = src.len();
    let n = len / 4;
    proof {
        assert(4 * n == src@.len()) by (nonlinear_arith)
            requires
                n == len / 4,
                len == src@.len(),
                src@.len() % 4 == 0,
        ;
    }
    let mut out: Vec<u8> = Vec::new();
    let mut i: usize = 0;
    while i < n
        invariant
            i <= n,
            4 * n == src@.len(),
            4 * n <= usize::MAX,
            out@.len() == 4 * i,
            forall|j: int|
                0 <= j < i ==> (#[trigger] out@[4 * j]) == src@[4 * j + 2] && out@[4 * j + 1]
                    == src@[4 * j + 1] && out@[4 * j + 2] == src@[4 * j] && out@[4 * j + 3] == 255,
        decreases n - i,
    {
        let ghost prev = out@;
        out.push(src[4 * i + 2]);
        out.push(src[4 * i + 1]);
        out.push(src[4 * i]);
        out.push(255);
        proof {
            assert forall|j: int| 0 <= j < i + 1 implies (#[trigger] out@[4 * j]) == src@[4 * j
                + 2] && out@[4 * j + 1] == src@[4 * j + 1] && out@[4 * j + 2] == src@[4 * j]
                && out@[4 * j + 3] == 255 by {
                if j < i {
                    assert(prev[4 * j] == src@[4 * j + 2]);
                    assert(out@[4 * j] == prev[4 * j]);
                    assert(out@[4 * j + 1] == prev[4 * j + 1]);
                    assert(out@[4 * j + 2] == prev[4 * j + 2]);
                    assert(out@[4 * j + 3] == prev[4 * j + 3]);
                } else {
                    assert(out@[4 * j] == src@[4 * j + 2]);
                }
            }
        }
        i = i + 1;
    }
    out
}

} // verus!
