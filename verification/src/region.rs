//! Rectangular regions of a frame.

use vstd::prelude::*;

verus! {

/// The rectangle of `width` x `height` pixels whose top-left corner is
/// (x, y).
#[derive(Clone, Copy, Debug, PartialEq, Eq, Structural)]
pub struct ImageRegion {
    pub x: u32,
    pub y: u32,
    pub width: u32,
    pub height: u32,
}

impl ImageRegion {
    pub open spec fn spec_contains(self, px: int, py: int) -> bool {
        self.x <= px < self.x + self.width && self.y <= py < self.y + self.height
    }

    pub fn new(x: u32, y: u32, width: u32, height: u32) -> (r: ImageRegion)
        ensures r == (ImageRegion { x, y, width, height }),
    {
        ImageRegion { x, y, width, height }
    }

    /// The whole frame.
    pub fn full_image(width: u32, height: u32) -> (r: ImageRegion)
        ensures r == (ImageRegion { x: 0, y: 0, width, height }),
    {
        Self::new(0, 0, width, height)
    }

    /// The top quarter of the frame.
    pub fn top_quarter(width: u32, height: u32) -> (r: ImageRegion)
        ensures r == (ImageRegion { x: 0, y: 0, width, height: height / 4 }),
    {
        Self::new(0, 0, width, height / 4)
    }

    /// The band of height h / 4 starting three quarters down.
    pub fn bottom_quarter(width: u32, height: u32) -> (r: ImageRegion)
        ensures r == (ImageRegion { x: 0, y: (height * 3 / 4) as u32, width, height: height / 4 }),
    {
        let y: u32 = ((height as u64) * 3 / 4) as u32;
        Self::new(0, y, width, height / 4)
    }

    /// The centre rectangle of half the width and half the height.
    pub fn center_half(width: u32, height: u32) -> (r: ImageRegion)
        ensures r == (ImageRegion { x: width / 4, y: height / 4, width: width / 2, height: height / 2 }),
    {
        Self::new(width / 4, height / 4, width / 2, height / 2)
    }

    /// The upper of the two stacked screens of a dual-screen capture.
    pub fn top_screen(width: u32, height: u32) -> (r: ImageRegion)
        ensures r == (ImageRegion { x: 0, y: 0, width, height: height / 2 }),
    {
        Self::new(0, 0, width, height / 2)
    }

    /// The lower of the two stacked screens of a dual-screen capture.
    pub fn bottom_screen(width: u32, height: u32) -> (r: ImageRegion)
        ensures r == (ImageRegion { x: 0, y: height / 2, width, height: height / 2 }),
    {
        Self::new(0, height / 2, width, height / 2)
    }

    /// Whether (px, py) lies inside the rectangle.
    pub fn contains_point(&self, px: u32, py: u32) -> (r: bool)
        ensures r == self.spec_contains(px as int, py as int),
    {
        px >= self.x && (px as u64) < self.x as u64 + self.width as u64
            && py >= self.y && (py as u64) < self.y as u64 + self.height as u64
    }

    /// Number of pixels covered.
    pub fn area(&self) -> (r: u64)
        ensures r == self.width * self.height,
    {
        proof {
            assert(self.width as int * self.height as int <= 0xffff_fffe_0000_0001) by (nonlinear_arith)
                requires self.width <= 0xffff_ffff, self.height <= 0xffff_ffff;
        }
        self.width as u64 * self.height as u64
    }
}

} // verus!
