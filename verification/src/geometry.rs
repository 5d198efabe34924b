use vstd::prelude::*;

verus! {

/// Identifier of a screen as assigned by the screen-layout managers.
#[derive(Debug, Clone, Copy, PartialEq, Eq, Hash, Structural)]
pub struct ScreenId(pub u8);

impl ScreenId {
    /// Largest screen identifier that can be assigned.
    pub const MAX: u8 = 255;

    pub fn get(self) -> (id: u8)
        ensures
            id == self.0,
    {
        self.0
    }
}

/// Size of a frame or an output in pixels.
#[derive(Debug, Clone, Copy, PartialEq, Eq, Hash, Structural)]
pub struct PixelSize {
    pub width: u32,
    pub height: u32,
}

/// A frame rate as the fraction `numerator / denominator` frames per second.
#[derive(Debug, Clone, Copy, PartialEq, Eq, Hash, Structural)]
pub struct FrameRate {
    pub numerator: u32,
    pub denominator: u32,
}

impl FrameRate {
    /// Whether both terms of the fraction are positive.
    pub open spec fn is_valid(self) -> bool {
        self.numerator > 0 && self.denominator > 0
    }

    /// The frame rate `numerator / denominator`, if both terms are positive.
    pub fn new(numerator: u32, denominator: u32) -> (r: Option<FrameRate>)
        ensures
            r == (if numerator > 0 && denominator > 0 {
                Some(FrameRate { numerator, denominator })
            } else {
                None
            }),
    {
        if numerator > 0 && denominator > 0 {
            Some(FrameRate { numerator, denominator })
        } else {
            None
        }
    }

    pub fn numerator(self) -> (n: u32)
        ensures
            n == self.numerator,
    {
        self.numerator
    }

    pub fn denominator(self) -> (d: u32)
        ensures
            d == self.denominator,
    {
        self.denominator
    }
}

} // verus!
