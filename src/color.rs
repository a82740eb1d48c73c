use vstd::prelude::*;

verus! {

/// Absolute difference of two channel values.
pub open spec fn channel_diff(a: u8, b: u8) -> int {
    if a >= b {
        a - b
    } else {
        b - a
    }
}

/// A reference colour, compared against the red, green and blue channels of a pixel.
#[derive(Clone, Copy, Debug, PartialEq, Eq, Structural)]
pub struct Color {
    pub r: u8,
    pub g: u8,
    pub b: u8,
}

/// The exclamation mark shown when a fish bites.
pub open spec fn bite_color() -> Color {
    Color { r: 241, g: 27, b: 28 }
}

/// The banner colour shown once a fish has been landed.
pub open spec fn caught_color() -> Color {
    Color { r: 255, g: 255, b: 0 }
}

impl Color {
    /// |Δr| + |Δg| + |Δb| between this colour and the channels `(r, g, b)`.
    pub open spec fn manhattan(self, r: u8, g: u8, b: u8) -> int {
        channel_diff(self.r, r) + channel_diff(self.g, g) + channel_diff(self.b, b)
    }

    /// Δr² + Δg² + Δb² between this colour and the channels `(r, g, b)`.
    pub open spec fn euclid_sq(self, r: u8, g: u8, b: u8) -> int {
        channel_diff(self.r, r) * channel_diff(self.r, r) + channel_diff(self.g, g)
            * channel_diff(self.g, g) + channel_diff(self.b, b) * channel_diff(self.b, b)
    }

    /// The colour of a bite indicator.
    pub fn red_exclamation() -> (c: Color)
        ensures
            c == bite_color(),
    {
        Color { r: 241, g: 27, b: 28 }
    }

    /// The colour of a catch indicator.
    pub fn yellow_caught() -> (c: Color)
        ensures
            c == caught_color(),
    {
        Color { r: 255, g: 255, b: 0 }
    }

    /// Manhattan distance to the first three channels of `other`.
    pub fn distance(&self, other: &[u8]) -> (d: u32)
        requires
            other@.len() >= 3,
        ensures
            d == self.manhattan(other@[0], other@[1], other@[2]),
    {
        let dr = abs_diff(self.r, other[0]);
        let dg = abs_diff(self.g, other[1]);
        let db = abs_diff(self.b, other[2]);
        dr as u32 + dg as u32 + db as u32
    }

    /// Squared Euclidean distance to the first three channels of `other`.
    pub fn distance_squared(&self, other: &[u8]) -> (d: u32)
        requires
            other@.len() >= 3,
        ensures
            d == self.euclid_sq(other@[0], other@[1], other@[2]),
    {
        self.distance_sq_rgb(other[0], other[1], other[2])
    }

    /// Manhattan distance to the channels `(r, g, b)`.
    pub fn distance_rgb(&self, r: u8, g: u8, b: u8) -> (d: u32)
        ensures
            d == self.manhattan(r, g, b),
    {
        abs_diff(self.r, r) as u32 + abs_diff(self.g, g) as u32 + abs_diff(self.b, b) as u32
    }

    /// Squared Euclidean distance to the channels `(r, g, b)`.
    pub fn distance_sq_rgb(&self, r: u8, g: u8, b: u8) -> (d: u32)
        ensures
            d == self.euclid_sq(r, g, b),
    {
        let dr = abs_diff(self.r, r) as u32;
        let dg = abs_diff(self.g, g) as u32;
        let db = abs_diff(self.b, b) as u32;
        assert(dr * dr <= 255 * 255) by (nonlinear_arith)
            requires
                dr <= 255,
        ;
        assert(dg * dg <= 255 * 255) by (nonlinear_arith)
            requires
                dg <= 255,
        ;
        assert(db * db <= 255 * 255) by (nonlinear_arith)
            requires
                db <= 255,
        ;
        dr * dr + dg * dg + db * db
    }
}

fn abs_diff(a: u8, b: u8) -> (d: u8)
    ensures
        d == channel_diff(a, b),
{
    if a >= b {
        a - b
    } else {
        b - a
    }
}

} // verus!
