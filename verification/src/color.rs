//! Colours whose components are exact fractions.
use vstd::prelude::*;

verus! {

/// The fraction `numerator / denominator`, kept as the two integers it was
/// made from.
#[derive(Clone, Copy, Debug, PartialEq, Eq, Structural)]
pub struct Ratio {
    pub numerator: u32,
    pub denominator: u32,
}

impl Ratio {
    /// The fraction denotes a number in the half-open interval `[0, 1)`.
    pub open spec fn in_unit_interval(self) -> bool {
        self.numerator < self.denominator
    }

    /// The fraction denotes zero.
    pub open spec fn is_zero(self) -> bool {
        self.numerator == 0 && self.denominator > 0
    }
}

/// A colour, one fraction for each of red, green and blue.
#[derive(Clone, Copy, Debug, PartialEq, Eq, Structural)]
pub struct Color {
    pub red: Ratio,
    pub green: Ratio,
    pub blue: Ratio,
}

/// The colour of the gradient at `(column, row)` in an image of `width`
/// columns and `height` rows: red is `column / width`, green is
/// `row / height`, blue is zero.
pub open spec fn gradient_color(column: u32, row: u32, width: u32, height: u32) -> Color {
    Color {
        red: Ratio { numerator: column, denominator: width },
        green: Ratio { numerator: row, denominator: height },
        blue: Ratio { numerator: 0, denominator: 1 },
    }
}

impl Color {
    /// Red and green lie in `[0, 1)` and blue is zero.
    pub open spec fn in_gradient_range(self) -> bool {
        &&& self.red.in_unit_interval()
        &&& self.green.in_unit_interval()
        &&& self.blue.is_zero()
    }

    /// Computes the colour of the gradient at `(column, row)`.
    pub fn gradient_at(column: u32, row: u32, width: u32, height: u32) -> (color: Color)
        requires
            column < width,
            row < height,
        ensures
            color == gradient_color(column, row, width, height),
            color.in_gradient_range(),
    {
        Color {
            red: Ratio { numerator: column, denominator: width },
            green: Ratio { numerator: row, denominator: height },
            blue: Ratio { numerator: 0, denominator: 1 },
        }
    }
}

} // verus!
