//! Colors of debug geometry.

use vstd::prelude::*;
use crate::scalar::Scalar;

verus! {

/// A color by its red, green, blue and alpha components. The library stores
/// colors; it does not compute with them.
#[derive(Copy, Clone, Debug, PartialEq, Eq, Structural)]
pub struct Color {
    pub r: Scalar,
    pub g: Scalar,
    pub b: Scalar,
    pub a: Scalar,
}

impl Color {
    pub fn from_bits(r: u32, g: u32, b: u32, a: u32) -> (color: Color)
        ensures
            color == (Color {
                r: Scalar { bits: r },
                g: Scalar { bits: g },
                b: Scalar { bits: b },
                a: Scalar { bits: a },
            }),
    {
        Color {
            r: Scalar { bits: r },
            g: Scalar { bits: g },
            b: Scalar { bits: b },
            a: Scalar { bits: a },
        }
    }
}

} // verus!
