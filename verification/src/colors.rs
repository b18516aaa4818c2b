//! The two-color palette the host maps framebuffer cells onto.
use vstd::prelude::*;

verus! {

/// A palette entry. Cell value 0 maps to the background color, any other
/// value to the foreground color; the concrete RGB values are the host's
/// business.
#[derive(Clone, Copy, Debug, PartialEq, Eq, Structural)]
pub enum Colors {
    Black,
    Green,
    White,
    Red,
}

/// The color of an unlit framebuffer cell.
pub const BACKGROUND_COLOR: Colors = Colors::Black;

/// The color of a lit framebuffer cell.
pub const FOREGROUND_COLOR: Colors = Colors::Green;

impl Colors {
    /// The palette entry for a framebuffer cell value.
    pub fn from_u8(num: u8) -> (r: Self)
        ensures
            r == (if num == 0 { BACKGROUND_COLOR } else { FOREGROUND_COLOR }),
    {
        match num {
            0 => BACKGROUND_COLOR,
            _ => FOREGROUND_COLOR,
        }
    }
}

} // verus!
