//! Colors and the six sectors of the hue circle.

use vstd::prelude::*;

verus! {

/// Four byte values for one pixel: red, green, blue and alpha.
#[derive(Clone, Copy, Debug, PartialEq, Eq, Structural)]
pub struct RGBA(pub u8, pub u8, pub u8, pub u8);

/// One sixth of the hue circle, named by the colors at its two ends.
///
/// At full saturation and half lightness a hue has one channel at full
/// strength, one channel at zero and one *secondary* channel in between. The
/// sector decides which channel plays which part; where in the sector the hue
/// lies decides the secondary channel's level.
#[derive(Clone, Copy, Debug, PartialEq, Eq, Structural)]
pub enum Sector {
    /// From red towards yellow: green rises.
    RedToYellow,
    /// From yellow towards green: red falls.
    YellowToGreen,
    /// From green towards cyan: blue rises.
    GreenToCyan,
    /// From cyan towards blue: green falls.
    CyanToBlue,
    /// From blue towards magenta: red rises.
    BlueToMagenta,
    /// From magenta back to red: blue falls.
    MagentaToRed,
}

impl Sector {
    /// The opaque color of a hue in this sector whose secondary channel
    /// stands at `level`.
    pub open spec fn spec_color(self, level: u8) -> RGBA {
        match self {
            Sector::RedToYellow => RGBA(255, level, 0, 255),
            Sector::YellowToGreen => RGBA(level, 255, 0, 255),
            Sector::GreenToCyan => RGBA(0, 255, level, 255),
            Sector::CyanToBlue => RGBA(0, level, 255, 255),
            Sector::BlueToMagenta => RGBA(level, 0, 255, 255),
            Sector::MagentaToRed => RGBA(255, 0, level, 255),
        }
    }

    /// The sector that follows this one as the hue grows; the last sector is
    /// followed by the first.
    pub open spec fn next(self) -> Sector {
        match self {
            Sector::RedToYellow => Sector::YellowToGreen,
            Sector::YellowToGreen => Sector::GreenToCyan,
            Sector::GreenToCyan => Sector::CyanToBlue,
            Sector::CyanToBlue => Sector::BlueToMagenta,
            Sector::BlueToMagenta => Sector::MagentaToRed,
            Sector::MagentaToRed => Sector::RedToYellow,
        }
    }

    /// Whether the secondary channel rises as the hue crosses this sector.
    pub open spec fn rising(self) -> bool {
        match self {
            Sector::RedToYellow | Sector::GreenToCyan | Sector::BlueToMagenta => true,
            Sector::YellowToGreen | Sector::CyanToBlue | Sector::MagentaToRed => false,
        }
    }

    /// The secondary channel's level where the hue enters this sector.
    pub open spec fn entry_level(self) -> u8 {
        if self.rising() { 0 } else { 255 }
    }

    /// The secondary channel's level where the hue leaves this sector.
    pub open spec fn exit_level(self) -> u8 {
        if self.rising() { 255 } else { 0 }
    }

    /// Lays out the channels of a hue in this sector: the sector's leading
    /// channel at 255, its secondary channel at `level`, the third at 0, and
    /// full alpha.
    pub fn color(self, level: u8) -> (c: RGBA)
        ensures
            c == self.spec_color(level),
    {
        match self {
            Sector::RedToYellow => RGBA(u8::MAX, level, 0, u8::MAX),
            Sector::YellowToGreen => RGBA(level, u8::MAX, 0, u8::MAX),
            Sector::GreenToCyan => RGBA(0, u8::MAX, level, u8::MAX),
            Sector::CyanToBlue => RGBA(0, level, u8::MAX, u8::MAX),
            Sector::BlueToMagenta => RGBA(level, 0, u8::MAX, u8::MAX),
            Sector::MagentaToRed => RGBA(u8::MAX, 0, level, u8::MAX),
        }
    }
}

/// The color wheel has no seams: the color with which a sector ends is the
/// color with which the next sector begins, and the last sector ends on the
/// red with which the first begins.
pub proof fn lemma_sectors_meet(s: Sector)
    ensures
        s.spec_color(s.exit_level()) == s.next().spec_color(s.next().entry_level()),
{
}

} // verus!
