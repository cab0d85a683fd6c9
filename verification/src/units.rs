//! Physical lengths and the conversion to the output format's point unit.
//!
//! The document model stores every length in one real-world unit: thousandths
//! of a millimetre, held exactly in an integer.  The conversion to points
//! (1 mm = 2.834646 pt) is a pure function applied only at the moment a
//! drawing instruction is lowered, never earlier.

use vstd::prelude::*;

verus! {

/// A physical length in thousandths of a millimetre.
#[derive(Clone, Copy, Debug, PartialEq, Eq, Structural)]
pub struct Mm {
    /// The length in thousandths of a millimetre.
    pub thousandths: i64,
}

/// Numerator of the millimetre-to-point ratio, against `MM_TO_PT_DEN`:
/// 1 mm = 2.834646 pt, so 1 thousandth of a millimetre
/// = 2_834_646 / 1_000_000_000 pt.
pub const MM_TO_PT_NUM: i64 = 2_834_646;

/// Denominator of the millimetre-to-point ratio.
pub const MM_TO_PT_DEN: i64 = 1_000_000_000;

/// Largest magnitude (in thousandths of a millimetre) a length may have so
/// that the conversion to points cannot overflow a 64-bit integer.
pub const MM_ABS_LIMIT: i64 = 1_000_000_000_000;

impl Mm {
    /// Whether the length is small enough for the point conversion.
    pub open spec fn in_range(self) -> bool {
        -MM_ABS_LIMIT <= self.thousandths <= MM_ABS_LIMIT
    }

    /// Constructs a length from a count of thousandths of a millimetre.
    pub fn from_thousandths(thousandths: i64) -> (r: Mm)
        ensures
            r.thousandths == thousandths,
    {
        Mm { thousandths }
    }
}

/// The whole-point value of a length given in thousandths of a millimetre,
/// truncated toward zero as the executable conversion truncates.
pub open spec fn pt_of(thousandths: int) -> int {
    if thousandths >= 0 {
        (thousandths * MM_TO_PT_NUM) / (MM_TO_PT_DEN as int)
    } else {
        -(((-thousandths) * MM_TO_PT_NUM) / (MM_TO_PT_DEN as int))
    }
}

/// Converts a length to whole points, truncating toward zero.
pub fn mm_to_pt(len: Mm) -> (r: i64)
    requires
        len.in_range(),
    ensures
        r as int == pt_of(len.thousandths as int),
        -3_000_000_000 <= r <= 3_000_000_000,
{
    if len.thousandths >= 0 {
        let scaled: u64 = (len.thousandths as u64) * 2_834_646;
        let q: u64 = scaled / 1_000_000_000;
        q as i64
    } else {
        let neg: i64 = -len.thousandths;
        let scaled: u64 = (neg as u64) * 2_834_646;
        let q: u64 = scaled / 1_000_000_000;
        -(q as i64)
    }
}

} // verus!
