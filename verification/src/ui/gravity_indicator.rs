//! The gravity indicator shows a weight icon for the current gravity: the
//! largest horizontal component, rounded, picks 0, 2, 10 or 20, anything
//! else shows a question mark.

use vstd::prelude::*;

verus! {

/// The icon of the gravity indicator.
#[derive(Debug, Clone, Copy, PartialEq, Eq, Structural)]
pub enum GravityLevel {
    L0,
    L2,
    L10,
    L20,
    Unknown,
}

pub open spec fn spec_asset_name(level: GravityLevel) -> Seq<char> {
    match level {
        GravityLevel::L0 => "weight-0"@,
        GravityLevel::L2 => "weight-2"@,
        GravityLevel::L10 => "weight-10"@,
        GravityLevel::L20 => "weight-20"@,
        GravityLevel::Unknown => "weight-question"@,
    }
}

impl GravityLevel {
    /// The name of the icon's image.
    pub fn asset_name(self) -> (s: &'static str)
        ensures
            s@ == spec_asset_name(self),
    {
        match self {
            GravityLevel::L0 => "weight-0",
            GravityLevel::L2 => "weight-2",
            GravityLevel::L10 => "weight-10",
            GravityLevel::L20 => "weight-20",
            GravityLevel::Unknown => "weight-question",
        }
    }
}

pub open spec fn abs_int(v: i32) -> int {
    if v < 0 {
        -(v as int)
    } else {
        v as int
    }
}

/// The largest magnitude among the rounded components (0 when there is
/// none; a component that is not finite has no rounding).
pub open spec fn spec_best_magnitude(x: Option<i32>, z: Option<i32>) -> int {
    let bx = match x {
        Some(v) => abs_int(v),
        None => 0,
    };
    let bz = match z {
        Some(v) => abs_int(v),
        None => 0,
    };
    if bz > bx {
        bz
    } else {
        bx
    }
}

pub open spec fn spec_level_for_magnitude(m: int) -> GravityLevel {
    if m == 20 {
        GravityLevel::L20
    } else if m == 10 {
        GravityLevel::L10
    } else if m == 2 {
        GravityLevel::L2
    } else if m == 0 {
        GravityLevel::L0
    } else {
        GravityLevel::Unknown
    }
}

/// The icon for a gravity whose x and z components round to `x` and `z`.
pub fn level_from_rounded(x: Option<i32>, z: Option<i32>) -> (l: GravityLevel)
    requires
        x != Some(i32::MIN),
        z != Some(i32::MIN),
    ensures
        l == spec_level_for_magnitude(spec_best_magnitude(x, z)),
{
    let mut best: i32 = 0;
    match x {
        Some(v) => {
            let a = if v < 0 {
                -v
            } else {
                v
            };
            if a > best {
                best = a;
            }
        },
        None => {},
    }
    match z {
        Some(v) => {
            let a = if v < 0 {
                -v
            } else {
                v
            };
            if a > best {
                best = a;
            }
        },
        None => {},
    }
    match best {
        20 => GravityLevel::L20,
        10 => GravityLevel::L10,
        2 => GravityLevel::L2,
        0 => GravityLevel::L0,
        _ => GravityLevel::Unknown,
    }
}

/// The icon shows the strongest horizontal pull: a magnitude of 0, 2, 10 or
/// 20 gives its weight icon and any other the question mark; the strongest
/// pull does not depend on which of x and z carries it, and is at least the
/// magnitude of each.
pub proof fn gravity_icon_follows_the_strongest_pull(x: Option<i32>, z: Option<i32>, m: int)
    ensures
        spec_level_for_magnitude(0) == GravityLevel::L0,
        spec_level_for_magnitude(2) == GravityLevel::L2,
        spec_level_for_magnitude(10) == GravityLevel::L10,
        spec_level_for_magnitude(20) == GravityLevel::L20,
        m != 0 && m != 2 && m != 10 && m != 20 ==> spec_level_for_magnitude(m)
            == GravityLevel::Unknown,
        spec_best_magnitude(x, z) == spec_best_magnitude(z, x),
        x matches Some(v) ==> spec_best_magnitude(x, z) >= abs_int(v),
        z matches Some(v) ==> spec_best_magnitude(x, z) >= abs_int(v),
        spec_best_magnitude(x, z) >= 0,
        spec_best_magnitude(x, z) == 0 || (x matches Some(v) && spec_best_magnitude(x, z)
            == abs_int(v)) || (z matches Some(v) && spec_best_magnitude(x, z) == abs_int(v)),
{
}

} // verus!
