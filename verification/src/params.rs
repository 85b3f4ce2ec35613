//! The fixed table of parameters: indices, names, unit labels, defaults and
//! the way each value is shown to a user.

use vstd::prelude::*;

verus! {

/// Number of parameters the effect exposes.
pub const PARAM_COUNT: i32 = 3;

/// Index of the input gain, a unitless multiplier.
pub const GAIN: i32 = 0;

/// Index of the saturation ceiling, the divisor applied before the shaper.
pub const CEILING: i32 = 1;

/// Index of the dry/wet mix, a fraction between zero and one by convention.
pub const MIX: i32 = 2;

/// Bit pattern of the value one, the default of every parameter.
pub const UNITY_BITS: u32 = 0x3f80_0000;

/// The indices that address a parameter.
pub open spec fn valid_index(index: int) -> bool {
    0 <= index < PARAM_COUNT
}

/// Name of the parameter at `index`.
pub open spec fn name_of(index: int) -> Seq<char>
    recommends
        valid_index(index),
{
    if index == GAIN {
        "Gain"@
    } else if index == CEILING {
        "Ceiling"@
    } else {
        "Dry/Wet"@
    }
}

/// Unit label of the parameter at `index`: empty unless the value is shown
/// as a percentage.
pub open spec fn label_of(index: int) -> Seq<char>
    recommends
        valid_index(index),
{
    if index == MIX {
        "%"@
    } else {
        Seq::<char>::empty()
    }
}

/// How a parameter value is turned into text for the user.
#[derive(Clone, Copy, Debug, PartialEq, Eq, Structural)]
pub enum DisplayStyle {
    /// The value itself, in the shortest decimal form that reads back as
    /// the same value.
    Plain,
    /// The value multiplied by `factor`, with exactly `decimals` digits
    /// after the decimal point.
    Scaled { factor: u32, decimals: u32 },
}

/// Display style of the parameter at `index`: the mix is shown in percent
/// with two decimals, the others as they are.
pub open spec fn style_of(index: int) -> DisplayStyle
    recommends
        valid_index(index),
{
    if index == MIX {
        DisplayStyle::Scaled { factor: 100, decimals: 2 }
    } else {
        DisplayStyle::Plain
    }
}

/// Values of a freshly created store: every parameter at one.
pub open spec fn default_values() -> Seq<u32> {
    Seq::new(PARAM_COUNT as nat, |i: int| UNITY_BITS)
}

/// Tells whether `index` addresses a parameter.
pub fn is_valid_index(index: i32) -> (valid: bool)
    ensures
        valid == valid_index(index as int),
{
    0 <= index && index < PARAM_COUNT
}

} // verus!
