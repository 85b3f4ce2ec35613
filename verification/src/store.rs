//! The parameter store: the current value of each parameter, addressed by
//! index, together with the fixed facts a host asks about a parameter.

use vstd::prelude::*;
use crate::params::{
    default_values, label_of, name_of, style_of, valid_index, DisplayStyle, CEILING, GAIN, MIX,
    PARAM_COUNT, UNITY_BITS,
};

verus! {

/// Current values of the three parameters, each an IEEE 754 single-precision
/// bit pattern. Any pattern may be stored; none is interpreted here.
#[derive(Debug)]
pub struct ParamStore {
    gain: u32,
    ceiling: u32,
    mix: u32,
}

impl ParamStore {
    /// Bits held for the parameter at `index`.
    pub closed spec fn value(&self, index: int) -> u32 {
        if index == GAIN {
            self.gain
        } else if index == CEILING {
            self.ceiling
        } else {
            self.mix
        }
    }
}

impl View for ParamStore {
    type V = Seq<u32>;

    /// The stored values in index order.
    open spec fn view(&self) -> Seq<u32> {
        Seq::new(PARAM_COUNT as nat, |i: int| self.value(i))
    }
}

impl Default for ParamStore {
    /// A store with every parameter at its default.
    fn default() -> (store: ParamStore)
        ensures
            store@ == default_values(),
    {
        ParamStore { gain: UNITY_BITS, ceiling: UNITY_BITS, mix: UNITY_BITS }
    }
}

impl ParamStore {
    /// Number of parameters, the same for every store.
    pub fn get_count() -> (count: i32)
        ensures
            count == PARAM_COUNT,
    {
        PARAM_COUNT
    }

    /// Name of the parameter at `index`. It is fixed by the index: no write
    /// to any store changes it.
    pub fn get_name(index: i32) -> (name: String)
        requires
            valid_index(index as int),
        ensures
            name@ == name_of(index as int),
    {
        if index == GAIN {
            "Gain".to_string()
        } else if index == CEILING {
            "Ceiling".to_string()
        } else {
            "Dry/Wet".to_string()
        }
    }

    /// Unit label of the parameter at `index`, fixed by the index as the
    /// name is.
    pub fn get_label(index: i32) -> (label: String)
        requires
            valid_index(index as int),
        ensures
            label@ == label_of(index as int),
    {
        if index == MIX {
            "%".to_string()
        } else {
            String::new()
        }
    }

    /// How the value of the parameter at `index` is to be rendered as text.
    pub fn get_display_style(index: i32) -> (style: DisplayStyle)
        requires
            valid_index(index as int),
        ensures
            style == style_of(index as int),
    {
        if index == MIX {
            DisplayStyle::Scaled { factor: 100, decimals: 2 }
        } else {
            DisplayStyle::Plain
        }
    }

    /// Current value of the parameter at `index`.
    pub fn get_value(&self, index: i32) -> (bits: u32)
        requires
            valid_index(index as int),
        ensures
            bits == self@[index as int],
    {
        if index == GAIN {
            self.gain
        } else if index == CEILING {
            self.ceiling
        } else {
            self.mix
        }
    }

    /// Overwrites the parameter at `index` with `bits`, whatever they are,
    /// and leaves the other parameters as they were.
    pub fn set_value(&mut self, index: i32, bits: u32)
        requires
            valid_index(index as int),
        ensures
            final(self)@ == old(self)@.update(index as int, bits),
    {
        if index == GAIN {
            self.gain = bits;
        } else if index == CEILING {
            self.ceiling = bits;
        } else {
            self.mix = bits;
        }
    }

    /// Every parameter may be driven by host automation.
    pub fn is_automatable(index: i32) -> (automatable: bool)
        ensures
            automatable,
    {
        true
    }
}

/// Read-after-write: if `after` is what `set_value(index, bits)` leaves of
/// `before`, then `get_value(index)` on it returns exactly `bits`, whichever
/// bits they are.
pub proof fn lemma_read_after_write(before: ParamStore, after: ParamStore, index: int, bits: u32)
    requires
        valid_index(index),
        after@ == before@.update(index, bits),
    ensures
        after@[index] == bits,
{
}

/// A write changes one parameter only: if `after` is what
/// `set_value(index, bits)` leaves of `before`, every other parameter reads
/// as it did before.
pub proof fn lemma_write_keeps_others(
    before: ParamStore,
    after: ParamStore,
    index: int,
    bits: u32,
    other: int,
)
    requires
        valid_index(index),
        valid_index(other),
        other != index,
        after@ == before@.update(index, bits),
    ensures
        after@[other] == before@[other],
{
}

} // verus!
