//! The parameter store: the plugin's automatable controls, shared
//! between the audio path and the control surface. There is one
//! parameter, volume, held in thousandths of the unit range.

use vstd::prelude::*;
use vstd::string::StringExecFns;

use crate::VOLUME_SCALE;

verus! {

/// A value forced into the declared range of the volume parameter.
pub open spec fn clamped(value: u32) -> u32 {
    if value > VOLUME_SCALE {
        VOLUME_SCALE
    } else {
        value
    }
}

/// The plugin's automatable parameters. The one parameter, volume,
/// lives at index 0; every other index is answered with a neutral
/// value, never an error, since hosts probe indices speculatively.
pub struct ParameterStore {
    /// Volume in thousandths: `VOLUME_SCALE` stands for 1.0.
    pub volume: u32,
}

impl ParameterStore {
    /// The store's invariant: the volume sits in its declared range.
    pub open spec fn wf(&self) -> bool {
        self.volume <= VOLUME_SCALE
    }

    /// The value the store answers for an index: the volume at index
    /// 0, a neutral zero anywhere else.
    pub open spec fn spec_get(&self, index: i32) -> u32 {
        if index == 0 {
            self.volume
        } else {
            0
        }
    }

    /// The store after a write: the volume, forced into range, at
    /// index 0; untouched for any other index.
    pub open spec fn spec_set(&self, index: i32, value: u32) -> ParameterStore {
        if index == 0 {
            ParameterStore { volume: clamped(value) }
        } else {
            *self
        }
    }

    /// A fresh store with the volume at its default of 1.0.
    pub fn new() -> (s: ParameterStore)
        ensures
            s.wf(),
            s.volume == VOLUME_SCALE,
    {
        ParameterStore { volume: VOLUME_SCALE }
    }

    /// A store holding the given raw volume, forced into range.
    pub fn from_raw(value: u32) -> (s: ParameterStore)
        ensures
            s.wf(),
            s.volume == clamped(value),
    {
        if value > VOLUME_SCALE {
            ParameterStore { volume: VOLUME_SCALE }
        } else {
            ParameterStore { volume: value }
        }
    }

    /// Reads the parameter at an index; an unknown index reads as 0.
    pub fn get_parameter(&self, index: i32) -> (r: u32)
        ensures
            r == self.spec_get(index),
    {
        if index == 0 {
            self.volume
        } else {
            0
        }
    }

    /// Writes the parameter at an index, forcing the value into its
    /// declared range; an unknown index is a no-op, not an error.
    pub fn set_parameter(&mut self, index: i32, value: u32)
        ensures
            *final(self) == old(self).spec_set(index, value),
            old(self).wf() ==> final(self).wf(),
    {
        if index == 0 {
            if value > VOLUME_SCALE {
                self.volume = VOLUME_SCALE;
            } else {
                self.volume = value;
            }
        }
    }

    /// The unit label shown beside the parameter's value.
    pub fn get_parameter_label(&self, index: i32) -> (r: String)
        ensures
            r@ == spec_label(index),
    {
        if index == 0 {
            "x".to_owned()
        } else {
            "".to_owned()
        }
    }

    /// The parameter's human-readable name.
    pub fn get_parameter_name(&self, index: i32) -> (r: String)
        ensures
            r@ == spec_name(index),
    {
        if index == 0 {
            "volume".to_owned()
        } else {
            "".to_owned()
        }
    }

    /// The parameter's current value formatted for display, in fixed
    /// three-decimal notation; empty for an unknown index.
    pub fn get_parameter_text(&self, index: i32) -> (r: String)
        requires
            self.wf(),
        ensures
            r@ == self.spec_text(index),
    {
        if index == 0 {
            format_volume(self.volume)
        } else {
            "".to_owned()
        }
    }

    /// What the display text of each index reads.
    pub open spec fn spec_text(&self, index: i32) -> Seq<char> {
        if index == 0 {
            spec_volume_text(self.volume as int)
        } else {
            ""@
        }
    }
}

impl Default for ParameterStore {
    /// The store a plugin instance starts with: volume at 1.0.
    fn default() -> (s: Self)
        ensures
            s.wf(),
            s.volume == VOLUME_SCALE,
    {
        ParameterStore::new()
    }
}

/// The unit label of each parameter index.
pub open spec fn spec_label(index: i32) -> Seq<char> {
    if index == 0 {
        "x"@
    } else {
        ""@
    }
}

/// The name of each parameter index.
pub open spec fn spec_name(index: i32) -> Seq<char> {
    if index == 0 {
        "volume"@
    } else {
        ""@
    }
}

/// The character a decimal digit prints as.
pub open spec fn digit_seq(d: int) -> Seq<char> {
    if d == 0 {
        "0"@
    } else if d == 1 {
        "1"@
    } else if d == 2 {
        "2"@
    } else if d == 3 {
        "3"@
    } else if d == 4 {
        "4"@
    } else if d == 5 {
        "5"@
    } else if d == 6 {
        "6"@
    } else if d == 7 {
        "7"@
    } else if d == 8 {
        "8"@
    } else {
        "9"@
    }
}

/// Fixed three-decimal notation of a volume of `v` thousandths:
/// the units digit, a point, then the three thousandths digits.
pub open spec fn spec_volume_text(v: int) -> Seq<char> {
    digit_seq(v / 1000) + "."@ + digit_seq((v / 100) % 10) + digit_seq((v / 10) % 10) + digit_seq(
        v % 10,
    )
}

/// The printed form of one decimal digit.
fn digit_str(d: u32) -> (r: &'static str)
    requires
        d < 10,
    ensures
        r@ == digit_seq(d as int),
{
    if d == 0 {
        "0"
    } else if d == 1 {
        "1"
    } else if d == 2 {
        "2"
    } else if d == 3 {
        "3"
    } else if d == 4 {
        "4"
    } else if d == 5 {
        "5"
    } else if d == 6 {
        "6"
    } else if d == 7 {
        "7"
    } else if d == 8 {
        "8"
    } else {
        "9"
    }
}

/// Formats a volume of `v` thousandths in fixed three-decimal
/// notation, e.g. one half as `0.500`.
pub fn format_volume(v: u32) -> (r: String)
    requires
        v <= VOLUME_SCALE,
    ensures
        r@ == spec_volume_text(v as int),
{
    let mut s = String::new();
    s.append(digit_str(v / 1000));
    s.append(".");
    s.append(digit_str((v / 100) % 10));
    s.append(digit_str((v / 10) % 10));
    s.append(digit_str(v % 10));
    proof {
        assert(s@ =~= spec_volume_text(v as int));
    }
    s
}

/// Law: parameters round-trip. Writing an in-range value to the
/// valid index reads back as that value, and a write to any invalid
/// index leaves the valid index's value unchanged.
pub proof fn lemma_param_round_trip(s: ParameterStore, other: i32, x: u32)
    requires
        x <= VOLUME_SCALE,
        other != 0,
    ensures
        s.spec_set(0, x).spec_get(0) == x,
        s.spec_set(other, x).spec_get(0) == s.spec_get(0),
{
}

} // verus!
