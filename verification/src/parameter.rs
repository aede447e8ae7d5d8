//! One automatable parameter: its two stored values, its limits, and the
//! flag that tells the audio path that coefficients are out of date.

use vstd::prelude::*;

verus! {

/// What a parameter holds, as plain values.
pub struct ParameterState<V> {
    pub name: Seq<char>,
    pub normalized: V,
    pub value: V,
    pub default: V,
    pub min: V,
    pub max: V,
    pub pending: bool,
}

impl<V> ParameterState<V> {
    /// The state after a pair of values was stored: the change is pending.
    pub open spec fn stored(self, normalized: V, value: V) -> ParameterState<V> {
        ParameterState { normalized, value, pending: true, ..self }
    }

    /// The state after the audio path took note of a pending change.
    pub open spec fn consumed(self) -> ParameterState<V> {
        ParameterState { pending: false, ..self }
    }
}

/// An automatable parameter.  It keeps the normalized value that the host
/// sees beside the raw value that the filters take, and remembers whether
/// either was written since the audio path last looked.  Which raw value
/// belongs to which normalized value is the caller's arithmetic: both are
/// handed in together.
pub struct Parameter<V> {
    name: String,
    normalized_value: V,
    value: V,
    default: V,
    min: V,
    max: V,
    need_to_update_dsp: bool,
}

impl<V: Copy> View for Parameter<V> {
    type V = ParameterState<V>;

    closed spec fn view(&self) -> ParameterState<V> {
        ParameterState {
            name: self.name@,
            normalized: self.normalized_value,
            value: self.value,
            default: self.default,
            min: self.min,
            max: self.max,
            pending: self.need_to_update_dsp,
        }
    }
}

impl<V: Copy> Parameter<V> {
    /// Makes a parameter that holds its default, with `normalized` as the
    /// normalized value that stands for it.  A new parameter is pending, so
    /// that the first look of the audio path derives coefficients.
    pub fn new(name: &str, default: V, min: V, max: V, normalized: V) -> (parameter: Parameter<V>)
        ensures
            parameter@ == (ParameterState {
                name: name@,
                normalized,
                value: default,
                default,
                min,
                max,
                pending: true,
            }),
    {
        Parameter {
            name: name.to_owned(),
            normalized_value: normalized,
            value: default,
            default,
            min,
            max,
            need_to_update_dsp: true,
        }
    }

    /// The normalized value.
    pub fn get_normalized(&self) -> (normalized: V)
        ensures
            normalized == self@.normalized,
    {
        self.normalized_value
    }

    /// The raw value.
    pub fn get(&self) -> (value: V)
        ensures
            value == self@.value,
    {
        self.value
    }

    /// The raw value a new parameter starts with.
    pub fn default(&self) -> (value: V)
        ensures
            value == self@.default,
    {
        self.default
    }

    /// The smallest raw value.
    pub fn min(&self) -> (value: V)
        ensures
            value == self@.min,
    {
        self.min
    }

    /// The largest raw value.
    pub fn max(&self) -> (value: V)
        ensures
            value == self@.max,
    {
        self.max
    }

    /// Stores a normalized value together with the raw value that stands
    /// for it, and marks the change as pending.
    pub fn set(&mut self, normalized: V, value: V)
        ensures
            final(self)@ == old(self)@.stored(normalized, value),
    {
        self.need_to_update_dsp = true;
        self.normalized_value = normalized;
        self.value = value;
    }

    /// The name of the parameter.
    pub fn get_name(&self) -> (name: String)
        ensures
            name@ == self@.name,
    {
        self.name.clone()
    }

    /// Tells whether a change is pending, and takes note of it: the next
    /// call answers `false` unless a value was stored in between.
    pub fn dsp_update(&mut self) -> (need_to_update: bool)
        ensures
            need_to_update == old(self)@.pending,
            final(self)@ == old(self)@.consumed(),
    {
        let need_to_update = self.need_to_update_dsp;
        self.need_to_update_dsp = false;
        need_to_update
    }
}

} // verus!
