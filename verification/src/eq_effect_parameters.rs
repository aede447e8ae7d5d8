//! The automation parameters of the equalizer: six for each band, laid
//! out band after band under consecutive indices.

use vstd::prelude::*;
use crate::parameter::{Parameter, ParameterState};

verus! {

/// Number of bands of the equalizer.
pub const FILTER_COUNT: usize = 4;

/// Number of parameters of one band.
pub const FIELDS_PER_BAND: usize = 6;

/// Number of parameters of the whole equalizer.
pub const PARAMETER_COUNT: usize = 24;

/// The response a band's kind parameter selects.
#[derive(PartialEq, Eq, Structural, Debug, Clone, Copy)]
pub enum BandKind {
    Bell,
    LowPass,
    HighPass,
    LowShelf,
    HighShelf,
    Notch,
    BandPass,
    AllPass,
}

impl BandKind {
    /// The numeric code that the kind parameter holds for a kind.
    pub open spec fn code(self) -> u8 {
        match self {
            BandKind::Bell => 0,
            BandKind::LowPass => 1,
            BandKind::HighPass => 2,
            BandKind::LowShelf => 3,
            BandKind::HighShelf => 4,
            BandKind::Notch => 5,
            BandKind::BandPass => 6,
            BandKind::AllPass => 7,
        }
    }

    /// Decodes a numeric code.  A code that belongs to no kind gives
    /// `LowPass`.
    pub fn from_u8(value: u8) -> (kind: BandKind)
        ensures
            value <= 7 ==> kind.code() == value,
            value > 7 ==> kind == BandKind::LowPass,
    {
        match value {
            0 => BandKind::Bell,
            1 => BandKind::LowPass,
            2 => BandKind::HighPass,
            3 => BandKind::LowShelf,
            4 => BandKind::HighShelf,
            5 => BandKind::Notch,
            6 => BandKind::BandPass,
            7 => BandKind::AllPass,
            _ => BandKind::LowPass,
        }
    }

    /// The name of the kind as it is shown to the user.
    pub open spec fn label(self) -> Seq<char> {
        match self {
            BandKind::Bell => "Bell"@,
            BandKind::LowPass => "LowPass"@,
            BandKind::HighPass => "HighPass"@,
            BandKind::LowShelf => "LowShelf"@,
            BandKind::HighShelf => "HighShelf"@,
            BandKind::Notch => "Notch"@,
            BandKind::BandPass => "BandPass"@,
            BandKind::AllPass => "AllPass"@,
        }
    }

    /// The name of the kind as an owned string.
    pub fn to_string(&self) -> (s: String)
        ensures
            s@ == self.label(),
    {
        match self {
            BandKind::Bell => "Bell".to_owned(),
            BandKind::LowPass => "LowPass".to_owned(),
            BandKind::HighPass => "HighPass".to_owned(),
            BandKind::LowShelf => "LowShelf".to_owned(),
            BandKind::HighShelf => "HighShelf".to_owned(),
            BandKind::Notch => "Notch".to_owned(),
            BandKind::BandPass => "BandPass".to_owned(),
            BandKind::AllPass => "AllPass".to_owned(),
        }
    }
}

/// The alignment of a band's cascade.
#[derive(PartialEq, Eq, Structural, Debug, Clone, Copy)]
pub enum BandMode {
    Butterworth,
    LinkwitzRiley,
}

impl BandMode {
    /// Decodes a numeric code: 1 is `LinkwitzRiley`, every other code is
    /// `Butterworth`.
    pub fn from_u8(value: u8) -> (mode: BandMode)
        ensures
            mode == (if value == 1 {
                BandMode::LinkwitzRiley
            } else {
                BandMode::Butterworth
            }),
    {
        match value {
            0 => BandMode::Butterworth,
            1 => BandMode::LinkwitzRiley,
            _ => BandMode::Butterworth,
        }
    }

    /// The name of the mode as it is shown to the user.
    pub open spec fn label(self) -> Seq<char> {
        match self {
            BandMode::Butterworth => "Butterworth"@,
            BandMode::LinkwitzRiley => "LinkwitzRiley"@,
        }
    }

    /// The name of the mode as an owned string.
    pub fn to_string(&self) -> (s: String)
        ensures
            s@ == self.label(),
    {
        match self {
            BandMode::Butterworth => "Butterworth".to_owned(),
            BandMode::LinkwitzRiley => "LinkwitzRiley".to_owned(),
        }
    }
}

/// The parameters of a band, in the order in which they are laid out.
#[derive(PartialEq, Eq, Structural, Debug, Clone, Copy)]
pub enum BandField {
    Kind,
    Freq,
    Gain,
    Bw,
    Slope,
    Mode,
}

impl BandField {
    /// The place of the field within its band.
    pub open spec fn offset(self) -> int {
        match self {
            BandField::Kind => 0,
            BandField::Freq => 1,
            BandField::Gain => 2,
            BandField::Bw => 3,
            BandField::Slope => 4,
            BandField::Mode => 5,
        }
    }

    /// Whether a change of the field makes the band derive new
    /// coefficients.  The mode does not.
    pub open spec fn drives_dsp(self) -> bool {
        self != BandField::Mode
    }
}

/// Where a parameter index points: a band and a field of it.
#[derive(PartialEq, Eq, Structural, Debug, Clone, Copy)]
pub struct ParameterSlot {
    pub band: usize,
    pub field: BandField,
}

impl ParameterSlot {
    /// The index under which the host knows the parameter.
    pub open spec fn linear(self) -> int {
        self.band * FIELDS_PER_BAND + self.field.offset()
    }

    /// The index under which the host knows the parameter.
    pub fn index(&self) -> (index: usize)
        requires
            self.band < FILTER_COUNT,
        ensures
            index == self.linear(),
            index < PARAMETER_COUNT,
    {
        let offset: usize = match self.field {
            BandField::Kind => 0,
            BandField::Freq => 1,
            BandField::Gain => 2,
            BandField::Bw => 3,
            BandField::Slope => 4,
            BandField::Mode => 5,
        };
        self.band * FIELDS_PER_BAND + offset
    }
}

/// The slot of a parameter index.  An index beyond the last parameter
/// points at the kind of the last band.
pub open spec fn slot_of(index: int) -> ParameterSlot {
    if 0 <= index < PARAMETER_COUNT {
        ParameterSlot {
            band: (index / FIELDS_PER_BAND as int) as usize,
            field: field_at(index % FIELDS_PER_BAND as int),
        }
    } else {
        ParameterSlot { band: (FILTER_COUNT - 1) as usize, field: BandField::Kind }
    }
}

/// The field at a place within a band.
pub open spec fn field_at(offset: int) -> BandField {
    if offset == 0 {
        BandField::Kind
    } else if offset == 1 {
        BandField::Freq
    } else if offset == 2 {
        BandField::Gain
    } else if offset == 3 {
        BandField::Bw
    } else if offset == 4 {
        BandField::Slope
    } else {
        BandField::Mode
    }
}

/// Finds the band and field that a parameter index points at.  The
/// parameters of a band lie side by side, in the order of the fields.
pub fn locate(index: usize) -> (slot: ParameterSlot)
    ensures
        slot == slot_of(index as int),
        slot.band < FILTER_COUNT,
        index < PARAMETER_COUNT ==> slot.linear() == index,
        index < PARAMETER_COUNT ==> slot.band * FIELDS_PER_BAND <= index < (slot.band + 1)
            * FIELDS_PER_BAND,
{
    if index < PARAMETER_COUNT {
        let field = match index % FIELDS_PER_BAND {
            0 => BandField::Kind,
            1 => BandField::Freq,
            2 => BandField::Gain,
            3 => BandField::Bw,
            4 => BandField::Slope,
            _ => BandField::Mode,
        };
        ParameterSlot { band: index / FIELDS_PER_BAND, field }
    } else {
        ParameterSlot { band: FILTER_COUNT - 1, field: BandField::Kind }
    }
}

/// Every slot of a band of the equalizer is the slot of its own index.
pub proof fn slot_of_linear(slot: ParameterSlot)
    requires
        slot.band < FILTER_COUNT,
    ensures
        0 <= slot.linear() < PARAMETER_COUNT,
        slot_of(slot.linear()) == slot,
{
}

/// The six parameters of one band.
pub struct BandParameters<V> {
    pub kind: Parameter<V>,
    pub freq: Parameter<V>,
    pub gain: Parameter<V>,
    pub bw: Parameter<V>,
    pub slope: Parameter<V>,
    pub mode: Parameter<V>,
}

impl<V: Copy> BandParameters<V> {
    /// The parameter that backs a field.
    pub open spec fn parameter(self, field: BandField) -> Parameter<V> {
        match field {
            BandField::Kind => self.kind,
            BandField::Freq => self.freq,
            BandField::Gain => self.gain,
            BandField::Bw => self.bw,
            BandField::Slope => self.slope,
            BandField::Mode => self.mode,
        }
    }

    /// The parameter that backs a field.
    pub fn field(&self, field: BandField) -> (parameter: &Parameter<V>)
        ensures
            *parameter == self.parameter(field),
    {
        match field {
            BandField::Kind => &self.kind,
            BandField::Freq => &self.freq,
            BandField::Gain => &self.gain,
            BandField::Bw => &self.bw,
            BandField::Slope => &self.slope,
            BandField::Mode => &self.mode,
        }
    }

    /// Tells whether any of kind, frequency, gain, bandwidth and slope has
    /// a pending change, and takes note of all of them.  The mode is left
    /// alone.
    pub fn dsp_update(&mut self) -> (need_to_update: bool)
        ensures
            need_to_update == (old(self).kind@.pending || old(self).freq@.pending
                || old(self).gain@.pending || old(self).bw@.pending
                || old(self).slope@.pending),
            final(self).kind@ == old(self).kind@.consumed(),
            final(self).freq@ == old(self).freq@.consumed(),
            final(self).gain@ == old(self).gain@.consumed(),
            final(self).bw@ == old(self).bw@.consumed(),
            final(self).slope@ == old(self).slope@.consumed(),
            final(self).mode == old(self).mode,
    {
        let kind = self.kind.dsp_update();
        let freq = self.freq.dsp_update();
        let gain = self.gain.dsp_update();
        let bw = self.bw.dsp_update();
        let slope = self.slope.dsp_update();
        kind || freq || gain || bw || slope
    }
}

/// The state that a parameter index reads: `None` beyond the last
/// parameter.
pub open spec fn reading<V>(state: Seq<ParameterState<V>>, index: int) -> Option<V> {
    if 0 <= index < state.len() {
        Some(state[index].normalized)
    } else {
        None
    }
}

/// The state after a pair of values was stored under a parameter index.
/// An index that names no parameter changes nothing.
pub open spec fn after_set<V>(
    state: Seq<ParameterState<V>>,
    index: int,
    normalized: V,
    value: V,
) -> Seq<ParameterState<V>> {
    if 0 <= index < state.len() {
        state.update(index, state[index].stored(normalized, value))
    } else {
        state
    }
}

/// Whether a band has a pending change in a field that drives its
/// coefficients.
pub open spec fn band_pending<V>(state: Seq<ParameterState<V>>, band: int) -> bool {
    exists|index: int|
        0 <= index < state.len() && slot_of(index).band == band
            && slot_of(index).field.drives_dsp() && (#[trigger] state[index]).pending
}

/// The state after the audio path took note of the pending changes of a
/// band.
pub open spec fn after_update<V>(state: Seq<ParameterState<V>>, band: int) -> Seq<
    ParameterState<V>,
> {
    Seq::new(
        state.len(),
        |index: int|
            if slot_of(index).band == band && slot_of(index).field.drives_dsp() {
                state[index].consumed()
            } else {
                state[index]
            },
    )
}

/// The parameters of all bands.
pub struct EQEffectParameters<V> {
    bands: Vec<BandParameters<V>>,
}

impl<V: Copy> View for EQEffectParameters<V> {
    type V = Seq<ParameterState<V>>;

    /// The state of every parameter, in the order of the indices under
    /// which the host knows them.
    open spec fn view(&self) -> Seq<ParameterState<V>> {
        Seq::new(PARAMETER_COUNT as nat, |index: int| self.parameter(index)@)
    }
}

impl<V: Copy> EQEffectParameters<V> {
    /// The bands, first to last.
    pub closed spec fn bands(&self) -> Seq<BandParameters<V>> {
        self.bands@
    }

    /// The set is well formed when it holds exactly the bands of the
    /// equalizer.
    pub open spec fn wf(&self) -> bool {
        self.bands().len() == FILTER_COUNT
    }

    /// The parameter that an index points at.
    pub open spec fn parameter(&self, index: int) -> Parameter<V> {
        self.bands()[slot_of(index).band as int].parameter(slot_of(index).field)
    }

    /// Makes the set from the parameters of each band.  There is a set
    /// exactly when as many bands are given as the equalizer has.
    pub fn new(bands: Vec<BandParameters<V>>) -> (parameters: Option<EQEffectParameters<V>>)
        ensures
            parameters.is_some() <==> bands@.len() == FILTER_COUNT,
            parameters matches Some(set) ==> set.wf() && set.bands() == bands@,
    {
        if bands.len() == FILTER_COUNT {
            Some(EQEffectParameters { bands })
        } else {
            None
        }
    }

    /// Number of parameters.
    pub fn len(&self) -> (len: usize)
        ensures
            len == PARAMETER_COUNT,
    {
        PARAMETER_COUNT
    }

    /// The parameters of a band.
    pub fn band(&self, band: usize) -> (parameters: &BandParameters<V>)
        requires
            self.wf(),
            band < FILTER_COUNT,
        ensures
            *parameters == self.bands()[band as int],
    {
        &self.bands[band]
    }

    /// The parameter under an index.  An index beyond the last parameter
    /// gives the kind of the last band.
    pub fn index(&self, i: usize) -> (parameter: &Parameter<V>)
        requires
            self.wf(),
        ensures
            *parameter == self.parameter(i as int),
            i < PARAMETER_COUNT ==> parameter@ == self@[i as int],
    {
        let slot = locate(i);
        self.bands[slot.band].field(slot.field)
    }

    /// The normalized value under an index that the host names, if the
    /// index names a parameter.
    pub fn get_parameter(&self, index: i32) -> (normalized: Option<V>)
        requires
            self.wf(),
        ensures
            normalized == reading(self@, index as int),
    {
        if 0 <= index && (index as usize) < PARAMETER_COUNT {
            Some(self.index(index as usize).get_normalized())
        } else {
            None
        }
    }

    /// The name of the parameter under an index that the host names: empty
    /// if the index names no parameter.
    pub fn get_parameter_name(&self, index: i32) -> (name: String)
        requires
            self.wf(),
        ensures
            name@ == (if 0 <= index < PARAMETER_COUNT {
                self@[index as int].name
            } else {
                Seq::<char>::empty()
            }),
    {
        if 0 <= index && (index as usize) < PARAMETER_COUNT {
            self.index(index as usize).get_name()
        } else {
            String::new()
        }
    }

    /// Stores a normalized value and the raw value that stands for it
    /// under an index that the host names, and marks the change as
    /// pending.  An index that names no parameter changes nothing.
    pub fn set_parameter(&mut self, index: i32, normalized: V, value: V)
        requires
            old(self).wf(),
        ensures
            final(self).wf(),
            final(self)@ == after_set(old(self)@, index as int, normalized, value),
    {
        if 0 <= index && (index as usize) < PARAMETER_COUNT {
            let slot = locate(index as usize);
            let band = &mut self.bands[slot.band];
            match slot.field {
                BandField::Kind => band.kind.set(normalized, value),
                BandField::Freq => band.freq.set(normalized, value),
                BandField::Gain => band.gain.set(normalized, value),
                BandField::Bw => band.bw.set(normalized, value),
                BandField::Slope => band.slope.set(normalized, value),
                BandField::Mode => band.mode.set(normalized, value),
            }
        }
    }

    /// Tells whether a band has a pending change in its kind, frequency,
    /// gain, bandwidth or slope, and takes note of all of them.
    pub fn dsp_update(&mut self, band: usize) -> (need_to_update: bool)
        requires
            old(self).wf(),
            band < FILTER_COUNT,
        ensures
            final(self).wf(),
            need_to_update == band_pending(old(self)@, band as int),
            final(self)@ == after_update(old(self)@, band as int),
    {
        let need_to_update = self.bands[band].dsp_update();
        proof {
            let before = old(self)@;
            let first: int = band * FIELDS_PER_BAND;
            if need_to_update {
                let offset: int = if before[first].pending {
                    0
                } else if before[first + 1].pending {
                    1
                } else if before[first + 2].pending {
                    2
                } else if before[first + 3].pending {
                    3
                } else {
                    4
                };
                assert(slot_of(first + offset).band == band);
                assert(before[first + offset].pending);
            }
        }
        need_to_update
    }
}

/// A value stored under an index is the value read back under it.  Unless
/// the field is the mode, the band then has a pending change; one look of
/// the audio path takes note of it, so that a second look finds nothing
/// pending, and the stored value is still read back afterwards.
pub proof fn stored_value_is_read_back_and_noted_once<V>(
    state: Seq<ParameterState<V>>,
    index: int,
    normalized: V,
    value: V,
)
    requires
        state.len() == PARAMETER_COUNT,
        0 <= index < PARAMETER_COUNT,
    ensures
        ({
            let band = slot_of(index).band as int;
            let written = after_set(state, index, normalized, value);
            let noted = after_update(written, band);
            &&& reading(written, index) == Some(normalized)
            &&& slot_of(index).field.drives_dsp() ==> band_pending(written, band)
            &&& !band_pending(noted, band)
            &&& reading(noted, index) == Some(normalized)
        }),
{
    let written = after_set(state, index, normalized, value);
    assert(written[index].pending);
    update_notes_every_change(written, slot_of(index).band as int);
}

/// Once the audio path has looked at a band, nothing is pending in it,
/// however many values were stored before; what is pending in the other
/// bands stays pending.
pub proof fn update_notes_every_change<V>(state: Seq<ParameterState<V>>, band: int)
    ensures
        !band_pending(after_update(state, band), band),
        forall|other: int|
            other != band ==> band_pending(after_update(state, band), other)
                == band_pending(state, other),
{
    let noted = after_update(state, band);
    assert forall|other: int| other != band implies band_pending(noted, other)
        == band_pending(state, other) by {
        if band_pending(state, other) {
            let index = choose|index: int|
                0 <= index < state.len() && slot_of(index).band == other
                    && slot_of(index).field.drives_dsp() && (#[trigger] state[index]).pending;
            assert(noted[index].pending);
        }
        if band_pending(noted, other) {
            let index = choose|index: int|
                0 <= index < noted.len() && slot_of(index).band == other
                    && slot_of(index).field.drives_dsp() && (#[trigger] noted[index]).pending;
            assert(state[index].pending);
        }
    }
}

} // verus!
