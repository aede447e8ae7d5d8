//! Filter kinds and the cascade of two-pole sections each kind asks for.

use vstd::prelude::*;

verus! {

/// Number of two-pole sections a band keeps ready in each of its chains.
pub const FILTER_POLE_COUNT: usize = 16;

/// Smallest slope (pole count) a band can be set to.
pub const MIN_SLOPE: u32 = 2;

/// Largest slope (pole count) a band can be set to.
pub const MAX_SLOPE: u32 = 32;

/// Lowest frequency, in hertz, at which a shifted corner is placed.
pub const MIN_CORNER_HZ: u32 = 20;

/// Highest frequency, in hertz, at which a shifted corner is placed.
pub const MAX_CORNER_HZ: u32 = 20000;

/// The response a band can be set to.
#[derive(PartialEq, Eq, Structural, Debug, Clone, Copy)]
pub enum FilterKind {
    Bell,
    LowPass,
    HighPass,
    LowShelf,
    HighShelf,
    Notch,
    BandPass,
    Tilt,
    Mesa,
    AllPass,
}

impl FilterKind {
    /// The numeric code under which automation data carries a kind.
    pub open spec fn code(self) -> u32 {
        match self {
            FilterKind::Bell => 1,
            FilterKind::LowPass => 2,
            FilterKind::HighPass => 3,
            FilterKind::LowShelf => 4,
            FilterKind::HighShelf => 5,
            FilterKind::Notch => 6,
            FilterKind::BandPass => 7,
            FilterKind::Tilt => 8,
            FilterKind::Mesa => 9,
            FilterKind::AllPass => 10,
        }
    }

    /// Decodes a numeric code.  A code that belongs to no kind gives
    /// `LowPass`, so stale automation data can never stop the audio path.
    pub fn from_u32(value: u32) -> (kind: FilterKind)
        ensures
            1 <= value <= 10 ==> kind.code() == value,
            !(1 <= value <= 10) ==> kind == FilterKind::LowPass,
    {
        match value {
            1 => FilterKind::Bell,
            2 => FilterKind::LowPass,
            3 => FilterKind::HighPass,
            4 => FilterKind::LowShelf,
            5 => FilterKind::HighShelf,
            6 => FilterKind::Notch,
            7 => FilterKind::BandPass,
            8 => FilterKind::Tilt,
            9 => FilterKind::Mesa,
            10 => FilterKind::AllPass,
            _ => FilterKind::LowPass,
        }
    }

    /// The name of the kind as it is shown to the user.
    pub open spec fn label(self) -> Seq<char> {
        match self {
            FilterKind::Bell => "Bell"@,
            FilterKind::LowPass => "LowPass"@,
            FilterKind::HighPass => "HighPass"@,
            FilterKind::LowShelf => "LowShelf"@,
            FilterKind::HighShelf => "HighShelf"@,
            FilterKind::Notch => "Notch"@,
            FilterKind::BandPass => "BandPass"@,
            FilterKind::Tilt => "Tilt"@,
            FilterKind::Mesa => "Mesa"@,
            FilterKind::AllPass => "AllPass"@,
        }
    }

    /// The name of the kind as an owned string.
    pub fn to_string(&self) -> (s: String)
        ensures
            s@ == self.label(),
    {
        match self {
            FilterKind::Bell => "Bell".to_owned(),
            FilterKind::LowPass => "LowPass".to_owned(),
            FilterKind::HighPass => "HighPass".to_owned(),
            FilterKind::LowShelf => "LowShelf".to_owned(),
            FilterKind::HighShelf => "HighShelf".to_owned(),
            FilterKind::Notch => "Notch".to_owned(),
            FilterKind::BandPass => "BandPass".to_owned(),
            FilterKind::Tilt => "Tilt".to_owned(),
            FilterKind::Mesa => "Mesa".to_owned(),
            FilterKind::AllPass => "AllPass".to_owned(),
        }
    }
}

/// Response of one two-pole section.
#[derive(PartialEq, Eq, Structural, Debug, Clone, Copy)]
pub enum PoleShape {
    PeakingEQ,
    LowPass,
    HighPass,
    LowShelf,
    HighShelf,
    Notch,
    AllPass,
}

/// The part of the band's gain, in decibels, that one section takes.
#[derive(PartialEq, Eq, Structural, Debug, Clone, Copy)]
pub enum GainShare {
    /// The section has no gain of its own.
    Unused,
    /// The whole gain of the band.
    Whole,
    /// The gain divided evenly among the stages.
    Even,
    /// Twice the even share.
    DoubledEven,
    /// The even share with its sign turned.
    NegatedEven,
}

/// A gain in decibels as a fraction of the band's gain.
#[derive(PartialEq, Eq, Structural, Debug, Clone, Copy)]
pub struct GainFraction {
    pub numerator: i32,
    pub denominator: usize,
}

impl GainShare {
    /// The share as a fraction of the band's gain, in a cascade of
    /// `stages` stages.
    pub open spec fn fraction_of(self, stages: usize) -> GainFraction {
        match self {
            GainShare::Unused => GainFraction { numerator: 0, denominator: 1 },
            GainShare::Whole => GainFraction { numerator: 1, denominator: 1 },
            GainShare::Even => GainFraction { numerator: 1, denominator: stages },
            GainShare::DoubledEven => GainFraction { numerator: 2, denominator: stages },
            GainShare::NegatedEven => GainFraction { numerator: -1i32, denominator: stages },
        }
    }

    /// The share as a fraction of the band's gain, in a cascade of
    /// `stages` stages.
    pub fn fraction(&self, stages: usize) -> (fraction: GainFraction)
        ensures
            fraction == self.fraction_of(stages),
    {
        let numerator: i32 = match self {
            GainShare::Unused => 0,
            GainShare::Whole | GainShare::Even => 1,
            GainShare::DoubledEven => 2,
            GainShare::NegatedEven => -1,
        };
        let denominator: usize = match self {
            GainShare::Unused | GainShare::Whole => 1,
            _ => stages,
        };
        GainFraction { numerator, denominator }
    }
}

/// Where a section's corner lies relative to the band's frequency.
#[derive(PartialEq, Eq, Structural, Debug, Clone, Copy)]
pub enum Corner {
    /// At the band's frequency.
    Centre,
    /// Below it, at the frequency divided by the bandwidth plus one half,
    /// kept between `MIN_CORNER_HZ` and `MAX_CORNER_HZ`.
    Lower,
    /// Above it, at the frequency times the bandwidth plus one half,
    /// kept between `MIN_CORNER_HZ` and `MAX_CORNER_HZ`.
    Upper,
}

/// How a section's Q factor is found.
#[derive(PartialEq, Eq, Structural, Debug, Clone, Copy)]
pub enum Resonance {
    /// The Q that the bandwidth converts to.
    Bandwidth,
    /// The Butterworth factor of the stage, times the Q that the bandwidth
    /// converts to, times the Butterworth reference Q.
    ScaledCascade,
    /// The Butterworth factor of the stage alone.
    Cascade,
}

/// Broadband gain applied once to the output of the whole cascade.
#[derive(PartialEq, Eq, Structural, Debug, Clone, Copy)]
pub enum PostGain {
    /// The output is left as it is.
    Unity,
    /// The linear gain of the negated band gain.
    Negated,
    /// The linear gain of the band gain divided evenly among the stages.
    Even,
}

impl PostGain {
    /// The gain in decibels that the rule applies, as a fraction of the
    /// band's gain, after a cascade of `stages` stages.
    pub open spec fn fraction_of(self, stages: usize) -> GainFraction {
        match self {
            PostGain::Unity => GainFraction { numerator: 0, denominator: 1 },
            PostGain::Negated => GainFraction { numerator: -1i32, denominator: 1 },
            PostGain::Even => GainFraction { numerator: 1, denominator: stages },
        }
    }

    /// The gain in decibels that the rule applies, as a fraction of the
    /// band's gain, after a cascade of `stages` stages.
    pub fn fraction(&self, stages: usize) -> (fraction: GainFraction)
        ensures
            fraction == self.fraction_of(stages),
    {
        match self {
            PostGain::Unity => GainFraction { numerator: 0, denominator: 1 },
            PostGain::Negated => GainFraction { numerator: -1, denominator: 1 },
            PostGain::Even => GainFraction { numerator: 1, denominator: stages },
        }
    }
}

/// Everything a section's coefficients are derived from, apart from the
/// band's own numbers.
#[derive(PartialEq, Eq, Structural, Debug, Clone, Copy)]
pub struct PoleRecipe {
    pub shape: PoleShape,
    pub gain: GainShare,
    pub corner: Corner,
    pub resonance: Resonance,
}

/// One section of a cascade: its recipe, the stage it belongs to, and
/// whether it sits in the secondary chain of that stage.
#[derive(PartialEq, Eq, Structural, Debug, Clone, Copy)]
pub struct PoleOrder {
    pub recipe: PoleRecipe,
    pub stage: usize,
    pub secondary: bool,
}

/// The slope after clamping to the supported range.
pub open spec fn clamped_slope(slope: u32) -> int {
    if slope < MIN_SLOPE {
        MIN_SLOPE as int
    } else if slope > MAX_SLOPE {
        MAX_SLOPE as int
    } else {
        slope as int
    }
}

/// Number of two-pole stages a slope stands for: half the clamped pole
/// count, an odd count giving up its last pole.
pub fn pole_pairs(slope: u32) -> (pairs: usize)
    ensures
        pairs == clamped_slope(slope) / 2,
        1 <= pairs <= FILTER_POLE_COUNT,
{
    if slope < MIN_SLOPE {
        1
    } else if slope > MAX_SLOPE {
        FILTER_POLE_COUNT
    } else {
        (slope / 2) as usize
    }
}

/// The pole count that a slope is applied as: clamped to the supported
/// range and even.  It is the order of the Butterworth polynomial whose
/// pole pairs the stages of a cascade take.
pub fn applied_slope(slope: u32) -> (poles: u32)
    ensures
        poles == 2 * (clamped_slope(slope) / 2),
        MIN_SLOPE <= poles <= MAX_SLOPE,
        poles % 2 == 0,
        MIN_SLOPE <= slope <= MAX_SLOPE && slope % 2 == 0 ==> poles == slope,
{
    if slope < MIN_SLOPE {
        MIN_SLOPE
    } else if slope > MAX_SLOPE {
        MAX_SLOPE
    } else {
        slope - slope % 2
    }
}

impl FilterKind {
    /// Whether the kind is built from as many stages as the slope asks
    /// for.  The other kinds are a single section whatever the slope.
    pub open spec fn is_cascaded(self) -> bool {
        !(self == FilterKind::Bell || self == FilterKind::Notch || self == FilterKind::AllPass)
    }

    /// Whether every stage of the kind runs a second section after the
    /// first.
    pub open spec fn is_paired(self) -> bool {
        self == FilterKind::BandPass || self == FilterKind::Mesa
    }

    /// Number of stages of a band of this kind and slope.
    pub open spec fn stage_count(self, slope: u32) -> int {
        if self.is_cascaded() {
            clamped_slope(slope) / 2
        } else {
            1
        }
    }

    /// The recipe of the primary section of every stage.
    pub open spec fn primary_recipe(self) -> PoleRecipe {
        match self {
            FilterKind::Bell => PoleRecipe {
                shape: PoleShape::PeakingEQ,
                gain: GainShare::Whole,
                corner: Corner::Centre,
                resonance: Resonance::Bandwidth,
            },
            FilterKind::LowPass => PoleRecipe {
                shape: PoleShape::LowPass,
                gain: GainShare::Unused,
                corner: Corner::Centre,
                resonance: Resonance::ScaledCascade,
            },
            FilterKind::HighPass => PoleRecipe {
                shape: PoleShape::HighPass,
                gain: GainShare::Unused,
                corner: Corner::Centre,
                resonance: Resonance::ScaledCascade,
            },
            FilterKind::LowShelf => PoleRecipe {
                shape: PoleShape::LowShelf,
                gain: GainShare::Even,
                corner: Corner::Centre,
                resonance: Resonance::ScaledCascade,
            },
            FilterKind::HighShelf => PoleRecipe {
                shape: PoleShape::HighShelf,
                gain: GainShare::Even,
                corner: Corner::Centre,
                resonance: Resonance::ScaledCascade,
            },
            FilterKind::Notch => PoleRecipe {
                shape: PoleShape::Notch,
                gain: GainShare::Unused,
                corner: Corner::Centre,
                resonance: Resonance::Bandwidth,
            },
            FilterKind::BandPass => PoleRecipe {
                shape: PoleShape::HighPass,
                gain: GainShare::Unused,
                corner: Corner::Centre,
                resonance: Resonance::ScaledCascade,
            },
            FilterKind::Tilt => PoleRecipe {
                shape: PoleShape::HighShelf,
                gain: GainShare::DoubledEven,
                corner: Corner::Centre,
                resonance: Resonance::ScaledCascade,
            },
            FilterKind::Mesa => PoleRecipe {
                shape: PoleShape::LowShelf,
                gain: GainShare::NegatedEven,
                corner: Corner::Lower,
                resonance: Resonance::Cascade,
            },
            FilterKind::AllPass => PoleRecipe {
                shape: PoleShape::AllPass,
                gain: GainShare::Unused,
                corner: Corner::Centre,
                resonance: Resonance::Bandwidth,
            },
        }
    }

    /// The recipe of the secondary section of every stage, for the kinds
    /// that have one.
    pub open spec fn secondary_recipe(self) -> Option<PoleRecipe> {
        match self {
            FilterKind::BandPass => Some(
                PoleRecipe {
                    shape: PoleShape::LowPass,
                    gain: GainShare::Unused,
                    corner: Corner::Centre,
                    resonance: Resonance::ScaledCascade,
                },
            ),
            FilterKind::Mesa => Some(
                PoleRecipe {
                    shape: PoleShape::HighShelf,
                    gain: GainShare::NegatedEven,
                    corner: Corner::Upper,
                    resonance: Resonance::Cascade,
                },
            ),
            _ => None,
        }
    }

    /// The broadband gain that follows the cascade.
    pub open spec fn post_gain_rule(self) -> PostGain {
        match self {
            FilterKind::Tilt => PostGain::Negated,
            FilterKind::Mesa => PostGain::Even,
            _ => PostGain::Unity,
        }
    }

    /// Number of sections in the whole cascade of a band of this kind and
    /// slope.
    pub open spec fn section_count(self, slope: u32) -> int {
        if self.is_paired() {
            2 * self.stage_count(slope)
        } else {
            self.stage_count(slope)
        }
    }

    /// The section at a position of the cascade.  The stages follow one
    /// another, and within a stage the primary section comes first.
    pub open spec fn section(self, position: int) -> PoleOrder {
        if self.is_paired() {
            if position % 2 == 0 {
                PoleOrder {
                    recipe: self.primary_recipe(),
                    stage: (position / 2) as usize,
                    secondary: false,
                }
            } else {
                PoleOrder {
                    recipe: self.secondary_recipe().unwrap(),
                    stage: (position / 2) as usize,
                    secondary: true,
                }
            }
        } else {
            PoleOrder { recipe: self.primary_recipe(), stage: position as usize, secondary: false }
        }
    }

    /// The whole cascade of a band of this kind and slope, in the order in
    /// which a signal runs through it.
    pub open spec fn cascade_plan(self, slope: u32) -> Seq<PoleOrder> {
        Seq::new(self.section_count(slope) as nat, |position: int| self.section(position))
    }

    /// Number of stages a band of this kind runs at the given slope.  It
    /// never exceeds the sections a band keeps ready.
    pub fn stages(&self, slope: u32) -> (count: usize)
        ensures
            count == self.stage_count(slope),
            1 <= count <= FILTER_POLE_COUNT,
    {
        match self {
            FilterKind::Bell | FilterKind::Notch | FilterKind::AllPass => 1,
            _ => pole_pairs(slope),
        }
    }

    /// Whether every stage runs a secondary section.
    pub fn has_secondary(&self) -> (paired: bool)
        ensures
            paired == self.is_paired(),
            paired == self.secondary_recipe().is_some(),
            paired ==> self.is_cascaded(),
    {
        match self {
            FilterKind::BandPass | FilterKind::Mesa => true,
            _ => false,
        }
    }

    /// The recipe of the primary section.
    pub fn primary(&self) -> (recipe: PoleRecipe)
        ensures
            recipe == self.primary_recipe(),
    {
        let shape = match self {
            FilterKind::Bell => PoleShape::PeakingEQ,
            FilterKind::LowPass => PoleShape::LowPass,
            FilterKind::HighPass | FilterKind::BandPass => PoleShape::HighPass,
            FilterKind::LowShelf | FilterKind::Mesa => PoleShape::LowShelf,
            FilterKind::HighShelf | FilterKind::Tilt => PoleShape::HighShelf,
            FilterKind::Notch => PoleShape::Notch,
            FilterKind::AllPass => PoleShape::AllPass,
        };
        let gain = match self {
            FilterKind::Bell => GainShare::Whole,
            FilterKind::LowShelf | FilterKind::HighShelf => GainShare::Even,
            FilterKind::Tilt => GainShare::DoubledEven,
            FilterKind::Mesa => GainShare::NegatedEven,
            _ => GainShare::Unused,
        };
        let corner = match self {
            FilterKind::Mesa => Corner::Lower,
            _ => Corner::Centre,
        };
        let resonance = match self {
            FilterKind::Bell | FilterKind::Notch | FilterKind::AllPass => Resonance::Bandwidth,
            FilterKind::Mesa => Resonance::Cascade,
            _ => Resonance::ScaledCascade,
        };
        PoleRecipe { shape, gain, corner, resonance }
    }

    /// The recipe of the secondary section, if the kind has one.
    pub fn secondary(&self) -> (recipe: Option<PoleRecipe>)
        ensures
            recipe == self.secondary_recipe(),
    {
        match self {
            FilterKind::BandPass => Some(
                PoleRecipe {
                    shape: PoleShape::LowPass,
                    gain: GainShare::Unused,
                    corner: Corner::Centre,
                    resonance: Resonance::ScaledCascade,
                },
            ),
            FilterKind::Mesa => Some(
                PoleRecipe {
                    shape: PoleShape::HighShelf,
                    gain: GainShare::NegatedEven,
                    corner: Corner::Upper,
                    resonance: Resonance::Cascade,
                },
            ),
            _ => None,
        }
    }

    /// The broadband gain that follows the cascade.
    pub fn post_gain(&self) -> (rule: PostGain)
        ensures
            rule == self.post_gain_rule(),
    {
        match self {
            FilterKind::Tilt => PostGain::Negated,
            FilterKind::Mesa => PostGain::Even,
            _ => PostGain::Unity,
        }
    }
}

/// The gain that a band spreads over its stages is spread evenly: summed
/// over the stages, the shares of the primary sections come to the whole
/// gain for a shelf, to twice the gain for a tilt, and to the negated gain
/// for a mesa.
pub proof fn shares_add_up(kind: FilterKind, slope: u32)
    ensures
        ({
            let stages = kind.stage_count(slope);
            let share = kind.primary_recipe().gain.fraction_of(stages as usize);
            &&& stages >= 1
            &&& share.denominator >= 1
            &&& kind == FilterKind::LowShelf || kind == FilterKind::HighShelf ==> stages
                * share.numerator == share.denominator
            &&& kind == FilterKind::Tilt ==> stages * share.numerator == 2 * share.denominator
            &&& kind == FilterKind::Mesa ==> stages * share.numerator == -share.denominator
        }),
{
}

impl FilterKind {
    /// Lists the sections of the cascade of a band of this kind and
    /// slope, one entry for each set of coefficients to derive.
    pub fn cascade(&self, slope: u32) -> (plan: Vec<PoleOrder>)
        ensures
            plan@ == self.cascade_plan(slope),
            plan@.len() <= 2 * FILTER_POLE_COUNT,
    {
        let count: usize = self.stages(slope);
        let first = self.primary();
        let second = self.secondary();
        let paired = self.has_secondary();
        let mut plan: Vec<PoleOrder> = Vec::new();
        let mut stage: usize = 0;
        while stage < count
            invariant
                stage <= count,
                count == self.stage_count(slope),
                count <= FILTER_POLE_COUNT,
                first == self.primary_recipe(),
                second == self.secondary_recipe(),
                paired == self.is_paired(),
                paired == second.is_some(),
                plan@ == Seq::new(
                    (if paired {
                        2 * stage
                    } else {
                        stage as int
                    }) as nat,
                    |position: int| self.section(position),
                ),
            decreases count - stage,
        {
            plan.push(PoleOrder { recipe: first, stage, secondary: false });
            match second {
                Some(recipe) => {
                    plan.push(PoleOrder { recipe, stage, secondary: true });
                },
                None => {},
            }
            stage += 1;
        }
        plan
    }
}

/// The numbers that drive a band's coefficients.  Frequency, gain,
/// bandwidth and sample rate are carried as raw bit patterns, so that two
/// of them can be compared bit for bit.
#[derive(PartialEq, Eq, Structural, Debug, Clone, Copy)]
pub struct BandInputs {
    pub kind: FilterKind,
    pub freq: u64,
    pub gain: u64,
    pub bw_value: u64,
    pub slope: u32,
    pub sample_rate: u64,
}

/// What a band does with a request to update.
#[derive(PartialEq, Eq, Structural, Debug, Clone, Copy)]
pub enum UpdatePlan {
    /// Nothing changed: the coefficients stay as they are.
    Keep,
    /// Move the smoothed values one step towards the request, then derive
    /// the coefficients from the smoothed values.
    Smooth,
    /// Take the requested values as they are and derive the coefficients
    /// from them.
    Jump,
}

impl BandInputs {
    /// Decides what an update does, given the inputs that the band's
    /// coefficients were last derived from (`self`) and the inputs now
    /// requested.  An immediate update always jumps.  Otherwise the band
    /// keeps its coefficients exactly when every requested input is
    /// bit-identical to the applied one, and smooths when any differs.
    pub fn plan_update(&self, requested: &BandInputs, immediate: bool) -> (plan: UpdatePlan)
        ensures
            immediate ==> plan == UpdatePlan::Jump,
            !immediate && *requested == *self ==> plan == UpdatePlan::Keep,
            !immediate && *requested != *self ==> plan == UpdatePlan::Smooth,
    {
        if immediate {
            UpdatePlan::Jump
        } else if requested.kind == self.kind && requested.freq == self.freq && requested.gain
            == self.gain && requested.bw_value == self.bw_value && requested.slope == self.slope
            && requested.sample_rate == self.sample_rate {
            UpdatePlan::Keep
        } else {
            UpdatePlan::Smooth
        }
    }
}

} // verus!
