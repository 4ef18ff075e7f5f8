//! The bloom parameter editor: a per-frame loop that maps held and pressed
//! keys onto a small record of tunable post-processing knobs, clamping
//! every continuous knob to its valid range after every mutation.
//!
//! Continuous knobs are fixed-point values in micro-units: the normalised
//! ones live in `[0, UNIT]`, the prefilter threshold in `[0, i64::MAX]`.

use vstd::prelude::*;
use crate::fixed::{clamp_nonneg, clamp_unit, UNIT};

verus! {

/// How bloom light is combined with the base image.
#[derive(Clone, Copy, Debug, PartialEq, Eq, Structural)]
pub enum CompositeMode {
    EnergyConserving,
    Additive,
}

/// The tunable bloom knobs carried by the camera while the effect is on.
/// All continuous fields are fixed-point micro-unit values.
#[derive(Clone, Copy, Debug, PartialEq, Eq, Structural)]
pub struct BloomParameters {
    pub intensity: i64,
    pub low_frequency_boost: i64,
    pub low_frequency_boost_curvature: i64,
    pub high_pass_frequency: i64,
    pub composite_mode: CompositeMode,
    pub prefilter_threshold: i64,
    pub prefilter_threshold_softness: i64,
}

/// Hold state of the editor keys for one tick. The `*_up` / `*_down`
/// pairs are held keys adjusting one field each; the two mode keys select
/// a composite mode; `toggle` is the just-pressed state of Space.
#[derive(Clone, Copy, Debug, PartialEq, Eq, Structural)]
pub struct BloomKeyState {
    pub intensity_up: bool,
    pub intensity_down: bool,
    pub boost_up: bool,
    pub boost_down: bool,
    pub curvature_up: bool,
    pub curvature_down: bool,
    pub high_pass_up: bool,
    pub high_pass_down: bool,
    pub energy_conserving: bool,
    pub additive: bool,
    pub threshold_up: bool,
    pub threshold_down: bool,
    pub softness_up: bool,
    pub softness_down: bool,
    pub toggle: bool,
}

/// The key state of an idle tick: nothing held, nothing pressed.
pub open spec fn spec_idle_keys() -> BloomKeyState {
    BloomKeyState {
        intensity_up: false,
        intensity_down: false,
        boost_up: false,
        boost_down: false,
        curvature_up: false,
        curvature_down: false,
        high_pass_up: false,
        high_pass_down: false,
        energy_conserving: false,
        additive: false,
        threshold_up: false,
        threshold_down: false,
        softness_up: false,
        softness_down: false,
        toggle: false,
    }
}

impl Default for BloomKeyState {
    /// No key held or pressed.
    fn default() -> (r: Self)
        ensures
            r == spec_idle_keys(),
    {
        BloomKeyState {
            intensity_up: false,
            intensity_down: false,
            boost_up: false,
            boost_down: false,
            curvature_up: false,
            curvature_down: false,
            high_pass_up: false,
            high_pass_down: false,
            energy_conserving: false,
            additive: false,
            threshold_up: false,
            threshold_down: false,
            softness_up: false,
            softness_down: false,
            toggle: false,
        }
    }
}

/// The values toggling the effect on reinstates: a mild energy-conserving
/// bloom with the high-pass filter fully open.
pub open spec fn spec_default_parameters() -> BloomParameters {
    BloomParameters {
        intensity: 150_000,
        low_frequency_boost: 700_000,
        low_frequency_boost_curvature: 950_000,
        high_pass_frequency: 1_000_000,
        composite_mode: CompositeMode::EnergyConserving,
        prefilter_threshold: 0,
        prefilter_threshold_softness: 0,
    }
}

impl BloomParameters {
    /// Every continuous knob sits in its documented valid range.
    pub open spec fn wf(self) -> bool {
        &&& 0 <= self.intensity <= UNIT as int
        &&& 0 <= self.low_frequency_boost <= UNIT as int
        &&& 0 <= self.low_frequency_boost_curvature <= UNIT as int
        &&& 0 <= self.high_pass_frequency <= UNIT as int
        &&& 0 <= self.prefilter_threshold
        &&& 0 <= self.prefilter_threshold_softness <= UNIT as int
    }
}

impl Default for BloomParameters {
    /// The default knob values, all in range.
    fn default() -> (r: Self)
        ensures
            r == spec_default_parameters(),
            r.wf(),
    {
        BloomParameters {
            intensity: 150_000,
            low_frequency_boost: 700_000,
            low_frequency_boost_curvature: 950_000,
            high_pass_frequency: 1_000_000,
            composite_mode: CompositeMode::EnergyConserving,
            prefilter_threshold: 0,
            prefilter_threshold_softness: 0,
        }
    }
}

/// Net signed adjustment of one field for one tick: the increment key
/// contributes `+step`, the decrement key `-step`, and the two are summed,
/// so holding both cancels out.
pub open spec fn key_delta(up: bool, down: bool, step: int) -> int {
    (if up { step } else { 0int }) - (if down { step } else { 0int })
}

/// The composite mode after one tick: the energy-conserving key wins over
/// the additive key when both are held; with neither held the mode keeps
/// its value.
pub open spec fn next_mode(mode: CompositeMode, k: BloomKeyState) -> CompositeMode {
    if k.energy_conserving {
        CompositeMode::EnergyConserving
    } else if k.additive {
        CompositeMode::Additive
    } else {
        mode
    }
}

/// The parameter record after one tick of held keys with tick duration
/// `dt_micros` (microseconds): every normalised field moves by one tenth
/// of the tick duration per held key and is clamped to the unit interval;
/// the prefilter threshold moves by the full tick duration and is clamped
/// below at zero.
pub open spec fn stepped(p: BloomParameters, k: BloomKeyState, dt_micros: int) -> BloomParameters {
    BloomParameters {
        intensity: clamp_unit(
            p.intensity + key_delta(k.intensity_up, k.intensity_down, dt_micros / 10),
        ) as i64,
        low_frequency_boost: clamp_unit(
            p.low_frequency_boost + key_delta(k.boost_up, k.boost_down, dt_micros / 10),
        ) as i64,
        low_frequency_boost_curvature: clamp_unit(
            p.low_frequency_boost_curvature + key_delta(
                k.curvature_up,
                k.curvature_down,
                dt_micros / 10,
            ),
        ) as i64,
        high_pass_frequency: clamp_unit(
            p.high_pass_frequency + key_delta(k.high_pass_up, k.high_pass_down, dt_micros / 10),
        ) as i64,
        composite_mode: next_mode(p.composite_mode, k),
        prefilter_threshold: clamp_nonneg(
            p.prefilter_threshold + key_delta(k.threshold_up, k.threshold_down, dt_micros),
        ) as i64,
        prefilter_threshold_softness: clamp_unit(
            p.prefilter_threshold_softness + key_delta(k.softness_up, k.softness_down, dt_micros / 10),
        ) as i64,
    }
}

/// One normalised field after one tick: the net key adjustment, clamped
/// to the unit interval.
fn step_unit_field(value: i64, up: bool, down: bool, d: i64) -> (r: i64)
    requires
        0 <= value <= UNIT as int,
        0 <= d <= i64::MAX / 10,
    ensures
        r == clamp_unit(value + key_delta(up, down, d as int)),
{
    let delta: i64 = (if up { d } else { 0 }) - (if down { d } else { 0 });
    let moved: i64 = value + delta;
    if moved < 0 {
        0
    } else if moved > UNIT {
        UNIT
    } else {
        moved
    }
}

/// The prefilter threshold after one tick: the net key adjustment,
/// clamped below at zero and saturating at the machine maximum.
fn step_threshold_field(value: i64, up: bool, down: bool, dt: i64) -> (r: i64)
    requires
        0 <= value,
        0 <= dt,
    ensures
        r == clamp_nonneg(value + key_delta(up, down, dt as int)),
{
    if up && !down {
        if value > i64::MAX - dt {
            i64::MAX
        } else {
            value + dt
        }
    } else if down && !up {
        if value < dt {
            0
        } else {
            value - dt
        }
    } else {
        value
    }
}

impl BloomParameters {
    /// Apply one tick of held-key adjustments with tick duration
    /// `dt_micros` (microseconds). Clamping is applied to every field
    /// after every mutation, so the record stays well formed.
    #[verifier::rlimit(50)]
    pub fn step(&mut self, keys: &BloomKeyState, dt_micros: i64)
        requires
            old(self).wf(),
            0 <= dt_micros,
        ensures
            *final(self) == stepped(*old(self), *keys, dt_micros as int),
            final(self).wf(),
    {
        let d: i64 = dt_micros / 10;
        self.intensity = step_unit_field(self.intensity, keys.intensity_up, keys.intensity_down, d);
        self.low_frequency_boost = step_unit_field(
            self.low_frequency_boost,
            keys.boost_up,
            keys.boost_down,
            d,
        );
        self.low_frequency_boost_curvature = step_unit_field(
            self.low_frequency_boost_curvature,
            keys.curvature_up,
            keys.curvature_down,
            d,
        );
        self.high_pass_frequency = step_unit_field(
            self.high_pass_frequency,
            keys.high_pass_up,
            keys.high_pass_down,
            d,
        );
        if keys.energy_conserving {
            self.composite_mode = CompositeMode::EnergyConserving;
        } else if keys.additive {
            self.composite_mode = CompositeMode::Additive;
        }
        self.prefilter_threshold = step_threshold_field(
            self.prefilter_threshold,
            keys.threshold_up,
            keys.threshold_down,
            dt_micros,
        );
        self.prefilter_threshold_softness = step_unit_field(
            self.prefilter_threshold_softness,
            keys.softness_up,
            keys.softness_down,
            d,
        );
    }
}

/// The effect's presence after a toggle press: an existing parameter block
/// is removed, an absent one is reinstated with the default values.
pub open spec fn spec_toggled(state: Option<BloomParameters>) -> Option<BloomParameters> {
    match state {
        Some(_) => None,
        None => Some(spec_default_parameters()),
    }
}

/// Toggle the bloom parameter block: turning the effect off discards the
/// block, turning it on reinstates the defaults.
pub fn toggle_bloom(state: Option<BloomParameters>) -> (r: Option<BloomParameters>)
    ensures
        r == spec_toggled(state),
{
    match state {
        Some(_) => None,
        None => Some(BloomParameters::default()),
    }
}

/// A present parameter block is well formed; an absent block trivially is.
pub open spec fn wf_state(state: Option<BloomParameters>) -> bool {
    match state {
        Some(p) => p.wf(),
        None => true,
    }
}

/// The editor's state after one frame: a toggle press flips the block's
/// presence (and nothing else happens that frame); otherwise a present
/// block is stepped by the held keys, and an absent block stays absent.
pub open spec fn spec_tick(
    state: Option<BloomParameters>,
    k: BloomKeyState,
    dt_micros: int,
) -> Option<BloomParameters> {
    if k.toggle {
        spec_toggled(state)
    } else {
        match state {
            Some(p) => Some(stepped(p, k, dt_micros)),
            None => None,
        }
    }
}

/// One frame of the bloom editor: Space toggles the block's presence,
/// otherwise the held keys adjust a present block, every field clamped
/// after the mutation.
pub fn bloom_tick(
    state: Option<BloomParameters>,
    keys: &BloomKeyState,
    dt_micros: i64,
) -> (r: Option<BloomParameters>)
    requires
        wf_state(state),
        0 <= dt_micros,
    ensures
        r == spec_tick(state, *keys, dt_micros as int),
        wf_state(r),
{
    if keys.toggle {
        toggle_bloom(state)
    } else {
        match state {
            Some(p) => {
                let mut stepped_p = p;
                stepped_p.step(keys, dt_micros);
                Some(stepped_p)
            },
            None => None,
        }
    }
}

/// One editor frame keeps the parameters well formed, whatever the keys
/// and tick duration.
pub proof fn lemma_tick_preserves_wf(
    state: Option<BloomParameters>,
    k: BloomKeyState,
    dt_micros: int,
)
    requires
        wf_state(state),
    ensures
        wf_state(spec_tick(state, k, dt_micros)),
{
}

/// The editor's state after a whole sequence of frames, each frame given
/// by its key-hold state and its tick duration in microseconds.
pub open spec fn spec_run(
    state: Option<BloomParameters>,
    frames: Seq<(BloomKeyState, int)>,
) -> Option<BloomParameters>
    decreases frames.len(),
{
    if frames.len() == 0 {
        state
    } else {
        spec_run(spec_tick(state, frames[0].0, frames[0].1), frames.drop_first())
    }
}

/// For every sequence of key-hold states and tick durations, every bloom
/// parameter field lies within its documented valid range after clamping:
/// well-formedness is an invariant of the editor loop.
pub proof fn lemma_run_preserves_wf(
    state: Option<BloomParameters>,
    frames: Seq<(BloomKeyState, int)>,
)
    requires
        wf_state(state),
    ensures
        wf_state(spec_run(state, frames)),
    decreases frames.len(),
{
    if frames.len() > 0 {
        lemma_tick_preserves_wf(state, frames[0].0, frames[0].1);
        lemma_run_preserves_wf(spec_tick(state, frames[0].0, frames[0].1), frames.drop_first());
    }
}

/// Pressing toggle twice with no other input restores the default state:
/// on, off, on reproduces the default values, and off, on, off leaves the
/// effect off.
pub proof fn lemma_toggle_twice(
    state: Option<BloomParameters>,
    k1: BloomKeyState,
    k2: BloomKeyState,
    dt1: int,
    dt2: int,
)
    requires
        k1.toggle,
        k2.toggle,
    ensures
        state is Some ==> spec_tick(spec_tick(state, k1, dt1), k2, dt2) == Some(
            spec_default_parameters(),
        ),
        state is None ==> spec_tick(spec_tick(state, k1, dt1), k2, dt2) is None,
{
}

/// Holding a decrement key while its field already sits at the minimum
/// leaves the field at the minimum: the clamp is idempotent at the
/// boundary.
pub proof fn lemma_decrement_at_minimum(p: BloomParameters, k: BloomKeyState, dt_micros: int)
    requires
        0 <= dt_micros,
    ensures
        p.intensity == 0 && k.intensity_down ==> stepped(p, k, dt_micros).intensity == 0,
        p.low_frequency_boost == 0 && k.boost_down ==> stepped(
            p,
            k,
            dt_micros,
        ).low_frequency_boost == 0,
        p.low_frequency_boost_curvature == 0 && k.curvature_down ==> stepped(
            p,
            k,
            dt_micros,
        ).low_frequency_boost_curvature == 0,
        p.high_pass_frequency == 0 && k.high_pass_down ==> stepped(
            p,
            k,
            dt_micros,
        ).high_pass_frequency == 0,
        p.prefilter_threshold == 0 && k.threshold_down ==> stepped(
            p,
            k,
            dt_micros,
        ).prefilter_threshold == 0,
        p.prefilter_threshold_softness == 0 && k.softness_down ==> stepped(
            p,
            k,
            dt_micros,
        ).prefilter_threshold_softness == 0,
{
}

} // verus!
