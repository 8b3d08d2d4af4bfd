//! Compliance: how far the controls have come, and noise that hides the
//! single user in an aggregate.

use vstd::prelude::*;
use crate::clock::random_below;
use crate::fixed::{div_floor, product, ratio, saturate, saturated, times, unit, unit_ratio, SCALE};
use crate::strmap::{listed, placed_keys, value_views, view_map, StrMap};

verus! {

/// Each half of the readiness score counts for this much (0.5).
pub const HALF: i64 = 500_000;

/// What a control is for.
#[derive(Clone, Copy, Debug, PartialEq, Eq, Structural, Hash)]
pub enum ControlType {
    AccessControl,
    Encryption,
    Monitoring,
    IncidentResponse,
    DataRetention,
}

/// A control, and whether it is in place and tested.
#[derive(Debug)]
pub struct SOC2Control {
    pub id: String,
    pub name: String,
    pub description: String,
    pub control_type: ControlType,
    pub implemented: bool,
    pub tested: bool,
    pub evidence: Vec<String>,
}

/// What a control holds.
pub struct SOC2ControlView {
    pub id: Seq<char>,
    pub name: Seq<char>,
    pub description: Seq<char>,
    pub control_type: ControlType,
    pub implemented: bool,
    pub tested: bool,
    pub evidence: Seq<Seq<char>>,
}

impl View for SOC2Control {
    type V = SOC2ControlView;

    open spec fn view(&self) -> SOC2ControlView {
        SOC2ControlView {
            id: self.id@,
            name: self.name@,
            description: self.description@,
            control_type: self.control_type,
            implemented: self.implemented,
            tested: self.tested,
            evidence: crate::strmap::views_of(self.evidence@),
        }
    }
}

impl Clone for SOC2Control {
    fn clone(&self) -> (r: Self)
        ensures
            r@ == self@,
            r.implemented == self.implemented,
            r.tested == self.tested,
    {
        SOC2Control {
            id: self.id.clone(),
            name: self.name.clone(),
            description: self.description.clone(),
            control_type: self.control_type,
            implemented: self.implemented,
            tested: self.tested,
            evidence: crate::text::clone_texts(&self.evidence),
        }
    }
}

/// How many of the first `n` controls are in place.
pub open spec fn implemented_upto(controls: Seq<SOC2ControlView>, n: int) -> int
    decreases n,
{
    if n <= 0 {
        0
    } else {
        implemented_upto(controls, n - 1) + if controls[n - 1].implemented {
            1int
        } else {
            0int
        }
    }
}

/// How many of the first `n` controls are tested.
pub open spec fn tested_upto(controls: Seq<SOC2ControlView>, n: int) -> int
    decreases n,
{
    if n <= 0 {
        0
    } else {
        tested_upto(controls, n - 1) + if controls[n - 1].tested {
            1int
        } else {
            0int
        }
    }
}

/// The readiness that a list of controls gives: half the share that is in
/// place plus half the share that is tested; zero where there is no control.
pub open spec fn readiness_of(controls: Seq<SOC2ControlView>) -> int {
    let n = controls.len() as int;
    product(unit(ratio(implemented_upto(controls, n), n)), HALF as int) + product(
        unit(ratio(tested_upto(controls, n), n)),
        HALF as int,
    )
}

/// What each control holds, by id.
pub open spec fn control_views(controls: Map<Seq<char>, SOC2Control>) -> Map<
    Seq<char>,
    SOC2ControlView,
> {
    view_map(controls)
}

/// The readiness that the controls of `controls` give.
fn readiness(controls: &StrMap<SOC2Control>) -> (r: i64)
    ensures
        r == readiness_of(value_views(controls.values())),
        r == readiness_of(listed(control_views(controls@), controls.keys())),
        0 <= r <= SCALE,
{
    proof {
        use_type_invariant(controls);
        controls.lemma_listed_views();
    }
    let n = controls.len();
    let mut implemented: usize = 0;
    let mut tested: usize = 0;
    let mut i: usize = 0;
    while i < n
        invariant
            i <= n,
            n == controls.values().len(),
            implemented == implemented_upto(value_views(controls.values()), i as int),
            tested == tested_upto(value_views(controls.values()), i as int),
            implemented <= i,
            tested <= i,
        decreases n - i,
    {
        let control = controls.value_at(i);
        if control.implemented {
            implemented += 1;
        }
        if control.tested {
            tested += 1;
        }
        i += 1;
    }
    let in_place = unit_ratio(implemented as u64, n as u64);
    let proven = unit_ratio(tested as u64, n as u64);
    proof {
        crate::fixed::lemma_product_shrinks(in_place as int, HALF as int);
        crate::fixed::lemma_product_shrinks(proven as int, HALF as int);
        lemma_half_of_share(in_place as int);
        lemma_half_of_share(proven as int);
    }
    (times(in_place, HALF) + times(proven, HALF)) as i64
}

/// Half of a share is at most a half.
pub proof fn lemma_half_of_share(share: int)
    requires
        0 <= share <= SCALE,
    ensures
        0 <= product(share, HALF as int) <= HALF,
{
    assert(0 <= share * HALF <= HALF * SCALE) by (nonlinear_arith)
        requires
            0 <= share <= SCALE,
    ;
    crate::fixed::lemma_quotient_bounds(share * HALF, SCALE as int, 0, HALF as int);
}

/// Follows the controls and keeps the readiness score up to date.
pub struct SOC2ReadinessTracker {
    controls: StrMap<SOC2Control>,
    readiness_score: i64,
}

impl View for SOC2ReadinessTracker {
    type V = Map<Seq<char>, SOC2ControlView>;

    closed spec fn view(&self) -> Map<Seq<char>, SOC2ControlView> {
        control_views(self.controls@)
    }
}

impl SOC2ReadinessTracker {
    /// The ids of the controls, in the order in which they were first added.
    pub closed spec fn control_ids(&self) -> Seq<Seq<char>> {
        self.controls.keys()
    }

    /// The controls in the order in which their ids were first added.
    pub open spec fn control_list(&self) -> Seq<SOC2ControlView> {
        listed(self@, self.control_ids())
    }

    /// The readiness score.
    pub closed spec fn score(&self) -> i64 {
        self.readiness_score
    }

    /// The score is the readiness that the controls give.
    #[verifier::type_invariant]
    pub open spec fn wf(self) -> bool {
        self.score() == readiness_of(self.control_list())
    }

    /// A tracker without controls; its score is zero.
    pub fn new() -> (r: Self)
        ensures
            r@ == Map::<Seq<char>, SOC2ControlView>::empty(),
            r.control_ids() == Seq::<Seq<char>>::empty(),
            r.score() == 0,
    {
        let controls: StrMap<SOC2Control> = StrMap::new();
        let readiness_score = readiness(&controls);
        let r = SOC2ReadinessTracker { controls, readiness_score };
        assert(r@ =~= Map::<Seq<char>, SOC2ControlView>::empty());
        r
    }

    /// How many controls there are.
    pub fn control_count(&self) -> (n: usize)
        ensures
            n == self.control_ids().len(),
    {
        self.controls.len()
    }

    /// The control under `control_id`.
    pub fn get_control(&self, control_id: &str) -> (r: Option<&SOC2Control>)
        ensures
            match r {
                Some(control) => self@.contains_key(control_id@) && control@ == self@[control_id@],
                None => !self@.contains_key(control_id@),
            },
    {
        self.controls.get(control_id)
    }

    fn with_control(self, control: SOC2Control) -> (r: Self)
        ensures
            r@ == self@.insert(control.id@, control@),
            r.control_ids() == placed_keys(self.control_ids(), control.id@),
            r.score() == readiness_of(r.control_list()),
    {
        let ghost before = self@;
        let SOC2ReadinessTracker { controls, readiness_score } = self;
        let mut controls = controls;
        controls.insert(control.id.clone(), control);
        assert(control_views(controls@) =~= before.insert(control.id@, control@));
        let readiness_score = readiness(&controls);
        SOC2ReadinessTracker { controls, readiness_score }
    }

    /// Adds `control` under its id, in place of the control that was there,
    /// if any, and brings the score up to date.
    pub fn add_control(&mut self, control: SOC2Control)
        ensures
            final(self)@ == old(self)@.insert(control.id@, control@),
            final(self).control_ids() == placed_keys(old(self).control_ids(), control.id@),
            final(self).score() == readiness_of(final(self).control_list()),
    {
        let mut taken = SOC2ReadinessTracker::new();
        core::mem::swap(self, &mut taken);
        *self = taken.with_control(control);
    }

    fn with_mark(self, control_id: &str, implemented: bool) -> (r: Self)
        ensures
            r.score() == readiness_of(r.control_list()),
            r.control_ids() == self.control_ids(),
            r@ == if self@.contains_key(control_id@) {
                self@.insert(
                    control_id@,
                    if implemented {
                        SOC2ControlView { implemented: true, ..self@[control_id@] }
                    } else {
                        SOC2ControlView { tested: true, ..self@[control_id@] }
                    },
                )
            } else {
                self@
            },
    {
        proof {
            use_type_invariant(&self);
        }
        let ghost before = self@;
        let SOC2ReadinessTracker { controls, readiness_score } = self;
        let mut controls = controls;
        match controls.position(control_id) {
            Some(at) => {
                let mut control = controls.value_at(at).clone();
                if implemented {
                    control.implemented = true;
                } else {
                    control.tested = true;
                }
                controls.replace_at(at, control);
                assert(control_views(controls@) =~= before.insert(control_id@, control@));
                let readiness_score = readiness(&controls);
                SOC2ReadinessTracker { controls, readiness_score }
            },
            None => SOC2ReadinessTracker { controls, readiness_score },
        }
    }

    /// Marks the control `control_id` as in place and brings the score up to
    /// date. Nothing happens where there is no such control.
    pub fn mark_implemented(&mut self, control_id: &str)
        ensures
            final(self).score() == readiness_of(final(self).control_list()),
            final(self).control_ids() == old(self).control_ids(),
            final(self)@ == if old(self)@.contains_key(control_id@) {
                old(self)@.insert(
                    control_id@,
                    SOC2ControlView { implemented: true, ..old(self)@[control_id@] },
                )
            } else {
                old(self)@
            },
    {
        let mut taken = SOC2ReadinessTracker::new();
        core::mem::swap(self, &mut taken);
        *self = taken.with_mark(control_id, true);
    }

    /// Marks the control `control_id` as tested and brings the score up to
    /// date. Nothing happens where there is no such control.
    pub fn mark_tested(&mut self, control_id: &str)
        ensures
            final(self).score() == readiness_of(final(self).control_list()),
            final(self).control_ids() == old(self).control_ids(),
            final(self)@ == if old(self)@.contains_key(control_id@) {
                old(self)@.insert(
                    control_id@,
                    SOC2ControlView { tested: true, ..old(self)@[control_id@] },
                )
            } else {
                old(self)@
            },
    {
        let mut taken = SOC2ReadinessTracker::new();
        core::mem::swap(self, &mut taken);
        *self = taken.with_mark(control_id, false);
    }

    /// The readiness score: half the share of controls in place plus half the
    /// share of controls tested.
    pub fn get_readiness_score(&self) -> (r: i64)
        ensures
            r == readiness_of(self.control_list()),
            r == self.score(),
    {
        proof {
            use_type_invariant(self);
        }
        self.readiness_score
    }
}

impl Default for SOC2ReadinessTracker {
    fn default() -> (r: Self)
        ensures
            r@ == Map::<Seq<char>, SOC2ControlView>::empty(),
            r.control_ids() == Seq::<Seq<char>>::empty(),
            r.score() == 0,
    {
        SOC2ReadinessTracker::new()
    }
}

/// How far noise can reach for the privacy parameter `epsilon`: one divided
/// by it. Where `epsilon` is zero there is no bound, and the largest number
/// stands for it.
pub open spec fn noise_scale(epsilon: int) -> int {
    if epsilon > 0 {
        saturated((SCALE * SCALE) / epsilon)
    } else if epsilon < 0 {
        saturated(-((SCALE * SCALE) / (-epsilon)))
    } else {
        i64::MAX as int
    }
}

/// The noise for a draw out of two million: the draw, taken as a number from
/// minus one to one, times the scale.
pub open spec fn noise_for(epsilon: int, roll: int) -> int {
    saturated(product(roll - SCALE, noise_scale(epsilon)))
}

/// The sum of the first `n` values.
pub open spec fn sum_upto(values: Seq<i64>, n: int) -> int
    decreases n,
{
    if n <= 0 {
        0
    } else {
        sum_upto(values, n - 1) + values[n - 1]
    }
}

/// The mean of the values, rounded down; zero where there are none.
pub open spec fn mean_of(values: Seq<i64>) -> int {
    if values.len() > 0 {
        sum_upto(values, values.len() as int) / (values.len() as int)
    } else {
        0
    }
}

/// How far noise can reach for the privacy parameter `epsilon`.
pub fn scale_for(epsilon: i64) -> (r: i64)
    ensures
        r == noise_scale(epsilon as int),
{
    if epsilon > 0 {
        saturate(div_floor(1_000_000_000_000, epsilon as i128))
    } else if epsilon < 0 {
        saturate(-div_floor(1_000_000_000_000, -(epsilon as i128)))
    } else {
        i64::MAX
    }
}

/// The mean of `values`, rounded down; zero where there are none.
pub fn mean(values: &[i64]) -> (r: i64)
    ensures
        r == mean_of(values@),
{
    let n = values.len();
    if n == 0 {
        return 0;
    }
    let mut sum: i128 = 0;
    let mut i: usize = 0;
    while i < n
        invariant
            i <= n,
            n == values@.len(),
            sum == sum_upto(values@, i as int),
            -(i as int) * 0x8000_0000_0000_0000 <= sum <= (i as int) * 0x7fff_ffff_ffff_ffff,
        decreases n - i,
    {
        sum = sum + (values[i] as i128);
        i += 1;
    }
    proof {
        crate::fixed::lemma_quotient_bounds(
            sum as int,
            n as int,
            -0x8000_0000_0000_0000,
            0x7fff_ffff_ffff_ffff,
        );
    }
    div_floor(sum, n as i128) as i64
}

/// Adds noise to aggregates. The lower the parameter, the more noise.
pub struct DifferentialPrivacy {
    epsilon: i64,
}

impl DifferentialPrivacy {
    /// The privacy parameter, fixed-point.
    pub closed spec fn parameter(&self) -> i64 {
        self.epsilon
    }

    /// Noise for the privacy parameter `epsilon`.
    pub fn new(epsilon: i64) -> (r: Self)
        ensures
            r.parameter() == epsilon,
    {
        DifferentialPrivacy { epsilon }
    }

    /// `value` with the noise that the draw `roll` out of two million gives.
    pub fn add_noise_with(&self, value: i64, roll: u64) -> (r: i64)
        requires
            roll < 2 * SCALE,
        ensures
            r == saturated(value + noise_for(self.parameter() as int, roll as int)),
    {
        let scale = scale_for(self.epsilon);
        let offset: i64 = (roll as i64) - SCALE;
        let noise = saturate(times(offset, scale));
        saturate((value as i128) + (noise as i128))
    }

    /// `value` with noise drawn evenly from minus the scale to the scale,
    /// which is one divided by the privacy parameter.
    pub fn add_noise(&self, value: i64) -> (r: i64)
        ensures
            exists|roll: int|
                0 <= roll < 2 * SCALE && r == saturated(
                    value + #[trigger] noise_for(self.parameter() as int, roll),
                ),
    {
        let roll = random_below(2_000_000);
        self.add_noise_with(value, roll)
    }

    /// The mean of `values` with noise added; the mean of no values counts as
    /// zero.
    pub fn aggregate_with_privacy(&self, values: &[i64]) -> (r: i64)
        ensures
            exists|roll: int|
                0 <= roll < 2 * SCALE && r == saturated(
                    mean_of(values@) + #[trigger] noise_for(self.parameter() as int, roll),
                ),
    {
        let average = mean(values);
        self.add_noise(average)
    }
}

} // verus!
