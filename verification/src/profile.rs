//! The velocity-profile generator, as this library sees it.
//!
//! The generator itself is the `stepgen` crate. Its fields are private, so
//! the contracts here speak of a generator through [`profile_view`], a record
//! of its state. The functions that call the generator are not proved: each
//! states what the generator's source shows, and the rest of the library is
//! verified against these statements.
//!
//! The generator computes in `u32` without checks. [`ProfileView::steady`]
//! says in which states a request for the next delay stays within that
//! range; the request is made in no other state.

use vstd::prelude::*;

verus! {

/// `stepgen::Stepgen`, the generator; nothing of its inside is known here.
#[verifier::external_type_specification]
#[verifier::external_body]
pub struct ExStepgen(stepgen::Stepgen);

/// `stepgen::Error`, with its three variants.
#[verifier::external_type_specification]
pub struct ExError(stepgen::Error);

/// The state of a generator.
pub struct ProfileView {
    /// Steps produced so far; it only ever grows.
    pub step: u32,
    /// The step at which the generator has been told to come to rest.
    pub target: u32,
    /// Acceleration steps outstanding: how many steps a deceleration to
    /// rest would take from the current speed.
    pub ramp: u32,
    /// The running delay of the ramp, in 16.16 ticks.
    pub delay: u32,
    /// The delay of the cruise, in 16.16 ticks; 0 while the generator does
    /// not cruise.
    pub cruise: u32,
    /// Timer ticks per second.
    pub ticks: u32,
    /// The delay of the first step of a ramp, in 16.16 ticks; 0 until an
    /// acceleration is set.
    pub first: u32,
    /// The delay that the target speed asks for, in 16.16 ticks; 0 until a
    /// speed is set.
    pub goal: u32,
}

impl ProfileView {
    /// A generator at step 0 with nothing configured.
    pub open spec fn fresh(ticks: u32) -> ProfileView {
        ProfileView {
            step: 0,
            target: 0,
            ramp: 0,
            delay: 0,
            cruise: 0,
            ticks: ticks,
            first: 0,
            goal: 0,
        }
    }

    /// A target speed has been accepted.
    pub open spec fn speed_set(self) -> bool {
        self.goal != 0
    }

    /// An acceleration has been accepted and gave a non-zero first delay.
    pub open spec fn ramp_set(self) -> bool {
        self.first != 0
    }

    /// The generator is cruising.
    pub open spec fn at_speed(self) -> bool {
        self.cruise != 0
    }

    /// A generator that accepts a target step.
    pub open spec fn ready(self) -> bool {
        self.speed_set() && self.ramp_set()
    }

    /// A generator that will produce no further step as things stand.
    pub open spec fn exhausted(self) -> bool {
        self.step >= self.target && self.ramp <= 1
    }

    /// The step at which a deceleration begun now would end.
    pub open spec fn projected_stop(self) -> int {
        self.step + self.ramp
    }

    /// The cruise goes on: it was begun at the delay that is still asked
    /// for.
    pub open spec fn holds_cruise(self) -> bool {
        self.cruise != 0 && self.cruise == self.goal
    }

    /// The generator's `u32` arithmetic for one more acceleration step
    /// stays in range.
    pub open spec fn speeds_up_in_range(self) -> bool {
        &&& 4 * self.ramp + 1 <= u32::MAX
        &&& 2 * self.delay + (4 * self.ramp + 1) / 2 <= u32::MAX
    }

    /// The generator's `u32` arithmetic for one acceleration step less
    /// stays in range. It subtracts 1 from four times the steps that are
    /// left.
    pub open spec fn slows_down_in_range(self) -> bool {
        &&& self.ramp >= 2
        &&& 4 * (self.ramp - 1) <= u32::MAX
        &&& 2 * self.delay + (4 * (self.ramp - 1) - 1) / 2 <= u32::MAX
        &&& self.delay + (2 * self.delay + (4 * (self.ramp - 1) - 1) / 2) / (4 * (self.ramp - 1)
            - 1) <= u32::MAX
    }

    /// A request for the next delay stays within the range of the
    /// generator's arithmetic, and the delay that it gives, cut to 16.8
    /// ticks, is not 0.
    ///
    /// An exhausted generator computes nothing. Otherwise it counts the
    /// step, and on a ramp it adds its step count and its outstanding
    /// acceleration steps; then it slows down where a deceleration begun now
    /// would overshoot, or where it does not cruise and is faster than asked,
    /// and speeds up where it does not cruise and is slower than asked.
    pub open spec fn steady(self) -> bool {
        ||| self.exhausted()
        ||| {
            &&& self.step < u32::MAX
            &&& self.goal >= 256
            &&& self.ramp >= 1 ==> {
                &&& self.delay >= 256
                &&& self.projected_stop() <= u32::MAX
                &&& self.projected_stop() > self.target ==> self.slows_down_in_range()
                &&& self.projected_stop() < self.target && !self.holds_cruise() && self.delay
                    < self.goal ==> self.slows_down_in_range()
                &&& self.projected_stop() < self.target && !self.holds_cruise() && self.delay
                    > self.goal ==> self.speeds_up_in_range()
            }
        }
    }
}

/// The state of a generator.
pub uninterp spec fn profile_view(g: stepgen::Stepgen) -> ProfileView;

/// `r` is the whole number nearest to the square root of `x`: `x` lies
/// between the squares of `r - 1/2` and `r + 1/2`.
pub open spec fn is_nearest_root(r: nat, x: nat) -> bool {
    (r == 0 || r * r - r < x) && x <= r * r + r
}

/// The whole number nearest to the square root of `x`.
pub open spec fn nearest_root(x: nat) -> nat {
    choose|r: nat| #[trigger] is_nearest_root(r, x)
}

/// The first step's delay, in 16.8 ticks, that a generator running at
/// `ticks` per second derives from `acceleration` (24.8 steps/s^2, not 0):
/// `ticks * sqrt(2 / a) * 0.676` for `a` steps/s^2. The generator takes the
/// root, rounded to the nearest whole number, of `2 * 676 * 676 * 2^40`
/// over `acceleration`, multiplies it by `ticks`, and divides by 1000 and
/// by 256, each time rounding down.
pub open spec fn first_delay(ticks: u32, acceleration: u32) -> u64 {
    let square = 913_952 * 0x100_0000_0000int / (acceleration as int);
    (ticks * nearest_root(square as nat) / 1000 / 256) as u64
}

/// A number has one nearest root.
pub proof fn lemma_nearest_root(r: nat, x: nat)
    requires
        is_nearest_root(r, x),
    ensures
        nearest_root(x) == r,
{
    let c = nearest_root(x);
    assert(is_nearest_root(c, x));
    if c < r {
        assert(c * c + c <= r * r - r) by (nonlinear_arith)
            requires
                c + 1 <= r,
        ;
    }
    if c > r {
        assert(r * r + r <= c * c - c) by (nonlinear_arith)
            requires
                r + 1 <= c,
        ;
    }
}

/// The first step's delay, in 16.8 ticks, for a timer of `ticks` per
/// second and `acceleration` (24.8 steps/s^2): see [`first_delay`].
pub fn first_step(ticks: u32, acceleration: u32) -> (delay: u64)
    requires
        acceleration != 0,
    ensures
        delay == first_delay(ticks, acceleration),
{
    let square: u64 = 913_952 * 0x100_0000_0000 / (acceleration as u64);
    assert(0 < square <= 913_952 * 0x100_0000_0000) by (nonlinear_arith)
        requires
            square == 913_952 * 0x100_0000_0000int / (acceleration as int),
            0 < acceleration <= 0xffff_ffff,
    ;
    // The root lies between two neighbours `low` and `high` with
    // `low * (low - 1) < square <= high * (high - 1)`.
    let mut low: u64 = 1;
    let mut high: u64 = 0x8000_0000;
    while high - low > 1
        invariant
            1 <= low < high <= 0x8000_0000,
            low * (low - 1) < square <= high * (high - 1),
        decreases high - low,
    {
        let middle: u64 = low + (high - low) / 2;
        assert(middle * (middle - 1) <= 0x8000_0000 * 0x8000_0000) by (nonlinear_arith)
            requires
                1 <= middle <= 0x8000_0000,
        ;
        if middle * (middle - 1) >= square {
            high = middle;
        } else {
            low = middle;
        }
    }
    proof {
        assert(low * low - low == low * (low - 1)) by (nonlinear_arith);
        assert(low * low + low == high * (high - 1)) by (nonlinear_arith)
            requires
                high == low + 1,
        ;
        lemma_nearest_root(low as nat, square as nat);
    }
    assert(ticks * low <= 0xffff_ffff * 0x8000_0000) by (nonlinear_arith)
        requires
            ticks <= 0xffff_ffff,
            low <= 0x8000_0000,
    ;
    (ticks as u64) * low / 1000 / 256
}

/// What a request for the next delay gives in the state `v`, and the state
/// that it leaves.
pub uninterp spec fn step_of(v: ProfileView) -> (Option<u32>, ProfileView);

/// Whether a generator running at `ticks` per second accepts `speed` (24.8
/// steps per second): the step delay has to fit 16.8 ticks and stay above
/// 30 ticks.
pub open spec fn speed_verdict(ticks: u32, speed: u32) -> Result<(), stepgen::Error> {
    if speed == 0 {
        Err(stepgen::Error::TooSlow)
    } else if (ticks as int * 0x1_0000) / (speed as int) >= 0x100_0000 {
        Err(stepgen::Error::TooSlow)
    } else if (ticks as int * 0x1_0000) / (speed as int) <= 7680 {
        Err(stepgen::Error::TooFast)
    } else {
        Ok(())
    }
}

/// The delay, in 16.16 ticks, of a step at `speed` (24.8 steps per second)
/// with `ticks` per second: the delay in 16.8 ticks, rounded down, with
/// eight more binary places.
pub open spec fn speed_delay(ticks: u32, speed: u32) -> u32 {
    if speed == 0 {
        0
    } else {
        ((ticks as int * 0x1_0000) / (speed as int) * 256) as u32
    }
}

/// An accepted speed asks for a delay of more than 30 ticks that fits 16.8
/// ticks.
pub proof fn lemma_accepted_delay(ticks: u32, speed: u32)
    requires
        speed_verdict(ticks, speed) is Ok,
    ensures
        speed != 0,
        speed_delay(ticks, speed) == (ticks as int * 0x1_0000) / (speed as int) * 256,
        speed_delay(ticks, speed) / 256 == (ticks as int * 0x1_0000) / (speed as int),
        7680 * 256 < speed_delay(ticks, speed),
{
}

/// One request for the next delay, from the state `o` to the state `n`
/// with the answer `r`.
///
/// The settings stay. The generator is exhausted exactly when it stands at
/// or beyond its target with at most one acceleration step outstanding, and
/// then only forgets that step. Otherwise it takes one step and adjusts its
/// speed: it holds when a deceleration begun now would end on the target,
/// slows down when that would overshoot, and speeds up, holds or slows down
/// by one when it would fall short. From rest it gives the delay asked
/// for, where that is longer than the first delay of a ramp, and stays off
/// the ramp; else it begins the ramp with its first delay. On a ramp it
/// gives the delay of the cruise where it cruises, and the running delay
/// where it does not. Each is cut to 16.8 ticks.
///
/// A cruise is at the delay asked for. A cruise that goes on changes
/// nothing, and only a deceleration that would overshoot ends it. Off the
/// cruise and short of the point where it has to slow down for its target,
/// the generator takes a step on the ramp towards the delay asked for: up
/// where it is slower, which shortens the running delay, and down where it
/// is faster. It begins to cruise as soon as that brings the running delay
/// to the delay asked for or past it: where it does not cruise after the
/// step, a running delay that is still longer shows a step up, and one that
/// is still shorter a step down. A cruise begins with a running delay of at
/// most twice the delay asked for, and with a delay asked for of 4 ticks or
/// more the running delay of a ramp stays at 1 tick or more.
pub open spec fn advances(o: ProfileView, r: Option<u32>, n: ProfileView) -> bool {
    &&& n.target == o.target
    &&& n.ticks == o.ticks
    &&& n.first == o.first
    &&& n.goal == o.goal
    &&& r is None <==> o.exhausted()
    &&& r is None ==> n == ProfileView { ramp: 0, ..o }
    &&& r is Some ==> n.step == o.step + 1 && 0 < r->Some_0 < 0x100_0000
    &&& r is Some && o.ramp == 0 ==> n.ramp <= 1
    &&& r is Some && o.ramp >= 1 && o.projected_stop() == o.target ==> n.ramp == o.ramp
    &&& r is Some && o.ramp >= 1 && o.projected_stop() > o.target ==> n.ramp == o.ramp - 1
    &&& r is Some && o.ramp >= 1 && o.projected_stop() < o.target ==> o.ramp - 1 <= n.ramp
        <= o.ramp + 1
    &&& r is Some && o.ramp == 0 && o.goal > o.first ==> n.ramp == 0 && n.delay == o.delay
        && r->Some_0 == o.goal / 256
    &&& r is Some && o.ramp == 0 && o.goal <= o.first ==> n.ramp == 1 && n.delay == o.first
        && r->Some_0 == o.first / 256
    &&& r is Some && o.ramp >= 1 && n.cruise != 0 ==> r->Some_0 == n.cruise / 256
    &&& r is Some && o.ramp >= 1 && n.cruise == 0 ==> r->Some_0 == n.delay / 256
    &&& r is Some && n.cruise != 0 ==> n.cruise == o.goal
    &&& r is Some && o.ramp >= 1 && o.holds_cruise() && n.cruise != 0 ==> n.ramp == o.ramp
        && n.delay == o.delay
    &&& r is Some && o.ramp >= 1 && o.holds_cruise() && n.cruise == 0 ==> o.projected_stop()
        > o.target
    &&& r is Some && o.ramp >= 1 && o.projected_stop() < o.target && !o.holds_cruise() && o.delay
        > o.goal ==> n.ramp == o.ramp + 1 && n.delay <= o.delay
    &&& r is Some && o.ramp >= 1 && o.projected_stop() < o.target && !o.holds_cruise() && o.delay
        < o.goal ==> n.ramp == o.ramp - 1
    &&& r is Some && o.ramp >= 1 && o.projected_stop() < o.target && !o.holds_cruise() && n.cruise
        == 0 && n.delay > o.goal ==> n.ramp == o.ramp + 1
    &&& r is Some && o.ramp >= 1 && o.projected_stop() < o.target && !o.holds_cruise() && n.cruise
        == 0 && n.delay < o.goal ==> n.ramp == o.ramp - 1
    &&& r is Some && !o.holds_cruise() && n.cruise != 0 ==> n.delay <= 2 * o.goal
    &&& r is Some && o.goal >= 1024 && n.ramp >= 1 ==> n.delay >= 256
}

/// `stepgen::Stepgen::new`: a generator at step 0 with nothing configured.
#[verifier::external_body]
pub(crate) fn new_profile(ticks_per_second: u32) -> (g: stepgen::Stepgen)
    ensures
        profile_view(g) == ProfileView::fresh(ticks_per_second),
{
    stepgen::Stepgen::new(ticks_per_second)
}

/// `stepgen::Stepgen::set_acceleration`: refused as too slow when the first
/// delay does not fit 16.8 ticks, and then nothing changes; otherwise only
/// the first delay is replaced, by the new one with eight more binary
/// places. The generator divides by `acceleration`.
#[verifier::external_body]
pub(crate) fn set_acceleration(g: &mut stepgen::Stepgen, acceleration: u32) -> (r: Result<
    (),
    stepgen::Error,
>)
    requires
        acceleration != 0,
    ensures
        r is Err <==> first_delay(profile_view(*old(g)).ticks, acceleration) >= 0x100_0000,
        r is Err ==> r->Err_0 == stepgen::Error::TooSlow && profile_view(*final(g))
            == profile_view(*old(g)),
        r is Ok ==> profile_view(*final(g)) == (ProfileView {
            first: (first_delay(profile_view(*old(g)).ticks, acceleration) * 256) as u32,
            ..profile_view(*old(g))
        }),
{
    g.set_acceleration(acceleration)
}

/// `stepgen::Stepgen::set_target_speed`: accepted or refused as
/// [`speed_verdict`] says; a refusal changes nothing, an acceptance only the
/// delay asked for, which becomes [`speed_delay`].
#[verifier::external_body]
pub(crate) fn set_target_speed(g: &mut stepgen::Stepgen, speed: u32) -> (r: Result<
    (),
    stepgen::Error,
>)
    ensures
        r == speed_verdict(profile_view(*old(g)).ticks, speed),
        r is Err ==> profile_view(*final(g)) == profile_view(*old(g)),
        r is Ok ==> profile_view(*final(g)) == (ProfileView {
            goal: speed_delay(profile_view(*old(g)).ticks, speed),
            ..profile_view(*old(g))
        }),
{
    g.set_target_speed(speed)
}

/// `stepgen::Stepgen::set_target_step`: refused, with nothing changed,
/// until both a speed and an acceleration are set; otherwise only the target
/// is replaced.
#[verifier::external_body]
pub(crate) fn set_target_step(g: &mut stepgen::Stepgen, target: u32) -> (r: Result<
    (),
    stepgen::Error,
>)
    ensures
        r is Ok <==> profile_view(*old(g)).ready(),
        r is Err ==> r->Err_0 == stepgen::Error::SpeedAccelerationNotSet && profile_view(
            *final(g),
        ) == profile_view(*old(g)),
        r is Ok ==> profile_view(*final(g)) == (ProfileView {
            target: target,
            ..profile_view(*old(g))
        }),
{
    g.set_target_step(target)
}

/// `stepgen::Stepgen::current_step`: the count of the steps produced so
/// far.
#[verifier::external_body]
pub(crate) fn current_step(g: &stepgen::Stepgen) -> (r: u32)
    ensures
        r == profile_view(*g).step,
{
    g.current_step()
}

/// `stepgen::Stepgen::is_at_speed`: whether the generator cruises at its
/// target speed.
#[verifier::external_body]
pub(crate) fn is_at_speed(g: &stepgen::Stepgen) -> (r: bool)
    ensures
        r == profile_view(*g).at_speed(),
{
    g.is_at_speed()
}

/// `Iterator::next` of `stepgen::Stepgen`: the delay before the next step,
/// in 16.8 ticks, or `None` once the generator is exhausted. What it gives
/// depends on the generator's state alone, and is named by [`step_of`];
/// [`advances`] holds of it. The generator computes in `u32` and gives a
/// delay of 0 as `None`: the state has to be [`ProfileView::steady`].
#[verifier::external_body]
pub(crate) fn next_delay(g: &mut stepgen::Stepgen) -> (r: Option<u32>)
    requires
        profile_view(*old(g)).steady(),
    ensures
        (r, profile_view(*final(g))) == step_of(profile_view(*old(g))),
        advances(profile_view(*old(g)), r, profile_view(*final(g))),
{
    g.next()
}

} // verus!
