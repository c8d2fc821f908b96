//! The fixed-timestep loop.
//!
//! A [`PixelLoop`] owns an application and a drawing surface and advances the
//! simulation in fixed time increments: each tick measures the real elapsed
//! time, clamps it to [`MAX_FRAME_NANOS`] so a slow tick cannot spiral into
//! ever more catch-up work, drains whole update steps from an accumulator,
//! and renders exactly once with the unconsumed remainder as an
//! interpolation delta.

use crate::surface::DrawingSurface;
use vstd::arithmetic::div_mod::lemma_fundamental_div_mod;
use vstd::prelude::*;

verus! {

/// The ceiling on the elapsed time fed into accumulation in one tick,
/// in nanoseconds: 100 ms.
pub const MAX_FRAME_NANOS: u64 = 100_000_000;

/// A monotonic timestamp, stored only to measure the distance between two
/// of them.
#[verifier::external_type_specification]
#[verifier::external_body]
pub struct ExInstant(std::time::Instant);

/// Relies on `std::time::Instant::now`: the current monotonic timestamp.
/// Nothing is promised of it; every tick computation takes the measured
/// distance as an input and holds for every value of it.
#[verifier::external_body]
fn instant_now() -> (t: std::time::Instant) {
    std::time::Instant::now()
}

/// Relies on `std::time::Instant::saturating_duration_since`: the elapsed
/// nanoseconds from `earlier` to `later`, zero if `later` is the earlier of
/// the two.  Nothing is promised of the value; the caller clamps it.
#[verifier::external_body]
fn nanos_between(earlier: &std::time::Instant, later: &std::time::Instant) -> (dt: u128) {
    later.saturating_duration_since(*earlier).as_nanos()
}

/// The fixed update step derived from an update rate of `fps` steps per
/// second: the integer nearest to `1_000_000_000 / fps` nanoseconds, a tie
/// rounded up ([`lemma_timestep_round`]).
pub open spec fn timestep_nanos(fps: int) -> int
    recommends
        0 < fps,
{
    (1_000_000_000 + fps / 2) / fps
}

/// The elapsed time fed into accumulation: the measured time, cut off at
/// [`MAX_FRAME_NANOS`].
pub open spec fn clamped_nanos(dt: int) -> int {
    if dt > MAX_FRAME_NANOS {
        MAX_FRAME_NANOS as int
    } else {
        dt
    }
}

/// What is left of accumulator `a` after draining update steps of size `s`
/// while `a` remains strictly greater than `s`.
pub open spec fn drained(a: int, s: int) -> int
    recommends
        0 < s,
    decreases a,
{
    if 0 < s && s < a {
        drained(a - s, s)
    } else {
        a
    }
}

/// How many update steps of size `s` one tick drains from accumulator `a`:
/// one for each time `a`, decremented by `s` repeatedly, remains strictly
/// greater than `s`.  At `a == s` exactly, no step fires.
pub open spec fn update_count(a: int, s: int) -> nat
    recommends
        0 < s,
    decreases a,
{
    if 0 < s && s < a {
        1 + update_count(a - s, s)
    } else {
        0
    }
}

/// The derived fixed step is the integer nearest to `1_000_000_000 / fps`:
/// `fps * timestep_nanos(fps)` differs from one billion by at most half of
/// `fps`, and only a tie is rounded up.
pub proof fn lemma_timestep_round(fps: int)
    requires
        1 <= fps,
    ensures
        2 * (fps * timestep_nanos(fps) - 1_000_000_000) <= fps,
        2 * (1_000_000_000 - fps * timestep_nanos(fps)) < fps,
{
    let q: int = 1_000_000_000;
    let h = fps / 2;
    let t = timestep_nanos(fps);
    lemma_fundamental_div_mod(q + h, fps);
    lemma_fundamental_div_mod(fps, 2);
    let r = (q + h) % fps;
    assert(fps * t - q == h - r);
    assert(q - fps * t == r - h);
    assert(2 * h <= fps);
    assert(2 * (r - h) < fps);
}

/// For every positive rate up to two billion steps per second the derived
/// fixed step is strictly positive and at most one second.
pub proof fn lemma_timestep_bounds(fps: int)
    requires
        1 <= fps <= 2_000_000_000,
    ensures
        1 <= timestep_nanos(fps) <= 1_000_000_000,
{
    let q: int = 1_000_000_000;
    let h = fps / 2;
    let t = timestep_nanos(fps);
    lemma_fundamental_div_mod(q + h, fps);
    lemma_fundamental_div_mod(fps, 2);
    let r = (q + h) % fps;
    if t < 1 {
        assert(fps * t <= 0) by (nonlinear_arith)
            requires
                fps >= 1,
                t <= 0,
        ;
        assert(false);
    }
    if t > q {
        assert(fps * t >= fps * (q + 1)) by (nonlinear_arith)
            requires
                t >= q + 1,
                fps >= 1,
        ;
        assert(fps * (q + 1) == fps * q + fps) by (nonlinear_arith);
        assert(fps * q >= q) by (nonlinear_arith)
            requires
                fps >= 1,
                q > 0,
        ;
        assert(false);
    }
}

/// Draining leaves `a - s * update_count(a, s)` in the accumulator, a value
/// between zero and one whole step: one tick never holds back more than one
/// step of unconsumed time, and never consumes time it was not given.
pub proof fn lemma_drained_update_count(a: int, s: int)
    requires
        0 < s,
        0 <= a,
    ensures
        0 <= drained(a, s) <= s,
        drained(a, s) == a - s * update_count(a, s),
    decreases a,
{
    if s < a {
        lemma_drained_update_count(a - s, s);
        assert(s * (1 + update_count(a - s, s)) == s + s * update_count(a - s, s))
            by (nonlinear_arith);
    } else {
        assert(s * update_count(a, s) == 0) by (nonlinear_arith)
            requires
                update_count(a, s) == 0,
        ;
    }
}

/// Clamps a measured elapsed time to [`MAX_FRAME_NANOS`].  Whatever the
/// real elapsed time was, the value fed into accumulation never exceeds
/// 100 ms.
pub fn clamp_frame_nanos(dt_nanos: u128) -> (clamped: u64)
    ensures
        clamped == clamped_nanos(dt_nanos as int),
        clamped <= MAX_FRAME_NANOS,
{
    if dt_nanos > MAX_FRAME_NANOS as u128 {
        MAX_FRAME_NANOS
    } else {
        dt_nanos as u64
    }
}

/// The number of update steps of size `step` that one tick drains from
/// accumulator `accumulator`.  At `accumulator == step` exactly, the count
/// is zero.
pub fn updates_in_tick(accumulator: u64, step: u64) -> (count: u64)
    requires
        0 < step,
    ensures
        count == update_count(accumulator as int, step as int),
{
    let mut a = accumulator;
    let mut count: u64 = 0;
    while a > step
        invariant
            0 < step,
            a <= accumulator,
            count <= accumulator - a,
            update_count(accumulator as int, step as int) == count + update_count(
                a as int,
                step as int,
            ),
        decreases a,
    {
        a = a - step;
        count = count + 1;
    }
    count
}

/// The capability an application offers the loop: advancing the simulation
/// by exactly one fixed step, and drawing one frame given the leftover time
/// since the last step boundary.  Either call may fail with an
/// application-specific error, which aborts the tick.  Neither resizes the
/// surface: the loop hands both calls a well-formed surface of unchanged
/// dimensions.
pub trait Application<S: DrawingSurface>: Sized {
    /// The application-specific error of the two callbacks.
    type Error;

    /// Advances the simulation by exactly one fixed update step.
    fn update(&mut self, surface: &mut S) -> (r: Result<(), Self::Error>)
        requires
            old(surface).inv(),
        ensures
            final(surface).inv(),
            final(surface).width_spec() == old(surface).width_spec(),
            final(surface).height_spec() == old(surface).height_spec(),
    ;

    /// Draws the current frame; `dt_nanos` is the clamped leftover time
    /// since the last fixed step boundary, for interpolating between the
    /// last two simulation states.
    fn render(&mut self, surface: &mut S, dt_nanos: u64) -> (r: Result<(), Self::Error>)
        requires
            old(surface).inv(),
            dt_nanos <= MAX_FRAME_NANOS,
        ensures
            final(surface).inv(),
            final(surface).width_spec() == old(surface).width_spec(),
            final(surface).height_spec() == old(surface).height_spec(),
    ;
}

/// A fixed-timestep loop: owns the application state and the surface,
/// repeatedly advances simulation time in fixed increments and renders once
/// per tick with the leftover time as an interpolation delta.
pub struct PixelLoop<A, S> where A: Application<S>, S: DrawingSurface {
    accumulator: u64,
    current_time: std::time::Instant,
    last_time: std::time::Instant,
    update_timestep: u64,
    state: A,
    surface: S,
}

impl<A, S> PixelLoop<A, S> where A: Application<S>, S: DrawingSurface {
    /// Elapsed-but-not-yet-simulated time, in nanoseconds.
    pub closed spec fn accumulator_spec(&self) -> u64 {
        self.accumulator
    }

    /// The fixed update step, in nanoseconds; immutable after construction.
    pub closed spec fn timestep_spec(&self) -> u64 {
        self.update_timestep
    }

    /// The owned application state.
    pub closed spec fn state_spec(&self) -> A {
        self.state
    }

    /// The owned surface.
    pub closed spec fn surface_spec(&self) -> S {
        self.surface
    }

    /// The loop invariant: the step is strictly positive and at most one
    /// second, the accumulator never holds more than one step plus one
    /// clamped frame of unconsumed time, and the surface is well formed.
    pub closed spec fn inv(&self) -> bool {
        &&& 0 < self.update_timestep <= 1_000_000_000
        &&& self.accumulator <= self.update_timestep + MAX_FRAME_NANOS
        &&& self.surface.inv()
    }

    /// Creates a loop that drains `update_fps` fixed steps per simulated
    /// second.  The rate must be strictly positive, and small enough that
    /// the derived step does not round to zero.
    pub fn new(update_fps: usize, state: A, surface: S) -> (pixel_loop: PixelLoop<A, S>)
        requires
            0 < update_fps <= 2_000_000_000,
            surface.inv(),
        ensures
            pixel_loop.inv(),
            pixel_loop.timestep_spec() == timestep_nanos(update_fps as int),
            pixel_loop.accumulator_spec() == 0,
            pixel_loop.state_spec() == state,
            pixel_loop.surface_spec() == surface,
    {
        proof {
            lemma_timestep_bounds(update_fps as int);
        }
        let fps = update_fps as u64;
        let step: u64 = (1_000_000_000u64 + fps / 2) / fps;
        PixelLoop {
            accumulator: 0,
            current_time: instant_now(),
            last_time: instant_now(),
            update_timestep: step,
            state,
            surface,
        }
    }

    /// The fixed update step, in nanoseconds.
    pub fn update_timestep_nanos(&self) -> (step: u64)
        ensures
            step == self.timestep_spec(),
    {
        self.update_timestep
    }

    /// The accumulated, not yet simulated time, in nanoseconds.
    pub fn accumulator_nanos(&self) -> (accumulator: u64)
        ensures
            accumulator == self.accumulator_spec(),
    {
        self.accumulator
    }

    /// The owned application state.
    pub fn state_ref(&self) -> (state: &A)
        ensures
            *state == self.state_spec(),
    {
        &self.state
    }

    /// Mutable access to the application state, for forwarding host events.
    pub fn state_mut(&mut self) -> (state: &mut A)
        ensures
            *state == old(self).state_spec(),
            final(self).state_spec() == *final(state),
            final(self).surface_spec() == old(self).surface_spec(),
            final(self).accumulator_spec() == old(self).accumulator_spec(),
            final(self).timestep_spec() == old(self).timestep_spec(),
            old(self).inv() ==> final(self).inv(),
    {
        &mut self.state
    }

    /// The owned surface.
    pub fn surface_ref(&self) -> (surface: &S)
        ensures
            *surface == self.surface_spec(),
    {
        &self.surface
    }

    /// Mutable access to the state and the surface at once, for an event
    /// handler that receives both.
    pub fn parts_mut(&mut self) -> (parts: (&mut A, &mut S))
        ensures
            *parts.0 == old(self).state_spec(),
            *parts.1 == old(self).surface_spec(),
            final(self).state_spec() == *final(parts.0),
            final(self).surface_spec() == *final(parts.1),
            final(self).accumulator_spec() == old(self).accumulator_spec(),
            final(self).timestep_spec() == old(self).timestep_spec(),
            old(self).inv() && final(parts.1).inv() ==> final(self).inv(),
    {
        (&mut self.state, &mut self.surface)
    }

    /// Mutable access to the surface, for forwarding host events.
    pub fn surface_mut(&mut self) -> (surface: &mut S)
        ensures
            *surface == old(self).surface_spec(),
            final(self).surface_spec() == *final(surface),
            final(self).state_spec() == old(self).state_spec(),
            final(self).accumulator_spec() == old(self).accumulator_spec(),
            final(self).timestep_spec() == old(self).timestep_spec(),
            old(self).inv() && final(surface).inv() ==> final(self).inv(),
    {
        &mut self.surface
    }

    /// Runs one tick: measures the elapsed time, clamps it, drains update
    /// steps while the accumulator holds strictly more than one step,
    /// renders exactly once with the clamped delta, and accumulates that
    /// delta.  An error from `update` or `render` abandons the tick at the
    /// point of failure and is propagated unchanged: a failing update
    /// prevents the render, and a failure never consumes the frame delta.
    pub fn next_loop(&mut self) -> (r: Result<(), A::Error>)
        requires
            old(self).inv(),
        ensures
            final(self).inv(),
            final(self).timestep_spec() == old(self).timestep_spec(),
            final(self).surface_spec().inv(),
            final(self).surface_spec().width_spec() == old(self).surface_spec().width_spec(),
            final(self).surface_spec().height_spec() == old(self).surface_spec().height_spec(),
            r is Ok ==> drained(
                old(self).accumulator_spec() as int,
                old(self).timestep_spec() as int,
            ) <= final(self).accumulator_spec() <= drained(
                old(self).accumulator_spec() as int,
                old(self).timestep_spec() as int,
            ) + MAX_FRAME_NANOS,
            r is Err ==> {
                &&& final(self).accumulator_spec() <= old(self).accumulator_spec()
                &&& (old(self).accumulator_spec() - final(self).accumulator_spec())
                    % (old(self).timestep_spec() as int) == 0
                &&& old(self).accumulator_spec() - final(self).accumulator_spec()
                    <= (old(self).timestep_spec() as int) * update_count(
                        old(self).accumulator_spec() as int,
                        old(self).timestep_spec() as int,
                    )
            },
    {
        self.last_time = self.current_time;
        self.current_time = instant_now();
        let raw = nanos_between(&self.last_time, &self.current_time);
        let dt: u64 = clamp_frame_nanos(raw);
        let ghost a0 = self.accumulator;
        let ghost ts = self.update_timestep;
        let ghost w0 = self.surface.width_spec();
        let ghost h0 = self.surface.height_spec();
        let ghost mut k: int = 0;
        while self.accumulator > self.update_timestep
            invariant
                a0 == old(self).accumulator_spec(),
                ts == old(self).timestep_spec(),
                w0 == old(self).surface_spec().width_spec(),
                h0 == old(self).surface_spec().height_spec(),
                self.update_timestep == ts,
                0 < ts <= 1_000_000_000,
                a0 <= ts + MAX_FRAME_NANOS,
                self.surface.inv(),
                self.surface.width_spec() == w0,
                self.surface.height_spec() == h0,
                self.accumulator <= a0,
                0 <= k <= update_count(a0 as int, ts as int),
                self.accumulator == a0 - k * ts,
                update_count(a0 as int, ts as int) == k + update_count(
                    self.accumulator as int,
                    ts as int,
                ),
                drained(self.accumulator as int, ts as int) == drained(a0 as int, ts as int),
            decreases self.accumulator,
        {
            let upd = self.state.update(&mut self.surface);
            match upd {
                Ok(()) => {},
                Err(e) => {
                    proof {
                        vstd::arithmetic::div_mod::lemma_mod_multiples_basic(k, ts as int);
                        assert(k * (ts as int) <= update_count(a0 as int, ts as int) * (
                        ts as int)) by (nonlinear_arith)
                            requires
                                0 <= k <= update_count(a0 as int, ts as int),
                                0 <= ts,
                        ;
                    }
                    return Err(e);
                },
            }
            proof {
                assert((k + 1) * (ts as int) == k * (ts as int) + ts) by (nonlinear_arith);
                k = k + 1;
            }
            self.accumulator = self.accumulator - self.update_timestep;
        }
        proof {
            lemma_drained_update_count(a0 as int, ts as int);
            vstd::arithmetic::div_mod::lemma_mod_multiples_basic(k, ts as int);
            assert(k * (ts as int) <= update_count(a0 as int, ts as int) * (ts as int))
                by (nonlinear_arith)
                requires
                    0 <= k <= update_count(a0 as int, ts as int),
                    0 <= ts,
            ;
        }
        let rend = self.state.render(&mut self.surface, dt);
        match rend {
            Ok(()) => {},
            Err(e) => {
                return Err(e);
            },
        }
        self.accumulator = self.accumulator + dt;
        Ok(())
    }
}

/// An application that only counts how the loop drives it: how many update
/// steps and renders have run, and the last interpolation delta handed to a
/// render.  The counts saturate rather than wrap.
pub struct TickCounter {
    pub updates: u64,
    pub renders: u64,
    pub last_dt_nanos: u64,
}

impl TickCounter {
    /// A counter with nothing recorded yet.
    pub fn new() -> (counter: TickCounter)
        ensures
            counter.updates == 0,
            counter.renders == 0,
            counter.last_dt_nanos == 0,
    {
        TickCounter { updates: 0, renders: 0, last_dt_nanos: 0 }
    }
}

impl<S: DrawingSurface> Application<S> for TickCounter {
    type Error = ();

    fn update(&mut self, surface: &mut S) -> (r: Result<(), ()>)
        ensures
            r is Ok,
            final(self).updates == if old(self).updates < u64::MAX {
                old(self).updates + 1
            } else {
                old(self).updates as int
            },
            final(self).renders == old(self).renders,
            final(self).last_dt_nanos == old(self).last_dt_nanos,
    {
        if self.updates < u64::MAX {
            self.updates = self.updates + 1;
        }
        Ok(())
    }

    fn render(&mut self, surface: &mut S, dt_nanos: u64) -> (r: Result<(), ()>)
        ensures
            r is Ok,
            final(self).renders == if old(self).renders < u64::MAX {
                old(self).renders + 1
            } else {
                old(self).renders as int
            },
            final(self).last_dt_nanos == dt_nanos,
            final(self).updates == old(self).updates,
    {
        if self.renders < u64::MAX {
            self.renders = self.renders + 1;
        }
        self.last_dt_nanos = dt_nanos;
        Ok(())
    }
}

} // verus!
