//! The ramp controller: follows the running profile's curve in time and
//! turns the measured temperature into a heater command.
use vstd::prelude::*;
use vstd::arithmetic::div_mod::{lemma_div_is_ordered, lemma_div_by_multiple};
use crate::profile::{CurvePoint, Profile, Profiles, POINT_COUNT, SLOT_COUNT};

verus! {

/// Time-source ticks in one second: the tick interrupt fires at 2 Hz.
pub const TICKS_PER_SECOND: u64 = 2;

/// Whether a run is in progress, and where in its profile it stands.
#[derive(Clone, Copy, Debug, PartialEq, Eq, Structural)]
pub enum RampState {
    Idle,
    Running { profile_idx: u8, start_tick: u64, point: usize },
}

/// What one evaluation asks of the relays, and whether the run just ended
/// by reaching its last point.
#[derive(Clone, Copy, Debug, PartialEq, Eq, Structural)]
pub struct RampCommand {
    pub heater_on: bool,
    pub fan_on: bool,
    pub target: u16,
    pub completed: bool,
}

/// The run session: state plus the elapsed and remaining seconds shown to the operator.
#[derive(Clone, Copy, Debug, PartialEq, Eq, Structural)]
pub struct RampController {
    pub state: RampState,
    pub elapsed: u64,
    pub remaining: u64,
}

/// Index of the first enabled point at or after `from`, or `POINT_COUNT` if none.
pub open spec fn first_enabled(pts: Seq<CurvePoint>, from: int) -> int
    decreases POINT_COUNT - from,
{
    if from < 0 || from >= POINT_COUNT {
        POINT_COUNT as int
    } else if !pts[from].disabled {
        from
    } else {
        first_enabled(pts, from + 1)
    }
}

/// Start index of the segment that bounds `e` seconds, searching from `s`;
/// `POINT_COUNT` once no enabled point lies ahead.
pub open spec fn locate(pts: Seq<CurvePoint>, s: int, e: nat) -> int
    decreases POINT_COUNT - s,
{
    let a = first_enabled(pts, s);
    if a >= POINT_COUNT || a < s {
        POINT_COUNT as int
    } else {
        let b = first_enabled(pts, a + 1);
        if b >= POINT_COUNT || b <= a {
            POINT_COUNT as int
        } else if e >= pts[b].time_seconds {
            locate(pts, b, e)
        } else {
            a
        }
    }
}

/// The target temperature at `e` seconds between points `a` and `b`:
/// linear between them, held at `a` before it and at `b` from `b` on or
/// where the two share a time.
pub open spec fn interpolate_spec(a: CurvePoint, b: CurvePoint, e: nat) -> nat {
    if b.time_seconds <= a.time_seconds || e >= b.time_seconds {
        b.temp as nat
    } else if e <= a.time_seconds {
        a.temp as nat
    } else if b.temp >= a.temp {
        (a.temp + ((e - a.time_seconds) as nat * (b.temp - a.temp) as nat / (b.time_seconds
            - a.time_seconds) as nat)) as nat
    } else {
        (a.temp - ((e - a.time_seconds) as nat * (a.temp - b.temp) as nat / (b.time_seconds
            - a.time_seconds) as nat)) as nat
    }
}

/// Time offset of the last enabled point among the first `n`; zero if none.
pub open spec fn last_enabled_time(pts: Seq<CurvePoint>, n: int) -> nat
    decreases n,
{
    if n <= 0 {
        0
    } else if !pts[n - 1].disabled {
        pts[n - 1].time_seconds as nat
    } else {
        last_enabled_time(pts, n - 1)
    }
}

/// Whole seconds between two ticks; zero if `now` precedes `start`.
pub open spec fn elapsed_spec(start: u64, now: u64) -> nat {
    if now >= start {
        ((now - start) as nat / TICKS_PER_SECOND as nat)
    } else {
        0
    }
}

pub open spec fn idle_controller() -> RampController {
    RampController { state: RampState::Idle, elapsed: 0, remaining: 0 }
}

pub open spec fn off_command(completed: bool) -> RampCommand {
    RampCommand { heater_on: false, fan_on: false, target: 0, completed }
}

/// The controller's next state and command after one evaluation at tick
/// `now` with `measured` degrees.
pub open spec fn evaluate_spec(c: RampController, store: Profiles, now: u64, measured: u16) -> (
    RampController,
    RampCommand,
) {
    match c.state {
        RampState::Idle => (c, off_command(false)),
        RampState::Running { profile_idx, start_tick, point } => {
            if profile_idx >= SLOT_COUNT || store.profiles[profile_idx as int] is None {
                (idle_controller(), off_command(false))
            } else {
                let pts = store.profiles[profile_idx as int]->Some_0.points@;
                let e = elapsed_spec(start_tick, now);
                let s = locate(pts, point as int, e);
                if s >= POINT_COUNT {
                    (idle_controller(), off_command(true))
                } else {
                    let b = first_enabled(pts, s + 1);
                    let target = interpolate_spec(pts[s], pts[b], e);
                    let last = last_enabled_time(pts, POINT_COUNT as int);
                    (
                        RampController {
                            state: RampState::Running { profile_idx, start_tick, point: s as usize },
                            elapsed: e as u64,
                            remaining: if last > e { (last - e) as u64 } else { 0 },
                        },
                        RampCommand {
                            heater_on: (measured as nat) < target,
                            fan_on: true,
                            target: target as u16,
                            completed: false,
                        },
                    )
                }
            }
        },
    }
}

pub open spec fn start_spec(profile_idx: u8, now: u64) -> RampController {
    RampController {
        state: RampState::Running { profile_idx, start_tick: now, point: 0 },
        elapsed: 0,
        remaining: 0,
    }
}

pub proof fn lemma_first_enabled_bounds(pts: Seq<CurvePoint>, from: int)
    requires
        0 <= from <= POINT_COUNT,
    ensures
        from <= first_enabled(pts, from) <= POINT_COUNT,
        first_enabled(pts, from) < POINT_COUNT ==> !pts[first_enabled(pts, from)].disabled,
        forall|j: int|
            from <= j < first_enabled(pts, from) ==> #[trigger] pts[j].disabled,
    decreases POINT_COUNT - from,
{
    if from < POINT_COUNT && pts[from].disabled {
        lemma_first_enabled_bounds(pts, from + 1);
    }
}

pub proof fn lemma_locate_segment(pts: Seq<CurvePoint>, s: int, e: nat)
    requires
        0 <= s,
    ensures
        locate(pts, s, e) >= POINT_COUNT ==> locate(pts, s, e) == POINT_COUNT,
        locate(pts, s, e) < POINT_COUNT ==> {
            let a = locate(pts, s, e);
            let b = first_enabled(pts, a + 1);
            &&& s <= a
            &&& !pts[a].disabled
            &&& a < b < POINT_COUNT
            &&& !pts[b].disabled
            &&& e < pts[b].time_seconds
        },
    decreases POINT_COUNT - s,
{
    if s > POINT_COUNT {
        return;
    }
    lemma_first_enabled_bounds(pts, s);
    let a = first_enabled(pts, s);
    if a < POINT_COUNT {
        lemma_first_enabled_bounds(pts, a + 1);
        let b = first_enabled(pts, a + 1);
        if b < POINT_COUNT && e >= pts[b].time_seconds {
            lemma_locate_segment(pts, b, e);
        }
    }
}

proof fn lemma_scaled_share(x: nat, y: nat, z: nat)
    requires
        x < z,
    ensures
        x * y / z <= y,
{
    assert(x * y <= y * z) by (nonlinear_arith)
        requires
            x < z,
    ;
    lemma_div_is_ordered((x * y) as int, (y * z) as int, z as int);
    lemma_div_by_multiple(y as int, z as int);
}

/// The target temperature at `e` seconds between points `a` and `b`.
pub fn interpolate(a: CurvePoint, b: CurvePoint, e: u64) -> (r: u16)
    ensures
        r as nat == interpolate_spec(a, b, e as nat),
{
    if b.time_seconds <= a.time_seconds || e >= b.time_seconds as u64 {
        b.temp
    } else if e <= a.time_seconds as u64 {
        a.temp
    } else {
        let x: u64 = e - a.time_seconds as u64;
        let z: u64 = (b.time_seconds - a.time_seconds) as u64;
        if b.temp >= a.temp {
            let y: u64 = (b.temp - a.temp) as u64;
            proof {
                lemma_scaled_share(x as nat, y as nat, z as nat);
                assert(x * y <= 0xffff * 0xffff) by (nonlinear_arith)
                    requires
                        x <= 0xffff,
                        y <= 0xffff,
                ;
            }
            let q: u64 = x * y / z;
            a.temp + q as u16
        } else {
            let y: u64 = (a.temp - b.temp) as u64;
            proof {
                lemma_scaled_share(x as nat, y as nat, z as nat);
                assert(x * y <= 0xffff * 0xffff) by (nonlinear_arith)
                    requires
                        x <= 0xffff,
                        y <= 0xffff,
                ;
            }
            let q: u64 = x * y / z;
            a.temp - q as u16
        }
    }
}

/// Index of the first enabled point at or after `from`, or `POINT_COUNT` if none.
pub fn find_enabled(pts: &[CurvePoint; 6], from: usize) -> (r: usize)
    ensures
        r as int == first_enabled(pts@, from as int),
{
    let mut i = from;
    while i < POINT_COUNT && pts[i].disabled
        invariant
            from <= i,
            first_enabled(pts@, i as int) == first_enabled(pts@, from as int),
        decreases POINT_COUNT - i,
    {
        i = i + 1;
    }
    if i >= POINT_COUNT {
        POINT_COUNT
    } else {
        i
    }
}

/// Start index of the segment that bounds `e` seconds, searching from `s`.
pub fn find_segment(pts: &[CurvePoint; 6], s: usize, e: u64) -> (r: usize)
    ensures
        r as int == locate(pts@, s as int, e as nat),
{
    let mut cur = s;
    while cur < POINT_COUNT
        invariant
            s <= cur,
            locate(pts@, cur as int, e as nat) == locate(pts@, s as int, e as nat),
        decreases POINT_COUNT - cur,
    {
        proof {
            lemma_first_enabled_bounds(pts@, cur as int);
        }
        let a = find_enabled(pts, cur);
        if a >= POINT_COUNT {
            return POINT_COUNT;
        }
        proof {
            lemma_first_enabled_bounds(pts@, a + 1);
        }
        let b = find_enabled(pts, a + 1);
        if b >= POINT_COUNT {
            return POINT_COUNT;
        }
        if e >= pts[b].time_seconds as u64 {
            cur = b;
        } else {
            return a;
        }
    }
    POINT_COUNT
}

/// Time offset of the last enabled point; zero if every point is disabled.
pub fn last_enabled(pts: &[CurvePoint; 6]) -> (r: u16)
    ensures
        r as nat == last_enabled_time(pts@, POINT_COUNT as int),
{
    let mut n: usize = POINT_COUNT;
    while n > 0 && pts[n - 1].disabled
        invariant
            n <= POINT_COUNT,
            last_enabled_time(pts@, n as int) == last_enabled_time(pts@, POINT_COUNT as int),
        decreases n,
    {
        n = n - 1;
    }
    if n == 0 {
        0
    } else {
        pts[n - 1].time_seconds
    }
}

/// Whole seconds between two ticks; zero if `now` precedes `start`.
pub fn elapsed_seconds(start: u64, now: u64) -> (r: u64)
    ensures
        r as nat == elapsed_spec(start, now),
{
    if now >= start {
        (now - start) / TICKS_PER_SECOND
    } else {
        0
    }
}

impl RampController {
    /// A controller with no run in progress.
    pub fn new() -> (r: RampController)
        ensures
            r == idle_controller(),
    {
        RampController { state: RampState::Idle, elapsed: 0, remaining: 0 }
    }

    /// Begins a run of slot `profile_idx` at tick `now`.
    pub fn start(&mut self, profile_idx: u8, now: u64)
        ensures
            *final(self) == start_spec(profile_idx, now),
    {
        self.state = RampState::Running { profile_idx, start_tick: now, point: 0 };
        self.elapsed = 0;
        self.remaining = 0;
    }

    /// Ends the run, wherever it stood; the heater is left to the caller.
    pub fn stop(&mut self)
        ensures
            *final(self) == idle_controller(),
    {
        self.state = RampState::Idle;
        self.elapsed = 0;
        self.remaining = 0;
    }

    /// One evaluation at tick `now` with `measured` degrees.
    pub fn evaluate(&mut self, store: &Profiles, now: u64, measured: u16) -> (r: RampCommand)
        ensures
            (*final(self), r) == evaluate_spec(*old(self), *store, now, measured),
    {
        match self.state {
            RampState::Idle => RampCommand { heater_on: false, fan_on: false, target: 0, completed: false },
            RampState::Running { profile_idx, start_tick, point } => {
                let prof: Option<Profile> = store.get(profile_idx);
                match prof {
                    None => {
                        self.stop();
                        RampCommand { heater_on: false, fan_on: false, target: 0, completed: false }
                    },
                    Some(p) => {
                        let e = elapsed_seconds(start_tick, now);
                        let s = find_segment(&p.points, point, e);
                        if s >= POINT_COUNT {
                            self.stop();
                            return RampCommand {
                                heater_on: false,
                                fan_on: false,
                                target: 0,
                                completed: true,
                            };
                        }
                        proof {
                            lemma_locate_segment(p.points@, point as int, e as nat);
                        }
                        let b = find_enabled(&p.points, s + 1);
                        let target = interpolate(p.points[s], p.points[b], e);
                        let last = last_enabled(&p.points) as u64;
                        self.state = RampState::Running { profile_idx, start_tick, point: s };
                        self.elapsed = e;
                        self.remaining = if last > e { last - e } else { 0 };
                        RampCommand { heater_on: measured < target, fan_on: true, target, completed: false }
                    },
                }
            },
        }
    }
}

/// A run of a profile with a single enabled point stops at its first
/// evaluation: no enabled point lies ahead of it.
pub proof fn lemma_single_point_run_ends(
    store: Profiles,
    profile_idx: u8,
    k: int,
    start: u64,
    now: u64,
    measured: u16,
)
    requires
        (profile_idx as int) < SLOT_COUNT,
        store.profiles[profile_idx as int] is Some,
        0 <= k < POINT_COUNT,
        !store.profiles[profile_idx as int]->Some_0.points[k].disabled,
        store.profiles[profile_idx as int]->Some_0.points[k].time_seconds == 0,
        forall|j: int|
            0 <= j < POINT_COUNT && j != k
                ==> #[trigger] store.profiles[profile_idx as int]->Some_0.points[j].disabled,
    ensures
        evaluate_spec(start_spec(profile_idx, start), store, now, measured).0.state is Idle,
        evaluate_spec(start_spec(profile_idx, start), store, now, measured).0.remaining == 0,
        evaluate_spec(start_spec(profile_idx, start), store, now, measured).1.completed,
{
    let pts = store.profiles[profile_idx as int]->Some_0.points@;
    let e = elapsed_spec(start, now);
    lemma_locate_segment(pts, 0, e);
    let s = locate(pts, 0, e);
    if s < POINT_COUNT {
        let b = first_enabled(pts, s + 1);
        let p = store.profiles[profile_idx as int]->Some_0;
        assert(p.points[s].disabled || p.points[b].disabled);
    }
}

} // verus!
