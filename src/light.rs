//! The congestion-adaptive traffic light of a lane.
use vstd::prelude::*;

verus! {

/// How long the light stays red, in milliseconds.
pub const RED_DURATION_MS: u64 = 6000;
/// Green window granted to a congested lane, in milliseconds.
pub const LONG_GREEN_MS: u64 = 12000;
/// Green window granted to any other lane, in milliseconds.
pub const SHORT_GREEN_MS: u64 = 8000;

#[derive(Clone, Copy, Debug, PartialEq, Eq, Structural)]
pub enum LightState {
    Red,
    Green,
}

/// A two-state light. Times are milliseconds on the simulation's clock.
#[derive(Clone, Copy, Debug, PartialEq, Eq, Structural)]
pub struct TrafficLight {
    pub state: LightState,
    /// When the current phase began.
    pub phase_start: u64,
    pub red_duration: u64,
    /// Length of the green phase, fixed when the light last turned green.
    pub green_duration: u64,
}

/// The queue fills more than seven tenths of the lane's capacity.
pub open spec fn congested(queue_length: nat, capacity: nat) -> bool {
    capacity > 0 && 10 * queue_length > 7 * capacity
}

pub open spec fn green_window(queue_length: nat, capacity: nat) -> u64 {
    if congested(queue_length, capacity) {
        LONG_GREEN_MS
    } else {
        SHORT_GREEN_MS
    }
}

/// Time since `start`; none where the clock reads earlier than `start`.
pub open spec fn elapsed(start: u64, now: u64) -> int {
    if now >= start {
        now - start
    } else {
        0
    }
}

/// The light after an update at time `now`, with the lane's queue length and capacity.
pub open spec fn light_next(l: TrafficLight, now: u64, queue_length: nat, capacity: nat) -> TrafficLight {
    match l.state {
        LightState::Green => if elapsed(l.phase_start, now) >= l.green_duration {
            TrafficLight { state: LightState::Red, phase_start: now, ..l }
        } else {
            l
        },
        LightState::Red => if elapsed(l.phase_start, now) >= l.red_duration {
            TrafficLight {
                state: LightState::Green,
                phase_start: now,
                green_duration: green_window(queue_length, capacity),
                ..l
            }
        } else {
            l
        },
    }
}

/// A light that turns red at `now`.
pub open spec fn fresh_light(now: u64) -> TrafficLight {
    TrafficLight {
        state: LightState::Red,
        phase_start: now,
        red_duration: RED_DURATION_MS,
        green_duration: SHORT_GREEN_MS,
    }
}

impl TrafficLight {
    /// The red phase has its fixed length, and the green window is one of the two tiers.
    pub open spec fn wf(&self) -> bool {
        &&& self.red_duration == RED_DURATION_MS
        &&& (self.green_duration == SHORT_GREEN_MS || self.green_duration == LONG_GREEN_MS)
    }

    /// A light that turns red at `now`.
    pub fn new(now: u64) -> (r: TrafficLight)
        ensures
            r == fresh_light(now),
            r.wf(),
    {
        TrafficLight {
            state: LightState::Red,
            phase_start: now,
            red_duration: RED_DURATION_MS,
            green_duration: SHORT_GREEN_MS,
        }
    }

    /// Advances the light to time `now`. On turning green it fixes the
    /// green window from the lane's congestion at that instant.
    pub fn update(&mut self, now: u64, queue_length: usize, capacity: usize)
        requires
            old(self).wf(),
        ensures
            final(self).wf(),
            *final(self) == light_next(*old(self), now, queue_length as nat, capacity as nat),
    {
        let elapsed: u64 = if now >= self.phase_start {
            now - self.phase_start
        } else {
            0
        };
        match self.state {
            LightState::Green => {
                if elapsed >= self.green_duration {
                    self.state = LightState::Red;
                    self.phase_start = now;
                }
            },
            LightState::Red => {
                if elapsed >= self.red_duration {
                    let congested = capacity > 0 && (queue_length as u128) * 10 > (capacity as u128)
                        * 7;
                    self.state = LightState::Green;
                    self.phase_start = now;
                    self.green_duration = if congested {
                        LONG_GREEN_MS
                    } else {
                        SHORT_GREEN_MS
                    };
                }
            },
        }
    }

    pub fn is_green(&self) -> (r: bool)
        ensures
            r == (self.state == LightState::Green),
    {
        self.state == LightState::Green
    }
}

/// A well-formed red light stays red until the fixed red duration has
/// elapsed, and then turns green; the green phase that follows lasts the long window if the lane was
/// congested at the instant it turned green and the short one otherwise,
/// whatever the lane's congestion during the green phase.
pub proof fn lemma_light_cycle(
    l0: TrafficLight,
    t1: u64,
    q1: nat,
    c1: nat,
    t2: u64,
    q2: nat,
    c2: nat,
)
    requires
        l0.wf(),
        l0.state == LightState::Red,
        t1 >= l0.phase_start,
        t2 >= t1,
    ensures
        t1 - l0.phase_start < RED_DURATION_MS ==> light_next(l0, t1, q1, c1) == l0,
        t1 - l0.phase_start >= RED_DURATION_MS ==> ({
            let l1 = light_next(l0, t1, q1, c1);
            let l2 = light_next(l1, t2, q2, c2);
            &&& l1.state == LightState::Green
            &&& l1.phase_start == t1
            &&& l1.wf()
            &&& l1.green_duration == (if congested(q1, c1) {
                LONG_GREEN_MS
            } else {
                SHORT_GREEN_MS
            })
            &&& (l2.state == LightState::Red <==> t2 - t1 >= l1.green_duration)
        }),
{
}

} // verus!
