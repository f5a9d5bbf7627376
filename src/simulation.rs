//! The intersection: one lane per compass direction, advanced together.
use crate::lane::{Lane, LaneView, lane_capacity, spawn_step, ticked_lane};
use crate::light::fresh_light;
use crate::random::random_below;
use crate::vehicle::{Direction, Route};
use vstd::prelude::*;

verus! {

pub struct TrafficSimulation {
    north: Lane,
    south: Lane,
    east: Lane,
    west: Lane,
}

/// The direction of index `i`: north, south, east, or west for any greater index.
pub fn direction_from_index(i: u32) -> (r: Direction)
    ensures
        r == (if i == 0 {
            Direction::North
        } else if i == 1 {
            Direction::South
        } else if i == 2 {
            Direction::East
        } else {
            Direction::West
        }),
{
    match i {
        0 => Direction::North,
        1 => Direction::South,
        2 => Direction::East,
        _ => Direction::West,
    }
}

impl TrafficSimulation {
    /// The state of the lane for direction `d`.
    pub closed spec fn lane_view(&self, d: Direction) -> LaneView {
        match d {
            Direction::North => self.north@,
            Direction::South => self.south@,
            Direction::East => self.east@,
            Direction::West => self.west@,
        }
    }

    pub closed spec fn wf(&self) -> bool {
        &&& self.north.wf() && self.north@.direction == Direction::North
        &&& self.south.wf() && self.south@.direction == Direction::South
        &&& self.east.wf() && self.east@.direction == Direction::East
        &&& self.west.wf() && self.west@.direction == Direction::West
    }

    /// Four empty lanes whose lights turn red at `now`.
    pub fn new(now: u64) -> (r: TrafficSimulation)
        ensures
            r.wf(),
            forall|d: Direction|
                (#[trigger] r.lane_view(d)).vehicles.len() == 0 && r.lane_view(d).direction == d
                    && r.lane_view(d).light == fresh_light(now) && r.lane_view(d).capacity
                    == lane_capacity(d) && r.lane_view(d).last_spawn == Option::<u64>::None,
    {
        TrafficSimulation {
            north: Lane::new(Direction::North, now),
            south: Lane::new(Direction::South, now),
            east: Lane::new(Direction::East, now),
            west: Lane::new(Direction::West, now),
        }
    }

    /// Every lane holds vehicles of its own direction only, within capacity.
    pub proof fn lemma_wf_lanes(&self)
        requires
            self.wf(),
        ensures
            forall|d: Direction|
                crate::lane::lane_ok(#[trigger] self.lane_view(d)) && self.lane_view(d).direction
                    == d,
    {
    }

    /// Advances every lane one tick at time `now`.
    pub fn update(&mut self, now: u64)
        requires
            old(self).wf(),
        ensures
            final(self).wf(),
            forall|d: Direction|
                #[trigger] final(self).lane_view(d) == ticked_lane(old(self).lane_view(d), now),
    {
        self.north.update(now);
        self.south.update(now);
        self.east.update(now);
        self.west.update(now);
    }

    /// Sends a spawn request for a vehicle on `route` to the lane of `direction`;
    /// the other lanes stay as they are.
    pub fn spawn_vehicle_with_route(&mut self, direction: Direction, route: Route, now: u64)
        requires
            old(self).wf(),
        ensures
            final(self).wf(),
            spawn_step(old(self).lane_view(direction), final(self).lane_view(direction), route, now),
            forall|d: Direction|
                d != direction ==> #[trigger] final(self).lane_view(d) == old(self).lane_view(d),
    {
        match direction {
            Direction::North => self.north.spawn_vehicle_with_route(route, now),
            Direction::South => self.south.spawn_vehicle_with_route(route, now),
            Direction::East => self.east.spawn_vehicle_with_route(route, now),
            Direction::West => self.west.spawn_vehicle_with_route(route, now),
        }
    }

    /// Sends a spawn request, with a route drawn at random, to the lane of `direction`.
    pub fn spawn_vehicle(&mut self, direction: Direction, now: u64)
        requires
            old(self).wf(),
        ensures
            final(self).wf(),
            exists|route: Route|
                spawn_step(
                    old(self).lane_view(direction),
                    final(self).lane_view(direction),
                    route,
                    now,
                ),
            forall|d: Direction|
                d != direction ==> #[trigger] final(self).lane_view(d) == old(self).lane_view(d),
    {
        match direction {
            Direction::North => self.north.spawn_vehicle(now),
            Direction::South => self.south.spawn_vehicle(now),
            Direction::East => self.east.spawn_vehicle(now),
            Direction::West => self.west.spawn_vehicle(now),
        }
    }

    /// Sends a spawn request to a lane drawn at random.
    pub fn spawn_random_vehicle(&mut self, now: u64)
        requires
            old(self).wf(),
        ensures
            final(self).wf(),
            exists|direction: Direction, route: Route|
                spawn_step(
                    old(self).lane_view(direction),
                    final(self).lane_view(direction),
                    route,
                    now,
                ) && forall|d: Direction|
                    d != direction ==> #[trigger] final(self).lane_view(d) == old(self).lane_view(
                        d,
                    ),
    {
        let direction = direction_from_index(random_below(4));
        self.spawn_vehicle(direction, now);
    }

    /// The lane of direction `d`.
    pub fn lane(&self, d: Direction) -> (r: &Lane)
        ensures
            r@ == self.lane_view(d),
            self.wf() ==> r.wf(),
    {
        match d {
            Direction::North => &self.north,
            Direction::South => &self.south,
            Direction::East => &self.east,
            Direction::West => &self.west,
        }
    }
}

} // verus!
