//! One lane of the intersection: a queue of vehicles in spawn order, its
//! capacity, its spawn cooldown and its traffic light.
use crate::light::{LightState, TrafficLight, fresh_light, light_next};
use crate::random::random_below;
use crate::vehicle::{
    Direction, Route, Vehicle, at_entrance, at_intersection_entrance, distance_squared,
    dist_sq, get_route_color, lateral, move_vehicle, new_vehicle, on_playfield, progress, route_color,
    spawn_point, stepped, too_close, vehicle_off_screen, FOLLOW_DISTANCE, ROAD_WIDTH, SAFETY_GAP,
    CENTER_X, CENTER_Y, LANE_OFFSET, SPAWN_INSET, VEHICLE_SIZE, WINDOW_HEIGHT, WINDOW_WIDTH,
};
use vstd::prelude::*;

verus! {

/// Minimum time between two spawns into one lane, in milliseconds.
pub const SPAWN_COOLDOWN_MS: u64 = 500;

pub struct Lane {
    vehicles: Vec<Vehicle>,
    direction: Direction,
    traffic_light: TrafficLight,
    capacity: usize,
    last_spawn: Option<u64>,
}

/// The abstract state of a lane. `vehicles` runs from the front of the queue
/// (next to leave) to the back (last spawned).
pub ghost struct LaneView {
    pub vehicles: Seq<Vehicle>,
    pub direction: Direction,
    pub light: TrafficLight,
    pub capacity: nat,
    pub last_spawn: Option<u64>,
}

impl View for Lane {
    type V = LaneView;

    closed spec fn view(&self) -> LaneView {
        LaneView {
            vehicles: self.vehicles@,
            direction: self.direction,
            light: self.traffic_light,
            capacity: self.capacity as nat,
            last_spawn: self.last_spawn,
        }
    }
}

/// Distance from the edge of the window to the near side of the intersection,
/// along the axis of heading `d`.
pub open spec fn half_axis_length(d: Direction) -> int {
    match d {
        Direction::North | Direction::South => (WINDOW_HEIGHT - ROAD_WIDTH) / 2,
        Direction::East | Direction::West => (WINDOW_WIDTH - ROAD_WIDTH) / 2,
    }
}

/// How many vehicles fit, spaced out, between the edge and the intersection; at least one.
pub open spec fn lane_capacity(d: Direction) -> nat {
    let n = half_axis_length(d) / (VEHICLE_SIZE + SAFETY_GAP) as int;
    if n < 1 {
        1
    } else {
        n as nat
    }
}

/// The coordinate across heading `d` of the lane that vehicles heading `d` drive in.
pub open spec fn lane_line(d: Direction) -> int {
    match d {
        Direction::North | Direction::South => spawn_point(d).0,
        Direction::East | Direction::West => spawn_point(d).1,
    }
}

/// What holds of every vehicle queued in the lane heading `d`: a vehicle going
/// straight on has not turned; one that has not turned still heads `d`, in
/// the lane's line; its colour is its route's.
pub open spec fn lane_member(v: Vehicle, d: Direction) -> bool {
    &&& v.route == Route::Straight ==> !v.has_turned
    &&& !v.has_turned ==> v.direction == d && lateral(v, d) == lane_line(d)
    &&& v.color == route_color(v.route)
}

pub open spec fn lane_ok(l: LaneView) -> bool {
    &&& l.capacity == lane_capacity(l.direction)
    &&& l.light.wf()
    &&& l.vehicles.len() <= l.capacity
    &&& forall|i: int|
        0 <= i < l.vehicles.len() ==> on_playfield(#[trigger] l.vehicles[i]) && lane_member(
            l.vehicles[i],
            l.direction,
        )
}

/// The spawn cooldown is over: no spawn yet, or the last one lies at least the
/// cooldown back.
pub open spec fn cooldown_over(last_spawn: Option<u64>, now: u64) -> bool {
    match last_spawn {
        Option::None => true,
        Option::Some(t) => now >= t && now - t >= SPAWN_COOLDOWN_MS,
    }
}

pub open spec fn can_spawn_at(l: LaneView, now: u64) -> bool {
    cooldown_over(l.last_spawn, now) && l.vehicles.len() < l.capacity
}

/// The lane after a spawn of a vehicle on `route` at time `now`.
pub open spec fn spawned(l: LaneView, route: Route, now: u64) -> LaneView {
    LaneView {
        vehicles: l.vehicles.push(new_vehicle(l.direction, route)),
        last_spawn: Some(now),
        ..l
    }
}

/// `post` is what a spawn request for `route` at `now` makes of `pre`: the
/// vehicle is appended where spawning is allowed, and nothing changes otherwise.
pub open spec fn spawn_step(pre: LaneView, post: LaneView, route: Route, now: u64) -> bool {
    post == if can_spawn_at(pre, now) {
        spawned(pre, route, now)
    } else {
        pre
    }
}

/// Whether vehicle `v`, with `ahead` directly in front of it in the queue (if
/// any), may move this tick under a light in state `st`.
pub open spec fn free_to_move(v: Vehicle, ahead: Option<Vehicle>, st: LightState) -> bool {
    &&& match ahead {
        Option::None => true,
        Option::Some(a) => !too_close(v, a),
    }
    &&& !(at_entrance(v) && st == LightState::Red)
}

/// The decision for the vehicle at index `i`, taken on the queue before anyone moves.
pub open spec fn may_move(vs: Seq<Vehicle>, i: int, st: LightState) -> bool {
    free_to_move(
        vs[i],
        if i == 0 {
            Option::None
        } else {
            Option::Some(vs[i - 1])
        },
        st,
    )
}

/// Every vehicle that may move takes one step; the others stay where they are.
pub open spec fn advance_all(vs: Seq<Vehicle>, st: LightState) -> Seq<Vehicle> {
    Seq::new(
        vs.len(),
        |i: int|
            if may_move(vs, i, st) {
                stepped(vs[i])
            } else {
                vs[i]
            },
    )
}

/// The vehicles that are still on the playfield, in their order.
pub open spec fn retained(vs: Seq<Vehicle>) -> Seq<Vehicle> {
    vs.filter(|v: Vehicle| on_playfield(v))
}

/// The lane after one tick at time `now`.
pub open spec fn ticked_lane(l: LaneView, now: u64) -> LaneView {
    let light = light_next(l.light, now, l.vehicles.len(), l.capacity);
    LaneView { vehicles: retained(advance_all(l.vehicles, light.state)), light, ..l }
}

proof fn lemma_step_keeps_member(v: Vehicle, d: Direction)
    requires
        on_playfield(v),
        lane_member(v, d),
    ensures
        lane_member(stepped(v), d),
{
}

impl Lane {
    pub open spec fn wf(&self) -> bool {
        lane_ok(self@)
    }

    /// An empty lane for heading `d`, whose light turns red at `now`.
    pub fn new(direction: Direction, now: u64) -> (r: Lane)
        ensures
            r.wf(),
            r@.vehicles.len() == 0,
            r@.direction == direction,
            r@.light == fresh_light(now),
            r@.capacity == lane_capacity(direction),
            r@.last_spawn == Option::<u64>::None,
    {
        let lane_length: i32 = match direction {
            Direction::North | Direction::South => (WINDOW_HEIGHT - ROAD_WIDTH) / 2,
            Direction::East | Direction::West => (WINDOW_WIDTH - ROAD_WIDTH) / 2,
        };
        let per_vehicle: i32 = VEHICLE_SIZE + SAFETY_GAP;
        let fit: i32 = lane_length / per_vehicle;
        let capacity: usize = if fit < 1 {
            1
        } else {
            fit as usize
        };
        Lane {
            vehicles: Vec::new(),
            direction,
            traffic_light: TrafficLight::new(now),
            capacity,
            last_spawn: None,
        }
    }

    /// Advances the lane one tick at time `now`. The light is updated first;
    /// then every vehicle's right to move is decided on the queue as it stood
    /// before anyone moved; the vehicles that may move take a step (and turn
    /// where due); those that have left the playfield are dropped, and the
    /// others keep their order.
    pub fn update(&mut self, now: u64)
        requires
            old(self).wf(),
        ensures
            final(self).wf(),
            final(self)@ == ticked_lane(old(self)@, now),
    {
        self.traffic_light.update(now, self.vehicles.len(), self.capacity);
        let red = self.traffic_light.state == LightState::Red;
        let ghost st = self.traffic_light.state;
        let ghost vs = self.vehicles@;
        let n = self.vehicles.len();
        let mut movements: Vec<bool> = Vec::new();
        let mut i: usize = 0;
        while i < n
            invariant
                n == vs.len(),
                self.vehicles@ == vs,
                red == (st == LightState::Red),
                movements@.len() == i,
                i <= n,
                lane_ok(self@),
                forall|k: int| 0 <= k < i ==> movements@[k] == may_move(vs, k, st),
            decreases n - i,
        {
            let vehicle = &self.vehicles[i];
            let mut can_move = true;
            if i > 0 {
                let d = distance_squared(vehicle, &self.vehicles[i - 1]);
                if d < (FOLLOW_DISTANCE * FOLLOW_DISTANCE) as u128 {
                    can_move = false;
                }
            }
            if red && at_intersection_entrance(vehicle) {
                can_move = false;
            }
            movements.push(can_move);
            i = i + 1;
        }
        let ghost moved = advance_all(vs, st);
        let mut kept: Vec<Vehicle> = Vec::new();
        i = 0;
        while i < n
            invariant
                n == vs.len(),
                self.vehicles@ == vs,
                movements@.len() == n,
                forall|k: int| 0 <= k < n ==> movements@[k] == may_move(vs, k, st),
                moved == advance_all(vs, st),
                moved.len() == n,
                lane_ok(self@),
                i <= n,
                kept@ == retained(moved.take(i as int)),
                kept@.len() <= i,
                forall|k: int|
                    0 <= k < kept@.len() ==> on_playfield(#[trigger] kept@[k]) && lane_member(
                        kept@[k],
                        self.direction,
                    ),
            decreases n - i,
        {
            let mut vehicle = self.vehicles[i];
            proof {
                lemma_step_keeps_member(vehicle, self.direction);
            }
            if movements[i] {
                move_vehicle(&mut vehicle);
            }
            assert(vehicle == moved[i as int]);
            assert(moved.take(i + 1).drop_last() =~= moved.take(i as int));
            let ghost s = moved.take(i + 1);
            assert(s.last() == vehicle);
            reveal(Seq::filter);
            assert(retained(s) == if on_playfield(vehicle) {
                retained(moved.take(i as int)).push(vehicle)
            } else {
                retained(moved.take(i as int))
            });
            if !vehicle_off_screen(&vehicle) {
                kept.push(vehicle);
            }
            i = i + 1;
        }
        assert(moved.take(n as int) =~= moved);
        self.vehicles = kept;
    }

    /// Whether a spawn at time `now` is allowed: the cooldown is over and the
    /// queue is below capacity.
    pub fn can_spawn(&self, now: u64) -> (r: bool)
        ensures
            r == can_spawn_at(self@, now),
    {
        let cooled = match self.last_spawn {
            None => true,
            Some(t) => now >= t && now - t >= SPAWN_COOLDOWN_MS,
        };
        cooled && self.vehicles.len() < self.capacity
    }

    /// The point where this lane's vehicles appear.
    pub fn get_spawn_position(&self) -> (r: (i32, i32))
        ensures
            r.0 == spawn_point(self@.direction).0,
            r.1 == spawn_point(self@.direction).1,
    {
        match self.direction {
            Direction::North => (CENTER_X + LANE_OFFSET, WINDOW_HEIGHT - SPAWN_INSET),
            Direction::South => (CENTER_X - LANE_OFFSET, SPAWN_INSET),
            Direction::East => (SPAWN_INSET, CENTER_Y + LANE_OFFSET),
            Direction::West => (WINDOW_WIDTH - SPAWN_INSET, CENTER_Y - LANE_OFFSET),
        }
    }

    /// Appends a vehicle on `route` at the spawn point, where a spawn at `now`
    /// is allowed, and restarts the cooldown; does nothing otherwise.
    pub fn spawn_vehicle_with_route(&mut self, route: Route, now: u64)
        requires
            old(self).wf(),
        ensures
            final(self).wf(),
            spawn_step(old(self)@, final(self)@, route, now),
    {
        if !self.can_spawn(now) {
            return ;
        }
        let color = get_route_color(route);
        let (x, y) = self.get_spawn_position();
        let vehicle = Vehicle { x, y, direction: self.direction, route, color, has_turned: false };
        self.vehicles.push(vehicle);
        self.last_spawn = Some(now);
        assert(self@ == spawned(old(self)@, route, now));
    }

    /// A spawn request at time `now` with a route drawn at random.
    pub fn spawn_vehicle(&mut self, now: u64)
        requires
            old(self).wf(),
        ensures
            final(self).wf(),
            exists|route: Route| spawn_step(old(self)@, final(self)@, route, now),
    {
        if !self.can_spawn(now) {
            assert(spawn_step(old(self)@, self@, Route::Straight, now));
            return ;
        }
        let route = route_from_index(random_below(3));
        self.spawn_vehicle_with_route(route, now);
    }

    /// The queue, front first.
    pub fn vehicles(&self) -> (r: &Vec<Vehicle>)
        ensures
            r@ == self@.vehicles,
    {
        &self.vehicles
    }

    pub fn direction(&self) -> (r: Direction)
        ensures
            r == self@.direction,
    {
        self.direction
    }

    pub fn capacity(&self) -> (r: usize)
        ensures
            r == self@.capacity,
    {
        self.capacity
    }

    pub fn traffic_light(&self) -> (r: &TrafficLight)
        ensures
            *r == self@.light,
    {
        &self.traffic_light
    }
}

/// The route of index `i`: straight on, left, or right for any greater index.
pub fn route_from_index(i: u32) -> (r: Route)
    ensures
        r == (if i == 0 {
            Route::Straight
        } else if i == 1 {
            Route::Left
        } else {
            Route::Right
        }),
{
    match i {
        0 => Route::Straight,
        1 => Route::Left,
        _ => Route::Right,
    }
}

/// A lane's queue never grows past its capacity: not on creation, not by a
/// spawn request, not by a tick.
pub proof fn lemma_queue_within_capacity(l: LaneView, route: Route, now: u64, post: LaneView)
    requires
        lane_ok(l),
        spawn_step(l, post, route, now),
    ensures
        l.vehicles.len() <= l.capacity,
        post.vehicles.len() <= post.capacity,
        post.capacity == l.capacity,
        ticked_lane(l, now).vehicles.len() <= ticked_lane(l, now).capacity,
{
    reveal(Seq::filter);
    let st = light_next(l.light, now, l.vehicles.len(), l.capacity).state;
    advance_all(l.vehicles, st).lemma_filter_len(|v: Vehicle| on_playfield(v));
}

/// Two spawn requests to a lane, the first allowed and the second within the
/// cooldown of it, add exactly one vehicle.
pub proof fn lemma_spawn_within_cooldown_adds_one(
    l0: LaneView,
    l1: LaneView,
    l2: LaneView,
    r1: Route,
    r2: Route,
    t1: u64,
    t2: u64,
)
    requires
        spawn_step(l0, l1, r1, t1),
        spawn_step(l1, l2, r2, t2),
        can_spawn_at(l0, t1),
        t1 <= t2 < t1 + SPAWN_COOLDOWN_MS,
    ensures
        l2 == l1,
        l2.vehicles == l0.vehicles.push(new_vehicle(l0.direction, r1)),
{
}

/// After a tick, every vehicle left in the queue is on the playfield; every
/// vehicle that the tick's moves leave on the playfield is still queued; and
/// the survivors keep the order they had.
pub proof fn lemma_tick_retires_off_playfield(l: LaneView, now: u64)
    ensures
        ({
            let st = light_next(l.light, now, l.vehicles.len(), l.capacity).state;
            let moved = advance_all(l.vehicles, st);
            let kept = ticked_lane(l, now).vehicles;
            &&& forall|i: int| 0 <= i < kept.len() ==> on_playfield(#[trigger] kept[i])
            &&& forall|i: int|
                0 <= i < moved.len() && on_playfield(moved[i]) ==> #[trigger] kept.contains(
                    moved[i],
                )
            &&& kept == retained(moved)
        }),
{
    broadcast use vstd::seq_lib::group_filter_ensures;

    let st = light_next(l.light, now, l.vehicles.len(), l.capacity).state;
    let moved = advance_all(l.vehicles, st);
    let kept = ticked_lane(l, now).vehicles;
    assert forall|i: int| 0 <= i < kept.len() implies on_playfield(#[trigger] kept[i]) by {
        moved.lemma_filter_pred(|v: Vehicle| on_playfield(v), i);
    }
    assert forall|i: int| 0 <= i < moved.len() && on_playfield(moved[i]) implies #[trigger] kept.contains(moved[i]) by {
        moved.lemma_filter_contains(|v: Vehicle| on_playfield(v), i);
    }
}

/// Two queued vehicles on one line and heading, the follower at least the
/// safety gap behind the vehicle directly ahead of it: whether or not the
/// front one moves, after a tick under the movement rule in which neither
/// turns, the follower is still at least the safety gap behind.
pub proof fn lemma_follower_keeps_gap(
    front: Vehicle,
    back: Vehicle,
    front_moves: bool,
    st: LightState,
)
    requires
        front.direction == back.direction,
        lateral(front, front.direction) == lateral(back, back.direction),
        progress(front, front.direction) - progress(back, back.direction) >= SAFETY_GAP,
        on_playfield(front),
        on_playfield(back),
    ensures
        ({
            let d = front.direction;
            let nf = if front_moves {
                stepped(front)
            } else {
                front
            };
            let nb = if free_to_move(back, Option::Some(front), st) {
                stepped(back)
            } else {
                back
            };
            nf.direction == d && nb.direction == d ==> progress(nf, d) - progress(nb, d)
                >= SAFETY_GAP
        }),
{
    let d = front.direction;
    let gap = progress(front, d) - progress(back, d);
    match d {
        Direction::North | Direction::South => {
            assert(back.x - front.x == 0);
            assert(back.y - front.y == gap || back.y - front.y == -gap);
        },
        _ => {
            assert(back.y - front.y == 0);
            assert(back.x - front.x == gap || back.x - front.x == -gap);
        },
    }
    assert(dist_sq(back, front) == gap * gap) by (nonlinear_arith)
        requires
            (back.x - front.x == 0 && (back.y - front.y == gap || back.y - front.y == -gap)) || (
            back.y - front.y == 0 && (back.x - front.x == gap || back.x - front.x == -gap)),
    ;
    if free_to_move(back, Option::Some(front), st) {
        assert(gap >= FOLLOW_DISTANCE) by (nonlinear_arith)
            requires
                gap * gap >= FOLLOW_DISTANCE * FOLLOW_DISTANCE,
                gap >= 0,
        ;
    }
}

/// Two neighbours of a sequence that both pass the playfield filter stay
/// neighbours after it, at the index given by what passes before them.
proof fn lemma_retained_neighbours(moved: Seq<Vehicle>, i: int)
    requires
        1 <= i < moved.len(),
        on_playfield(moved[i - 1]),
        on_playfield(moved[i]),
    ensures
        ({
            let k = retained(moved.take(i - 1)).len() as int;
            let kept = retained(moved);
            &&& k + 1 < kept.len()
            &&& kept[k] == moved[i - 1]
            &&& kept[k + 1] == moved[i]
        }),
{
    reveal(Seq::filter);
    let pred = |v: Vehicle| on_playfield(v);
    let front = moved.take(i - 1);
    let head = moved.take(i + 1);
    assert(head.drop_last() =~= moved.take(i));
    assert(moved.take(i).drop_last() =~= front);
    assert(retained(moved.take(i)) == retained(front).push(moved[i - 1]));
    assert(retained(head) == retained(front).push(moved[i - 1]).push(moved[i]));
    assert(moved =~= head + moved.skip(i + 1));
    Seq::filter_distributes_over_add(head, moved.skip(i + 1), pred);
}

/// In a lane, during one tick: a vehicle and the one directly ahead of it,
/// the follower at least the safety gap behind, that both stay on the
/// playfield and have not turned after the tick, are still neighbours in the
/// queue that the tick leaves, and the follower is still at least the safety
/// gap behind.
pub proof fn lemma_tick_keeps_gaps(l: LaneView, now: u64)
    requires
        lane_ok(l),
    ensures
        ({
            let d = l.direction;
            let vs = l.vehicles;
            let st = light_next(l.light, now, vs.len(), l.capacity).state;
            let moved = advance_all(vs, st);
            let kept = ticked_lane(l, now).vehicles;
            forall|i: int|
                1 <= i < vs.len() && progress(vs[i - 1], d) - progress(vs[i], d) >= SAFETY_GAP
                    && !(#[trigger] moved[i - 1]).has_turned && !moved[i].has_turned
                    && on_playfield(moved[i - 1]) && on_playfield(moved[i]) ==> ({
                    let k = retained(moved.take(i - 1)).len() as int;
                    &&& k + 1 < kept.len()
                    &&& kept[k] == moved[i - 1]
                    &&& kept[k + 1] == moved[i]
                    &&& !kept[k].has_turned && !kept[k + 1].has_turned
                    &&& progress(kept[k], d) - progress(kept[k + 1], d) >= SAFETY_GAP
                })
        }),
{
    let d = l.direction;
    let vs = l.vehicles;
    let st = light_next(l.light, now, vs.len(), l.capacity).state;
    let moved = advance_all(vs, st);
    assert forall|i: int|
        1 <= i < vs.len() && progress(vs[i - 1], d) - progress(vs[i], d) >= SAFETY_GAP && !(
        #[trigger] moved[i - 1]).has_turned && !moved[i].has_turned && on_playfield(moved[i - 1])
            && on_playfield(moved[i]) implies ({
        let k = retained(moved.take(i - 1)).len() as int;
        let kept = ticked_lane(l, now).vehicles;
        &&& k + 1 < kept.len()
        &&& kept[k] == moved[i - 1]
        &&& kept[k + 1] == moved[i]
        &&& !kept[k].has_turned && !kept[k + 1].has_turned
        &&& progress(kept[k], d) - progress(kept[k + 1], d) >= SAFETY_GAP
    }) by {
        assert(on_playfield(vs[i - 1]) && lane_member(vs[i - 1], d));
        assert(on_playfield(vs[i]) && lane_member(vs[i], d));
        lemma_follower_keeps_gap(vs[i - 1], vs[i], may_move(vs, i - 1, st), st);
        lemma_retained_neighbours(moved, i);
    }
}

} // verus!
