//! Vehicles, their headings and routes, and the per-tick motion rules.
use vstd::prelude::*;

verus! {

pub const WINDOW_WIDTH: i32 = 1000;
pub const WINDOW_HEIGHT: i32 = 800;
pub const ROAD_WIDTH: i32 = 60;
pub const LANE_WIDTH: i32 = 30;
pub const VEHICLE_SIZE: i32 = 30;
pub const SAFETY_GAP: i32 = 15;
pub const VEHICLE_SPEED: i32 = 2;
pub const CENTER_X: i32 = 500;
pub const CENTER_Y: i32 = 400;
/// Half the width of a road: the distance from the centre to the stop line.
pub const INTERSECTION_HALF: i32 = 30;
/// Depth of the entrance band, which runs from the stop line towards the centre
/// line on the approach side; a red light holds the vehicles inside it.
pub const ENTRANCE_DEPTH: i32 = 30;
/// Distance from the centre line of a road to the middle of either lane.
pub const LANE_OFFSET: i32 = 15;
/// Distance of a spawn point from the edge of the window.
pub const SPAWN_INSET: i32 = 30;
/// How far past an edge of the window a vehicle may go before it is retired.
pub const OFF_SCREEN_MARGIN: i32 = 50;
/// Centre-to-centre distance under which a follower holds still.
pub const FOLLOW_DISTANCE: i32 = 45;

/// A compass heading, and the identity of a lane.
#[derive(Clone, Copy, Debug, PartialEq, Eq, Structural)]
pub enum Direction {
    North,
    South,
    East,
    West,
}

/// The path a vehicle takes through the intersection.
#[derive(Clone, Copy, Debug, PartialEq, Eq, Structural)]
pub enum Route {
    Straight,
    Left,
    Right,
}

/// A display colour.
#[derive(Clone, Copy, Debug, PartialEq, Eq, Structural)]
pub struct Color {
    pub r: u8,
    pub g: u8,
    pub b: u8,
}

#[derive(Clone, Copy, Debug, PartialEq, Eq, Structural)]
pub struct Vehicle {
    pub x: i32,
    pub y: i32,
    pub direction: Direction,
    pub route: Route,
    pub color: Color,
    pub has_turned: bool,
}

/// The heading after a left turn: a quarter turn counter-clockwise.
pub open spec fn left_of(d: Direction) -> Direction {
    match d {
        Direction::North => Direction::West,
        Direction::West => Direction::South,
        Direction::South => Direction::East,
        Direction::East => Direction::North,
    }
}

/// The heading after a right turn: a quarter turn clockwise.
pub open spec fn right_of(d: Direction) -> Direction {
    match d {
        Direction::North => Direction::East,
        Direction::East => Direction::South,
        Direction::South => Direction::West,
        Direction::West => Direction::North,
    }
}

/// The heading that a vehicle on `route` takes when its turn fires.
pub open spec fn turned_heading(d: Direction, route: Route) -> Direction {
    match route {
        Route::Straight => d,
        Route::Left => left_of(d),
        Route::Right => right_of(d),
    }
}

pub open spec fn route_color(route: Route) -> Color {
    match route {
        Route::Straight => Color { r: 0, g: 255, b: 0 },
        Route::Left => Color { r: 255, g: 255, b: 0 },
        Route::Right => Color { r: 255, g: 165, b: 0 },
    }
}

/// Where a lane's vehicles enter the playfield, on the right-hand side of the road.
pub open spec fn spawn_point(d: Direction) -> (int, int) {
    match d {
        Direction::North => (CENTER_X + LANE_OFFSET, WINDOW_HEIGHT - SPAWN_INSET),
        Direction::South => (CENTER_X - LANE_OFFSET, SPAWN_INSET as int),
        Direction::East => (SPAWN_INSET as int, CENTER_Y + LANE_OFFSET),
        Direction::West => (WINDOW_WIDTH - SPAWN_INSET, CENTER_Y - LANE_OFFSET),
    }
}

/// Where a vehicle is placed when its turn onto heading `d` fires: at the
/// centre, in the lane of the right-hand side of its new road.
pub open spec fn turn_exit_point(d: Direction) -> (int, int) {
    match d {
        Direction::North => (CENTER_X + LANE_OFFSET, CENTER_Y as int),
        Direction::South => (CENTER_X - LANE_OFFSET, CENTER_Y as int),
        Direction::East => (CENTER_X as int, CENTER_Y + LANE_OFFSET),
        Direction::West => (CENTER_X as int, CENTER_Y - LANE_OFFSET),
    }
}

/// A fresh vehicle of the lane heading `d`.
pub open spec fn new_vehicle(d: Direction, route: Route) -> Vehicle {
    Vehicle {
        x: spawn_point(d).0 as i32,
        y: spawn_point(d).1 as i32,
        direction: d,
        route,
        color: route_color(route),
        has_turned: false,
    }
}

/// Position of `v` along heading `d`: it grows as a vehicle heading `d` advances.
pub open spec fn progress(v: Vehicle, d: Direction) -> int {
    match d {
        Direction::North => -v.y,
        Direction::South => v.y as int,
        Direction::East => v.x as int,
        Direction::West => -v.x,
    }
}

/// The coordinate across heading `d`, which advancing along `d` leaves alone.
pub open spec fn lateral(v: Vehicle, d: Direction) -> int {
    match d {
        Direction::North | Direction::South => v.x as int,
        Direction::East | Direction::West => v.y as int,
    }
}

/// The vehicle has reached the centre line across its heading.
pub open spec fn reached_center(v: Vehicle) -> bool {
    match v.direction {
        Direction::North => v.y <= CENTER_Y,
        Direction::South => v.y >= CENTER_Y,
        Direction::East => v.x >= CENTER_X,
        Direction::West => v.x <= CENTER_X,
    }
}

/// The vehicle stands in the entrance band of its heading: between the stop
/// line and the centre line, on the side it approaches from.
pub open spec fn at_entrance(v: Vehicle) -> bool {
    match v.direction {
        Direction::North => CENTER_Y + INTERSECTION_HALF - ENTRANCE_DEPTH <= v.y <= CENTER_Y
            + INTERSECTION_HALF,
        Direction::South => CENTER_Y - INTERSECTION_HALF <= v.y <= CENTER_Y - INTERSECTION_HALF
            + ENTRANCE_DEPTH,
        Direction::East => CENTER_X - INTERSECTION_HALF <= v.x <= CENTER_X - INTERSECTION_HALF
            + ENTRANCE_DEPTH,
        Direction::West => CENTER_X + INTERSECTION_HALF - ENTRANCE_DEPTH <= v.x <= CENTER_X
            + INTERSECTION_HALF,
    }
}

/// The vehicle is within the playfield: no further than the margin past any edge.
pub open spec fn on_playfield(v: Vehicle) -> bool {
    -OFF_SCREEN_MARGIN <= v.x <= WINDOW_WIDTH + OFF_SCREEN_MARGIN && -OFF_SCREEN_MARGIN <= v.y
        <= WINDOW_HEIGHT + OFF_SCREEN_MARGIN
}

/// Both coordinates leave room for one step in any heading.
pub open spec fn can_step(v: Vehicle) -> bool {
    i32::MIN + VEHICLE_SPEED <= v.x <= i32::MAX - VEHICLE_SPEED && i32::MIN + VEHICLE_SPEED <= v.y
        <= i32::MAX - VEHICLE_SPEED
}

pub open spec fn dist_sq(a: Vehicle, b: Vehicle) -> int {
    (a.x - b.x) * (a.x - b.x) + (a.y - b.y) * (a.y - b.y)
}

/// `a` stands closer to `b` than a vehicle length plus the safety gap.
pub open spec fn too_close(a: Vehicle, b: Vehicle) -> bool {
    dist_sq(a, b) < FOLLOW_DISTANCE * FOLLOW_DISTANCE
}

/// One step along the current heading.
pub open spec fn advanced(v: Vehicle) -> Vehicle {
    match v.direction {
        Direction::North => Vehicle { y: (v.y - VEHICLE_SPEED) as i32, ..v },
        Direction::South => Vehicle { y: (v.y + VEHICLE_SPEED) as i32, ..v },
        Direction::East => Vehicle { x: (v.x + VEHICLE_SPEED) as i32, ..v },
        Direction::West => Vehicle { x: (v.x - VEHICLE_SPEED) as i32, ..v },
    }
}

/// The turn fires now: a turning route, not yet turned, at the centre line.
pub open spec fn turn_due(v: Vehicle) -> bool {
    v.route != Route::Straight && !v.has_turned && reached_center(v)
}

/// The turn manoeuvre: where it is due, the heading is rotated, the vehicle is
/// placed in the lane of its new road, and it is marked as turned.
pub open spec fn after_turn_check(v: Vehicle) -> Vehicle {
    if turn_due(v) {
        let d = turned_heading(v.direction, v.route);
        Vehicle {
            x: turn_exit_point(d).0 as i32,
            y: turn_exit_point(d).1 as i32,
            direction: d,
            has_turned: true,
            ..v
        }
    } else {
        v
    }
}

/// What one tick does to a vehicle that may move.
pub open spec fn stepped(v: Vehicle) -> Vehicle {
    after_turn_check(advanced(v))
}

/// Squared centre-to-centre distance of two vehicles.
pub fn distance_squared(a: &Vehicle, b: &Vehicle) -> (r: u128)
    ensures
        r == dist_sq(*a, *b),
{
    let dx: i64 = a.x as i64 - b.x as i64;
    let dy: i64 = a.y as i64 - b.y as i64;
    let ax: u64 = if dx < 0 { (-dx) as u64 } else { dx as u64 };
    let ay: u64 = if dy < 0 { (-dy) as u64 } else { dy as u64 };
    assert(ax < 0x1_0000_0000u64 && ay < 0x1_0000_0000u64);
    assert((ax as int) * (ax as int) < 0x1_0000_0000_0000_0000int) by (nonlinear_arith)
        requires
            ax < 0x1_0000_0000u64,
    ;
    assert((ay as int) * (ay as int) < 0x1_0000_0000_0000_0000int) by (nonlinear_arith)
        requires
            ay < 0x1_0000_0000u64,
    ;
    let sx: u128 = (ax as u128) * (ax as u128);
    let sy: u128 = (ay as u128) * (ay as u128);
    assert(sx == dx * dx && sy == dy * dy) by (nonlinear_arith)
        requires
            ax == dx || ax == -dx,
            ay == dy || ay == -dy,
            sx == ax * ax,
            sy == ay * ay,
    ;
    sx + sy
}

/// Whether `vehicle` stands in the entrance band of its heading, between the
/// stop line and the centre line on the side it approaches from.
pub fn at_intersection_entrance(vehicle: &Vehicle) -> (r: bool)
    ensures
        r == at_entrance(*vehicle),
{
    match vehicle.direction {
        Direction::North => CENTER_Y + INTERSECTION_HALF - ENTRANCE_DEPTH <= vehicle.y && vehicle.y
            <= CENTER_Y + INTERSECTION_HALF,
        Direction::South => CENTER_Y - INTERSECTION_HALF <= vehicle.y && vehicle.y <= CENTER_Y
            - INTERSECTION_HALF + ENTRANCE_DEPTH,
        Direction::East => CENTER_X - INTERSECTION_HALF <= vehicle.x && vehicle.x <= CENTER_X
            - INTERSECTION_HALF + ENTRANCE_DEPTH,
        Direction::West => CENTER_X + INTERSECTION_HALF - ENTRANCE_DEPTH <= vehicle.x && vehicle.x
            <= CENTER_X + INTERSECTION_HALF,
    }
}

/// Places a vehicle that has just turned onto its heading in the lane of the
/// right-hand side of the new road, at the centre.
pub fn adjust_position_after_turn(vehicle: &mut Vehicle)
    ensures
        final(vehicle).x == turn_exit_point(old(vehicle).direction).0,
        final(vehicle).y == turn_exit_point(old(vehicle).direction).1,
        final(vehicle).direction == old(vehicle).direction,
        final(vehicle).route == old(vehicle).route,
        final(vehicle).color == old(vehicle).color,
        final(vehicle).has_turned == old(vehicle).has_turned,
{
    match vehicle.direction {
        Direction::North => {
            vehicle.x = CENTER_X + LANE_OFFSET;
            vehicle.y = CENTER_Y;
        },
        Direction::South => {
            vehicle.x = CENTER_X - LANE_OFFSET;
            vehicle.y = CENTER_Y;
        },
        Direction::East => {
            vehicle.x = CENTER_X;
            vehicle.y = CENTER_Y + LANE_OFFSET;
        },
        Direction::West => {
            vehicle.x = CENTER_X;
            vehicle.y = CENTER_Y - LANE_OFFSET;
        },
    }
}

/// Applies the turn manoeuvre where it is due.
pub fn handle_route_change(vehicle: &mut Vehicle)
    ensures
        *final(vehicle) == after_turn_check(*old(vehicle)),
{
    if vehicle.route != Route::Straight && !vehicle.has_turned {
        let should_turn = match vehicle.direction {
            Direction::North => vehicle.y <= CENTER_Y,
            Direction::South => vehicle.y >= CENTER_Y,
            Direction::East => vehicle.x >= CENTER_X,
            Direction::West => vehicle.x <= CENTER_X,
        };
        if should_turn {
            vehicle.direction =
            match vehicle.route {
                Route::Left => match vehicle.direction {
                    Direction::North => Direction::West,
                    Direction::West => Direction::South,
                    Direction::South => Direction::East,
                    Direction::East => Direction::North,
                },
                _ => match vehicle.direction {
                    Direction::North => Direction::East,
                    Direction::East => Direction::South,
                    Direction::South => Direction::West,
                    Direction::West => Direction::North,
                },
            };
            adjust_position_after_turn(vehicle);
            vehicle.has_turned = true;
        }
    }
}

/// Moves a vehicle one step along its heading, then applies the turn manoeuvre.
pub fn move_vehicle(vehicle: &mut Vehicle)
    requires
        can_step(*old(vehicle)),
    ensures
        *final(vehicle) == stepped(*old(vehicle)),
{
    match vehicle.direction {
        Direction::North => {
            vehicle.y = vehicle.y - VEHICLE_SPEED;
        },
        Direction::South => {
            vehicle.y = vehicle.y + VEHICLE_SPEED;
        },
        Direction::East => {
            vehicle.x = vehicle.x + VEHICLE_SPEED;
        },
        Direction::West => {
            vehicle.x = vehicle.x - VEHICLE_SPEED;
        },
    }
    handle_route_change(vehicle);
}

/// Whether a vehicle has gone further than the margin past an edge of the window.
pub fn vehicle_off_screen(vehicle: &Vehicle) -> (r: bool)
    ensures
        r == !on_playfield(*vehicle),
{
    vehicle.x < -OFF_SCREEN_MARGIN || vehicle.x > WINDOW_WIDTH + OFF_SCREEN_MARGIN || vehicle.y
        < -OFF_SCREEN_MARGIN || vehicle.y > WINDOW_HEIGHT + OFF_SCREEN_MARGIN
}

/// The display colour of a route: green straight on, yellow left, orange right.
pub fn get_route_color(route: Route) -> (r: Color)
    ensures
        r == route_color(route),
{
    match route {
        Route::Straight => Color { r: 0, g: 255, b: 0 },
        Route::Left => Color { r: 255, g: 255, b: 0 },
        Route::Right => Color { r: 255, g: 165, b: 0 },
    }
}

/// A vehicle going straight on keeps its heading at every step, and never
/// counts as turned.
pub proof fn lemma_straight_keeps_heading(v: Vehicle)
    requires
        v.route == Route::Straight,
    ensures
        stepped(v).direction == v.direction,
        stepped(v).has_turned == v.has_turned,
        stepped(v).route == Route::Straight,
{
}

/// A turning vehicle changes heading once: at the step that takes it onto the
/// centre line, by a quarter turn to its route's side, after which it counts as
/// turned; before that step, and at every step after it, its heading stays.
pub proof fn lemma_turn_fires_once(v: Vehicle)
    requires
        v.route != Route::Straight,
    ensures
        v.has_turned ==> stepped(v).direction == v.direction && stepped(v).has_turned,
        !v.has_turned && !reached_center(advanced(v)) ==> stepped(v).direction == v.direction
            && !stepped(v).has_turned,
        !v.has_turned && reached_center(advanced(v)) ==> stepped(v).has_turned
            && stepped(v).direction == turned_heading(v.direction, v.route) && stepped(
            v
        ).direction != v.direction,
        stepped(v).route == v.route,
        v.route == Route::Left && v.direction == Direction::North && !v.has_turned
            && reached_center(advanced(v)) ==> stepped(v).direction == Direction::West,
        v.route == Route::Right && v.direction == Direction::North && !v.has_turned
            && reached_center(advanced(v)) ==> stepped(v).direction == Direction::East,
{
}

} // verus!
