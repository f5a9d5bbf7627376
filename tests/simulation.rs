use traffic_sim::lane::{route_from_index, Lane};
use traffic_sim::light::{LightState, TrafficLight, LONG_GREEN_MS, SHORT_GREEN_MS};
use traffic_sim::simulation::TrafficSimulation;
use traffic_sim::vehicle::{
    at_intersection_entrance, distance_squared, get_route_color, move_vehicle,
    vehicle_off_screen, Color, Direction, Route, Vehicle,
};

const TICK_MS: u64 = 30;

fn vehicle_at(x: i32, y: i32, direction: Direction, route: Route) -> Vehicle {
    Vehicle { x, y, direction, route, color: get_route_color(route), has_turned: false }
}

#[test]
fn light_starts_red_and_turns_green_after_red_duration() {
    let mut light = TrafficLight::new(0);
    assert_eq!(light.state, LightState::Red);
    light.update(5999, 0, 8);
    assert_eq!(light.state, LightState::Red);
    light.update(6000, 0, 8);
    assert_eq!(light.state, LightState::Green);
    assert_eq!(light.phase_start, 6000);
    assert_eq!(light.green_duration, SHORT_GREEN_MS);
}

#[test]
fn congested_lane_gets_long_green() {
    let mut light = TrafficLight::new(0);
    light.update(6000, 6, 8);
    assert_eq!(light.green_duration, LONG_GREEN_MS);
    // The window stays fixed whatever the queue does meanwhile.
    light.update(6000 + 11999, 0, 8);
    assert_eq!(light.state, LightState::Green);
    light.update(6000 + 12000, 0, 8);
    assert_eq!(light.state, LightState::Red);
    assert_eq!(light.phase_start, 18000);
}

#[test]
fn uncongested_lane_gets_short_green() {
    let mut light = TrafficLight::new(0);
    light.update(6000, 7, 10);
    assert_eq!(light.green_duration, SHORT_GREEN_MS);
    light.update(6000 + 7999, 10, 10);
    assert_eq!(light.state, LightState::Green);
    light.update(6000 + 8000, 10, 10);
    assert_eq!(light.state, LightState::Red);
}

#[test]
fn zero_capacity_counts_as_uncongested() {
    let mut light = TrafficLight::new(0);
    light.update(6000, 3, 0);
    assert_eq!(light.green_duration, SHORT_GREEN_MS);
}

#[test]
fn light_ignores_clock_running_backwards() {
    let mut light = TrafficLight::new(10000);
    light.update(0, 0, 8);
    assert_eq!(light.state, LightState::Red);
    assert_eq!(light.phase_start, 10000);
}

#[test]
fn lane_capacity_follows_road_length() {
    assert_eq!(Lane::new(Direction::North, 0).capacity(), 8);
    assert_eq!(Lane::new(Direction::South, 0).capacity(), 8);
    assert_eq!(Lane::new(Direction::East, 0).capacity(), 10);
    assert_eq!(Lane::new(Direction::West, 0).capacity(), 10);
}

#[test]
fn spawn_positions_keep_to_the_right() {
    assert_eq!(Lane::new(Direction::North, 0).get_spawn_position(), (515, 770));
    assert_eq!(Lane::new(Direction::South, 0).get_spawn_position(), (485, 30));
    assert_eq!(Lane::new(Direction::East, 0).get_spawn_position(), (30, 415));
    assert_eq!(Lane::new(Direction::West, 0).get_spawn_position(), (970, 385));
}

#[test]
fn spawn_twice_within_cooldown_adds_one() {
    let mut lane = Lane::new(Direction::East, 0);
    assert!(lane.can_spawn(0));
    lane.spawn_vehicle_with_route(Route::Left, 0);
    assert!(!lane.can_spawn(499));
    lane.spawn_vehicle_with_route(Route::Right, 499);
    assert_eq!(lane.vehicles().len(), 1);
    assert_eq!(lane.vehicles()[0].route, Route::Left);
    assert_eq!(lane.vehicles()[0], vehicle_at(30, 415, Direction::East, Route::Left));
    lane.spawn_vehicle_with_route(Route::Right, 500);
    assert_eq!(lane.vehicles().len(), 2);
    assert_eq!(lane.vehicles()[1].route, Route::Right);
}

#[test]
fn queue_never_exceeds_capacity() {
    let mut lane = Lane::new(Direction::North, 0);
    for k in 0..20u64 {
        lane.spawn_vehicle_with_route(Route::Straight, k * 500);
        assert!(lane.vehicles().len() <= lane.capacity());
    }
    assert_eq!(lane.vehicles().len(), 8);
    assert!(!lane.can_spawn(100_000));
}

#[test]
fn straight_vehicle_never_turns() {
    let mut lane = Lane::new(Direction::West, 0);
    lane.spawn_vehicle_with_route(Route::Straight, 0);
    let mut t = 0;
    while !lane.vehicles().is_empty() {
        t += TICK_MS;
        lane.update(t);
        for v in lane.vehicles() {
            assert_eq!(v.direction, Direction::West);
            assert!(!v.has_turned);
            assert_eq!(v.y, 385);
        }
        assert!(t < 100_000);
    }
}

#[test]
fn left_turn_from_north_heads_west() {
    let mut v = vehicle_at(515, 404, Direction::North, Route::Left);
    move_vehicle(&mut v);
    assert_eq!((v.x, v.y, v.direction, v.has_turned), (515, 402, Direction::North, false));
    move_vehicle(&mut v);
    assert_eq!((v.x, v.y, v.direction, v.has_turned), (500, 385, Direction::West, true));
    move_vehicle(&mut v);
    assert_eq!((v.x, v.y, v.direction, v.has_turned), (498, 385, Direction::West, true));
}

#[test]
fn right_turn_from_north_heads_east() {
    let mut v = vehicle_at(515, 402, Direction::North, Route::Right);
    move_vehicle(&mut v);
    assert_eq!((v.x, v.y, v.direction, v.has_turned), (500, 415, Direction::East, true));
    for _ in 0..200 {
        move_vehicle(&mut v);
        assert_eq!(v.direction, Direction::East);
    }
}

#[test]
fn turn_tables() {
    let cases = [
        (Direction::South, Route::Left, 485, 398, Direction::East, 500, 415),
        (Direction::East, Route::Left, 498, 415, Direction::North, 515, 400),
        (Direction::West, Route::Left, 502, 385, Direction::South, 485, 400),
        (Direction::South, Route::Right, 485, 398, Direction::West, 500, 385),
        (Direction::East, Route::Right, 498, 415, Direction::South, 485, 400),
        (Direction::West, Route::Right, 502, 385, Direction::North, 515, 400),
    ];
    for (d, r, x, y, nd, nx, ny) in cases {
        let mut v = vehicle_at(x, y, d, r);
        move_vehicle(&mut v);
        assert_eq!((v.direction, v.x, v.y, v.has_turned), (nd, nx, ny, true));
    }
}

#[test]
fn turning_vehicle_in_lane_turns_once() {
    let mut lane = Lane::new(Direction::South, 0);
    lane.spawn_vehicle_with_route(Route::Right, 0);
    let mut t = 0;
    let mut changes = 0;
    let mut heading = Direction::South;
    while !lane.vehicles().is_empty() {
        t += TICK_MS;
        lane.update(t);
        if let Some(v) = lane.vehicles().first() {
            if v.direction != heading {
                changes += 1;
                heading = v.direction;
                assert_eq!(heading, Direction::West);
                assert!(v.has_turned);
            }
        }
        assert!(t < 100_000);
    }
    assert_eq!(changes, 1);
}

#[test]
fn distance_squared_is_exact() {
    let a = vehicle_at(0, 0, Direction::North, Route::Straight);
    let b = vehicle_at(3, -4, Direction::North, Route::Straight);
    assert_eq!(distance_squared(&a, &b), 25);
    let c = vehicle_at(i32::MIN, i32::MIN, Direction::North, Route::Straight);
    let d = vehicle_at(i32::MAX, i32::MAX, Direction::North, Route::Straight);
    assert_eq!(distance_squared(&c, &d), 2 * (u32::MAX as u128) * (u32::MAX as u128));
}

#[test]
fn entrance_band_bounds() {
    let at = |x: i32, y: i32, d: Direction| at_intersection_entrance(&vehicle_at(x, y, d, Route::Straight));
    assert!(at(515, 430, Direction::North));
    assert!(at(515, 400, Direction::North));
    assert!(!at(515, 431, Direction::North));
    assert!(!at(515, 399, Direction::North));
    assert!(at(485, 370, Direction::South));
    assert!(!at(485, 369, Direction::South));
    assert!(at(470, 415, Direction::East));
    assert!(at(480, 415, Direction::East));
    assert!(at(500, 415, Direction::East));
    assert!(!at(469, 415, Direction::East));
    assert!(!at(501, 415, Direction::East));
    assert!(at(530, 385, Direction::West));
    assert!(at(500, 385, Direction::West));
    assert!(!at(531, 385, Direction::West));
    assert!(!at(499, 385, Direction::West));
}

#[test]
fn off_screen_margin() {
    let s = |x: i32, y: i32| vehicle_off_screen(&vehicle_at(x, y, Direction::East, Route::Straight));
    assert!(!s(-50, 0));
    assert!(s(-51, 0));
    assert!(!s(1050, 850));
    assert!(s(1051, 400));
    assert!(s(500, 851));
    assert!(s(500, -51));
}

#[test]
fn route_colors() {
    assert_eq!(get_route_color(Route::Straight), Color { r: 0, g: 255, b: 0 });
    assert_eq!(get_route_color(Route::Left), Color { r: 255, g: 255, b: 0 });
    assert_eq!(get_route_color(Route::Right), Color { r: 255, g: 165, b: 0 });
    assert_eq!(route_from_index(0), Route::Straight);
    assert_eq!(route_from_index(1), Route::Left);
    assert_eq!(route_from_index(2), Route::Right);
}

#[test]
fn red_light_holds_vehicle_at_stop_line() {
    let mut lane = Lane::new(Direction::North, 0);
    lane.spawn_vehicle_with_route(Route::Straight, 0);
    for k in 1..=199u64 {
        lane.update(k * TICK_MS);
    }
    assert_eq!(lane.traffic_light().state, LightState::Red);
    assert_eq!(lane.vehicles()[0].y, 430);
    lane.update(6000);
    assert_eq!(lane.traffic_light().state, LightState::Green);
    assert_eq!(lane.vehicles()[0].y, 428);
}

#[test]
fn follower_waits_for_the_gap() {
    let mut lane = Lane::new(Direction::North, 0);
    lane.spawn_vehicle_with_route(Route::Straight, 0);
    let mut t = 0;
    for _ in 0..16 {
        t += TICK_MS;
        lane.update(t);
    }
    assert_eq!(lane.vehicles()[0].y, 738);
    lane.spawn_vehicle_with_route(Route::Straight, 500);
    assert_eq!(lane.vehicles().len(), 2);
    // 32 apart: the follower holds still until the leader is 45 ahead.
    for _ in 0..7 {
        t += TICK_MS;
        lane.update(t);
        assert_eq!(lane.vehicles()[1].y, 770);
    }
    assert_eq!(lane.vehicles()[0].y, 724);
    t += TICK_MS;
    lane.update(t);
    assert_eq!(lane.vehicles()[1].y, 768);
    assert_eq!(lane.vehicles()[0].y, 722);
}

#[test]
fn ticks_keep_the_safety_gap_while_queueing_at_red() {
    let mut lane = Lane::new(Direction::North, 0);
    let mut checked = 0;
    for k in 0..400u64 {
        let t = k * TICK_MS;
        if k % 20 == 0 {
            lane.spawn_vehicle_with_route(Route::Straight, t);
        }
        let before: Vec<i32> = lane.vehicles().iter().map(|v| v.y).collect();
        lane.update(t);
        let after: Vec<i32> = lane.vehicles().iter().map(|v| v.y).collect();
        assert_eq!(before.len(), after.len());
        for i in 1..after.len() {
            if before[i] - before[i - 1] >= 15 {
                assert!(after[i] - after[i - 1] >= 15, "gap {} at {}", after[i] - after[i - 1], t);
                checked += 1;
            }
        }
    }
    assert!(checked > 1000);
}

#[test]
fn spawn_does_not_check_spacing() {
    let mut lane = Lane::new(Direction::North, 0);
    lane.spawn_vehicle_with_route(Route::Straight, 0);
    lane.spawn_vehicle_with_route(Route::Straight, 500);
    let vs = lane.vehicles();
    assert_eq!((vs[0].x, vs[0].y), (vs[1].x, vs[1].y));
}

#[test]
fn vehicle_leaving_playfield_is_removed_and_order_kept() {
    let mut lane = Lane::new(Direction::East, 0);
    lane.spawn_vehicle_with_route(Route::Straight, 0);
    let mut t = 0;
    let mut last_x = 0;
    loop {
        t += TICK_MS;
        if t == 3000 {
            lane.spawn_vehicle_with_route(Route::Left, t);
        }
        lane.update(t);
        for v in lane.vehicles() {
            assert!(!vehicle_off_screen(v));
        }
        match lane.vehicles().iter().find(|v| v.route == Route::Straight) {
            Some(v) => last_x = v.x,
            None => break,
        }
        assert!(t < 100_000);
    }
    // One more step would have taken it past the margin.
    assert_eq!(last_x, 1050);
    assert_eq!(lane.vehicles().len(), 1);
    assert_eq!(lane.vehicles()[0].route, Route::Left);
}

#[test]
fn four_straight_vehicles_clear_the_playfield() {
    let mut sim = TrafficSimulation::new(0);
    for d in [Direction::North, Direction::South, Direction::East, Direction::West] {
        sim.spawn_vehicle_with_route(d, Route::Straight, 0);
        assert_eq!(sim.lane(d).vehicles().len(), 1);
    }
    for k in 1..=2000u64 {
        sim.update(k * TICK_MS);
    }
    for d in [Direction::North, Direction::South, Direction::East, Direction::West] {
        assert!(sim.lane(d).vehicles().is_empty());
        assert_eq!(sim.lane(d).direction(), d);
    }
}

#[test]
fn random_spawns_reach_several_lanes_and_routes() {
    let mut sim = TrafficSimulation::new(0);
    for k in 0..24u64 {
        sim.spawn_random_vehicle(k * 500);
    }
    let dirs = [Direction::North, Direction::South, Direction::East, Direction::West];
    let busy = dirs.iter().filter(|d| !sim.lane(**d).vehicles().is_empty()).count();
    assert!(busy >= 2);
    let mut routes = Vec::new();
    for d in dirs {
        for v in sim.lane(d).vehicles() {
            assert_eq!(v.color, get_route_color(v.route));
            assert_eq!(v.direction, d);
            if !routes.contains(&v.route) {
                routes.push(v.route);
            }
        }
    }
    assert!(routes.len() >= 2);
}

#[test]
fn spawn_vehicle_respects_cooldown_per_lane() {
    let mut sim = TrafficSimulation::new(0);
    sim.spawn_vehicle(Direction::South, 0);
    sim.spawn_vehicle(Direction::South, 100);
    sim.spawn_vehicle(Direction::East, 100);
    assert_eq!(sim.lane(Direction::South).vehicles().len(), 1);
    assert_eq!(sim.lane(Direction::East).vehicles().len(), 1);
    assert_eq!(sim.lane(Direction::North).vehicles().len(), 0);
}

#[test]
fn red_light_holds_eastbound_vehicle_before_the_centre() {
    let mut lane = Lane::new(Direction::East, 0);
    for k in 1..=700u64 {
        if k == 260 {
            lane.spawn_vehicle_with_route(Route::Straight, k * TICK_MS);
        }
        lane.update(k * TICK_MS);
        if k == 600 {
            assert_eq!(lane.traffic_light().state, LightState::Red);
            assert_eq!(lane.vehicles()[0].x, 470);
        }
    }
    assert!(lane.vehicles()[0].x > 470);
}
