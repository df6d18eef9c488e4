use orbital_core::gear::{GearPose, LandingGearState};
use orbital_core::gfx::{Gfx, GfxCommand, GfxCommandTypes};
use orbital_core::scalar::{Point, Scalar};
use orbital_core::ship::{GravityAction, PlayerShip, ShipHandles, ShipMeshes, ShipPose, Turn};

fn sc(v: f32) -> Scalar {
    Scalar::from_bits(v.to_bits())
}

fn pt(x: f32, y: f32) -> Point {
    Point::new(sc(x), sc(y))
}

fn meshes() -> ShipMeshes {
    ShipMeshes { fuselage: 10, exhaust: 11, left_gear: 12, right_gear: 13, left_foot: 14, right_foot: 15 }
}

fn set_up() -> (Gfx, PlayerShip) {
    let mut g = Gfx::new();
    g.scene_scale(sc(0.05));
    let handles = ShipHandles::build(&mut g, meshes());
    (g, PlayerShip::new(handles))
}

#[test]
fn new_ship_is_landed_with_gear_down() {
    let (_, ship) = set_up();
    assert!(ship.is_landed());
    assert!(!ship.thrusting());
    assert!(!ship.turning_left());
    assert!(!ship.turning_right());
    assert_eq!(ship.gear_state(), LandingGearState::Down);
}

#[test]
fn handles_layout() {
    let (g, ship) = set_up();
    let h = ship.handles_exec();
    assert_eq!(g.command_count(), 25);
    assert_eq!(h.program, 1);
    assert_eq!(h.scale, 2);
    assert_eq!(h.left_gear_rotation, 4);
    assert_eq!(h.left_gear_translation, 5);
    assert_eq!(h.left_gear_draw, 6);
    assert_eq!(h.right_foot_translation, 17);
    assert_eq!(h.ship_rotation, 19);
    assert_eq!(h.ship_translation, 20);
    assert_eq!(h.ship_draw, 22);
    assert_eq!(h.exhaust_draw, 24);
    assert_eq!(g.command(h.program).command, GfxCommandTypes::Program(1));
    assert_eq!(g.command(h.scale).command, GfxCommandTypes::SceneScale(sc(0.05)));
    assert_eq!(g.command(3).command, GfxCommandTypes::Indices(12));
    assert_eq!(g.command(h.left_gear_translation).command, GfxCommandTypes::Translate { x: sc(-3.0), y: sc(-7.0) });
    assert_eq!(g.command(h.right_gear_translation).command, GfxCommandTypes::Translate { x: sc(3.0), y: sc(-7.0) });
    assert_eq!(g.command(h.left_foot_translation).command, GfxCommandTypes::Translate { x: sc(-5.0), y: sc(-12.5) });
    assert_eq!(g.command(h.right_foot_translation).command, GfxCommandTypes::Translate { x: sc(5.0), y: sc(-12.5) });
    assert_eq!(g.command(21).command, GfxCommandTypes::Indices(10));
    assert_eq!(g.command(23).command, GfxCommandTypes::Indices(11));
    for d in [h.ship_draw, h.left_gear_draw, h.right_gear_draw, h.left_foot_draw, h.right_foot_draw] {
        assert_eq!(g.command(d), GfxCommand { flags: 1, command: GfxCommandTypes::TriangleDraw });
    }
    assert_eq!(g.command(h.exhaust_draw), GfxCommand { flags: 0, command: GfxCommandTypes::TriangleDraw });
}

#[test]
fn thrust_lifts_off_and_shows_exhaust() {
    let (mut g, mut ship) = set_up();
    let exhaust = ship.handles_exec().exhaust_draw;
    ship.thrust_on();
    assert!(ship.thrusting());
    assert!(!ship.is_landed());
    let plan = ship.tick(&mut g);
    assert!(plan.thrust);
    assert_eq!(g.command(exhaust).flags, 0);
    ship.thrust_off();
    assert!(!ship.thrusting());
    let plan = ship.tick(&mut g);
    assert!(!plan.thrust);
    assert_eq!(g.command(exhaust).flags, 1);
}

#[test]
fn turning_prefers_left() {
    let (mut g, mut ship) = set_up();
    assert_eq!(ship.tick(&mut g).turn, Turn::Straight);
    ship.rotate_right();
    assert!(ship.turning_right());
    assert_eq!(ship.tick(&mut g).turn, Turn::Right);
    ship.rotate_left();
    assert!(ship.turning_left());
    assert_eq!(ship.tick(&mut g).turn, Turn::Left);
    ship.rotate_off();
    assert!(!ship.turning_left());
    assert!(!ship.turning_right());
    assert_eq!(ship.tick(&mut g).turn, Turn::Straight);
}

#[test]
fn tick_moves_the_gear() {
    let (mut g, mut ship) = set_up();
    assert_eq!(ship.tick(&mut g).gear, GearPose::Extended);
    ship.cycle_gear();
    assert_eq!(ship.gear_state(), LandingGearState::Closing(199));
    assert_eq!(ship.tick(&mut g).gear, GearPose::Step(198));
    assert_eq!(ship.gear_state(), LandingGearState::Closing(198));
    ship.cycle_gear();
    assert_eq!(ship.tick(&mut g).gear, GearPose::Step(199));
}

#[test]
fn gravity_pulls_only_airborne_ships() {
    let (_, mut ship) = set_up();
    assert_eq!(ship.gravity(true), GravityAction::Land);
    ship.thrust_on();
    assert_eq!(ship.gravity(true), GravityAction::Pull);
    assert!(!ship.is_landed());
    assert_eq!(ship.gravity(false), GravityAction::Land);
    assert!(ship.is_landed());
    assert!(ship.thrusting());
}

#[test]
fn landed_ship_stays_pinned() {
    let (_, mut ship) = set_up();
    for above in [true, false, true, true] {
        assert_eq!(ship.gravity(above), GravityAction::Land);
        assert!(ship.is_landed());
    }
}

#[test]
fn take_off_and_land_again() {
    let (mut g, mut ship) = set_up();
    ship.thrust_on();
    for _ in 0..500 {
        let plan = ship.tick(&mut g);
        assert!(plan.thrust);
        assert_eq!(plan.turn, Turn::Straight);
        assert_eq!(ship.gravity(true), GravityAction::Pull);
    }
    ship.thrust_off();
    assert!(!ship.tick(&mut g).thrust);
    assert_eq!(ship.gravity(true), GravityAction::Pull);
    assert_eq!(ship.gravity(false), GravityAction::Land);
    assert!(ship.is_landed());
}

#[test]
fn propagate_writes_the_pose() {
    let (mut g, ship) = set_up();
    let h = ship.handles_exec();
    let pose = ShipPose {
        scale: sc(0.25),
        translation: pt(1.0, 2.0),
        left_gear_translation: pt(3.0, 4.0),
        right_gear_translation: pt(5.0, 6.0),
        left_foot_translation: pt(7.0, 8.0),
        right_foot_translation: pt(9.0, 10.0),
        left_gear_rotation: sc(0.1),
        right_gear_rotation: sc(0.2),
        left_foot_rotation: sc(0.3),
        right_foot_rotation: sc(0.4),
        rotation: sc(0.5),
    };
    let exhaust_before = g.command(h.exhaust_draw);
    ship.propagate(&mut g, &pose);
    assert_eq!(g.command(h.scale).command, GfxCommandTypes::ObjectScale(sc(0.25)));
    assert_eq!(g.command(h.ship_translation).command, GfxCommandTypes::Translate { x: sc(1.0), y: sc(2.0) });
    assert_eq!(g.command(h.left_gear_translation).command, GfxCommandTypes::Translate { x: sc(3.0), y: sc(4.0) });
    assert_eq!(g.command(h.right_gear_translation).command, GfxCommandTypes::Translate { x: sc(5.0), y: sc(6.0) });
    assert_eq!(g.command(h.left_foot_translation).command, GfxCommandTypes::Translate { x: sc(7.0), y: sc(8.0) });
    assert_eq!(g.command(h.right_foot_translation).command, GfxCommandTypes::Translate { x: sc(9.0), y: sc(10.0) });
    assert_eq!(g.command(h.left_gear_rotation).command, GfxCommandTypes::Rotate(sc(0.1)));
    assert_eq!(g.command(h.right_gear_rotation).command, GfxCommandTypes::Rotate(sc(0.2)));
    assert_eq!(g.command(h.left_foot_rotation).command, GfxCommandTypes::Rotate(sc(0.3)));
    assert_eq!(g.command(h.right_foot_rotation).command, GfxCommandTypes::Rotate(sc(0.4)));
    assert_eq!(g.command(h.ship_rotation).command, GfxCommandTypes::Rotate(sc(0.5)));
    assert_eq!(g.command(h.exhaust_draw), exhaust_before);
    assert_eq!(g.command(0).command, GfxCommandTypes::SceneScale(sc(0.05)));
    assert_eq!(g.command_count(), 25);
}
