use orbital_core::gear::{GearPose, LandingGearState, GEAR_STEPS};

fn run(mut g: LandingGearState, n: u32) -> LandingGearState {
    for _ in 0..n {
        g = g.tick().0;
    }
    g
}

#[test]
fn cycle_transitions() {
    assert_eq!(LandingGearState::Up.cycle_gear(), LandingGearState::Opening(0));
    assert_eq!(LandingGearState::Down.cycle_gear(), LandingGearState::Closing(199));
    assert_eq!(LandingGearState::Opening(42).cycle_gear(), LandingGearState::Closing(42));
    assert_eq!(LandingGearState::Closing(42).cycle_gear(), LandingGearState::Opening(42));
}

#[test]
fn tick_steps_and_poses() {
    assert_eq!(LandingGearState::Opening(0).tick(), (LandingGearState::Opening(1), GearPose::Step(1)));
    assert_eq!(LandingGearState::Opening(199).tick(), (LandingGearState::Down, GearPose::Step(200)));
    assert_eq!(LandingGearState::Closing(5).tick(), (LandingGearState::Closing(4), GearPose::Step(4)));
    assert_eq!(LandingGearState::Closing(1).tick(), (LandingGearState::Up, GearPose::Step(0)));
    assert_eq!(LandingGearState::Up.tick(), (LandingGearState::Up, GearPose::Retracted));
    assert_eq!(LandingGearState::Down.tick(), (LandingGearState::Down, GearPose::Extended));
}

#[test]
fn closing_at_step_zero_ends_up() {
    let g = LandingGearState::Up.cycle_gear().cycle_gear();
    assert_eq!(g, LandingGearState::Closing(0));
    assert_eq!(g.tick(), (LandingGearState::Up, GearPose::Step(0)));
}

#[test]
fn round_trip_down_up_down() {
    assert_eq!(GEAR_STEPS, 200);
    let up = run(LandingGearState::Down.cycle_gear(), 200);
    assert_eq!(up, LandingGearState::Up);
    let down = run(up.cycle_gear(), 200);
    assert_eq!(down, LandingGearState::Down);
}

#[test]
fn closing_from_down_reaches_up_after_199_ticks() {
    assert_eq!(run(LandingGearState::Down.cycle_gear(), 198), LandingGearState::Closing(1));
    assert_eq!(run(LandingGearState::Down.cycle_gear(), 199), LandingGearState::Up);
}

#[test]
fn reversal_returns_to_same_step() {
    let opened = run(LandingGearState::Opening(30), 50);
    assert_eq!(opened, LandingGearState::Opening(80));
    let back = run(opened.cycle_gear(), 50);
    assert_eq!(back, LandingGearState::Closing(30));
    assert_eq!(back.cycle_gear(), LandingGearState::Opening(30));
}
