use smoke_sim::compute_params::RawVec3;
use smoke_sim::config::{GRID_DIMENSION_LENGTH, INJECT_STRENGTH_FULL};
use smoke_sim::ping_pong::Half;
use smoke_sim::simulation::Simulation;
use smoke_sim::texture::ConfigError;

fn sim() -> Simulation {
    Simulation::new(
        GRID_DIMENSION_LENGTH,
        RawVec3 { x: 0, y: 0, z: 0 },
        RawVec3 { x: 1, y: 1, z: 1 },
        (800, 600),
    )
    .unwrap()
}

#[test]
fn startup_rejects_uncoverable_grids() {
    let box_min = RawVec3 { x: 0, y: 0, z: 0 };
    let box_max = RawVec3 { x: 1, y: 1, z: 1 };
    assert_eq!(
        Simulation::new(0, box_min, box_max, (800, 600)).unwrap_err(),
        ConfigError::ZeroGridResolution
    );
    assert_eq!(
        Simulation::new(63, box_min, box_max, (800, 600)).unwrap_err(),
        ConfigError::GridNotDivisibleByThreadGroup
    );
    assert!(Simulation::new(64, box_min, box_max, (800, 600)).is_ok());
}

#[test]
fn every_frame_dispatches_16_cubed_workgroups() {
    let mut s = sim();
    s.request_injection();
    let plan = s.plan_frame();
    assert_eq!(plan.advection.workgroups, (16, 16, 16));
    assert_eq!(plan.injection.unwrap().workgroups, (16, 16, 16));
    let plan2 = s.plan_frame();
    assert_eq!(plan2.advection.workgroups, (16, 16, 16));
}

#[test]
fn injection_lasts_exactly_one_frame() {
    let mut s = sim();
    s.request_injection();
    let frame_k = s.plan_frame();
    assert!(frame_k.injection.is_some());
    assert_eq!(frame_k.params.inject_sources_strength, INJECT_STRENGTH_FULL);
    assert!(frame_k.clear_injection_strength);

    let frame_k1 = s.plan_frame();
    assert!(frame_k1.injection.is_none());
    assert_eq!(frame_k1.params.inject_sources_strength, 0);
    assert!(!frame_k1.clear_injection_strength);

    let frame_k2 = s.plan_frame();
    assert_eq!(frame_k2.params.inject_sources_strength, 0);
}

#[test]
fn no_buffer_is_written_twice_in_one_frame() {
    let mut s = sim();
    s.request_injection();
    let plan = s.plan_frame();
    let injection = plan.injection.unwrap();
    assert_ne!(injection.target, plan.advection.write);
    assert_ne!(plan.advection.read, plan.advection.write);
    assert_eq!(injection.target, plan.advection.read);
}

#[test]
fn frames_alternate_buffer_direction() {
    let mut s = sim();
    let plan1 = s.plan_frame();
    assert_eq!(plan1.advection.read, Half::A);
    assert_eq!(plan1.advection.write, Half::B);
    assert_eq!(plan1.present_density, Half::B);
    let plan2 = s.plan_frame();
    assert_eq!(plan2.advection.read, Half::B);
    assert_eq!(plan2.advection.write, Half::A);
    assert_eq!(plan2.present_density, Half::A);
    let plan3 = s.plan_frame();
    assert_eq!(plan3.advection.read, Half::A);
}

#[test]
fn resize_updates_viewport_and_nothing_else() {
    let mut s = sim();
    let velocity_before = s.velocity.texture_a;
    let density_before = s.density.texture_a;
    assert!(s.resize(1024, 768));
    assert_eq!(s.params.viewport(), (1024, 768));
    assert_eq!(s.velocity.texture_a, velocity_before);
    assert_eq!(s.density.texture_a, density_before);
    assert_eq!((s.params.width, s.params.height, s.params.depth), (64, 64, 64));
}

#[test]
fn degenerate_resize_is_ignored() {
    let mut s = sim();
    assert!(!s.resize(0, 768));
    assert!(!s.resize(1024, 0));
    assert_eq!(s.params.viewport(), (800, 600));
}

#[test]
fn update_records_elapsed_time() {
    let mut s = sim();
    s.update(0, 16_666_667);
    assert_eq!(s.params.dt(), (0, 16_666_667));
}
