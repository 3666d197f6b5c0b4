use smoke_sim::compute_params::{ComputeParams, RawVec3};
use smoke_sim::config::INJECT_STRENGTH_FULL;

fn block() -> ComputeParams {
    ComputeParams::new(
        64,
        RawVec3 { x: 0, y: 0, z: 0 },
        RawVec3 { x: 0x3FCCCCCD, y: 0x3FCCCCCD, z: 0x3FCCCCCD },
        (800, 600),
    )
}

#[test]
fn fresh_block_is_zeroed() {
    let p = block();
    assert_eq!(p.dt(), (0, 0));
    assert_eq!(p.inject_sources_strength(), 0);
    assert_eq!(p.viewport(), (800, 600));
    assert_eq!((p.width, p.height, p.depth), (64, 64, 64));
}

#[test]
fn dt_round_trips_exactly() {
    let mut p = block();
    p.update_dt(3, 500_000_000);
    assert_eq!(p.dt(), (3, 500_000_000));
    p.update_dt(0, 16_666_667);
    assert_eq!(p.dt(), (0, 16_666_667));
}

#[test]
fn viewport_resize_updates_only_the_viewport() {
    let mut p = block();
    p.update_dt(1, 2);
    p.update_viewport(1024, 768);
    assert_eq!(p.viewport(), (1024, 768));
    assert_eq!((p.width, p.height, p.depth), (64, 64, 64));
    assert_eq!(p.dt(), (1, 2));
    assert_eq!(p.inject_sources_strength(), 0);
    assert_eq!(p.box_min, RawVec3 { x: 0, y: 0, z: 0 });
    assert_eq!(p.box_max, RawVec3 { x: 0x3FCCCCCD, y: 0x3FCCCCCD, z: 0x3FCCCCCD });
}

#[test]
fn injection_strength_round_trips() {
    let mut p = block();
    p.set_inject_sources_strength(INJECT_STRENGTH_FULL);
    assert_eq!(p.inject_sources_strength(), INJECT_STRENGTH_FULL);
    p.set_inject_sources_strength(0);
    assert_eq!(p.inject_sources_strength(), 0);
}
