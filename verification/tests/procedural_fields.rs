use smoke_sim::procedural::{
    blob_density_at, blob_density_field, isqrt64, tornado_velocity_at, tornado_velocity_field,
    unit_coord_q16, VelocityQ16, Q16_ONE,
};

#[test]
fn integer_square_root_brackets_its_input() {
    assert_eq!(isqrt64(0), 0);
    assert_eq!(isqrt64(1), 1);
    assert_eq!(isqrt64(15), 3);
    assert_eq!(isqrt64(16), 4);
    assert_eq!(isqrt64(17), 4);
    assert_eq!(isqrt64(2_097_152), 1448);
    assert_eq!(isqrt64(1 << 60), 1 << 30);
}

#[test]
fn unit_coordinates_are_symmetric_voxel_centers() {
    assert_eq!(unit_coord_q16(31, 64), -1024);
    assert_eq!(unit_coord_q16(32, 64), 1024);
    assert_eq!(unit_coord_q16(0, 64), -64512);
    assert_eq!(unit_coord_q16(63, 64), 64512);
    assert_eq!(unit_coord_q16(32, 65), 0);
}

#[test]
fn tornado_velocity_is_tangent_at_grid_center_cells() {
    let v = tornado_velocity_at(32, 32, 64);
    assert_eq!(v, VelocityQ16 { x: 46345, y: 0, z: -46345 });
    let v = tornado_velocity_at(0, 32, 64);
    assert_eq!(v, VelocityQ16 { x: 1040, y: 0, z: 65527 });
    let v = tornado_velocity_at(32, 0, 64);
    assert_eq!(v, VelocityQ16 { x: -65527, y: 0, z: -1040 });
}

#[test]
fn tornado_velocity_vanishes_on_the_axis() {
    let v = tornado_velocity_at(32, 32, 65);
    assert_eq!(v, VelocityQ16 { x: 0, y: 0, z: 0 });
}

#[test]
fn tornado_field_matches_per_voxel_samples() {
    let n = 4u32;
    let field = tornado_velocity_field(n);
    assert_eq!(field.len(), 64);
    for z in 0..n {
        for y in 0..n {
            for x in 0..n {
                let i = (x + n * (y + n * z)) as usize;
                assert_eq!(field[i], tornado_velocity_at(x, z, n));
            }
        }
    }
    assert_eq!(field[0], VelocityQ16 { x: -46341, y: 0, z: 46341 });
}

#[test]
fn blob_peaks_at_its_center_and_decays_with_distance() {
    let center = (32u32, 32u32, 32u32);
    assert_eq!(blob_density_at(32, 32, 32, center, 4, Q16_ONE), 65536);
    assert_eq!(blob_density_at(33, 32, 32, center, 4, Q16_ONE), 65536);
    assert_eq!(blob_density_at(33, 33, 32, center, 4, Q16_ONE), 32768);
    assert_eq!(blob_density_at(34, 32, 32, center, 4, Q16_ONE), 16384);
    // at the radius the density has fallen to a 256th of the peak
    assert_eq!(blob_density_at(36, 32, 32, center, 4, Q16_ONE), 256);
    // well beyond the radius it is exactly zero
    assert_eq!(blob_density_at(40, 32, 32, center, 4, Q16_ONE), 0);
    assert_eq!(blob_density_at(63, 63, 63, center, 4, Q16_ONE), 0);
}

#[test]
fn blob_density_never_grows_with_distance() {
    let center = (32u32, 32u32, 32u32);
    let mut previous = u32::MAX;
    for x in 32..64u32 {
        let v = blob_density_at(x, 32, 32, center, 4, Q16_ONE);
        assert!(v <= previous);
        previous = v;
    }
}

#[test]
fn blob_field_matches_per_voxel_samples() {
    let n = 8u32;
    let field = blob_density_field(n, (4, 4, 4), 2, Q16_ONE);
    assert_eq!(field.len(), 512);
    let center_index = (4 + 8 * (4 + 8 * 4)) as usize;
    assert_eq!(field[center_index], 65536);
    let neighbour_index = (5 + 8 * (4 + 8 * 4)) as usize;
    assert_eq!(field[neighbour_index], 16384);
    for z in 0..n {
        for y in 0..n {
            for x in 0..n {
                let i = (x + n * (y + n * z)) as usize;
                assert_eq!(field[i], blob_density_at(x, y, z, (4, 4, 4), 2, Q16_ONE));
            }
        }
    }
}
