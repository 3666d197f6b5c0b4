use smoke_sim::compute_step::{
    workgroups_for_grid, BindingEntry, BindingResource, ComputeStep, FIELD_BIND_GROUP,
    PARAMS_BIND_GROUP,
};

#[test]
fn workgroup_count_covers_grid_exactly() {
    for (n, t) in [(64u32, 4u32), (64, 8), (128, 4), (4, 4), (256, 16)] {
        let w = workgroups_for_grid(n, t);
        assert_eq!(w * t, n);
    }
}

#[test]
fn grid_64_with_groups_of_4_gives_16_per_axis() {
    assert_eq!(workgroups_for_grid(64, 4), 16);
}

#[test]
fn dispatch_lays_out_read_write_aux_sampler() {
    let step = ComputeStep::new("advect", 2, true, 4);
    let plan = step.dispatch(10, 11, &vec![12, 13], Some(99), (16, 16, 16), 64);
    assert_eq!(plan.workgroups, (16, 16, 16));
    assert_eq!(plan.params_group, PARAMS_BIND_GROUP);
    assert_eq!(plan.field_group, FIELD_BIND_GROUP);
    assert_eq!(
        plan.entries,
        vec![
            BindingEntry { binding: 0, resource: BindingResource::TextureView(10) },
            BindingEntry { binding: 1, resource: BindingResource::TextureView(11) },
            BindingEntry { binding: 2, resource: BindingResource::TextureView(12) },
            BindingEntry { binding: 3, resource: BindingResource::TextureView(13) },
            BindingEntry { binding: 4, resource: BindingResource::Sampler(99) },
        ]
    );
}

#[test]
fn dispatch_without_aux_or_sampler_has_two_entries() {
    let step = ComputeStep::new("inject", 0, false, 4);
    let plan = step.dispatch(7, 8, &vec![], None, (16, 16, 16), 64);
    assert_eq!(
        plan.entries,
        vec![
            BindingEntry { binding: 0, resource: BindingResource::TextureView(7) },
            BindingEntry { binding: 1, resource: BindingResource::TextureView(8) },
        ]
    );
}
