use minima::extent::{clamp_extent, clamp_extent_within};
use minima::scene_pass::{material_slot, scene_pass, BindGroupRef, MeshDraw, PassCommand};

#[test]
fn zero_sized_target_becomes_one_by_one() {
    assert_eq!(clamp_extent(0, 0), (1, 1));
}

#[test]
fn extent_keeps_valid_sizes_and_clamps_each_side() {
    assert_eq!(clamp_extent(1920, 1080), (1920, 1080));
    assert_eq!(clamp_extent(800, 600), (800, 600));
    assert_eq!(clamp_extent(0, 600), (1, 600));
    assert_eq!(clamp_extent(800, 0), (800, 1));
    assert_eq!(clamp_extent(u32::MAX, 1), (u32::MAX, 1));
}

#[test]
fn resizing_twice_to_the_same_size_gives_the_same_size() {
    let first = clamp_extent(0, 720);
    let second = clamp_extent(0, 720);
    assert_eq!(first, second);
    assert_eq!(clamp_extent(first.0, first.1), first);
}

#[test]
fn out_of_range_material_clamps_to_last() {
    assert_eq!(material_slot(5, 3), 2);
    assert_eq!(material_slot(3, 3), 2);
    assert_eq!(material_slot(usize::MAX, 1), 0);
}

#[test]
fn in_range_material_is_kept() {
    assert_eq!(material_slot(0, 3), 0);
    assert_eq!(material_slot(2, 3), 2);
}

#[test]
fn empty_model_pass_binds_only_the_per_pass_groups() {
    let cmds = scene_pass(&Vec::new(), 1);
    assert_eq!(
        cmds,
        vec![
            PassCommand::SetPipeline,
            PassCommand::SetBindGroup { slot: 0, group: BindGroupRef::Camera },
            PassCommand::SetBindGroup { slot: 1, group: BindGroupRef::ModelTransform },
        ]
    );
}

#[test]
fn scene_pass_binds_coarse_to_fine_and_draws_each_mesh_once() {
    let meshes = vec![
        MeshDraw { material_id: 1, index_count: 36 },
        MeshDraw { material_id: 9, index_count: 6 },
    ];
    let cmds = scene_pass(&meshes, 2);
    assert_eq!(
        cmds,
        vec![
            PassCommand::SetPipeline,
            PassCommand::SetBindGroup { slot: 0, group: BindGroupRef::Camera },
            PassCommand::SetBindGroup { slot: 1, group: BindGroupRef::ModelTransform },
            PassCommand::SetBindGroup { slot: 2, group: BindGroupRef::Material(1) },
            PassCommand::SetVertexBuffer { mesh: 0 },
            PassCommand::SetIndexBuffer { mesh: 0 },
            PassCommand::DrawIndexed { index_count: 36, instance_count: 1 },
            PassCommand::SetBindGroup { slot: 2, group: BindGroupRef::Material(1) },
            PassCommand::SetVertexBuffer { mesh: 1 },
            PassCommand::SetIndexBuffer { mesh: 1 },
            PassCommand::DrawIndexed { index_count: 6, instance_count: 1 },
        ]
    );
}

#[test]
fn extent_is_clamped_to_the_device_limit() {
    assert_eq!(clamp_extent_within(0, 0, 8192), (1, 1));
    assert_eq!(clamp_extent_within(1920, 1080, 8192), (1920, 1080));
    assert_eq!(clamp_extent_within(10000, 600, 8192), (8192, 600));
    assert_eq!(clamp_extent_within(u32::MAX, u32::MAX, 2048), (2048, 2048));
}

#[test]
fn empty_model_needs_no_material() {
    assert_eq!(scene_pass(&Vec::new(), 0).len(), 3);
}
