use ray_tracer::gpu::compute_stage::{get_compute_bind_group, get_compute_pipeline};
use ray_tracer::gpu::concat_bind_group_layouts;
use ray_tracer::gpu::layout::{
    groups_fit_layout, BindingResource, BindingType, Group, GroupEntry, GroupLayout, LayoutEntry,
    ShaderStages, TextureFormat,
};
use ray_tracer::gpu::render_stage::{
    get_output_texture, get_render_bind_group, get_render_pipeline, get_texture_sampler,
};
use ray_tracer::gpu::descriptors::FilterMode;
use ray_tracer::gpu::shared_stage_data::{get_shared_data, get_shared_stage_bind_group};

fn owned(layouts: &[&GroupLayout]) -> Vec<GroupLayout> {
    layouts.iter().map(|layout| layout.duplicate()).collect()
}

#[test]
fn compute_group_binds_storage_texture_at_zero() {
    let (layouts, groups) = get_compute_bind_group(TextureFormat::Rgba8Unorm);
    assert_eq!(layouts.len(), 1);
    assert_eq!(groups.len(), 1);
    assert_eq!(
        layouts[0].entries,
        vec![LayoutEntry {
            binding: 0,
            visibility: ShaderStages { compute: true, vertex: false, fragment: false },
            ty: BindingType::StorageTexture { format: TextureFormat::Rgba8Unorm },
        }]
    );
    assert_eq!(
        groups[0].entries,
        vec![GroupEntry { binding: 0, resource: BindingResource::OutputView }]
    );
    assert!(groups[0].fits_layout(&layouts[0]));
}

#[test]
fn render_group_binds_texture_then_sampler() {
    let (layouts, groups) = get_render_bind_group();
    assert_eq!(layouts.len(), 1);
    assert_eq!(
        layouts[0].entries,
        vec![
            LayoutEntry {
                binding: 0,
                visibility: ShaderStages { compute: false, vertex: true, fragment: true },
                ty: BindingType::Texture { filterable: true },
            },
            LayoutEntry {
                binding: 1,
                visibility: ShaderStages { compute: false, vertex: false, fragment: true },
                ty: BindingType::Sampler { filtering: false },
            },
        ]
    );
    assert_eq!(
        groups[0].entries,
        vec![
            GroupEntry { binding: 0, resource: BindingResource::OutputView },
            GroupEntry { binding: 1, resource: BindingResource::NearestSampler },
        ]
    );
    assert!(groups[0].fits_layout(&layouts[0]));
}

#[test]
fn shared_group_binds_uniform_for_all_stages() {
    let (layouts, groups) = get_shared_stage_bind_group();
    assert_eq!(
        layouts[0].entries,
        vec![LayoutEntry {
            binding: 0,
            visibility: ShaderStages { compute: true, vertex: true, fragment: true },
            ty: BindingType::UniformBuffer,
        }]
    );
    assert_eq!(
        groups[0].entries,
        vec![GroupEntry { binding: 0, resource: BindingResource::SizeBuffer }]
    );
    let data = get_shared_data();
    assert_eq!(data.size_update_buffer.size, 8);
    assert!(data.size_update_buffer.usage.uniform && data.size_update_buffer.usage.copy_dst);
    assert!(!data.size_update_buffer.usage.map_read);
}

#[test]
fn sampler_is_nearest_and_texture_has_capacity() {
    let sampler = get_texture_sampler();
    assert_eq!((sampler.mag_filter, sampler.min_filter), (FilterMode::Nearest, FilterMode::Nearest));
    let texture = get_output_texture();
    assert_eq!((texture.size.width, texture.size.height), (1920, 1080));
    assert_eq!(texture.format, TextureFormat::Rgba8Unorm);
    assert!(texture.usage.storage_binding && texture.usage.texture_binding && texture.usage.copy_dst);
    assert_eq!((texture.mip_level_count, texture.sample_count), (1, 1));
}

#[test]
fn concat_lists_local_layouts_before_shared() {
    let (compute_layouts, _) = get_compute_bind_group(TextureFormat::Rgba8Unorm);
    let (shared_layouts, _) = get_shared_stage_bind_group();
    let slots = concat_bind_group_layouts(&compute_layouts, &shared_layouts);
    assert_eq!(slots.len(), 2);
    assert!(std::ptr::eq(slots[0], &compute_layouts[0]));
    assert!(std::ptr::eq(slots[1], &shared_layouts[0]));
    let pipeline = get_compute_pipeline(&slots);
    assert_eq!(pipeline.entry_point, "compute_main");
    assert_eq!(pipeline.layout.len(), 2);
    assert_eq!(pipeline.layout[0].entries, compute_layouts[0].entries);
    assert_eq!(pipeline.layout[1].entries, shared_layouts[0].entries);
}

#[test]
fn concat_of_empty_lists_is_empty() {
    let none: Vec<GroupLayout> = Vec::new();
    assert!(concat_bind_group_layouts(&none, &none).is_empty());
    let (render_layouts, _) = get_render_bind_group();
    assert_eq!(concat_bind_group_layouts(&render_layouts, &none).len(), 1);
    assert_eq!(concat_bind_group_layouts(&none, &render_layouts).len(), 1);
    let pipeline = get_render_pipeline(&concat_bind_group_layouts(&none, &none));
    assert_eq!(pipeline.layout.len(), 0);
    assert_eq!(pipeline.vertex_entry_point, "vertex_main");
    assert_eq!(pipeline.fragment_entry_point, "fragment_main");
}

#[test]
fn binding_symmetry_holds_for_local_then_shared() {
    let (render_layouts, render_groups) = get_render_bind_group();
    let (shared_layouts, shared_groups) = get_shared_stage_bind_group();
    let layout = owned(&concat_bind_group_layouts(&render_layouts, &shared_layouts));
    assert!(groups_fit_layout(&layout, &render_groups, &shared_groups));
}

#[test]
fn binding_symmetry_fails_when_order_is_swapped() {
    let (render_layouts, render_groups) = get_render_bind_group();
    let (shared_layouts, shared_groups) = get_shared_stage_bind_group();
    // the pipeline layout lists the shared layout first, the pass binds the local group first
    let swapped = owned(&concat_bind_group_layouts(&shared_layouts, &render_layouts));
    assert!(!groups_fit_layout(&swapped, &render_groups, &shared_groups));
    // the pass binds the shared group first against a layout that lists it last
    let layout = owned(&concat_bind_group_layouts(&render_layouts, &shared_layouts));
    assert!(!groups_fit_layout(&layout, &shared_groups, &render_groups));
}

#[test]
fn binding_symmetry_fails_on_missing_or_extra_group() {
    let (compute_layouts, compute_groups) = get_compute_bind_group(TextureFormat::Rgba8Unorm);
    let (shared_layouts, shared_groups) = get_shared_stage_bind_group();
    let layout = owned(&concat_bind_group_layouts(&compute_layouts, &shared_layouts));
    let none: Vec<Group> = Vec::new();
    assert!(!groups_fit_layout(&layout, &compute_groups, &none));
    assert!(!groups_fit_layout(&layout, &none, &shared_groups));
    let local_only = owned(&concat_bind_group_layouts(&compute_layouts, &Vec::new()));
    assert!(!groups_fit_layout(&local_only, &compute_groups, &shared_groups));
    assert!(groups_fit_layout(&local_only, &compute_groups, &none));
}

#[test]
fn group_with_wrong_binding_or_resource_does_not_fit() {
    let (layouts, _) = get_render_bind_group();
    let wrong_binding = Group {
        entries: vec![
            GroupEntry { binding: 1, resource: BindingResource::OutputView },
            GroupEntry { binding: 0, resource: BindingResource::NearestSampler },
        ],
    };
    assert!(!wrong_binding.fits_layout(&layouts[0]));
    let wrong_resource = Group {
        entries: vec![
            GroupEntry { binding: 0, resource: BindingResource::NearestSampler },
            GroupEntry { binding: 1, resource: BindingResource::OutputView },
        ],
    };
    assert!(!wrong_resource.fits_layout(&layouts[0]));
    let short = Group { entries: vec![GroupEntry { binding: 0, resource: BindingResource::OutputView }] };
    assert!(!short.fits_layout(&layouts[0]));
}

#[test]
fn resources_accept_only_their_own_binding_types() {
    let storage = BindingType::StorageTexture { format: TextureFormat::Rgba8Unorm };
    let texture = BindingType::Texture { filterable: true };
    let sampler = BindingType::Sampler { filtering: false };
    let uniform = BindingType::UniformBuffer;
    assert!(BindingResource::OutputView.accepts(storage));
    assert!(BindingResource::OutputView.accepts(texture));
    assert!(!BindingResource::OutputView.accepts(sampler));
    assert!(!BindingResource::OutputView.accepts(uniform));
    assert!(BindingResource::NearestSampler.accepts(sampler));
    assert!(!BindingResource::NearestSampler.accepts(texture));
    assert!(BindingResource::SizeBuffer.accepts(uniform));
    assert!(!BindingResource::SizeBuffer.accepts(storage));
}
