//! The render stage: it draws the output texture over the viewport.
use crate::gpu::descriptors::{
    collect_layouts, layout_views, owned_layout_views, FilterMode, RenderPipeline,
    SamplerDescriptor, TextureDescriptor, TextureUsages,
};
use crate::gpu::layout::{
    BindingResource, BindingType, Group, GroupEntry, GroupLayout, LayoutEntry, ShaderStages,
    TextureFormat,
};
use crate::ray_tracer::camera::{capacity, output_texture_dimensions};
use vstd::prelude::*;

verus! {

/// Number of vertices of the two triangles that cover the viewport.
pub const QUAD_VERTICES: u32 = 6;

/// The layout of the render stage's own group: the output texture at
/// binding 0, seen by the vertex and fragment stages, and its sampler at
/// binding 1, seen by the fragment stage.
pub open spec fn render_layout() -> Seq<LayoutEntry> {
    seq![
        LayoutEntry {
            binding: 0,
            visibility: ShaderStages { compute: false, vertex: true, fragment: true },
            ty: BindingType::Texture { filterable: true },
        },
        LayoutEntry {
            binding: 1,
            visibility: ShaderStages { compute: false, vertex: false, fragment: true },
            ty: BindingType::Sampler { filtering: false },
        },
    ]
}

/// The render stage's own group: the view of the output texture at
/// binding 0 and the sampler at binding 1.
pub open spec fn render_group() -> Seq<GroupEntry> {
    seq![
        GroupEntry { binding: 0, resource: BindingResource::OutputView },
        GroupEntry { binding: 1, resource: BindingResource::NearestSampler },
    ]
}

/// The sampler of the render stage: the nearest pixel, never a blend.
pub fn get_texture_sampler() -> (r: SamplerDescriptor)
    ensures
        r == (SamplerDescriptor { mag_filter: FilterMode::Nearest, min_filter: FilterMode::Nearest }),
{
    SamplerDescriptor { mag_filter: FilterMode::Nearest, min_filter: FilterMode::Nearest }
}

/// The layout and the bind group of the render stage's own resources.
pub fn get_render_bind_group() -> (r: (Vec<GroupLayout>, Vec<Group>))
    ensures
        r.0@.len() == 1,
        r.1@.len() == 1,
        r.0@[0]@ == render_layout(),
        r.1@[0]@ == render_group(),
        r.1@[0].matches(r.0@[0]),
{
    let mut entries: Vec<LayoutEntry> = Vec::new();
    entries.push(
        LayoutEntry {
            binding: 0,
            visibility: ShaderStages { compute: false, vertex: true, fragment: true },
            ty: BindingType::Texture { filterable: true },
        },
    );
    entries.push(
        LayoutEntry {
            binding: 1,
            visibility: ShaderStages { compute: false, vertex: false, fragment: true },
            ty: BindingType::Sampler { filtering: false },
        },
    );
    let bind_group_layout = GroupLayout { entries };

    let mut bound: Vec<GroupEntry> = Vec::new();
    bound.push(GroupEntry { binding: 0, resource: BindingResource::OutputView });
    bound.push(GroupEntry { binding: 1, resource: BindingResource::NearestSampler });
    let bind_group = Group { entries: bound };

    proof {
        assert(bind_group_layout@ =~= render_layout());
        assert(bind_group@ =~= render_group());
    }
    let mut layouts: Vec<GroupLayout> = Vec::new();
    layouts.push(bind_group_layout);
    let mut groups: Vec<Group> = Vec::new();
    groups.push(bind_group);
    (layouts, groups)
}

/// The render pipeline over the bind group layouts given, in their order.
pub fn get_render_pipeline(bind_group_layouts: &[&GroupLayout]) -> (r: RenderPipeline)
    ensures
        owned_layout_views(r.layout@) == layout_views(bind_group_layouts@),
        r.vertex_entry_point == "vertex_main",
        r.fragment_entry_point == "fragment_main",
{
    RenderPipeline {
        layout: collect_layouts(bind_group_layouts),
        vertex_entry_point: "vertex_main",
        fragment_entry_point: "fragment_main",
    }
}

/// The output texture: as large as the capacity, written by the compute
/// stage and sampled by the render stage. It is never resized.
pub fn get_output_texture() -> (r: TextureDescriptor)
    ensures
        r.size == capacity(),
        r.format == TextureFormat::Rgba8Unorm,
        r.usage == (TextureUsages { copy_dst: true, storage_binding: true, texture_binding: true }),
        r.mip_level_count == 1,
        r.sample_count == 1,
{
    TextureDescriptor {
        size: output_texture_dimensions(),
        format: TextureFormat::Rgba8Unorm,
        usage: TextureUsages { copy_dst: true, storage_binding: true, texture_binding: true },
        mip_level_count: 1,
        sample_count: 1,
    }
}

} // verus!
