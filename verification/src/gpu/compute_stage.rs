//! The compute stage: it writes the traced image into the output texture.
use crate::gpu::descriptors::{collect_layouts, layout_views, owned_layout_views, ComputePipeline};
use crate::gpu::layout::{
    BindingResource, BindingType, Group, GroupEntry, GroupLayout, LayoutEntry, ShaderStages,
    TextureFormat,
};
use vstd::prelude::*;

verus! {

/// The layout of the compute stage's own group: the output texture at
/// binding 0, written and never read, seen by the compute stage alone.
pub open spec fn compute_layout(texture_format: TextureFormat) -> Seq<LayoutEntry> {
    seq![
        LayoutEntry {
            binding: 0,
            visibility: ShaderStages { compute: true, vertex: false, fragment: false },
            ty: BindingType::StorageTexture { format: texture_format },
        },
    ]
}

/// The compute stage's own group: the view of the output texture at
/// binding 0.
pub open spec fn compute_group() -> Seq<GroupEntry> {
    seq![GroupEntry { binding: 0, resource: BindingResource::OutputView }]
}

/// The layout and the bind group of the compute stage's own resources.
pub fn get_compute_bind_group(texture_format: TextureFormat) -> (r: (Vec<GroupLayout>, Vec<Group>))
    ensures
        r.0@.len() == 1,
        r.1@.len() == 1,
        r.0@[0]@ == compute_layout(texture_format),
        r.1@[0]@ == compute_group(),
        r.1@[0].matches(r.0@[0]),
{
    let mut entries: Vec<LayoutEntry> = Vec::new();
    entries.push(
        LayoutEntry {
            binding: 0,
            visibility: ShaderStages { compute: true, vertex: false, fragment: false },
            ty: BindingType::StorageTexture { format: texture_format },
        },
    );
    let bind_group_layout = GroupLayout { entries };

    let mut bound: Vec<GroupEntry> = Vec::new();
    bound.push(GroupEntry { binding: 0, resource: BindingResource::OutputView });
    let bind_group = Group { entries: bound };

    proof {
        assert(bind_group_layout@ =~= compute_layout(texture_format));
        assert(bind_group@ =~= compute_group());
    }
    let mut layouts: Vec<GroupLayout> = Vec::new();
    layouts.push(bind_group_layout);
    let mut groups: Vec<Group> = Vec::new();
    groups.push(bind_group);
    (layouts, groups)
}

/// The compute pipeline over the bind group layouts given, in their order.
pub fn get_compute_pipeline(bind_group_layouts: &[&GroupLayout]) -> (r: ComputePipeline)
    ensures
        owned_layout_views(r.layout@) == layout_views(bind_group_layouts@),
        r.entry_point == "compute_main",
{
    ComputePipeline { layout: collect_layouts(bind_group_layouts), entry_point: "compute_main" }
}

} // verus!
