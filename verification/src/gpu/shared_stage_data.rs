//! The uniform block that both stages read: the size of the viewport.
use crate::gpu::descriptors::{BufferDescriptor, BufferUsages};
use crate::gpu::layout::{
    BindingResource, BindingType, Group, GroupEntry, GroupLayout, LayoutEntry, ShaderStages,
};
use crate::ray_tracer::camera::{capacity, effective_size, Extent};
use vstd::prelude::*;

verus! {

/// Size in bytes of the uniform block: two 32-bit numbers.
pub const SHARED_UNIFORM_BYTES: u64 = 8;

/// What the shared stage data needs on the device.
#[derive(Clone, Copy, Debug, PartialEq, Eq, Structural)]
pub struct SharedStageData {
    pub size_update_buffer: BufferDescriptor,
}

/// The uniform block: the size of the viewport in pixels, never beyond the
/// capacity of the output texture.
#[derive(Clone, Copy, Debug, PartialEq, Eq, Structural)]
pub struct SharedStageUniform {
    pub size: Extent,
}

impl SharedStageUniform {
    /// The block for a viewport of the size `requested`.
    pub open spec fn for_size(requested: Extent) -> SharedStageUniform {
        SharedStageUniform { size: requested.clamped(capacity()) }
    }

    /// The block for a viewport of the size `requested`.
    pub fn new(requested: Extent) -> (r: SharedStageUniform)
        ensures
            r == Self::for_size(requested),
            r.size.fits_in(capacity()),
    {
        SharedStageUniform { size: effective_size(requested) }
    }
}

/// The layout of the shared group: the uniform block at binding 0, seen
/// by the compute, vertex and fragment stages.
pub open spec fn shared_layout() -> Seq<LayoutEntry> {
    seq![
        LayoutEntry {
            binding: 0,
            visibility: ShaderStages { compute: true, vertex: true, fragment: true },
            ty: BindingType::UniformBuffer,
        },
    ]
}

/// The shared group: the size buffer at binding 0.
pub open spec fn shared_group() -> Seq<GroupEntry> {
    seq![GroupEntry { binding: 0, resource: BindingResource::SizeBuffer }]
}

/// The buffer of the uniform block: as large as the block, written by
/// copies from the host.
pub fn get_shared_data() -> (r: SharedStageData)
    ensures
        r.size_update_buffer.size == SHARED_UNIFORM_BYTES,
        r.size_update_buffer.usage == (BufferUsages {
            map_read: false,
            copy_src: false,
            copy_dst: true,
            uniform: true,
            query_resolve: false,
        }),
{
    let size_update_buffer = BufferDescriptor {
        size: SHARED_UNIFORM_BYTES,
        usage: BufferUsages {
            map_read: false,
            copy_src: false,
            copy_dst: true,
            uniform: true,
            query_resolve: false,
        },
    };
    SharedStageData { size_update_buffer }
}

/// The layout and the bind group through which both stages read the
/// uniform block.
pub fn get_shared_stage_bind_group() -> (r: (Vec<GroupLayout>, Vec<Group>))
    ensures
        r.0@.len() == 1,
        r.1@.len() == 1,
        r.0@[0]@ == shared_layout(),
        r.1@[0]@ == shared_group(),
        r.1@[0].matches(r.0@[0]),
{
    let mut entries: Vec<LayoutEntry> = Vec::new();
    entries.push(
        LayoutEntry {
            binding: 0,
            visibility: ShaderStages { compute: true, vertex: true, fragment: true },
            ty: BindingType::UniformBuffer,
        },
    );
    let layout = GroupLayout { entries };

    let mut bound: Vec<GroupEntry> = Vec::new();
    bound.push(GroupEntry { binding: 0, resource: BindingResource::SizeBuffer });
    let group = Group { entries: bound };

    proof {
        assert(layout@ =~= shared_layout());
        assert(group@ =~= shared_group());
    }
    let mut layouts: Vec<GroupLayout> = Vec::new();
    layouts.push(layout);
    let mut groups: Vec<Group> = Vec::new();
    groups.push(group);
    (layouts, groups)
}

} // verus!
