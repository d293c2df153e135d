//! Descriptions of the buffers, the texture, the sampler and the pipelines
//! that the caller creates on the device.
use crate::gpu::layout::{GroupLayout, LayoutEntry, TextureFormat};
use crate::ray_tracer::camera::Extent;
use vstd::prelude::*;

verus! {

/// What a buffer may be used for.
#[derive(Clone, Copy, Debug, PartialEq, Eq, Structural)]
pub struct BufferUsages {
    pub map_read: bool,
    pub copy_src: bool,
    pub copy_dst: bool,
    pub uniform: bool,
    pub query_resolve: bool,
}

/// A buffer of `size` bytes.
#[derive(Clone, Copy, Debug, PartialEq, Eq, Structural)]
pub struct BufferDescriptor {
    pub size: u64,
    pub usage: BufferUsages,
}

/// What a texture may be used for.
#[derive(Clone, Copy, Debug, PartialEq, Eq, Structural)]
pub struct TextureUsages {
    pub copy_dst: bool,
    pub storage_binding: bool,
    pub texture_binding: bool,
}

/// A two-dimensional texture of one layer.
#[derive(Clone, Copy, Debug, PartialEq, Eq, Structural)]
pub struct TextureDescriptor {
    pub size: Extent,
    pub format: TextureFormat,
    pub usage: TextureUsages,
    pub mip_level_count: u32,
    pub sample_count: u32,
}

/// How a sampler picks a colour between pixels.
#[derive(Clone, Copy, Debug, PartialEq, Eq, Structural)]
pub enum FilterMode {
    Nearest,
    Linear,
}

/// A sampler.
#[derive(Clone, Copy, Debug, PartialEq, Eq, Structural)]
pub struct SamplerDescriptor {
    pub mag_filter: FilterMode,
    pub min_filter: FilterMode,
}

/// A set of `count` timestamp queries.
#[derive(Clone, Copy, Debug, PartialEq, Eq, Structural)]
pub struct QuerySetDescriptor {
    pub count: u32,
}

/// What the timing of the compute pass needs on the device.
#[derive(Clone, Copy, Debug, PartialEq, Eq, Structural)]
pub struct TimeQuery {
    pub query_set: QuerySetDescriptor,
    /// The staging buffer, which the host maps and reads.
    pub read_buffer: BufferDescriptor,
    /// The buffer that the queries are resolved into.
    pub write_buffer: BufferDescriptor,
}

/// The compute pipeline: its bind group layouts in slot order and the
/// name of the shader function that it runs.
#[derive(Debug)]
pub struct ComputePipeline {
    pub layout: Vec<GroupLayout>,
    pub entry_point: &'static str,
}

/// The render pipeline: its bind group layouts in slot order and the names
/// of the shader functions that it runs. It takes no vertex buffer.
#[derive(Debug)]
pub struct RenderPipeline {
    pub layout: Vec<GroupLayout>,
    pub vertex_entry_point: &'static str,
    pub fragment_entry_point: &'static str,
}

/// The views of the layouts `given`, slot by slot.
pub open spec fn layout_views(given: Seq<&GroupLayout>) -> Seq<Seq<LayoutEntry>> {
    Seq::new(given.len(), |i: int| given[i]@)
}

/// The views of the layouts `owned`, slot by slot.
pub open spec fn owned_layout_views(owned: Seq<GroupLayout>) -> Seq<Seq<LayoutEntry>> {
    Seq::new(owned.len(), |i: int| owned[i]@)
}

/// Copies the layouts `given` in order.
pub fn collect_layouts(given: &[&GroupLayout]) -> (r: Vec<GroupLayout>)
    ensures
        owned_layout_views(r@) == layout_views(given@),
{
    let mut layout: Vec<GroupLayout> = Vec::new();
    let mut i: usize = 0;
    while i < given.len()
        invariant
            i <= given@.len(),
            layout@.len() == i,
            forall|j: int| 0 <= j < i ==> (#[trigger] layout@[j])@ == given@[j]@,
        decreases given@.len() - i,
    {
        layout.push(given[i].duplicate());
        i = i + 1;
    }
    proof {
        assert(owned_layout_views(layout@) =~= layout_views(given@));
    }
    layout
}

} // verus!
