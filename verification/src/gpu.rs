//! The GPU side of a frame, as plain data: what each bind group holds, where
//! each group is bound, and the commands that a frame submits.
pub mod commands;
pub mod compute_stage;
pub mod descriptors;
pub mod layout;
pub mod render_stage;
pub mod renderer;
pub mod shared_stage_data;
pub mod timing;

use crate::gpu::compute_stage::{compute_group, compute_layout};
use crate::gpu::compute_stage::{get_compute_bind_group, get_compute_pipeline};
use crate::gpu::descriptors::{
    layout_views, owned_layout_views, BufferDescriptor, BufferUsages, QuerySetDescriptor,
    TimeQuery,
};
use crate::gpu::layout::{
    group_at, layout_matches_groups, slot_source, Group, GroupLayout, TextureFormat,
};
use crate::gpu::render_stage::{
    get_output_texture, get_render_bind_group, get_render_pipeline, get_texture_sampler,
    render_group, render_layout,
};
use crate::gpu::renderer::RenderResources;
use crate::gpu::shared_stage_data::{
    get_shared_data, get_shared_stage_bind_group, shared_group, shared_layout,
};
use crate::gpu::timing::{TimingProbe, QUERY_COUNT, READBACK_BYTES, TIMESTAMP_BYTES};
use crate::ray_tracer::camera::capacity;
use vstd::prelude::*;

verus! {

/// What the timing needs on the device: two timestamp queries, a buffer
/// that they are resolved into and copied from, and a staging buffer that
/// is copied into and mapped for reading. Both buffers hold exactly the
/// two timestamps.
pub open spec fn time_query_resources() -> TimeQuery {
    TimeQuery {
        query_set: QuerySetDescriptor { count: QUERY_COUNT },
        read_buffer: BufferDescriptor {
            size: READBACK_BYTES,
            usage: BufferUsages {
                map_read: true,
                copy_src: false,
                copy_dst: true,
                uniform: false,
                query_resolve: false,
            },
        },
        write_buffer: BufferDescriptor {
            size: READBACK_BYTES,
            usage: BufferUsages {
                map_read: false,
                copy_src: true,
                copy_dst: false,
                uniform: false,
                query_resolve: true,
            },
        },
    }
}

/// The query for a timestamp to see how long the compute shader lasts:
/// none on a device that cannot write timestamps.
pub fn get_time_query(timestamp_query: bool) -> (r: Option<TimeQuery>)
    ensures
        r == if timestamp_query {
            Some(time_query_resources())
        } else {
            None
        },
        r matches Some(query) ==> query.read_buffer.size == query.query_set.count
            * TIMESTAMP_BYTES && query.write_buffer.size == query.read_buffer.size,
{
    if !timestamp_query {
        return None;
    }
    let read_buffer = BufferDescriptor {
        size: READBACK_BYTES,
        usage: BufferUsages {
            map_read: true,
            copy_src: false,
            copy_dst: true,
            uniform: false,
            query_resolve: false,
        },
    };

    let write_buffer = BufferDescriptor {
        size: READBACK_BYTES,
        usage: BufferUsages {
            map_read: false,
            copy_src: true,
            copy_dst: false,
            uniform: false,
            query_resolve: true,
        },
    };

    let query_set = QuerySetDescriptor { count: QUERY_COUNT };

    Some(TimeQuery { query_set, read_buffer, write_buffer })
}

/// The bind group layouts of a pipeline: those of `layout1` in order,
/// then those of `layout2` in order.
pub fn concat_bind_group_layouts<'a>(
    layout1: &'a Vec<GroupLayout>,
    layout2: &'a Vec<GroupLayout>,
) -> (r: Vec<&'a GroupLayout>)
    ensures
        r@.len() == layout1@.len() + layout2@.len(),
        forall|i: int| 0 <= i < layout1@.len() ==> *(#[trigger] r@[i]) == layout1@[i],
        forall|i: int|
            layout1@.len() <= i < r@.len() ==> *(#[trigger] r@[i]) == layout2@[i - layout1@.len()],
{
    let mut refs: Vec<&'a GroupLayout> = Vec::new();
    let mut i: usize = 0;
    while i < layout1.len()
        invariant
            i <= layout1@.len(),
            refs@.len() == i,
            forall|k: int| 0 <= k < i ==> *(#[trigger] refs@[k]) == layout1@[k],
        decreases layout1@.len() - i,
    {
        refs.push(&layout1[i]);
        i = i + 1;
    }
    let mut j: usize = 0;
    while j < layout2.len()
        invariant
            j <= layout2@.len(),
            refs@.len() == layout1@.len() + j,
            forall|k: int| 0 <= k < layout1@.len() ==> *(#[trigger] refs@[k]) == layout1@[k],
            forall|k: int|
                layout1@.len() <= k < refs@.len() ==> *(#[trigger] refs@[k]) == layout2@[k
                    - layout1@.len()],
        decreases layout2@.len() - j,
    {
        refs.push(&layout2[j]);
        j = j + 1;
    }
    refs
}

/// A pipeline layout that is the concatenation of the stage's own layouts
/// and the shared layouts is matched by the stage's own groups followed by
/// the shared groups, where each group fits its own layout and the groups
/// are no more than a vector can hold.
pub proof fn concatenation_matches_groups(
    local_layouts: Seq<GroupLayout>,
    shared_layouts: Seq<GroupLayout>,
    local: Seq<Group>,
    shared: Seq<Group>,
)
    requires
        local.len() == local_layouts.len(),
        shared.len() == shared_layouts.len(),
        local.len() + shared.len() <= usize::MAX,
        forall|i: int| 0 <= i < local.len() ==> (#[trigger] local[i]).matches(local_layouts[i]),
        forall|j: int| 0 <= j < shared.len() ==> (#[trigger] shared[j]).matches(shared_layouts[j]),
    ensures
        layout_matches_groups(local_layouts + shared_layouts, local, shared),
{
    let layout = local_layouts + shared_layouts;
    assert forall|i: int| 0 <= i < layout.len() implies group_at(
        local,
        shared,
        slot_source(local.len(), i),
    ).matches(#[trigger] layout[i]) by {
        if i < local.len() {
            assert(local[i].matches(local_layouts[i]));
        } else {
            assert(shared[i - local.len()].matches(shared_layouts[i - local.len()]));
        }
    }
}

/// Describes everything that the two stages own. Each pipeline layout is
/// the stage's own layout followed by the shared layout.
pub fn get_render_resources(timestamp_query: bool) -> (r: RenderResources)
    ensures
        r.well_formed(),
        r.probe == TimingProbe::initial(timestamp_query),
        r.time_query == if timestamp_query {
            Some(time_query_resources())
        } else {
            None
        },
        owned_layout_views(r.compute_pipeline.layout@) == seq![
            compute_layout(TextureFormat::Rgba8Unorm),
            shared_layout(),
        ],
        owned_layout_views(r.render_pipeline.layout@) == seq![render_layout(), shared_layout()],
        r.compute_bind_groups@.len() == 1 && r.compute_bind_groups@[0]@ == compute_group(),
        r.render_bind_groups@.len() == 1 && r.render_bind_groups@[0]@ == render_group(),
        r.shared_stage_bind_groups@.len() == 1 && r.shared_stage_bind_groups@[0]@
            == shared_group(),
        r.output_texture.size == capacity(),
{
    let shared_stage_data = get_shared_data();

    let (shared_bind_group_layouts, shared_stage_bind_groups) = get_shared_stage_bind_group();

    let output_texture = get_output_texture();

    let (compute_bind_group_layouts, compute_bind_groups) = get_compute_bind_group(
        output_texture.format,
    );

    let (render_bind_group_layouts, render_bind_groups) = get_render_bind_group();
    let render_slots = concat_bind_group_layouts(
        &render_bind_group_layouts,
        &shared_bind_group_layouts,
    );
    let render_pipeline = get_render_pipeline(render_slots.as_slice());
    let compute_slots = concat_bind_group_layouts(
        &compute_bind_group_layouts,
        &shared_bind_group_layouts,
    );
    let compute_pipeline = get_compute_pipeline(compute_slots.as_slice());
    proof {
        let render_views = owned_layout_views(render_pipeline.layout@);
        assert(render_views == layout_views(render_slots@));
        assert(render_views.len() == 2);
        assert(render_views[0] == render_pipeline.layout@[0]@);
        assert(render_views[1] == render_pipeline.layout@[1]@);
        assert(render_views =~= seq![render_layout(), shared_layout()]);
        let compute_views = owned_layout_views(compute_pipeline.layout@);
        assert(compute_views == layout_views(compute_slots@));
        assert(compute_views.len() == 2);
        assert(compute_views[0] == compute_pipeline.layout@[0]@);
        assert(compute_views[1] == compute_pipeline.layout@[1]@);
        assert(compute_views =~= seq![compute_layout(TextureFormat::Rgba8Unorm), shared_layout()]);
    }
    RenderResources {
        render_pipeline,
        compute_pipeline,
        render_bind_groups,
        compute_bind_groups,
        shared_stage_data,
        shared_stage_bind_groups,
        output_texture,
        texture_sampler: get_texture_sampler(),
        time_query: get_time_query(timestamp_query),
        probe: TimingProbe::new(timestamp_query),
    }
}

} // verus!
