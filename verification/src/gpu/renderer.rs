//! The frame orchestrator: what one frame submits, phase by phase.
//!
//! A frame has three phases. `prepare` uploads the viewport size and runs
//! the compute pass between the two timestamps. `finish_prepare` resolves
//! the timestamps and asks for them to be read back. `paint` draws the
//! output texture. Each phase returns its commands in submission order.
use crate::gpu::commands::{bind_steps, push_bind_groups, Command};
use crate::gpu::descriptors::{
    ComputePipeline, RenderPipeline, SamplerDescriptor, TextureDescriptor, TimeQuery,
};
use crate::gpu::layout::{
    group_at, groups_fit_layout, layout_matches_groups, slot_source, Group, GroupLayout,
    GroupSource,
};
use crate::gpu::render_stage::QUAD_VERTICES;
use crate::gpu::shared_stage_data::{SharedStageData, SharedStageUniform};
use crate::gpu::timing::{TimingProbe, BEGIN_SLOT, END_SLOT, QUERY_COUNT, READBACK_BYTES};
use crate::ray_tracer::camera::{capacity, dispatch_grid, Extent, WORKGROUP_TILE};
use vstd::prelude::*;

verus! {

/// Everything that the two stages own, created once at start.
#[derive(Debug)]
pub struct RenderResources {
    pub render_pipeline: RenderPipeline,
    pub compute_pipeline: ComputePipeline,
    pub render_bind_groups: Vec<Group>,
    pub compute_bind_groups: Vec<Group>,
    pub shared_stage_data: SharedStageData,
    pub shared_stage_bind_groups: Vec<Group>,
    pub output_texture: TextureDescriptor,
    pub texture_sampler: SamplerDescriptor,
    pub time_query: Option<TimeQuery>,
    pub probe: TimingProbe,
}

/// The per-frame callback: the size that the host asks for, in whole
/// pixels.
#[derive(Clone, Copy, Debug, PartialEq, Eq, Structural)]
pub struct RenderCallBack {
    pub output_size: Extent,
}

/// The timestamp written into `slot`, where the device writes timestamps.
pub open spec fn timestamp_step(probe: TimingProbe, slot: u32) -> Seq<Command> {
    if probe is Active {
        seq![Command::WriteTimestamp { slot }]
    } else {
        Seq::empty()
    }
}

/// The commands of the finalize step: resolve both timestamps, copy them
/// into the staging buffer, have that buffer mapped, read it and unmap it.
/// There are none unless timestamps were written this frame.
pub open spec fn readback_steps(probe: TimingProbe) -> Seq<Command> {
    if probe.wants_readback() {
        seq![
            Command::ResolveQuerySet { first: BEGIN_SLOT, count: QUERY_COUNT, offset: 0 },
            Command::CopyToStaging { bytes: READBACK_BYTES },
            Command::MapStaging,
            Command::PollDevice,
            Command::ReadTimestamps,
            Command::UnmapStaging,
        ]
    } else {
        Seq::empty()
    }
}

/// The commands of the compute pass for a viewport of the size
/// `requested`, over `local` groups of the stage and `shared` groups.
pub open spec fn compute_pass_steps(requested: Extent, local: nat, shared: nat) -> Seq<Command> {
    seq![Command::BeginComputePass, Command::SetComputePipeline] + bind_steps(local, shared)
        + seq![
        Command::DispatchWorkgroups { grid: requested.clamped(capacity()).tiles(WORKGROUP_TILE) },
        Command::EndComputePass,
    ]
}

/// The commands of the render pass over `local` groups of the stage and
/// `shared` groups: the two triangles are drawn whatever the compute pass
/// did.
pub open spec fn render_pass_steps(local: nat, shared: nat) -> Seq<Command> {
    seq![Command::SetRenderPipeline] + bind_steps(local, shared) + seq![
        Command::Draw { vertices: QUAD_VERTICES, instances: 1 },
    ]
}

impl RenderResources {
    /// Each pipeline layout lists the stage's own groups first and the
    /// shared groups after them, every slot is filled by a group that fits
    /// it, every slot has an index, and the timing resources exist exactly
    /// where the device writes timestamps.
    pub open spec fn well_formed(self) -> bool {
        &&& layout_matches_groups(
            self.compute_pipeline.layout@,
            self.compute_bind_groups@,
            self.shared_stage_bind_groups@,
        )
        &&& layout_matches_groups(
            self.render_pipeline.layout@,
            self.render_bind_groups@,
            self.shared_stage_bind_groups@,
        )
        &&& self.compute_pipeline.layout@.len() <= u32::MAX
        &&& self.render_pipeline.layout@.len() <= u32::MAX
        &&& (self.time_query is Some) == (self.probe is Active)
    }

    /// The resources with the probe replaced.
    pub open spec fn with_probe(self, probe: TimingProbe) -> RenderResources {
        RenderResources { probe, ..self }
    }

    /// Tells whether the resources are well formed.
    pub fn is_well_formed(&self) -> (r: bool)
        ensures
            r == self.well_formed(),
    {
        let limit: usize = u32::MAX as usize;
        groups_fit_layout(
            &self.compute_pipeline.layout,
            &self.compute_bind_groups,
            &self.shared_stage_bind_groups,
        ) && groups_fit_layout(
            &self.render_pipeline.layout,
            &self.render_bind_groups,
            &self.shared_stage_bind_groups,
        ) && self.compute_pipeline.layout.len() <= limit && self.render_pipeline.layout.len()
            <= limit && self.time_query.is_some() == self.probe.is_supported()
    }
}

impl RenderCallBack {
    /// The commands of the first phase: the begin timestamp, the upload of
    /// the viewport size, the compute pass, the end timestamp.
    pub open spec fn prepare_plan(self, resources: RenderResources) -> Seq<Command> {
        timestamp_step(resources.probe, BEGIN_SLOT) + seq![
            Command::WriteUniform { uniform: SharedStageUniform::for_size(self.output_size) },
        ] + compute_pass_steps(
            self.output_size,
            resources.compute_bind_groups@.len(),
            resources.shared_stage_bind_groups@.len(),
        ) + timestamp_step(resources.probe, END_SLOT)
    }

    /// The commands of the last phase.
    pub open spec fn paint_plan(self, resources: RenderResources) -> Seq<Command> {
        render_pass_steps(
            resources.render_bind_groups@.len(),
            resources.shared_stage_bind_groups@.len(),
        )
    }

    /// The commands of a whole frame: the first phase, the finalize step,
    /// the render pass.
    pub open spec fn frame_plan(self, resources: RenderResources) -> Seq<Command> {
        self.prepare_plan(resources) + readback_steps(resources.probe.after_write())
            + self.paint_plan(resources)
    }

    pub fn new(output_size: Extent) -> (r: RenderCallBack)
        ensures
            r.output_size == output_size,
    {
        RenderCallBack { output_size }
    }

    /// The first phase of a frame. Afterwards the probe knows that the
    /// timestamps were written.
    pub fn prepare(&self, resources: &mut RenderResources) -> (commands: Vec<Command>)
        requires
            old(resources).well_formed(),
        ensures
            commands@ == self.prepare_plan(*old(resources)),
            *final(resources) == old(resources).with_probe(old(resources).probe.after_write()),
            final(resources).well_formed(),
    {
        let ghost probe = resources.probe;
        let ghost local = resources.compute_bind_groups@.len();
        let ghost shared = resources.shared_stage_bind_groups@.len();
        let mut commands: Vec<Command> = Vec::new();
        let timed = resources.probe.mark_written();
        if timed {
            // write the query before computing
            commands.push(Command::WriteTimestamp { slot: BEGIN_SLOT });
        }
        assert(commands@ =~= timestamp_step(probe, BEGIN_SLOT));
        commands.push(Command::WriteUniform { uniform: SharedStageUniform::new(self.output_size) });
        commands.push(Command::BeginComputePass);
        commands.push(Command::SetComputePipeline);
        let ghost head = commands@;
        push_bind_groups(
            &mut commands,
            resources.compute_bind_groups.len(),
            resources.shared_stage_bind_groups.len(),
        );
        commands.push(Command::DispatchWorkgroups { grid: dispatch_grid(self.output_size) });
        commands.push(Command::EndComputePass);
        assert(commands@ =~= timestamp_step(probe, BEGIN_SLOT) + seq![
            Command::WriteUniform { uniform: SharedStageUniform::for_size(self.output_size) },
        ] + compute_pass_steps(self.output_size, local, shared));
        if timed {
            commands.push(Command::WriteTimestamp { slot: END_SLOT });
        }
        assert(commands@ =~= self.prepare_plan(*old(resources)));
        commands
    }

    /// The finalize step of a frame. Afterwards the probe waits for the
    /// bytes of the staging buffer, where there is anything to read.
    pub fn finish_prepare(&self, resources: &mut RenderResources) -> (commands: Vec<Command>)
        ensures
            commands@ == readback_steps(old(resources).probe),
            *final(resources) == old(resources).with_probe(old(resources).probe.after_request()),
            old(resources).well_formed() ==> final(resources).well_formed(),
    {
        let mut commands: Vec<Command> = Vec::new();
        if resources.probe.request_readback() {
            commands.push(
                Command::ResolveQuerySet { first: BEGIN_SLOT, count: QUERY_COUNT, offset: 0 },
            );
            commands.push(Command::CopyToStaging { bytes: READBACK_BYTES });
            commands.push(Command::MapStaging);
            // wait for the map to be mapped
            commands.push(Command::PollDevice);
            commands.push(Command::ReadTimestamps);
            commands.push(Command::UnmapStaging);
        }
        assert(commands@ =~= readback_steps(old(resources).probe));
        commands
    }

    /// The last phase of a frame: the render pass.
    pub fn paint(&self, resources: &RenderResources) -> (commands: Vec<Command>)
        requires
            resources.well_formed(),
        ensures
            commands@ == self.paint_plan(*resources),
    {
        let mut commands: Vec<Command> = Vec::new();
        commands.push(Command::SetRenderPipeline);
        push_bind_groups(
            &mut commands,
            resources.render_bind_groups.len(),
            resources.shared_stage_bind_groups.len(),
        );
        commands.push(Command::Draw { vertices: QUAD_VERTICES, instances: 1 });
        assert(commands@ =~= self.paint_plan(*resources));
        commands
    }
}

/// A pipeline layout and the bind commands of its pass agree slot by slot:
/// slot `i` is bound at index `i`; below the number of the stage's own
/// groups it is bound to one of them, from there on to a shared group; and
/// the group bound fits the layout of the slot.
pub proof fn binding_follows_layout(
    layout: Seq<GroupLayout>,
    local: Seq<Group>,
    shared: Seq<Group>,
    i: int,
)
    requires
        layout_matches_groups(layout, local, shared),
        layout.len() <= u32::MAX,
        0 <= i < layout.len(),
    ensures
        bind_steps(local.len(), shared.len()).len() == layout.len(),
        bind_steps(local.len(), shared.len())[i] == (Command::SetBindGroup {
            index: i as u32,
            source: slot_source(local.len(), i),
        }),
        i < local.len() ==> slot_source(local.len(), i) == GroupSource::Local(i as usize),
        i >= local.len() ==> slot_source(local.len(), i) == GroupSource::Shared(
            (i - local.len()) as usize,
        ),
        group_at(local, shared, slot_source(local.len(), i)).matches(layout[i]),
{
}

/// Every frame uploads and dispatches over the same effective size: the
/// request limited to the capacity. A request that reaches the capacity on
/// both axes uploads exactly the capacity and dispatches the whole tiles of
/// the capacity; a request inside the capacity uploads itself, and an axis
/// of length zero gets no workgroups.
pub proof fn frame_uses_effective_size(callback: RenderCallBack, resources: RenderResources)
    ensures
        ({
            let plan = callback.prepare_plan(resources);
            let first: int = if resources.probe is Active {
                1
            } else {
                0
            };
            let groups = (resources.compute_bind_groups@.len()
                + resources.shared_stage_bind_groups@.len()) as int;
            let size = callback.output_size.clamped(capacity());
            &&& plan[first] == (Command::WriteUniform { uniform: SharedStageUniform { size } })
            &&& plan[first + groups + 3] == (Command::DispatchWorkgroups {
                grid: size.tiles(WORKGROUP_TILE),
            })
            &&& size.clamped(capacity()) == size
            &&& callback.output_size.covers(capacity()) ==> size == capacity()
            &&& callback.output_size.fits_in(capacity()) ==> size == callback.output_size
            &&& size.width == 0 ==> size.tiles(WORKGROUP_TILE).x == 0
            &&& size.height == 0 ==> size.tiles(WORKGROUP_TILE).y == 0
        }),
{
}

/// Across a whole frame on a device with timestamps the commands come in
/// this order: begin timestamp, upload, compute pass with its dispatch, end
/// timestamp, resolve, copy, map, poll, read, unmap, render pass. On any
/// device the frame ends with the draw of the two triangles.
pub proof fn frame_order(callback: RenderCallBack, resources: RenderResources)
    ensures
        callback.frame_plan(resources).last() == (Command::Draw {
            vertices: QUAD_VERTICES,
            instances: 1,
        }),
        resources.probe is Active ==> ({
            let plan = callback.frame_plan(resources);
            let compute = (resources.compute_bind_groups@.len()
                + resources.shared_stage_bind_groups@.len()) as int;
            let render = (resources.render_bind_groups@.len()
                + resources.shared_stage_bind_groups@.len()) as int;
            &&& plan.len() == compute + render + 15
            &&& plan[0] == (Command::WriteTimestamp { slot: BEGIN_SLOT })
            &&& plan[1] is WriteUniform
            &&& plan[2] == Command::BeginComputePass
            &&& plan[compute + 4] is DispatchWorkgroups
            &&& plan[compute + 5] == Command::EndComputePass
            &&& plan[compute + 6] == (Command::WriteTimestamp { slot: END_SLOT })
            &&& plan[compute + 7] is ResolveQuerySet
            &&& plan[compute + 8] is CopyToStaging
            &&& plan[compute + 9] == Command::MapStaging
            &&& plan[compute + 10] == Command::PollDevice
            &&& plan[compute + 11] == Command::ReadTimestamps
            &&& plan[compute + 12] == Command::UnmapStaging
            &&& plan[compute + 13] == Command::SetRenderPipeline
            &&& plan[compute + render + 14] is Draw
        }),
{
}

/// On a device without timestamps no phase of a frame holds a command of
/// the timing: no query is written, resolved, copied, mapped or read.
pub proof fn unsupported_frames_skip_timing(callback: RenderCallBack, resources: RenderResources)
    requires
        resources.probe is Unsupported,
    ensures
        forall|k: int|
            0 <= k < callback.prepare_plan(resources).len() ==> !(
            #[trigger] callback.prepare_plan(resources)[k]).is_timing(),
        readback_steps(resources.probe).len() == 0,
        readback_steps(resources.probe.after_write()).len() == 0,
        forall|k: int|
            0 <= k < callback.paint_plan(resources).len() ==> !(#[trigger] callback.paint_plan(
                resources,
            )[k]).is_timing(),
{
}

/// Within the first phase the upload of the viewport size comes before the
/// dispatch, and the dispatch before the end timestamp; the two timestamps
/// are the first and the last command.
pub proof fn prepare_order(callback: RenderCallBack, resources: RenderResources)
    requires
        resources.probe is Active,
    ensures
        ({
            let plan = callback.prepare_plan(resources);
            let groups = (resources.compute_bind_groups@.len()
                + resources.shared_stage_bind_groups@.len()) as int;
            &&& plan.len() == groups + 7
            &&& plan[0] == (Command::WriteTimestamp { slot: BEGIN_SLOT })
            &&& plan[1] == (Command::WriteUniform {
                uniform: SharedStageUniform::for_size(callback.output_size),
            })
            &&& plan[2] == Command::BeginComputePass
            &&& plan[3] == Command::SetComputePipeline
            &&& plan[groups + 4] == (Command::DispatchWorkgroups {
                grid: callback.output_size.clamped(capacity()).tiles(WORKGROUP_TILE),
            })
            &&& plan[groups + 5] == Command::EndComputePass
            &&& plan[groups + 6] == (Command::WriteTimestamp { slot: END_SLOT })
        }),
{
}

} // verus!
