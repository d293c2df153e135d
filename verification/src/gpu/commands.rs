//! The commands of a frame. The library decides which commands a frame
//! submits and in which order; the caller performs them on the device.
use crate::gpu::layout::{slot_source, GroupSource};
use crate::gpu::shared_stage_data::SharedStageUniform;
use crate::ray_tracer::camera::WorkgroupGrid;
use vstd::prelude::*;

verus! {

/// One step of a frame's submission.
#[derive(Clone, Copy, Debug, PartialEq, Eq, Structural)]
pub enum Command {
    /// Write the GPU's clock into slot `slot` of the query set.
    WriteTimestamp { slot: u32 },
    /// Upload `uniform` as the shared uniform block.
    WriteUniform { uniform: SharedStageUniform },
    BeginComputePass,
    SetComputePipeline,
    /// Bind the group that `source` names at `index` of the current pass.
    SetBindGroup { index: u32, source: GroupSource },
    DispatchWorkgroups { grid: WorkgroupGrid },
    EndComputePass,
    /// Resolve `count` queries, from slot `first` on, into the resolve
    /// buffer at byte `offset`.
    ResolveQuerySet { first: u32, count: u32, offset: u64 },
    /// Copy the first `bytes` bytes of the resolve buffer into the staging
    /// buffer.
    CopyToStaging { bytes: u64 },
    /// Ask for the staging buffer to be mapped for reading.
    MapStaging,
    /// Let the device make progress until the pending map has completed.
    PollDevice,
    /// Hand the mapped bytes of the staging buffer to the timing probe.
    ReadTimestamps,
    UnmapStaging,
    SetRenderPipeline,
    /// Draw `vertices` vertices, `instances` times, without a vertex buffer.
    Draw { vertices: u32, instances: u32 },
}

impl Command {
    /// The command belongs to the timing of the compute pass.
    pub open spec fn is_timing(self) -> bool {
        self is WriteTimestamp || self is ResolveQuerySet || self is CopyToStaging
            || self is MapStaging || self is PollDevice || self is ReadTimestamps
            || self is UnmapStaging
    }

    /// Tells whether the command belongs to the timing of the compute pass.
    pub fn touches_timing(&self) -> (r: bool)
        ensures
            r == self.is_timing(),
    {
        match self {
            Command::WriteTimestamp { .. } => true,
            Command::ResolveQuerySet { .. } => true,
            Command::CopyToStaging { .. } => true,
            Command::MapStaging => true,
            Command::PollDevice => true,
            Command::ReadTimestamps => true,
            Command::UnmapStaging => true,
            _ => false,
        }
    }
}

/// The bind commands of a pass whose pipeline layout lists `local` groups
/// of the stage first and `shared` groups after them: slot `i` is bound at
/// index `i`, from the source that the layout assigns to it.
pub open spec fn bind_steps(local: nat, shared: nat) -> Seq<Command> {
    Seq::new(
        local + shared,
        |i: int| Command::SetBindGroup { index: i as u32, source: slot_source(local, i) },
    )
}

/// Appends the bind commands of a pass to `commands`.
pub fn push_bind_groups(commands: &mut Vec<Command>, local: usize, shared: usize)
    requires
        local + shared <= u32::MAX,
    ensures
        final(commands)@ == old(commands)@ + bind_steps(local as nat, shared as nat),
{
    let ghost before = commands@;
    let mut i: usize = 0;
    while i < local
        invariant
            i <= local,
            local + shared <= u32::MAX,
            commands@ == before + bind_steps(local as nat, shared as nat).take(i as int),
        decreases local - i,
    {
        commands.push(Command::SetBindGroup { index: i as u32, source: GroupSource::Local(i) });
        proof {
            let all = bind_steps(local as nat, shared as nat);
            assert(all.take(i as int + 1) == all.take(i as int).push(all[i as int]));
            assert(commands@ == before + all.take(i as int + 1));
        }
        i = i + 1;
    }
    let mut j: usize = 0;
    while j < shared
        invariant
            j <= shared,
            local + shared <= u32::MAX,
            commands@ == before + bind_steps(local as nat, shared as nat).take(local + j),
        decreases shared - j,
    {
        let index: usize = j + local;
        commands.push(Command::SetBindGroup { index: index as u32, source: GroupSource::Shared(j) });
        proof {
            let all = bind_steps(local as nat, shared as nat);
            assert(all.take(local + j + 1) == all.take(local + j).push(all[local + j]));
            assert(commands@ == before + all.take(local + j + 1));
        }
        j = j + 1;
    }
    proof {
        let all = bind_steps(local as nat, shared as nat);
        assert(all.take(local + shared) == all);
    }
}

} // verus!
