use vstd::prelude::*;

use crate::error::ComputeError;

verus! {

/// Device write access during a transfer copy.
pub const TRANSFER_WRITE: u32 = 1;
/// Device read access during a transfer copy.
pub const TRANSFER_READ: u32 = 2;
/// Shader read access during a dispatch.
pub const SHADER_READ: u32 = 4;
/// Shader write access during a dispatch.
pub const SHADER_WRITE: u32 = 8;

/// The two hardware domains this pipeline crosses.
#[derive(Clone, Copy, Debug, PartialEq, Eq, Structural)]
pub enum Stage {
    Transfer,
    ComputeShader,
}

/// One recorded command of the round trip.  Barriers carry the access
/// masks whose ordering they establish on the device buffer.
#[derive(Clone, Copy, Debug, PartialEq, Eq, Structural)]
pub enum Command {
    /// Copy the staged payload, staging buffer to device buffer.
    CopyToDevice { bytes: u64 },
    /// Make accesses under `src_access` in `src_stage` visible to
    /// accesses under `dst_access` in `dst_stage`.
    Barrier { src_stage: Stage, dst_stage: Stage, src_access: u32, dst_access: u32 },
    /// Bind the compute pipeline.
    BindPipeline,
    /// Bind the descriptor set that points the kernel at the device buffer.
    BindDescriptorSet,
    /// Launch the kernel with the given work-group counts.
    Dispatch { x: u32, y: u32, z: u32 },
    /// Copy the results, device buffer back to staging buffer.
    CopyToHost { bytes: u64 },
}

/// The command sequence of one round trip over `item_count` items of
/// `item_stride` bytes: upload copy, barrier into the compute domain,
/// dispatch of one work group per item, barrier back into the transfer
/// domain, download copy.  A zero-item round trip degenerates to the
/// two copies: nothing to order, and strict drivers reject a zero-sized
/// dispatch.
pub open spec fn dispatch_commands(item_count: u32, item_stride: u64) -> Seq<Command> {
    if item_count == 0 {
        seq![Command::CopyToDevice { bytes: 0 }, Command::CopyToHost { bytes: 0 }]
    } else {
        seq![
            Command::CopyToDevice { bytes: (item_count * item_stride) as u64 },
            Command::Barrier {
                src_stage: Stage::Transfer,
                dst_stage: Stage::ComputeShader,
                src_access: TRANSFER_WRITE,
                dst_access: SHADER_READ | SHADER_WRITE,
            },
            Command::BindPipeline,
            Command::BindDescriptorSet,
            Command::Dispatch { x: item_count, y: 1, z: 1 },
            Command::Barrier {
                src_stage: Stage::ComputeShader,
                dst_stage: Stage::Transfer,
                src_access: SHADER_READ | SHADER_WRITE,
                dst_access: TRANSFER_READ,
            },
            Command::CopyToHost { bytes: (item_count * item_stride) as u64 },
        ]
    }
}

/// Law (degenerate round trip): with nothing to dispatch the recorded
/// sequence holds no dispatch and no barrier, only the two copies.
pub proof fn lemma_zero_items_skips_dispatch(item_stride: u64)
    ensures
        forall|i: int|
            0 <= i < dispatch_commands(0, item_stride).len() ==> !(#[trigger] dispatch_commands(
                0,
                item_stride,
            )[i] matches Command::Dispatch { .. }) && !(dispatch_commands(0, item_stride)[i]
                matches Command::Barrier { .. }),
{
}

/// Records the round-trip command sequence.
pub fn record_commands(item_count: u32, item_stride: u64) -> (r: Vec<Command>)
    requires
        item_count * item_stride <= u64::MAX,
    ensures
        r@ == dispatch_commands(item_count, item_stride),
{
    let mut r: Vec<Command> = Vec::new();
    if item_count == 0 {
        r.push(Command::CopyToDevice { bytes: 0 });
        r.push(Command::CopyToHost { bytes: 0 });
    } else {
        let bytes = (item_count as u64) * item_stride;
        r.push(Command::CopyToDevice { bytes });
        r.push(
            Command::Barrier {
                src_stage: Stage::Transfer,
                dst_stage: Stage::ComputeShader,
                src_access: TRANSFER_WRITE,
                dst_access: SHADER_READ | SHADER_WRITE,
            },
        );
        r.push(Command::BindPipeline);
        r.push(Command::BindDescriptorSet);
        r.push(Command::Dispatch { x: item_count, y: 1, z: 1 });
        r.push(
            Command::Barrier {
                src_stage: Stage::ComputeShader,
                dst_stage: Stage::Transfer,
                src_access: SHADER_READ | SHADER_WRITE,
                dst_access: TRANSFER_READ,
            },
        );
        r.push(Command::CopyToHost { bytes });
    }
    proof {
        assert(r@ =~= dispatch_commands(item_count, item_stride));
    }
    r
}

/// Where one round trip stands: commands not yet recorded, recorded,
/// handed to the queue, or waited out.
#[derive(Clone, Copy, Debug, PartialEq, Eq, Structural)]
pub enum DispatchState {
    Idle,
    Recording,
    Submitted,
    Complete,
}

/// What the fence wait came back with.
#[derive(Clone, Copy, Debug, PartialEq, Eq, Structural)]
pub enum FenceWait {
    /// The device signalled completion.
    Signaled,
    /// The wait elapsed first.
    TimedOut,
    /// The device was lost.
    Lost,
}

/// One transient round trip: the recorded commands and the state of the
/// fence-synchronized submission.  The surrounding glue performs each
/// step on the device and reports the fence outcome back.
pub struct DispatchSequence {
    pub state: DispatchState,
    pub commands: Vec<Command>,
    pub item_count: u32,
    pub item_stride: u64,
}

impl DispatchSequence {
    /// A round trip over `item_count` items of `item_stride` bytes,
    /// not yet recording.
    pub fn new(item_count: u32, item_stride: u64) -> (s: Self)
        requires
            item_count * item_stride <= u64::MAX,
        ensures
            s.state == DispatchState::Idle,
            s.commands@ == Seq::<Command>::empty(),
            s.item_count == item_count,
            s.item_stride == item_stride,
    {
        DispatchSequence { state: DispatchState::Idle, commands: Vec::new(), item_count, item_stride }
    }

    /// Acquire a command buffer and begin one-shot recording.
    pub fn begin(&mut self)
        requires
            old(self).state == DispatchState::Idle,
        ensures
            final(self).state == DispatchState::Recording,
            final(self).commands == old(self).commands,
            final(self).item_count == old(self).item_count,
            final(self).item_stride == old(self).item_stride,
    {
        self.state = DispatchState::Recording;
    }

    /// Record the full round-trip sequence.
    pub fn record(&mut self)
        requires
            old(self).state == DispatchState::Recording,
            old(self).item_count * old(self).item_stride <= u64::MAX,
        ensures
            final(self).state == DispatchState::Recording,
            final(self).commands@ == dispatch_commands(old(self).item_count, old(self).item_stride),
            final(self).item_count == old(self).item_count,
            final(self).item_stride == old(self).item_stride,
    {
        self.commands = record_commands(self.item_count, self.item_stride);
    }

    /// End recording and hand the commands to the compute queue with a
    /// fresh fence; no semaphores, since only one submission is ever in
    /// flight.
    pub fn submit(&mut self)
        requires
            old(self).state == DispatchState::Recording,
            old(self).commands@ == dispatch_commands(old(self).item_count, old(self).item_stride),
        ensures
            final(self).state == DispatchState::Submitted,
            final(self).commands == old(self).commands,
            final(self).item_count == old(self).item_count,
            final(self).item_stride == old(self).item_stride,
    {
        self.state = DispatchState::Submitted;
    }

    /// Take the fence-wait outcome: completion on a signalled fence,
    /// `FenceTimeout` or `DeviceLost` otherwise — both fatal for this
    /// dispatch, which then stays unfinished with no partial result.
    pub fn complete(&mut self, wait: FenceWait) -> (r: Result<(), ComputeError>)
        requires
            old(self).state == DispatchState::Submitted,
        ensures
            final(self).commands == old(self).commands,
            final(self).item_count == old(self).item_count,
            final(self).item_stride == old(self).item_stride,
            (r is Ok) <==> wait == FenceWait::Signaled,
            r is Ok ==> final(self).state == DispatchState::Complete,
            r is Err ==> final(self).state == DispatchState::Submitted,
            wait == FenceWait::TimedOut ==> r == Err::<(), ComputeError>(
                ComputeError::FenceTimeout,
            ),
            wait == FenceWait::Lost ==> r == Err::<(), ComputeError>(ComputeError::DeviceLost),
    {
        match wait {
            FenceWait::Signaled => {
                self.state = DispatchState::Complete;
                Ok(())
            },
            FenceWait::TimedOut => Err(ComputeError::FenceTimeout),
            FenceWait::Lost => Err(ComputeError::DeviceLost),
        }
    }
}

} // verus!
