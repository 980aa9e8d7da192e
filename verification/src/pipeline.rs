use vstd::prelude::*;

use crate::error::ComputeError;

verus! {

/// The one descriptor-set layout binding a kernel here works against: a
/// single storage buffer, visible to the compute stage.
#[derive(Clone, Copy, Debug, PartialEq, Eq, Structural)]
pub struct LayoutBinding {
    pub binding: u32,
    pub descriptor_count: u32,
    pub compute_stage: bool,
}

/// How many descriptor sets, and how many storage-buffer descriptors,
/// the descriptor pool is created for.
#[derive(Clone, Copy, Debug, PartialEq, Eq, Structural)]
pub struct PoolSizing {
    pub max_sets: u32,
    pub storage_buffer_descriptors: u32,
}

/// Everything the device needs to build the pipeline objects for one
/// kernel: the layout binding, the pool sizing, and the number of
/// 32-bit push-constant words.
#[derive(Clone, Copy, Debug, PartialEq, Eq, Structural)]
pub struct PipelinePlan {
    pub layout_binding: LayoutBinding,
    pub pool_sizing: PoolSizing,
    pub push_constant_words: usize,
}

/// Builds the creation plan for a compute pipeline over one storage
/// buffer at binding slot 0, with a pool sized for exactly the one set
/// and one descriptor declared.  `push_constant_bytes` is the byte size
/// of the optional push-constant payload (`None` for none);
/// `UnalignedPushConstantType` exactly when it is not a whole number of
/// 32-bit words.
pub fn plan_pipeline(push_constant_bytes: Option<usize>) -> (r: Result<
    PipelinePlan,
    ComputeError,
>)
    ensures
        (r is Ok) <==> (push_constant_bytes matches Some(b) ==> b % 4 == 0),
        r is Err ==> r->Err_0 == ComputeError::UnalignedPushConstantType,
        r is Ok ==> {
            &&& r->Ok_0.layout_binding == (LayoutBinding {
                binding: 0,
                descriptor_count: 1,
                compute_stage: true,
            })
            &&& r->Ok_0.pool_sizing == (PoolSizing { max_sets: 1, storage_buffer_descriptors: 1 })
            &&& r->Ok_0.push_constant_words == (match push_constant_bytes {
                Some(b) => b / 4,
                None => 0,
            })
        },
{
    let words: usize = match push_constant_bytes {
        Some(b) => {
            if b % 4 != 0 {
                return Err(ComputeError::UnalignedPushConstantType);
            }
            b / 4
        },
        None => 0,
    };
    Ok(
        PipelinePlan {
            layout_binding: LayoutBinding { binding: 0, descriptor_count: 1, compute_stage: true },
            pool_sizing: PoolSizing { max_sets: 1, storage_buffer_descriptors: 1 },
            push_constant_words: words,
        },
    )
}

/// The lifecycle of the pipeline objects built for one kernel, owned as
/// a unit: which handles are still live, and whether a submission that
/// references the descriptor set and pipeline is still in flight.
/// Destruction runs in reverse creation order, and every destroy call
/// requires its dependents to be gone already, so a teardown that
/// verifies can never free a handle out from under the device.
#[derive(Clone, Copy, Debug, PartialEq, Eq, Structural)]
pub struct ComputePipelineSetup {
    pub set_layout_live: bool,
    pub pipeline_layout_live: bool,
    pub pipeline_live: bool,
    pub pool_live: bool,
    pub set_live: bool,
    pub pending_submission: bool,
}

impl ComputePipelineSetup {
    /// Dependents never outlive what they reference: the descriptor set
    /// stays within its pool's lifetime, the pipeline within its
    /// layouts', the pipeline layout within the set layout's, and a
    /// pending submission pins the set and the pipeline.
    pub open spec fn wf(&self) -> bool {
        &&& self.set_live ==> self.pool_live
        &&& self.pipeline_layout_live ==> self.set_layout_live
        &&& self.pipeline_live ==> self.pipeline_layout_live
        &&& self.pending_submission ==> self.set_live && self.pipeline_live
    }

    /// A freshly built setup: every handle live, nothing submitted.
    pub fn new() -> (s: Self)
        ensures
            s.wf(),
            s == (ComputePipelineSetup {
                set_layout_live: true,
                pipeline_layout_live: true,
                pipeline_live: true,
                pool_live: true,
                set_live: true,
                pending_submission: false,
            }),
    {
        ComputePipelineSetup {
            set_layout_live: true,
            pipeline_layout_live: true,
            pipeline_live: true,
            pool_live: true,
            set_live: true,
            pending_submission: false,
        }
    }

    /// Work referencing the set and pipeline enters the queue; only one
    /// submission may be in flight.
    pub fn mark_submitted(&mut self)
        requires
            old(self).wf(),
            !old(self).pending_submission,
            old(self).set_live,
            old(self).pipeline_live,
        ensures
            final(self).wf(),
            *final(self) == (ComputePipelineSetup { pending_submission: true, ..*old(self) }),
    {
        self.pending_submission = true;
    }

    /// The fence for the in-flight submission has been waited out.
    pub fn mark_complete(&mut self)
        requires
            old(self).wf(),
            old(self).pending_submission,
        ensures
            final(self).wf(),
            *final(self) == (ComputePipelineSetup { pending_submission: false, ..*old(self) }),
    {
        self.pending_submission = false;
    }

    /// Destroys the pipeline object; legal only once no submission
    /// references it.
    pub fn destroy_pipeline(&mut self)
        requires
            old(self).wf(),
            old(self).pipeline_live,
            !old(self).pending_submission,
        ensures
            final(self).wf(),
            *final(self) == (ComputePipelineSetup { pipeline_live: false, ..*old(self) }),
    {
        self.pipeline_live = false;
    }

    /// Destroys the descriptor pool, which frees the set allocated from
    /// it; legal only once no submission references that set.
    pub fn destroy_descriptor_pool(&mut self)
        requires
            old(self).wf(),
            old(self).pool_live,
            !old(self).pending_submission,
        ensures
            final(self).wf(),
            *final(self) == (ComputePipelineSetup {
                pool_live: false,
                set_live: false,
                ..*old(self)
            }),
    {
        self.pool_live = false;
        self.set_live = false;
    }

    /// Destroys the pipeline layout; the pipeline compiled against it
    /// must already be gone.
    pub fn destroy_pipeline_layout(&mut self)
        requires
            old(self).wf(),
            old(self).pipeline_layout_live,
            !old(self).pipeline_live,
        ensures
            final(self).wf(),
            *final(self) == (ComputePipelineSetup { pipeline_layout_live: false, ..*old(self) }),
    {
        self.pipeline_layout_live = false;
    }

    /// Destroys the descriptor-set layout, the last object to go: the
    /// pool (with its sets) and the pipeline layout referencing it must
    /// already be gone.
    pub fn destroy_set_layout(&mut self)
        requires
            old(self).wf(),
            old(self).set_layout_live,
            !old(self).pool_live,
            !old(self).pipeline_layout_live,
        ensures
            final(self).wf(),
            *final(self) == (ComputePipelineSetup { set_layout_live: false, ..*old(self) }),
    {
        self.set_layout_live = false;
    }

    /// Tears the whole unit down in reverse creation order: pipeline,
    /// then pool and set, then pipeline layout, then set layout.  Legal
    /// only once no submission is in flight.
    pub fn teardown(&mut self)
        requires
            old(self).wf(),
            !old(self).pending_submission,
            old(self).set_layout_live,
            old(self).pipeline_layout_live,
            old(self).pipeline_live,
            old(self).pool_live,
        ensures
            final(self).wf(),
            *final(self) == (ComputePipelineSetup {
                set_layout_live: false,
                pipeline_layout_live: false,
                pipeline_live: false,
                pool_live: false,
                set_live: false,
                pending_submission: false,
            }),
    {
        self.destroy_pipeline();
        self.destroy_descriptor_pool();
        self.destroy_pipeline_layout();
        self.destroy_set_layout();
    }
}

/// Law (destruction ordering): while a submission referencing the
/// descriptor set is still in flight, the set, its pool and the
/// pipeline are necessarily still live — no well-formed state reachable
/// through this module has destroyed the pool under a pending
/// submission, and `destroy_descriptor_pool` itself refuses to run
/// until the submission has been waited out.
pub proof fn lemma_pending_submission_pins_resources(s: ComputePipelineSetup)
    requires
        s.wf(),
        s.pending_submission,
    ensures
        s.set_live,
        s.pool_live,
        s.pipeline_live,
        s.pipeline_layout_live,
        s.set_layout_live,
{
}

} // verus!
