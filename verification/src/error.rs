use vstd::prelude::*;

verus! {

/// Every failure the compute core can report.  Resource-acquisition
/// failures are fatal for the current dispatch: no fallback memory type,
/// no retry with a reduced size.
#[derive(Clone, Copy, Debug, PartialEq, Eq, Structural)]
pub enum ComputeError {
    /// No reported memory type satisfies both the requirement mask and the
    /// requested property flags.
    NoSuitableMemoryType,
    /// The device rejected an allocation request.
    AllocationFailed,
    /// The device rejected binding an allocation to a buffer or image.
    BindFailed,
    /// A host-side write would overrun the bound allocation.
    BufferTooSmall,
    /// A push-constant payload whose byte size is not a whole number of
    /// 32-bit words.
    UnalignedPushConstantType,
    /// The device rejected pipeline creation.
    PipelineCreationFailed,
    /// The device was lost while waiting for submitted work.
    DeviceLost,
    /// The fence wait elapsed before the device signalled completion.
    FenceTimeout,
}

impl ComputeError {
    /// A short description for display by unverified callers.
    pub fn describe(&self) -> (r: &'static str)
        ensures
            match self {
                ComputeError::NoSuitableMemoryType => r@ == "no suitable memory type"@,
                ComputeError::AllocationFailed => r@ == "memory allocation failed"@,
                ComputeError::BindFailed => r@ == "memory bind failed"@,
                ComputeError::BufferTooSmall => r@ == "buffer too small for the staged items"@,
                ComputeError::UnalignedPushConstantType => r@
                    == "push-constant type size is not a multiple of 4"@,
                ComputeError::PipelineCreationFailed => r@ == "compute pipeline creation failed"@,
                ComputeError::DeviceLost => r@ == "device lost"@,
                ComputeError::FenceTimeout => r@ == "fence wait timed out"@,
            },
    {
        match self {
            ComputeError::NoSuitableMemoryType => "no suitable memory type",
            ComputeError::AllocationFailed => "memory allocation failed",
            ComputeError::BindFailed => "memory bind failed",
            ComputeError::BufferTooSmall => "buffer too small for the staged items",
            ComputeError::UnalignedPushConstantType => "push-constant type size is not a multiple of 4",
            ComputeError::PipelineCreationFailed => "compute pipeline creation failed",
            ComputeError::DeviceLost => "device lost",
            ComputeError::FenceTimeout => "fence wait timed out",
        }
    }
}

} // verus!
