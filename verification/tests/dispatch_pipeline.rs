use compute_test::dispatch::{
    Command, DispatchSequence, DispatchState, FenceWait, Stage, record_commands, SHADER_READ,
    SHADER_WRITE, TRANSFER_READ, TRANSFER_WRITE,
};
use compute_test::error::ComputeError;
use compute_test::memory::{MemoryType, CPU_VISIBLE, COHERENT, DEVICE_LOCAL};
use compute_test::pipeline::{ComputePipelineSetup, plan_pipeline};
use compute_test::utils::{create_buffer, fill_buffer, read_buffer};

#[test]
fn recorded_sequence_orders_transfer_and_compute() {
    let cmds = record_commands(7, 4);
    assert_eq!(
        cmds,
        vec![
            Command::CopyToDevice { bytes: 28 },
            Command::Barrier {
                src_stage: Stage::Transfer,
                dst_stage: Stage::ComputeShader,
                src_access: TRANSFER_WRITE,
                dst_access: SHADER_READ | SHADER_WRITE,
            },
            Command::BindPipeline,
            Command::BindDescriptorSet,
            Command::Dispatch { x: 7, y: 1, z: 1 },
            Command::Barrier {
                src_stage: Stage::ComputeShader,
                dst_stage: Stage::Transfer,
                src_access: SHADER_READ | SHADER_WRITE,
                dst_access: TRANSFER_READ,
            },
            Command::CopyToHost { bytes: 28 },
        ]
    );
}

#[test]
fn zero_items_skip_dispatch_and_barriers() {
    let cmds = record_commands(0, 4);
    assert_eq!(
        cmds,
        vec![
            Command::CopyToDevice { bytes: 0 },
            Command::CopyToHost { bytes: 0 },
        ]
    );
}

#[test]
fn dispatch_states_in_order() {
    let mut seq = DispatchSequence::new(7, 4);
    assert_eq!(seq.state, DispatchState::Idle);
    seq.begin();
    assert_eq!(seq.state, DispatchState::Recording);
    seq.record();
    assert_eq!(seq.commands.len(), 7);
    seq.submit();
    assert_eq!(seq.state, DispatchState::Submitted);
    assert_eq!(seq.complete(FenceWait::Signaled), Ok(()));
    assert_eq!(seq.state, DispatchState::Complete);
}

#[test]
fn fence_failures_are_fatal() {
    let mut seq = DispatchSequence::new(3, 4);
    seq.begin();
    seq.record();
    seq.submit();
    assert_eq!(
        seq.complete(FenceWait::TimedOut),
        Err(ComputeError::FenceTimeout)
    );
    assert_eq!(seq.state, DispatchState::Submitted);
    assert_eq!(seq.complete(FenceWait::Lost), Err(ComputeError::DeviceLost));
    assert_eq!(seq.state, DispatchState::Submitted);
}

#[test]
fn doubling_kernel_round_trip() {
    // The staged sequence [1..=7] goes up; the kernel doubles each
    // element on the device; what comes back down must be [2,4,..,14].
    let types = vec![
        MemoryType { properties: DEVICE_LOCAL },
        MemoryType { properties: CPU_VISIBLE | COHERENT },
    ];
    let numbers: Vec<u32> = vec![1, 2, 3, 4, 5, 6, 7];
    let (_, mut staging) =
        create_buffer(&types, CPU_VISIBLE | COHERENT, &numbers, 32, 0b10).unwrap();

    let mut seq = DispatchSequence::new(numbers.len() as u32, 4);
    seq.begin();
    seq.record();
    seq.submit();

    // Stand-in for the device: run the recorded commands, doubling each
    // word of the storage buffer at the dispatch.
    let mut device_buffer: Vec<u32> = Vec::new();
    for cmd in seq.commands.iter() {
        match *cmd {
            Command::CopyToDevice { bytes } => {
                assert_eq!(bytes, 28);
                device_buffer.clear();
                read_buffer(&staging, &mut device_buffer, numbers.len()).unwrap();
            }
            Command::Dispatch { x, y, z } => {
                assert_eq!((x, y, z), (7, 1, 1));
                for w in device_buffer.iter_mut() {
                    *w *= 2;
                }
            }
            Command::CopyToHost { bytes } => {
                assert_eq!(bytes, 28);
                fill_buffer(&mut staging, &device_buffer).unwrap();
            }
            Command::Barrier { .. } | Command::BindPipeline | Command::BindDescriptorSet => {}
        }
    }
    assert_eq!(seq.complete(FenceWait::Signaled), Ok(()));

    let mut out = Vec::new();
    read_buffer(&staging, &mut out, numbers.len()).unwrap();
    assert_eq!(out, vec![2, 4, 6, 8, 10, 12, 14]);
}

#[test]
fn pipeline_plan_declares_one_storage_buffer() {
    let plan = plan_pipeline(None).unwrap();
    assert_eq!(plan.layout_binding.binding, 0);
    assert_eq!(plan.layout_binding.descriptor_count, 1);
    assert!(plan.layout_binding.compute_stage);
    assert_eq!(plan.pool_sizing.max_sets, 1);
    assert_eq!(plan.pool_sizing.storage_buffer_descriptors, 1);
    assert_eq!(plan.push_constant_words, 0);

    let plan = plan_pipeline(Some(16)).unwrap();
    assert_eq!(plan.push_constant_words, 4);
    assert_eq!(
        plan_pipeline(Some(10)).map(|p| p.push_constant_words),
        Err(ComputeError::UnalignedPushConstantType)
    );
}

#[test]
fn teardown_runs_in_reverse_dependency_order() {
    let mut setup = ComputePipelineSetup::new();
    setup.mark_submitted();
    assert!(setup.pending_submission);
    // The pool may only go once the submission has been waited out.
    setup.mark_complete();
    assert!(!setup.pending_submission);
    setup.teardown();
    assert!(!setup.set_layout_live);
    assert!(!setup.pipeline_layout_live);
    assert!(!setup.pipeline_live);
    assert!(!setup.pool_live);
    assert!(!setup.set_live);
}

#[test]
fn stepwise_destruction_order() {
    let mut setup = ComputePipelineSetup::new();
    setup.destroy_pipeline();
    assert!(!setup.pipeline_live);
    setup.destroy_descriptor_pool();
    assert!(!setup.pool_live && !setup.set_live);
    setup.destroy_pipeline_layout();
    setup.destroy_set_layout();
    assert!(!setup.set_layout_live);
}
