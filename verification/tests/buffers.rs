use compute_test::error::ComputeError;
use compute_test::memory::{MemoryType, CPU_VISIBLE, COHERENT, DEVICE_LOCAL};
use compute_test::transfer::{decode_words, encode_words};
use compute_test::utils::{
    check_capacity, create_buffer, empty_buffer, fill_buffer, push_constant_size, read_buffer,
    create_image,
};

fn device_types() -> Vec<MemoryType> {
    vec![
        MemoryType { properties: DEVICE_LOCAL },
        MemoryType { properties: CPU_VISIBLE | COHERENT },
    ]
}

#[test]
fn encoding_is_little_endian() {
    let bytes = encode_words(&vec![0x0102_0304]);
    assert_eq!(bytes, vec![0x04, 0x03, 0x02, 0x01]);
    let words = decode_words(&vec![0x04, 0x03, 0x02, 0x01], 1);
    assert_eq!(words, vec![0x0102_0304]);
}

#[test]
fn allocation_size_never_shrinks() {
    let types = device_types();
    // 7 words of 4 bytes, requirement rounded up to 64.
    let r = empty_buffer(&types, CPU_VISIBLE | COHERENT, 7, 4, 64, 0b11);
    let (idx, bm) = r.expect("allocation should succeed");
    assert_eq!(idx, 1);
    assert_eq!(bm.size, 64);
    assert!(bm.size >= 7 * 4);
    assert_eq!(bm.data.len(), 64);
    assert!(bm.data.iter().all(|b| *b == 0));
}

#[test]
fn allocation_rejects_shrunken_requirement() {
    let types = device_types();
    // A requirement report below the logical size is a failed allocation.
    let r = empty_buffer(&types, CPU_VISIBLE | COHERENT, 7, 4, 16, 0b11);
    assert_eq!(r.map(|(i, _)| i), Err(ComputeError::AllocationFailed));
}

#[test]
fn allocation_needs_a_memory_type() {
    let types = device_types();
    let r = empty_buffer(&types, CPU_VISIBLE | COHERENT, 7, 4, 64, 0b01);
    assert_eq!(r.map(|(i, _)| i), Err(ComputeError::NoSuitableMemoryType));
}

#[test]
fn buffer_too_small_exactly_when_payload_overruns() {
    assert_eq!(check_capacity(8, 4, 32), Ok(()));
    assert_eq!(check_capacity(9, 4, 32), Err(ComputeError::BufferTooSmall));
    assert_eq!(check_capacity(0, 4, 0), Ok(()));

    let types = device_types();
    let (_, mut bm) = empty_buffer(&types, CPU_VISIBLE | COHERENT, 8, 4, 32, 0b10).unwrap();
    // Exactly full: fits.
    let items: Vec<u32> = (1..=8).collect();
    assert_eq!(fill_buffer(&mut bm, &items), Ok(()));
    // One more word: rejected loudly, nothing written.
    let before = bm.data.clone();
    let items: Vec<u32> = (1..=9).collect();
    assert_eq!(fill_buffer(&mut bm, &items), Err(ComputeError::BufferTooSmall));
    assert_eq!(bm.data, before);
    // Reading more than the range holds is rejected too.
    let mut out = Vec::new();
    assert_eq!(read_buffer(&bm, &mut out, 9), Err(ComputeError::BufferTooSmall));
    assert!(out.is_empty());
}

#[test]
fn round_trip_through_rounded_up_allocation() {
    // An 11-element sequence whose allocation is rounded up to the
    // non-coherent atom boundary reads back bit-identical.
    let types = device_types();
    let numbers: Vec<u32> = vec![1, 2, 3, 4, 5, 6, 7, 8, 9, 10, 11];
    let (idx, mut bm) =
        create_buffer(&types, CPU_VISIBLE | COHERENT, &numbers, 64, 0b11).unwrap();
    assert_eq!(idx, 1);
    assert_eq!(bm.size, 64);
    assert_eq!(fill_buffer(&mut bm, &numbers), Ok(()));
    let mut out = Vec::new();
    assert_eq!(read_buffer(&bm, &mut out, numbers.len()), Ok(()));
    assert_eq!(out, numbers);
}

#[test]
fn zero_length_payload_round_trips() {
    let types = device_types();
    let empty: Vec<u32> = Vec::new();
    let (_, mut bm) = create_buffer(&types, CPU_VISIBLE | COHERENT, &empty, 64, 0b10).unwrap();
    assert_eq!(fill_buffer(&mut bm, &empty), Ok(()));
    let mut out = Vec::new();
    assert_eq!(read_buffer(&bm, &mut out, 0), Ok(()));
    assert!(out.is_empty());
}

#[test]
fn push_constant_sizing() {
    assert_eq!(push_constant_size(12), Ok(3));
    assert_eq!(push_constant_size(0), Ok(0));
    assert_eq!(
        push_constant_size(10),
        Err(ComputeError::UnalignedPushConstantType)
    );
}

#[test]
fn image_allocation_is_device_local() {
    let types = device_types();
    let (idx, img) = create_image(&types, 640, 480, 1 << 20, 0b11).unwrap();
    assert_eq!(idx, 0);
    assert_eq!(img.size, 1 << 20);
    assert_eq!((img.width, img.height), (640, 480));
    // No device-local type allowed by the mask: fatal.
    let r = create_image(&types, 640, 480, 1 << 20, 0b10);
    assert_eq!(r.map(|(i, _)| i), Err(ComputeError::NoSuitableMemoryType));
}
