use vstd::prelude::*;

use crate::error::ComputeError;
use crate::memory::{MemoryType, DEVICE_LOCAL, suitable, select_memory_type};
use crate::transfer::{bytes_of_words, words_of_bytes, encode_words, decode_words};

verus! {

/// A device buffer bound to its own dedicated allocation.  `size` is the
/// size of the bound allocation, which the device may round up past the
/// logical payload; `data` models the host-visible contents of the full
/// bound range, which the surrounding glue mirrors into and out of the
/// real memory mapping.
pub struct BufferMemory {
    pub size: u64,
    pub data: Vec<u8>,
}

impl BufferMemory {
    /// The byte store covers exactly the bound range `[0, size)`.
    pub open spec fn wf(&self) -> bool {
        self.data@.len() == self.size
    }
}

/// A device image with its own dedicated device-local allocation and a
/// full-range view; parallel lifecycle to `BufferMemory`, but never
/// host-mapped, so it carries no byte model.
pub struct ImageResource {
    pub size: u64,
    pub width: u32,
    pub height: u32,
}

/// A zero-filled byte store of length `n`, the model of freshly bound
/// memory.
fn zeroed_bytes(n: usize) -> (r: Vec<u8>)
    ensures
        r@.len() == n,
        forall|k: int| 0 <= k < n ==> r@[k] == 0u8,
{
    let mut r: Vec<u8> = Vec::new();
    let mut i: usize = 0;
    while i < n
        invariant
            i <= n,
            r@.len() == i,
            forall|k: int| 0 <= k < i ==> r@[k] == 0u8,
        decreases n - i,
    {
        r.push(0u8);
        i += 1;
    }
    r
}

/// `BufferTooSmall` exactly when `item_count` items of `item_stride`
/// bytes each do not fit into `size` bytes.
pub fn check_capacity(item_count: u64, item_stride: u64, size: u64) -> (r: Result<
    (),
    ComputeError,
>)
    requires
        item_count * item_stride <= u64::MAX,
    ensures
        (r is Ok) <==> item_count * item_stride <= size,
        r is Err ==> r->Err_0 == ComputeError::BufferTooSmall,
{
    if item_count * item_stride <= size {
        Ok(())
    } else {
        Err(ComputeError::BufferTooSmall)
    }
}

/// Completes an allocation request for an empty buffer of
/// `item_count * item_stride` logical bytes, once the device has
/// reported the memory requirements (`req_size`, `req_type_mask`) of
/// the created buffer.  Picks the first qualifying memory type and
/// yields its index together with the bound resource, whose size is the
/// requirement's size: alignment may only grow, never shrink, the
/// allocation, and a report that shrank it is rejected as a failed
/// allocation.
pub fn empty_buffer(
    memory_types: &Vec<MemoryType>,
    properties: u32,
    item_count: u64,
    item_stride: u64,
    req_size: u64,
    req_type_mask: u64,
) -> (r: Result<(usize, BufferMemory), ComputeError>)
    requires
        item_count * item_stride <= u64::MAX,
        req_size <= usize::MAX,
    ensures
        match r {
            Ok((idx, bm)) => {
                &&& suitable(memory_types@, req_type_mask, properties, idx as int)
                &&& forall|j: int|
                    0 <= j < idx ==> !suitable(memory_types@, req_type_mask, properties, j)
                &&& bm.wf()
                &&& bm.size == req_size
                &&& bm.size >= item_count * item_stride
                &&& forall|k: int| 0 <= k < bm.data@.len() ==> bm.data@[k] == 0u8
            },
            Err(e) => {
                ||| (e == ComputeError::NoSuitableMemoryType && (forall|j: int|
                    !suitable(memory_types@, req_type_mask, properties, j)))
                ||| (e == ComputeError::AllocationFailed && req_size < item_count * item_stride)
            },
        },
        (r is Ok) <==> ((exists|j: int| suitable(memory_types@, req_type_mask, properties, j))
            && req_size >= item_count * item_stride),
{
    let idx = match select_memory_type(memory_types, req_type_mask, properties) {
        Ok(i) => i,
        Err(e) => {
            return Err(e);
        },
    };
    if req_size < item_count * item_stride {
        return Err(ComputeError::AllocationFailed);
    }
    let data = zeroed_bytes(req_size as usize);
    Ok((idx, BufferMemory { size: req_size, data }))
}

/// Stages `items` into the buffer: the words land little-endian in the
/// prefix of the mapped range, the bytes past the payload stay as they
/// were.  `BufferTooSmall` exactly when the payload overruns the bound
/// allocation, in which case nothing changes; no silent truncation.
pub fn fill_buffer(buffer_memory: &mut BufferMemory, items: &Vec<u32>) -> (r: Result<
    (),
    ComputeError,
>)
    requires
        old(buffer_memory).wf(),
        items@.len() * 4 <= u64::MAX,
    ensures
        final(buffer_memory).wf(),
        final(buffer_memory).size == old(buffer_memory).size,
        (r is Ok) <==> items@.len() * 4 <= old(buffer_memory).size,
        r is Ok ==> final(buffer_memory).data@ == bytes_of_words(items@) + old(
            buffer_memory,
        ).data@.subrange(4 * items@.len() as int, old(buffer_memory).data@.len() as int),
        r is Err ==> r->Err_0 == ComputeError::BufferTooSmall && *final(buffer_memory) == *old(
            buffer_memory,
        ),
{
    let dlen = buffer_memory.data.len();
    match check_capacity(items.len() as u64, 4, buffer_memory.size) {
        Ok(_) => {},
        Err(e) => {
            return Err(e);
        },
    }
    let n4 = items.len() * 4;
    let mut bytes = encode_words(items);
    let mut k = n4;
    while k < dlen
        invariant
            dlen == buffer_memory.data@.len(),
            n4 <= k <= dlen,
            bytes@.len() == k,
            bytes@.subrange(0, n4 as int) == bytes_of_words(items@),
            bytes@.subrange(n4 as int, k as int) == buffer_memory.data@.subrange(
                n4 as int,
                k as int,
            ),
        decreases dlen - k,
    {
        let b = buffer_memory.data[k];
        bytes.push(b);
        proof {
            assert(bytes@.subrange(0, n4 as int) =~= bytes_of_words(items@));
            assert(bytes@.subrange(n4 as int, k as int + 1) =~= buffer_memory.data@.subrange(
                n4 as int,
                k as int + 1,
            ));
        }
        k += 1;
    }
    proof {
        assert(bytes@ =~= bytes_of_words(items@) + buffer_memory.data@.subrange(
            n4 as int,
            buffer_memory.data@.len() as int,
        ));
    }
    buffer_memory.data = bytes;
    Ok(())
}

/// Reads the first `item_count` words back out of the buffer's mapped
/// range and appends them to `items`.  The caller must already have
/// waited out any device write; this performs no synchronization.
/// `BufferTooSmall` exactly when `item_count` words do not fit in the
/// bound range, in which case `items` is untouched.
pub fn read_buffer(
    buffer_memory: &BufferMemory,
    items: &mut Vec<u32>,
    item_count: usize,
) -> (r: Result<(), ComputeError>)
    requires
        buffer_memory.wf(),
        item_count * 4 <= u64::MAX,
        old(items)@.len() + item_count <= usize::MAX,
    ensures
        (r is Ok) <==> item_count * 4 <= buffer_memory.size,
        r is Ok ==> final(items)@ == old(items)@ + words_of_bytes(
            buffer_memory.data@,
            item_count as int,
        ),
        r is Err ==> r->Err_0 == ComputeError::BufferTooSmall && final(items)@ == old(items)@,
{
    match check_capacity(item_count as u64, 4, buffer_memory.size) {
        Ok(_) => {},
        Err(e) => {
            return Err(e);
        },
    }
    let mut out = decode_words(&buffer_memory.data, item_count);
    items.append(&mut out);
    Ok(())
}

/// Completes an allocation request for a buffer created to hold exactly
/// `items`, and stages the items into it: `empty_buffer` followed by
/// `fill_buffer`, which cannot fail once the allocation holds the
/// payload.
pub fn create_buffer(
    memory_types: &Vec<MemoryType>,
    properties: u32,
    items: &Vec<u32>,
    req_size: u64,
    req_type_mask: u64,
) -> (r: Result<(usize, BufferMemory), ComputeError>)
    requires
        items@.len() * 4 <= u64::MAX,
        req_size <= usize::MAX,
    ensures
        match r {
            Ok((idx, bm)) => {
                &&& suitable(memory_types@, req_type_mask, properties, idx as int)
                &&& forall|j: int|
                    0 <= j < idx ==> !suitable(memory_types@, req_type_mask, properties, j)
                &&& bm.wf()
                &&& bm.size == req_size
                &&& bm.size >= items@.len() * 4
                &&& bm.data@.subrange(0, 4 * items@.len() as int) == bytes_of_words(items@)
                &&& forall|k: int| 4 * items@.len() <= k < bm.data@.len() ==> bm.data@[k] == 0u8
            },
            Err(e) => {
                ||| (e == ComputeError::NoSuitableMemoryType && (forall|j: int|
                    !suitable(memory_types@, req_type_mask, properties, j)))
                ||| (e == ComputeError::AllocationFailed && req_size < items@.len() * 4)
            },
        },
{
    let (idx, mut bm) = match empty_buffer(
        memory_types,
        properties,
        items.len() as u64,
        4,
        req_size,
        req_type_mask,
    ) {
        Ok(p) => p,
        Err(e) => {
            return Err(e);
        },
    };
    let ghost zeroed = bm.data@;
    let filled = fill_buffer(&mut bm, items);
    proof {
        assert(filled is Ok);
        assert(bm.data@.subrange(0, 4 * items@.len() as int) =~= bytes_of_words(items@));
        assert forall|k: int| 4 * items@.len() <= k < bm.data@.len() implies bm.data@[k]
            == 0u8 by {
            assert(bm.data@[k] == zeroed.subrange(4 * items@.len() as int, zeroed.len() as int)[k
                - 4 * items@.len()]);
        }
    }
    Ok((idx, bm))
}

/// Law (round trip): a buffer whose mapped range holds the encoding of
/// `ws` in its prefix — as `fill_buffer` leaves it, or as a device-side
/// transform writes it back — reads back as exactly `ws`, whatever the
/// padding up to the allocation's rounded-up size holds.  Together with
/// the contracts of `fill_buffer` and `read_buffer` this gives
/// `read(write(ws)) == ws` for every payload that fits.
pub proof fn lemma_buffer_round_trip(bm: BufferMemory, ws: Seq<u32>)
    requires
        bm.wf(),
        4 * ws.len() <= bm.size,
        bm.data@.subrange(0, 4 * ws.len() as int) == bytes_of_words(ws),
    ensures
        words_of_bytes(bm.data@, ws.len() as int) == ws,
{
    let rest = bm.data@.subrange(4 * ws.len() as int, bm.data@.len() as int);
    assert(bm.data@ =~= bytes_of_words(ws) + rest);
    crate::transfer::lemma_write_read_round_trip(ws, rest);
}

/// Number of 32-bit words needed to upload a push-constant payload of
/// `type_size` bytes; `UnalignedPushConstantType` exactly when that
/// size is not a whole number of words.
pub fn push_constant_size(type_size: usize) -> (r: Result<usize, ComputeError>)
    ensures
        (r is Ok) <==> type_size % 4 == 0,
        r is Ok ==> r->Ok_0 == type_size / 4,
        r is Err ==> r->Err_0 == ComputeError::UnalignedPushConstantType,
{
    if type_size % 4 == 0 {
        Ok(type_size / 4)
    } else {
        Err(ComputeError::UnalignedPushConstantType)
    }
}

/// Completes an allocation request for a 2-D image, once the device has
/// reported the created image's memory requirements.  Images live in
/// device-local memory: the first type whose requirement bit is set and
/// which is device-local wins; `NoSuitableMemoryType` exactly when no
/// type qualifies.
pub fn create_image(
    memory_types: &Vec<MemoryType>,
    width: u32,
    height: u32,
    req_size: u64,
    req_type_mask: u64,
) -> (r: Result<(usize, ImageResource), ComputeError>)
    ensures
        match r {
            Ok((idx, img)) => {
                &&& suitable(memory_types@, req_type_mask, DEVICE_LOCAL, idx as int)
                &&& forall|j: int|
                    0 <= j < idx ==> !suitable(memory_types@, req_type_mask, DEVICE_LOCAL, j)
                &&& img.size == req_size
                &&& img.width == width
                &&& img.height == height
            },
            Err(e) => e == ComputeError::NoSuitableMemoryType && (forall|j: int|
                !suitable(memory_types@, req_type_mask, DEVICE_LOCAL, j)),
        },
{
    let idx = match select_memory_type(memory_types, req_type_mask, DEVICE_LOCAL) {
        Ok(i) => i,
        Err(e) => {
            return Err(e);
        },
    };
    Ok((idx, ImageResource { size: req_size, width, height }))
}

} // verus!
