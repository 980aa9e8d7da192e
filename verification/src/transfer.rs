use vstd::prelude::*;

verus! {

/// Byte `j` (with `0 <= j < 4`) of the little-endian encoding of `w`.
pub open spec fn le_byte(w: u32, j: int) -> u8 {
    if j == 0 {
        (w & 0xff) as u8
    } else if j == 1 {
        ((w >> 8) & 0xff) as u8
    } else if j == 2 {
        ((w >> 16) & 0xff) as u8
    } else {
        ((w >> 24) & 0xff) as u8
    }
}

/// The 32-bit word held by four little-endian bytes.
pub open spec fn word_of_bytes(b0: u8, b1: u8, b2: u8, b3: u8) -> u32 {
    (b0 as u32) | ((b1 as u32) << 8) | ((b2 as u32) << 16) | ((b3 as u32) << 24)
}

/// The little-endian byte image of a word sequence.
pub open spec fn bytes_of_words(ws: Seq<u32>) -> Seq<u8> {
    Seq::new(ws.len() * 4, |k: int| le_byte(ws[k / 4], k % 4))
}

/// The first `count` words encoded in `bytes`.
pub open spec fn words_of_bytes(bytes: Seq<u8>, count: int) -> Seq<u32>
    recommends
        0 <= count,
        4 * count <= bytes.len(),
{
    Seq::new(
        count as nat,
        |i: int| word_of_bytes(bytes[4 * i], bytes[4 * i + 1], bytes[4 * i + 2], bytes[4 * i + 3]),
    )
}

/// Splitting a word into its little-endian bytes and reassembling them
/// gives the word back.
pub proof fn lemma_word_round_trip(w: u32)
    ensures
        word_of_bytes(le_byte(w, 0), le_byte(w, 1), le_byte(w, 2), le_byte(w, 3)) == w,
{
    assert((((w & 0xff) as u8) as u32) | (((((w >> 8) & 0xff) as u8) as u32) << 8) | (((((w >> 16)
        & 0xff) as u8) as u32) << 16) | (((((w >> 24) & 0xff) as u8) as u32) << 24) == w)
        by (bit_vector);
}

/// Law (upload/download symmetry): reading `ws.len()` words back out of
/// a byte store whose prefix is the encoding of `ws` yields `ws`
/// exactly, whatever bytes pad the store beyond that prefix.
pub proof fn lemma_write_read_round_trip(ws: Seq<u32>, rest: Seq<u8>)
    ensures
        words_of_bytes(bytes_of_words(ws) + rest, ws.len() as int) == ws,
{
    let bytes = bytes_of_words(ws) + rest;
    let n = ws.len() as int;
    assert forall|i: int| 0 <= i < n implies words_of_bytes(bytes, n)[i] == ws[i] by {
        assert((4 * i) / 4 == i && (4 * i) % 4 == 0);
        assert((4 * i + 1) / 4 == i && (4 * i + 1) % 4 == 1);
        assert((4 * i + 2) / 4 == i && (4 * i + 2) % 4 == 2);
        assert((4 * i + 3) / 4 == i && (4 * i + 3) % 4 == 3);
        assert(bytes[4 * i] == le_byte(ws[i], 0));
        assert(bytes[4 * i + 1] == le_byte(ws[i], 1));
        assert(bytes[4 * i + 2] == le_byte(ws[i], 2));
        assert(bytes[4 * i + 3] == le_byte(ws[i], 3));
        lemma_word_round_trip(ws[i]);
    };
    assert(words_of_bytes(bytes, n) =~= ws);
}

/// Encodes a word sequence into the bytes that a host-visible mapping
/// receives, little-endian, four bytes per word.
pub fn encode_words(items: &Vec<u32>) -> (r: Vec<u8>)
    requires
        items@.len() * 4 <= usize::MAX,
    ensures
        r@ == bytes_of_words(items@),
{
    let n = items.len();
    let mut r: Vec<u8> = Vec::new();
    let mut i: usize = 0;
    while i < n
        invariant
            n == items@.len(),
            n * 4 <= usize::MAX,
            i <= n,
            r@.len() == 4 * i,
            forall|k: int| 0 <= k < 4 * i ==> r@[k] == le_byte(items@[k / 4], k % 4),
        decreases n - i,
    {
        let w = items[i];
        r.push((w & 0xff) as u8);
        r.push(((w >> 8) & 0xff) as u8);
        r.push(((w >> 16) & 0xff) as u8);
        r.push(((w >> 24) & 0xff) as u8);
        proof {
            let ii = i as int;
            assert forall|k: int| 0 <= k < 4 * (ii + 1) implies r@[k] == le_byte(
                items@[k / 4],
                k % 4,
            ) by {
                if k < 4 * ii {
                    assert(0 <= k / 4 < ii);
                } else {
                    assert(k / 4 == ii && k % 4 == k - 4 * ii);
                }
            };
        }
        i += 1;
    }
    proof {
        assert(r@ =~= bytes_of_words(items@));
    }
    r
}

/// Decodes the first `count` little-endian words held by `bytes`.
pub fn decode_words(bytes: &Vec<u8>, count: usize) -> (r: Vec<u32>)
    requires
        4 * count <= bytes@.len(),
    ensures
        r@ == words_of_bytes(bytes@, count as int),
{
    let blen = bytes.len();
    let mut r: Vec<u32> = Vec::new();
    let mut i: usize = 0;
    while i < count
        invariant
            blen == bytes@.len(),
            4 * count <= bytes@.len(),
            i <= count,
            r@.len() == i,
            forall|t: int| 0 <= t < i ==> r@[t] == word_of_bytes(
                bytes@[4 * t],
                bytes@[4 * t + 1],
                bytes@[4 * t + 2],
                bytes@[4 * t + 3],
            ),
        decreases count - i,
    {
        let b0 = bytes[4 * i];
        let b1 = bytes[4 * i + 1];
        let b2 = bytes[4 * i + 2];
        let b3 = bytes[4 * i + 3];
        let w = (b0 as u32) | ((b1 as u32) << 8) | ((b2 as u32) << 16) | ((b3 as u32) << 24);
        r.push(w);
        i += 1;
    }
    proof {
        assert(r@ =~= words_of_bytes(bytes@, count as int));
    }
    r
}

} // verus!
