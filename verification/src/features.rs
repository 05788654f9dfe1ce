//! Feature extraction: one received datagram becomes a fixed-length
//! attribute vector.
//!
//! An attribute vector is exactly ten signed 64-bit integers: source port,
//! payload length, first payload byte, byte-sum weight, weight modulo 111,
//! length modulo 7, partial byte-sum over the first eight bytes, textual
//! length of the source address, and two reserved zero slots. Undersized and
//! oversized datagrams are rejected before extraction.

use vstd::prelude::*;

verus! {

/// Smallest datagram that is scored, in bytes.
pub const MIN_DATAGRAM_LEN: usize = 8;

/// Largest datagram that is scored, in bytes.
pub const MAX_DATAGRAM_LEN: usize = 1024;

/// Divisor of the folded weight attribute.
pub const WEIGHT_MODULUS: u64 = 111;

/// How many leading bytes the partial byte-sum covers.
pub const PARTIAL_SUM_LEN: usize = 8;

/// Multiplier of the synthetic vector generator: a 64-bit golden-ratio mix.
pub const SYNTH_MIX: u64 = 0x9E3779B97F4A7C15;

/// ASCII code of the control-message delimiter `|`.
pub const CONTROL_DELIMITER: u8 = 124;

/// Sum of the first `n` bytes of `s`, as a mathematical integer.
pub open spec fn byte_sum(s: Seq<u8>, n: int) -> int
    decreases n,
{
    if n <= 0 {
        0
    } else {
        byte_sum(s, n - 1) + s[n - 1]
    }
}

/// A datagram of length `len` is accepted for scoring.
pub open spec fn accepted_len(len: int) -> bool {
    MIN_DATAGRAM_LEN <= len <= MAX_DATAGRAM_LEN
}

/// The sum of the first `n` bytes is at most `255 * n`.
proof fn lemma_byte_sum_bound(s: Seq<u8>, n: int)
    requires
        0 <= n <= s.len(),
    ensures
        0 <= byte_sum(s, n) <= 255 * n,
    decreases n,
{
    if n > 0 {
        lemma_byte_sum_bound(s, n - 1);
    }
}

/// Turns one accepted datagram into its attribute vector.
///
/// Returns `None` exactly for undersized or oversized payloads; otherwise
/// every slot of the vector is fixed by the payload, the source port and the
/// textual length of the source address.
pub fn extract_attributes(payload: &Vec<u8>, source_port: u16, addr_text_len: usize) -> (r: Option<
    [i64; 10],
>)
    ensures
        r is Some <==> accepted_len(payload@.len() as int),
        r matches Some(a) ==> {
            &&& a@[0] == source_port as i64
            &&& a@[1] == payload@.len() as i64
            &&& a@[2] == payload@[0] as i64
            &&& a@[3] == byte_sum(payload@, payload@.len() as int)
            &&& a@[4] == byte_sum(payload@, payload@.len() as int) % (WEIGHT_MODULUS as int)
            &&& a@[5] == (payload@.len() as int) % 7
            &&& a@[6] == byte_sum(payload@, PARTIAL_SUM_LEN as int)
            &&& a@[7] == addr_text_len as i64
            &&& a@[8] == 0
            &&& a@[9] == 0
        },
{
    let len: usize = payload.len();
    if len < MIN_DATAGRAM_LEN || len > MAX_DATAGRAM_LEN {
        return None;
    }

    let mut weight: u64 = 0;
    let mut partial: u64 = 0;
    let mut i: usize = 0;
    while i < len
        invariant
            0 <= i <= len,
            len == payload@.len(),
            MIN_DATAGRAM_LEN <= len <= MAX_DATAGRAM_LEN,
            weight == byte_sum(payload@, i as int),
            partial == byte_sum(payload@, if i as int <= PARTIAL_SUM_LEN as int {
                i as int
            } else {
                PARTIAL_SUM_LEN as int
            }),
        decreases len - i,
    {
        proof {
            lemma_byte_sum_bound(payload@, i as int);
        }
        let b: u8 = payload[i];
        weight = weight + (b as u64);
        if i < PARTIAL_SUM_LEN {
            partial = partial + (b as u64);
        }
        i = i + 1;
    }

    proof {
        lemma_byte_sum_bound(payload@, len as int);
        lemma_byte_sum_bound(payload@, PARTIAL_SUM_LEN as int);
    }
    let first_byte: u8 = payload[0];
    let folded_weight: u64 = weight % WEIGHT_MODULUS;
    let len_mod: usize = len % 7;

    let attrs: [i64; 10] = [
        source_port as i64,
        len as i64,
        first_byte as i64,
        weight as i64,
        folded_weight as i64,
        len_mod as i64,
        partial as i64,
        #[verifier::truncate] (addr_text_len as i64),
        0i64,
        0i64,
    ];
    Some(attrs)
}

/// Slot `i` of the synthetic attack vector for `seed`: a wraparound
/// golden-ratio mix of the seed and the slot index.
pub open spec fn spec_synth_slot(seed: u64, i: int) -> u64 {
    vstd::wrapping::u64_specs::wrapping_mul(
        vstd::wrapping::u64_specs::wrapping_add(seed, i as u64),
        SYNTH_MIX,
    )
}

/// Generates a synthetic high-entropy ten-slot attribute vector from a seed,
/// for replaying traffic against the diffusion engine.
pub fn generate_malicious_vector(seed: u64) -> (r: [u64; 10])
    ensures
        forall|i: int| 0 <= i < 10 ==> r@[i] == spec_synth_slot(seed, i),
{
    let mut arr: [u64; 10] = [0u64; 10];
    let mut i: usize = 0;
    while i < 10
        invariant
            0 <= i <= 10,
            forall|j: int| 0 <= j < i ==> arr@[j] == spec_synth_slot(seed, j),
        decreases 10 - i,
    {
        arr[i] = seed.wrapping_add(i as u64).wrapping_mul(SYNTH_MIX);
        i = i + 1;
    }
    arr
}

/// Position of the first control delimiter `|` in a payload, if any.
///
/// A payload that carries a delimiter is a candidate control message of the
/// form `TOKEN|value`; one without a delimiter is ordinary traffic.
pub fn find_control_delimiter(payload: &Vec<u8>) -> (r: Option<usize>)
    ensures
        r matches Some(i) ==> {
            &&& 0 <= i < payload@.len()
            &&& payload@[i as int] == CONTROL_DELIMITER
            &&& forall|j: int| 0 <= j < i ==> payload@[j] != CONTROL_DELIMITER
        },
        r is None ==> forall|j: int|
            0 <= j < payload@.len() ==> payload@[j] != CONTROL_DELIMITER,
{
    let len: usize = payload.len();
    let mut i: usize = 0;
    while i < len
        invariant
            0 <= i <= len,
            len == payload@.len(),
            forall|j: int| 0 <= j < i ==> payload@[j] != CONTROL_DELIMITER,
        decreases len - i,
    {
        if payload[i] == CONTROL_DELIMITER {
            return Some(i);
        }
        i = i + 1;
    }
    None
}

} // verus!
