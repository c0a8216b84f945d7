//! A deterministic 64-bit xorshift generator that reproduces, bit for bit,
//! the stream of a foreign engine's legacy generator. The user seed is
//! diffused into the initial state by hashing its eight big-endian bytes
//! twice with a 32-bit block-mixing hash, the second pass seeded by the
//! first pass's output. Every constant and shift width below is part of the
//! emulated stream: changing any of them changes every generated value.

use vstd::prelude::*;

verus! {

/// Per-block multiplier of the mixing hash.
pub const MIX_MUL_1: u32 = 0xcc9e_2d51;
/// Post-rotation multiplier of the mixing hash.
pub const MIX_MUL_2: u32 = 0x1b87_3593;
/// Added in the block-combine step of the mixing hash.
pub const MIX_COMBINE_ADD: u32 = 0xe654_6b64;
/// First finalization multiplier of the mixing hash.
pub const FINAL_MUL_1: u32 = 0x85eb_ca6b;
/// Second finalization multiplier of the mixing hash.
pub const FINAL_MUL_2: u32 = 0xc2b2_ae35;
/// Seed of the first hash pass.
pub const FIRST_PASS_SEED: u32 = 0x3c07_4a61;

/// Left rotation of a 32-bit value by `r` places.
pub open spec fn rotl32(x: u32, r: u32) -> u32
    recommends
        0 < r < 32,
{
    (x << r) | (x >> ((32u32 - r) as u32))
}

/// The mixing applied to each 4-byte block before it enters the running hash.
pub open spec fn mix_block(k1: u32) -> u32 {
    rotl32(k1.wrapping_mul(MIX_MUL_1), 15).wrapping_mul(MIX_MUL_2)
}

/// One combine step of the running hash with a mixed block.
pub open spec fn mix_step(h1: u32, k1: u32) -> u32 {
    rotl32(h1 ^ mix_block(k1), 13).wrapping_mul(5).wrapping_add(MIX_COMBINE_ADD)
}

/// The finalization avalanche of the mixing hash.
pub open spec fn fmix32_spec(h0: u32) -> u32 {
    let h1 = (h0 ^ (h0 >> 16u32)).wrapping_mul(FINAL_MUL_1);
    let h2 = (h1 ^ (h1 >> 13u32)).wrapping_mul(FINAL_MUL_2);
    h2 ^ (h2 >> 16u32)
}

/// The 4-byte group starting at byte `4 * i`, read little-endian.
pub open spec fn le_u32_at(data: Seq<u8>, i: int) -> u32
    recommends
        0 <= i,
        4 * i + 4 <= data.len(),
{
    (data[4 * i] as u32) | ((data[4 * i + 1] as u32) << 8u32) | ((data[4 * i + 2] as u32)
        << 16u32) | ((data[4 * i + 3] as u32) << 24u32)
}

/// The running hash after the first `n` 4-byte blocks of `data`.
pub open spec fn hash_blocks(data: Seq<u8>, seed: u32, n: int) -> u32
    decreases n,
{
    if n <= 0 {
        seed
    } else {
        mix_step(hash_blocks(data, seed, n - 1), le_u32_at(data, n - 1))
    }
}

/// The running hash after the 0 to 3 bytes that follow the last full block.
pub open spec fn hash_tail(data: Seq<u8>, h: u32) -> u32 {
    let tail_start = 4 * (data.len() / 4) as int;
    let rest = data.len() % 4;
    let k3 = if rest >= 3 {
        0u32 ^ ((data[tail_start + 2] as u32) << 16u32)
    } else {
        0u32
    };
    let k2 = if rest >= 2 {
        k3 ^ ((data[tail_start + 1] as u32) << 8u32)
    } else {
        k3
    };
    if rest >= 1 {
        h ^ mix_block(k2 ^ (data[tail_start] as u32))
    } else {
        h
    }
}

/// The complete 32-bit mixing hash of a byte string under a seed: all full
/// blocks, then the tail bytes, then a xor with the length and finalization.
pub open spec fn bytes_hash(data: Seq<u8>, seed: u32) -> u32 {
    fmix32_spec(hash_tail(data, hash_blocks(data, seed, (data.len() / 4) as int)) ^ (
    data.len() as u32))
}

/// The eight bytes of `s`, most significant first.
pub open spec fn be_bytes_u64(s: u64) -> Seq<u8> {
    seq![
        (s >> 56u64) as u8,
        (s >> 48u64) as u8,
        (s >> 40u64) as u8,
        (s >> 32u64) as u8,
        (s >> 24u64) as u8,
        (s >> 16u64) as u8,
        (s >> 8u64) as u8,
        s as u8,
    ]
}

/// The initial generator state derived from a user seed: the seed's bytes
/// hashed twice, the second pass seeded by the first, the two 32-bit results
/// packed high and low.
pub open spec fn hash_seed_spec(seed: i64) -> i64 {
    let bytes = be_bytes_u64(seed as u64);
    let low_bits = bytes_hash(bytes, FIRST_PASS_SEED);
    let high_bits = bytes_hash(bytes, low_bits);
    ((high_bits as i64) << 32u32) | ((low_bits as i64) & 0xffff_ffff)
}

/// One advance of the 64-bit xorshift register: xor with the left shift by
/// 21, a logical right shift by 35, and the left shift by 4.
pub open spec fn xorshift_step(s: u64) -> u64 {
    let a = s ^ (s << 21u64);
    let b = a ^ (a >> 35u64);
    b ^ (b << 4u64)
}

/// A mask keeping the low `bits` bits of a 64-bit value.
pub open spec fn low_bits_mask64(bits: u32) -> u64
    recommends
        bits <= 32,
{
    ((1u64 << bits) - 1) as u64
}

/// The numerator of the next double: the low 26 bits of the state after one
/// step, then the low 27 bits of the state after a second step, packed into
/// a 53-bit value. The double itself is this numerator divided by 2^53.
pub open spec fn double_numerator(s0: u64) -> int {
    let s1 = xorshift_step(s0);
    let s2 = xorshift_step(s1);
    (s1 & 0x3ff_ffff) * 0x800_0000 + (s2 & 0x7ff_ffff)
}

proof fn lemma_and_mask_le(x: u64, m: u64)
    ensures
        x & m <= m,
{
    assert(x & m <= m) by (bit_vector);
}

proof fn lemma_i64_u64_roundtrip(x: u64)
    ensures
        (x as i64) as u64 == x,
{
    assert((x as i64) as u64 == x) by (bit_vector);
}

proof fn lemma_small_mask(b: u32)
    requires
        b <= 31,
    ensures
        (((1u64 << b) - 1) as u64) < 0x8000_0000,
{
    assert(b <= 31 ==> (((1u64 << b) - 1) as u64) < 0x8000_0000) by (bit_vector);
}

/// The emulated generator: a single 64-bit register, seeded through the
/// double hash of the user seed and advanced one xorshift step per draw.
pub struct SparkXorShiftRandom {
    pub seed: i64,
}

impl SparkXorShiftRandom {
    /// A generator whose register holds the diffused user seed. Any seed is
    /// accepted; there is no error path.
    pub fn new(init: i64) -> (r: Self)
        ensures
            r.seed == hash_seed_spec(init),
    {
        SparkXorShiftRandom { seed: Self::hash_seed(init) }
    }

    /// Diffuses a user seed into the initial register value: the seed's
    /// eight big-endian bytes hashed twice, results packed high and low.
    pub fn hash_seed(seed: i64) -> (r: i64)
        ensures
            r == hash_seed_spec(seed),
    {
        let s = seed as u64;
        let mut bytes: Vec<u8> = Vec::new();
        bytes.push((s >> 56u64) as u8);
        bytes.push((s >> 48u64) as u8);
        bytes.push((s >> 40u64) as u8);
        bytes.push((s >> 32u64) as u8);
        bytes.push((s >> 24u64) as u8);
        bytes.push((s >> 16u64) as u8);
        bytes.push((s >> 8u64) as u8);
        bytes.push(s as u8);
        proof {
            assert(bytes@ =~= be_bytes_u64(s));
        }
        let low_bits = Self::murmur3_bytes_hash(bytes.as_slice(), FIRST_PASS_SEED);
        let high_bits = Self::murmur3_bytes_hash(bytes.as_slice(), low_bits);
        ((high_bits as i64) << 32u32) | ((low_bits as i64) & 0xffff_ffff)
    }

    /// The 32-bit mixing hash of a byte string under a seed: 4-byte blocks
    /// read little-endian and mixed in, then the remaining bytes, then a
    /// xor with the length and the finalization avalanche.
    pub fn murmur3_bytes_hash(data: &[u8], seed: u32) -> (r: u32)
        ensures
            r == bytes_hash(data@, seed),
    {
        let len = data.len();
        let n_blocks = len / 4;
        let mut h1 = seed;
        let mut i: usize = 0;
        while i < n_blocks
            invariant
                n_blocks == len / 4,
                len == data@.len(),
                i <= n_blocks,
                h1 == hash_blocks(data@, seed, i as int),
            decreases n_blocks - i,
        {
            let i4 = i * 4;
            let b0 = data[i4];
            let b1 = data[i4 + 1];
            let b2 = data[i4 + 2];
            let b3 = data[i4 + 3];
            let k1 = (b0 as u32) | ((b1 as u32) << 8u32) | ((b2 as u32) << 16u32) | ((b3 as u32)
                << 24u32);
            h1 = Self::mix(h1, k1);
            i = i + 1;
        }

        let tail_start = n_blocks * 4;
        let tail_len = len - tail_start;
        let mut k1: u32 = 0;
        if tail_len >= 3 {
            k1 = k1 ^ ((data[tail_start + 2] as u32) << 16u32);
        }
        if tail_len >= 2 {
            k1 = k1 ^ ((data[tail_start + 1] as u32) << 8u32);
        }
        if tail_len >= 1 {
            k1 = k1 ^ (data[tail_start] as u32);
            k1 = k1.wrapping_mul(MIX_MUL_1);
            k1 = (k1 << 15u32) | (k1 >> 17u32);
            k1 = k1.wrapping_mul(MIX_MUL_2);
            h1 = h1 ^ k1;
        }

        h1 = h1 ^ (len as u32);
        Self::fmix32(h1)
    }

    /// One combine step of the running hash with a 4-byte block.
    pub fn mix(h1: u32, k1: u32) -> (r: u32)
        ensures
            r == mix_step(h1, k1),
    {
        let mut k = k1;
        k = k.wrapping_mul(MIX_MUL_1);
        k = (k << 15u32) | (k >> 17u32);
        k = k.wrapping_mul(MIX_MUL_2);

        let mut h = h1 ^ k;
        h = (h << 13u32) | (h >> 19u32);
        h = h.wrapping_mul(5).wrapping_add(MIX_COMBINE_ADD);
        h
    }

    /// The finalization avalanche of the mixing hash.
    pub fn fmix32(h: u32) -> (r: u32)
        ensures
            r == fmix32_spec(h),
    {
        let mut x = h;
        x = x ^ (x >> 16u32);
        x = x.wrapping_mul(FINAL_MUL_1);
        x = x ^ (x >> 13u32);
        x = x.wrapping_mul(FINAL_MUL_2);
        x = x ^ (x >> 16u32);
        x
    }

    /// Advances the register by one xorshift step and returns its low
    /// `bits` bits, truncated to a 32-bit lane.
    pub fn next(&mut self, bits: i32) -> (r: i32)
        requires
            0 <= bits <= 32,
        ensures
            final(self).seed as u64 == xorshift_step(old(self).seed as u64),
            r as u32 == (xorshift_step(old(self).seed as u64) & low_bits_mask64(
                bits as u32,
            )) as u32,
            bits < 32 ==> 0 <= r && r as u64 == xorshift_step(old(self).seed as u64)
                & low_bits_mask64(bits as u32),
    {
        let b = bits as u32;
        proof {
            assert(1u64 << b >= 1 && (b <= 32 ==> (((1u64 << b) - 1) as u64) <= 0xffff_ffff))
                by (bit_vector)
                requires
                    b <= 32u32,
            ;
        }
        let s0 = self.seed as u64;
        let a = s0 ^ (s0 << 21u32);
        let c = a ^ (a >> 35u32);
        let s1 = c ^ (c << 4u32);
        self.seed = s1 as i64;
        let mask: u64 = (1u64 << b) - 1;
        let v: u64 = s1 & mask;
        proof {
            lemma_i64_u64_roundtrip(s1);
            lemma_and_mask_le(s1, mask);
            if b <= 31 {
                lemma_small_mask(b);
            }
            assert((v as i32) as u32 == v as u32) by (bit_vector)
                requires
                    v <= 0xffff_ffffu64,
            ;
        }
        v as i32
    }

    /// The numerator of the next double in the emulated stream: 26 bits
    /// from one step and 27 bits from the next, packed into 53 bits. The
    /// double is this value divided by 2^53; the split 26 + 27 is part of
    /// the emulated stream.
    pub fn next_double_bits(&mut self) -> (n: i64)
        ensures
            final(self).seed as u64 == xorshift_step(xorshift_step(old(self).seed as u64)),
            n == double_numerator(old(self).seed as u64),
            0 <= n < 0x20_0000_0000_0000,
    {
        proof {
            assert(low_bits_mask64(26) == 0x3ff_ffffu64 && low_bits_mask64(27) == 0x7ff_ffffu64)
                by (bit_vector);
        }
        let ghost s0 = self.seed as u64;
        let hi = self.next(26);
        let ghost s1 = self.seed as u64;
        let lo = self.next(27);
        let ghost s2 = self.seed as u64;
        proof {
            lemma_and_mask_le(s1, 0x3ff_ffff);
            lemma_and_mask_le(s2, 0x7ff_ffff);
        }
        (hi as i64) * 0x800_0000 + (lo as i64)
    }
}

} // verus!
