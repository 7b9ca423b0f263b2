//! The round-trip test signal: a deterministic burst pattern of pseudo-random
//! noise, and the lag ranges searched when locating it in a recording.
//!
//! Sample levels are integers in units of 1/32768 of full scale, so a level
//! `l` stands for the amplitude `l / 32768`, which a 32-bit float holds exactly.
use vstd::prelude::*;

verus! {

/// Number of equal blocks the pulse is divided into.
pub const PULSE_BLOCKS: usize = 10;

/// Step between the lags tried by the coarse correlation search.
pub const COARSE_STRIDE: usize = 16;

/// Width of the lag window searched sample by sample around the coarse peak.
pub const FINE_WINDOW: usize = 128;

/// Whether block `b` of the pulse carries noise (pattern 1,0,0,1,1,0,0,0,1,0).
pub open spec fn block_on(b: int) -> bool {
    b == 0 || b == 3 || b == 4 || b == 8
}

/// One step of the linear congruential generator, modulo 2^64.
pub open spec fn lcg_next(s: u64) -> u64 {
    ((s as nat * 1103515245 + 12345) % 0x1_0000_0000_0000_0000) as u64
}

/// The generator state after `k` steps from the seed of block `b`.
pub open spec fn lcg_seed(b: nat, k: nat) -> u64
    decreases k,
{
    if k == 0 {
        (12345 + b) as u64
    } else {
        lcg_next(lcg_seed(b, (k - 1) as nat))
    }
}

/// The level drawn from generator state `s`: bits 16..31 of `s`, centred.
pub open spec fn noise_level(s: u64) -> int {
    ((s as nat / 65536) % 32768) as int - 16384
}

/// The level of sample `i` of a pulse of `length` samples.
pub open spec fn pulse_level(length: nat, i: nat) -> int {
    let block = length / 10;
    if block > 0 && i < 10 * block && block_on((i / block) as int) {
        noise_level(lcg_seed(i / block, (i % block + 1) as nat))
    } else {
        0
    }
}

proof fn lemma_level_at(length: nat, b: nat, j: nat)
    requires
        b < 10,
        j < length / 10,
    ensures
        pulse_level(length, b * (length / 10) + j) == (if block_on(b as int) {
            noise_level(lcg_seed(b, j + 1))
        } else {
            0
        }),
{
    let block = length / 10;
    let idx = b * block + j;
    vstd::arithmetic::div_mod::lemma_fundamental_div_mod_converse(
        idx as int,
        block as int,
        b as int,
        j as int,
    );
    vstd::arithmetic::mul::lemma_mul_inequality(b as int + 1, 10, block as int);
    vstd::arithmetic::mul::lemma_mul_is_distributive_add_other_way(block as int, b as int, 1);
    assert(idx < 10 * block);
}

fn lcg_step(s: u64) -> (r: u64)
    ensures
        r == lcg_next(s),
{
    let m: u64 = s.wrapping_mul(1103515245);
    let r: u64 = m.wrapping_add(12345);
    proof {
        let big: int = 0x1_0000_0000_0000_0000;
        let p: int = s as int * 1103515245;
        assert(m as int == p % big);
        vstd::arithmetic::div_mod::lemma_add_mod_noop(p, 12345, big);
        vstd::arithmetic::div_mod::lemma_small_mod(12345, big as nat);
        if m as int + 12345 < big {
            vstd::arithmetic::div_mod::lemma_small_mod((m as int + 12345) as nat, big as nat);
        } else {
            vstd::arithmetic::div_mod::lemma_fundamental_div_mod_converse(
                m as int + 12345,
                big,
                1,
                m as int + 12345 - big,
            );
        }
    }
    r
}

fn level_of(s: u64) -> (r: i16)
    ensures
        r as int == noise_level(s),
{
    let code: u64 = (s >> 16u64) & 0x7FFFu64;
    assert(code == (s / 65536) % 32768) by (bit_vector)
        requires
            code == (s >> 16u64) & 0x7FFFu64,
    ;
    let c: i16 = code as i16;
    c - 16384
}

/// The round-trip test pulse of `length` samples, as levels: ten equal
/// blocks, of which blocks 0, 3, 4 and 8 hold noise from a generator seeded
/// with `12345 + block`, all other samples (and the remainder after the ten
/// blocks) silent.
pub fn generate_white_noise_pulse(length: usize) -> (r: Vec<i16>)
    ensures
        r@.len() == length,
        forall|i: int| 0 <= i < length ==> #[trigger] r@[i] as int == pulse_level(length as nat, i as nat),
        forall|i: int| 0 <= i < length ==> -16384 <= #[trigger] r@[i] < 16384,
{
    let block: usize = length / PULSE_BLOCKS;
    let mut pulse: Vec<i16> = Vec::with_capacity(length);
    let mut b: usize = 0;
    while b < PULSE_BLOCKS
        invariant
            block == length / 10,
            b <= 10,
            pulse@.len() == b * block,
            forall|i: int| 0 <= i < pulse@.len() ==> #[trigger] pulse@[i] as int == pulse_level(length as nat, i as nat),
            forall|i: int| 0 <= i < pulse@.len() ==> -16384 <= #[trigger] pulse@[i] < 16384,
        decreases 10 - b,
    {
        let on: bool = b == 0 || b == 3 || b == 4 || b == 8;
        let mut seed: u64 = 12345 + b as u64;
        let mut j: usize = 0;
        proof {
            vstd::arithmetic::mul::lemma_mul_inequality(b as int + 1, 10, block as int);
            vstd::arithmetic::mul::lemma_mul_is_distributive_add_other_way(block as int, b as int, 1);
        }
        while j < block
            invariant
                block == length / 10,
                b < 10,
                on == block_on(b as int),
                j <= block,
                seed == lcg_seed(b as nat, j as nat),
                pulse@.len() == b * block + j,
                (b + 1) * block <= length,
                forall|i: int| 0 <= i < pulse@.len() ==> #[trigger] pulse@[i] as int == pulse_level(length as nat, i as nat),
                forall|i: int| 0 <= i < pulse@.len() ==> -16384 <= #[trigger] pulse@[i] < 16384,
            decreases block - j,
        {
            seed = lcg_step(seed);
            proof {
                lemma_level_at(length as nat, b as nat, j as nat);
            }
            if on {
                let level: i16 = level_of(seed);
                pulse.push(level);
            } else {
                pulse.push(0);
            }
            j = j + 1;
        }
        b = b + 1;
    }
    while pulse.len() < length
        invariant
            block == length / 10,
            pulse@.len() <= length,
            pulse@.len() >= 10 * block,
            forall|i: int| 0 <= i < pulse@.len() ==> #[trigger] pulse@[i] as int == pulse_level(length as nat, i as nat),
            forall|i: int| 0 <= i < pulse@.len() ==> -16384 <= #[trigger] pulse@[i] < 16384,
        decreases length - pulse@.len(),
    {
        pulse.push(0);
    }
    pulse
}

/// The first lag that the coarse search does not try: the recording must
/// hold the whole pulse from every lag tried.
pub open spec fn lag_limit(recorded_len: nat, pulse_len: nat) -> nat {
    (recorded_len - pulse_len) as nat
}

/// The lags tried by the coarse correlation search: every multiple of
/// [`COARSE_STRIDE`] below `recorded_len - pulse_len`, in increasing order.
pub fn coarse_lags(recorded_len: usize, pulse_len: usize) -> (r: Vec<usize>)
    requires
        pulse_len <= recorded_len,
    ensures
        r@.len() == (lag_limit(recorded_len as nat, pulse_len as nat) + 15) / 16,
        forall|k: int| 0 <= k < r@.len() ==> #[trigger] r@[k] == 16 * k,
        forall|k: int| 0 <= k < r@.len() ==> #[trigger] r@[k] + pulse_len < recorded_len,
        r@.len() == (recorded_len - pulse_len + 15) / 16,
        forall|l: int|
            0 <= l && l % 16 == 0 && l + pulse_len < recorded_len ==> #[trigger] r@[l / 16] == l && l
                / 16 < r@.len(),
{
    let limit: usize = recorded_len - pulse_len;
    let count: usize = if limit % COARSE_STRIDE == 0 {
        limit / COARSE_STRIDE
    } else {
        limit / COARSE_STRIDE + 1
    };
    let mut lags: Vec<usize> = Vec::with_capacity(count);
    let mut k: usize = 0;
    while k < count
        invariant
            limit == recorded_len - pulse_len,
            count == (limit + 15) / 16,
            k <= count,
            lags@.len() == k,
            forall|i: int| 0 <= i < lags@.len() ==> #[trigger] lags@[i] == 16 * i,
            forall|i: int| 0 <= i < lags@.len() ==> #[trigger] lags@[i] < limit,
        decreases count - k,
    {
        assert(16 * k < limit);
        lags.push(COARSE_STRIDE * k);
        k = k + 1;
    }
    assert forall|l: int| 0 <= l && l % 16 == 0 && l + pulse_len < recorded_len implies #[trigger] lags@[l
        / 16] == l && l / 16 < lags@.len() by {
        assert(l < limit);
        assert(l / 16 < (limit + 15) / 16);
    }
    lags
}

/// The lags `start..end` searched one by one around the coarse peak
/// `best_lag`: a window of [`FINE_WINDOW`] lags centred on it, cut at zero
/// and at the last lag from which the pulse still fits in the recording.
pub fn fine_window(best_lag: usize, recorded_len: usize, pulse_len: usize) -> (r: (usize, usize))
    requires
        pulse_len <= recorded_len,
    ensures
        r.0 == (if best_lag >= 64 { best_lag - 64 } else { 0 }),
        r.1 == (if r.0 + 128 < recorded_len - pulse_len { r.0 + 128 } else { recorded_len - pulse_len }),
        r.1 + pulse_len <= recorded_len,
{
    let start: usize = best_lag.saturating_sub(FINE_WINDOW / 2);
    let limit: usize = recorded_len - pulse_len;
    let end: usize = if start < limit && limit - start > FINE_WINDOW {
        start + FINE_WINDOW
    } else {
        limit
    };
    (start, end)
}

/// The on/off pattern of the ten blocks holds exactly: sample `j` of block
/// `b` carries the `j + 1`-th draw of the generator seeded `12345 + b` when
/// the pattern 1,0,0,1,1,0,0,0,1,0 has a 1 at `b`, and is silent otherwise;
/// the samples after the ten blocks are silent.
pub proof fn lemma_pulse_pattern(length: nat, b: nat, j: nat, i: nat)
    requires
        b < 10,
        j < length / 10,
    ensures
        pulse_level(length, b * (length / 10) + j) == (if seq![1u8, 0, 0, 1, 1, 0, 0, 0, 1, 0][b as int]
            == 1 {
            noise_level(lcg_seed(b, j + 1))
        } else {
            0
        }),
        10 * (length / 10) <= i ==> pulse_level(length, i) == 0,
        lcg_seed(b, 0) == 12345 + b,
        lcg_seed(b, j + 1) as int == (lcg_seed(b, j) as int * 1103515245 + 12345) % 0x1_0000_0000_0000_0000,
{
    lemma_level_at(length, b, j);
    let s = seq![1u8, 0, 0, 1, 1, 0, 0, 0, 1, 0];
    assert(s[0] == 1 && s[1] == 0 && s[2] == 0 && s[3] == 1 && s[4] == 1);
    assert(s[5] == 0 && s[6] == 0 && s[7] == 0 && s[8] == 1 && s[9] == 0);
}

/// A noise level is bits 16 to 30 of the generator state, centred on zero.
pub proof fn lemma_noise_bits(s: u64)
    ensures
        noise_level(s) == ((s >> 16u64) & 0x7FFFu64) as int - 16384,
        -16384 <= noise_level(s) < 16384,
{
    let code: u64 = (s >> 16u64) & 0x7FFFu64;
    assert(code == (s / 65536) % 32768) by (bit_vector)
        requires
            code == (s >> 16u64) & 0x7FFFu64,
    ;
}

/// The coarse search tries every lag from which the whole pulse fits in the
/// recording, up to the last sample: the lag limit is the recording length
/// less the pulse length.
pub proof fn lemma_lag_limit(recorded_len: nat, pulse_len: nat)
    requires
        pulse_len <= recorded_len,
    ensures
        lag_limit(recorded_len, pulse_len) + pulse_len == recorded_len,
{
}

} // verus!
