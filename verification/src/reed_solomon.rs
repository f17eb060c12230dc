//! The byte interleaving used by R2007 (AC21) files. The format calls it
//! "Reed-Solomon" coding, but only the interleaving of `factor` tracks
//! is done: byte `j` of track `t` is stored at `t + j * factor`.

use vstd::prelude::*;
use vstd::arithmetic::div_mod::*;
use vstd::arithmetic::mul::*;

verus! {

/// Byte `k` of the de-interleaved output: track `k / block_size`, byte
/// `k % block_size` of that track, read from `t + j * factor` when the
/// encoded data is long enough, else zero.
pub open spec fn decoded_byte(encoded: Seq<u8>, k: int, factor: int, block_size: int) -> u8 {
    if block_size > 0 && k / block_size < factor
        && k / block_size + (k % block_size) * factor < encoded.len() {
        encoded[k / block_size + (k % block_size) * factor]
    } else {
        0
    }
}

/// The de-interleaved output of `decode`.
pub open spec fn decoded(encoded: Seq<u8>, output_size: nat, factor: int, block_size: int) -> Seq<u8> {
    Seq::new(output_size, |k: int| decoded_byte(encoded, k, factor, block_size))
}

/// Byte `c` of the interleaved output: byte `j = c / factor` of track
/// `t = c % factor`, which is data byte `t * block_size + j` when that
/// track holds it (each track holds at most `block_size` and at most 255
/// bytes), else zero.
pub open spec fn encoded_byte(data: Seq<u8>, c: int, factor: int, block_size: int) -> u8 {
    if factor > 0 && c / factor < block_size && c / factor < 255
        && (c % factor) * block_size + c / factor < data.len() {
        data[(c % factor) * block_size + c / factor]
    } else {
        0
    }
}

/// The interleaved output of `encode`: `factor * 255` bytes.
pub open spec fn encoded(data: Seq<u8>, factor: int, block_size: int) -> Seq<u8> {
    Seq::new((factor * 255) as nat, |c: int| encoded_byte(data, c, factor, block_size))
}

/// For `d > 0`: `x * d <= y` exactly when `x <= y / d`.
proof fn lemma_mul_le_iff_le_div(x: int, y: int, d: int)
    requires
        d > 0,
        x >= 0,
        y >= 0,
    ensures
        (x * d <= y) == (x <= y / d),
{
    lemma_fundamental_div_mod(y, d);
    let q = y / d;
    let r = y % d;
    assert(0 <= r < d) by {
        lemma_mod_pos_bound(y, d);
    }
    if x <= q {
        lemma_mul_inequality(x, q, d);
        assert(x * d <= q * d);
        assert(q * d == d * q) by {
            lemma_mul_is_commutative(q, d);
        }
    } else {
        lemma_mul_inequality(q + 1, x, d);
        assert((q + 1) * d == q * d + d) by {
            lemma_mul_is_distributive_add_other_way(d, q, 1);
        }
        assert(q * d == d * q) by {
            lemma_mul_is_commutative(q, d);
        }
    }
}

/// De-interleave `encoded`: `factor` tracks of at most `block_size` bytes
/// each are laid one after the other into an output of `output_size` bytes.
///
/// For the AC21 file header `factor = 3`, `block_size = 239`; for AC21
/// section pages `block_size = 255` with data blocks of 251.
pub fn decode(encoded: &[u8], output_size: usize, factor: usize, block_size: usize) -> (buffer: Vec<u8>)
    ensures
        buffer@ == decoded(encoded@, output_size as nat, factor as int, block_size as int),
{
    let mut buffer: Vec<u8> = Vec::new();
    let mut k: usize = 0;
    while k < output_size
        invariant
            k <= output_size,
            buffer@.len() == k,
            forall|i: int| 0 <= i < k ==> buffer@[i] == decoded_byte(encoded@, i, factor as int, block_size as int),
        decreases output_size - k,
    {
        let mut value: u8 = 0;
        if block_size > 0 {
            let t = k / block_size;
            let j = k % block_size;
            if t < factor && t < encoded.len() {
                let room = (encoded.len() - t - 1) / factor;
                if j <= room {
                    proof {
                        lemma_mul_le_iff_le_div(j as int, (encoded.len() - t - 1) as int, factor as int);
                        lemma_mul_is_commutative(j as int, factor as int);
                    }
                    let c = t + j * factor;
                    value = encoded[c];
                } else {
                    proof {
                        lemma_mul_le_iff_le_div(j as int, (encoded.len() - t - 1) as int, factor as int);
                    }
                }
            }
        }
        buffer.push(value);
        k = k + 1;
    }
    assert(buffer@ =~= decoded(encoded@, output_size as nat, factor as int, block_size as int));
    buffer
}

/// Interleave `data` into `factor` tracks of `block_size` bytes; the result
/// has `factor * 255` bytes.  This is the inverse of [`decode`].
pub fn encode(data: &[u8], factor: usize, block_size: usize) -> (out: Vec<u8>)
    requires
        factor * 255 <= usize::MAX,
    ensures
        out@ == encoded(data@, factor as int, block_size as int),
{
    let encoded_size = factor * 255;
    let mut out: Vec<u8> = Vec::new();
    let mut c: usize = 0;
    while c < encoded_size
        invariant
            encoded_size == factor * 255,
            c <= encoded_size,
            out@.len() == c,
            forall|i: int| 0 <= i < c ==> out@[i] == encoded_byte(data@, i, factor as int, block_size as int),
        decreases encoded_size - c,
    {
        let t = c % factor;
        let j = c / factor;
        let mut value: u8 = 0;
        if j < block_size && j < 255 && j < data.len() {
            let room = (data.len() - j - 1) / block_size;
            if t <= room {
                proof {
                    lemma_mul_le_iff_le_div(t as int, (data.len() - j - 1) as int, block_size as int);
                }
                let index = t * block_size + j;
                value = data[index];
            } else {
                proof {
                    lemma_mul_le_iff_le_div(t as int, (data.len() - j - 1) as int, block_size as int);
                }
            }
        }
        out.push(value);
        c = c + 1;
    }
    assert(out@ =~= encoded(data@, factor as int, block_size as int));
    out
}

/// The number of interleaved tracks for a page whose padded size is
/// `total_size`: the ceiling of `total_size / block_size`.
pub open spec fn page_factor(total_size: int, block_size: int) -> int {
    (total_size + block_size - 1) / block_size
}

/// The size of a page after rounding `compressed_size` up to a multiple of 8
/// and scaling it by the correction factor.
pub open spec fn page_total_size(compressed_size: int, correction_factor: int) -> int {
    ((compressed_size + 7) / 8) * 8 * correction_factor
}

/// The Reed-Solomon factor (number of tracks) and the number of bytes to read
/// for a page, given its compressed size and correction factor.
pub fn compute_page_buffer_params(compressed_size: u64, correction_factor: u64, block_size: usize) -> (r: (usize, usize))
    requires
        compressed_size + 7 <= u64::MAX,
        page_total_size(compressed_size as int, correction_factor as int) <= u64::MAX,
        page_total_size(compressed_size as int, correction_factor as int) + block_size - 1 <= usize::MAX,
        block_size > 0,
        page_factor(page_total_size(compressed_size as int, correction_factor as int), block_size as int) * 255 <= usize::MAX,
    ensures
        r.0 == page_factor(page_total_size(compressed_size as int, correction_factor as int), block_size as int),
        r.1 == r.0 * 255,
{
    let v = compressed_size + 7;
    let v1 = v & 0xFFFF_FFFF_FFFF_FFF8u64;
    assert(v1 == (v / 8) * 8) by (bit_vector)
        requires
            v1 == v & 0xFFFF_FFFF_FFFF_FFF8u64;
    let total = v1 * correction_factor;
    assert(total == page_total_size(compressed_size as int, correction_factor as int));
    assert(total <= usize::MAX);
    let total_size = total as usize;
    assert(total_size == total);
    let factor = (total_size + (block_size - 1)) / block_size;
    proof {
        lemma_div_is_ordered_by_denominator(((total_size + block_size - 1) as int), 1, block_size as int);
    }
    let read_size = factor * 255;
    (factor, read_size)
}

/// Interleaving then de-interleaving gives the data back, when every track
/// fits in the 255 bytes the interleaved block gives it.
pub proof fn lemma_decode_encode_roundtrip(data: Seq<u8>, factor: int, block_size: int)
    requires
        0 < block_size <= 255,
        factor >= 0,
        data.len() <= factor * block_size,
    ensures
        decoded(encoded(data, factor, block_size), data.len(), factor, block_size) == data,
{
    let e = encoded(data, factor, block_size);
    let out = decoded(e, data.len(), factor, block_size);
    assert forall|k: int| 0 <= k < data.len() implies #[trigger] out[k] == data[k] by {
        let t = k / block_size;
        let j = k % block_size;
        lemma_fundamental_div_mod(k, block_size);
        lemma_mod_pos_bound(k, block_size);
        assert(t < factor) by {
            lemma_mul_le_iff_le_div(factor, k, block_size);
            lemma_mul_is_commutative(factor, block_size);
        }
        assert(t >= 0) by {
            lemma_div_pos_is_pos(k, block_size);
        }
        let c = t + j * factor;
        assert(j * factor <= 254 * factor) by {
            lemma_mul_inequality(j, 254, factor);
        }
        assert(c < factor * 255);
        assert(c >= 0) by {
            lemma_mul_nonnegative(j, factor);
        }
        lemma_fundamental_div_mod_converse(c, factor, j, t);
        assert(c / factor == j && c % factor == t);
        assert(t * block_size + j == k) by {
            lemma_mul_is_commutative(t, block_size);
        }
        assert(e[c] == data[k]);
    }
    assert(out =~= data);
}

} // verus!
