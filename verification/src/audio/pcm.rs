//! Signed 16-bit little-endian PCM, the format in which audio travels to the
//! speech backend and in which recorded input is read back.

use vstd::prelude::*;
use crate::audio::block::{is_silent, silence_of};

verus! {

/// The sample as an unsigned 16-bit number in two's complement.
pub open spec fn unsigned_of(sample: i16) -> int {
    if sample < 0 {
        sample + 65536
    } else {
        sample as int
    }
}

/// The low byte of a sample.
pub open spec fn low_byte(sample: i16) -> u8 {
    (unsigned_of(sample) % 256) as u8
}

/// The high byte of a sample.
pub open spec fn high_byte(sample: i16) -> u8 {
    (unsigned_of(sample) / 256) as u8
}

/// The bytes of `samples`: two per sample, low byte first.
pub open spec fn pcm16_le(samples: Seq<i16>) -> Seq<u8> {
    Seq::new(
        2 * samples.len(),
        |i: int|
            if i % 2 == 0 {
                low_byte(samples[i / 2])
            } else {
                high_byte(samples[i / 2])
            },
    )
}

/// The sample that two bytes stand for, low byte first.
pub open spec fn sample_of(low: u8, high: u8) -> i16 {
    let u = low as int + 256 * high as int;
    if u >= 32768 {
        (u - 65536) as i16
    } else {
        u as i16
    }
}

/// Encodes samples as 16-bit little-endian PCM.
pub fn to_pcm16_le(samples: &Vec<i16>) -> (out: Vec<u8>)
    ensures
        out@ == pcm16_le(samples@),
{
    let mut out: Vec<u8> = Vec::new();
    let mut i: usize = 0;
    while i < samples.len()
        invariant
            i <= samples.len(),
            out@ == pcm16_le(samples@.take(i as int)),
        decreases samples.len() - i,
    {
        let v: i32 = samples[i] as i32;
        let u: i32 = if v < 0 {
            v + 65536
        } else {
            v
        };
        let ghost before = out@;
        out.push((u % 256) as u8);
        out.push((u / 256) as u8);
        i += 1;
        assert(out@ =~= pcm16_le(samples@.take(i as int))) by {
            let next = pcm16_le(samples@.take(i as int));
            assert(out@.len() == next.len());
            assert forall|k: int| 0 <= k < out@.len() implies out@[k] == next[k] by {
                if k < before.len() {
                    assert(out@[k] == before[k]);
                    assert(samples@.take(i as int)[k / 2] == samples@.take(i - 1)[k / 2]);
                } else {
                    assert(k / 2 == i - 1);
                }
            }
        }
    }
    assert(samples@.take(samples.len() as int) =~= samples@);
    out
}

/// The two byte buffers of a frame on its way to the speech backend: each
/// side is encoded on its own.
pub fn frame_bytes(mic: &Vec<i16>, spk: &Vec<i16>) -> (out: (Vec<u8>, Vec<u8>))
    ensures
        out.0@ == pcm16_le(mic@),
        out.1@ == pcm16_le(spk@),
{
    (to_pcm16_le(mic), to_pcm16_le(spk))
}

/// Reads the sample at byte offset `position` of recorded input, with the
/// offset of the sample after it; nothing when fewer than two bytes remain.
pub fn next_sample(data: &Vec<u8>, position: usize) -> (out: Option<(i16, usize)>)
    ensures
        out == if position + 2 <= data.len() {
            Some((sample_of(data[position as int], data[position + 1]), (position + 2) as usize))
        } else {
            None::<(i16, usize)>
        },
{
    if position <= data.len() && data.len() - position >= 2 {
        let u: i32 = data[position] as i32 + 256 * (data[position + 1] as i32);
        let sample: i16 = if u >= 32768 {
            (u - 65536) as i16
        } else {
            u as i16
        };
        Some((sample, position + 2))
    } else {
        None
    }
}

/// Decoding the two bytes of a sample gives the sample back.
pub proof fn law_pcm_round_trip(sample: i16)
    ensures
        sample_of(low_byte(sample), high_byte(sample)) == sample,
{
}

/// A side of a frame that is silent reaches the speech backend as zero
/// bytes, two for each sample, whatever the other side holds.
pub proof fn law_silent_side_is_zero_bytes(samples: Seq<i16>)
    requires
        is_silent(samples, 0i16),
    ensures
        pcm16_le(samples).len() == 2 * samples.len(),
        forall|i: int| 0 <= i < 2 * samples.len() ==> #[trigger] pcm16_le(samples)[i] == 0u8,
{
    assert forall|i: int| 0 <= i < 2 * samples.len() implies #[trigger] pcm16_le(samples)[i]
        == 0u8 by {
        assert(samples[i / 2] == 0i16);
    }
}

/// Silence encodes to zero bytes, two for each sample.
pub proof fn law_silence_is_zero_bytes(len: nat)
    ensures
        pcm16_le(silence_of(len, 0i16)).len() == 2 * len,
        forall|i: int| 0 <= i < 2 * len ==> #[trigger] pcm16_le(silence_of(len, 0i16))[i] == 0u8,
{
}

} // verus!
