//! Blocks of samples and their silent counterparts.

use vstd::prelude::*;

verus! {

/// Number of samples in one block handed between pipeline stages.
pub const BLOCK_SIZE: usize = 512;

/// Internal sample rate in hertz.
pub const SAMPLE_RATE: u32 = 16000;

/// The channel of the microphone.
pub const MIC_CHANNEL: usize = 0;

/// The channel of the speaker.
pub const SPEAKER_CHANNEL: usize = 1;

/// A run of `len` copies of `zero`.
pub open spec fn silence_of<T>(len: nat, zero: T) -> Seq<T> {
    Seq::new(len, |i: int| zero)
}

/// True when every sample of `s` equals `zero`.
pub open spec fn is_silent<T>(s: Seq<T>, zero: T) -> bool {
    forall|i: int| 0 <= i < s.len() ==> s[i] == zero
}

/// Builds a block of `len` samples, each equal to `zero`.
pub fn silence<T: Copy>(len: usize, zero: T) -> (out: Vec<T>)
    ensures
        out@ == silence_of(len as nat, zero),
{
    let mut out: Vec<T> = Vec::new();
    let mut i: usize = 0;
    while i < len
        invariant
            i <= len,
            out@ == silence_of(i as nat, zero),
        decreases len - i,
    {
        out.push(zero);
        i += 1;
        assert(out@ =~= silence_of(i as nat, zero));
    }
    out
}

/// Copies a block.
pub fn copy_block<T: Copy>(block: &Vec<T>) -> (out: Vec<T>)
    ensures
        out@ == block@,
{
    let mut out: Vec<T> = Vec::new();
    let mut i: usize = 0;
    while i < block.len()
        invariant
            i <= block.len(),
            out@ == block@.take(i as int),
        decreases block.len() - i,
    {
        out.push(block[i]);
        i += 1;
        assert(out@ =~= block@.take(i as int));
    }
    assert(block@.take(block.len() as int) =~= block@);
    out
}

/// What a channel forwards for one captured block: the block itself, or
/// silence of the same length while the channel is muted.
pub open spec fn muted_view<T>(muted: bool, data: Seq<T>, zero: T) -> Seq<T> {
    if muted {
        silence_of(data.len(), zero)
    } else {
        data
    }
}

/// Applies a channel's mute flag to a captured block.
pub fn apply_mute<T: Copy>(muted: bool, data: Vec<T>, zero: T) -> (out: Vec<T>)
    ensures
        out@ == muted_view(muted, data@, zero),
{
    if muted {
        silence(data.len(), zero)
    } else {
        data
    }
}

} // verus!
