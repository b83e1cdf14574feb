//! The destination mixer's arithmetic on 16-bit PCM blocks: a channel's gain
//! applied to a captured block, and voices summed into one output block.
use vstd::prelude::*;
use crate::model::UNITY_GAIN;

verus! {

pub open spec fn clamp_sample(x: int) -> i16 {
    if x > i16::MAX {
        i16::MAX
    } else if x < i16::MIN {
        i16::MIN
    } else {
        x as i16
    }
}

/// `s` scaled by `gain` thousandths, rounded toward zero and clipped.
pub open spec fn scaled(s: i16, gain: u32) -> i16 {
    let p = s as int * gain as int;
    clamp_sample(
        if p >= 0 {
            p / UNITY_GAIN as int
        } else {
            -((-p) / UNITY_GAIN as int)
        },
    )
}

/// Sample `i` of a block, silence past its end.
pub open spec fn sample_at(block: Seq<i16>, i: int) -> int {
    if 0 <= i < block.len() {
        block[i] as int
    } else {
        0
    }
}

/// `voice` added onto `out`, clipped; the result is as long as the longer of the two.
pub open spec fn mixed(out: Seq<i16>, voice: Seq<i16>) -> Seq<i16> {
    Seq::new(
        if out.len() >= voice.len() {
            out.len()
        } else {
            voice.len()
        },
        |i: int| clamp_sample(sample_at(out, i) + sample_at(voice, i)),
    )
}

fn clamp(x: i64) -> (r: i16)
    ensures
        r == clamp_sample(x as int),
{
    if x > i16::MAX as i64 {
        i16::MAX
    } else if x < i16::MIN as i64 {
        i16::MIN
    } else {
        x as i16
    }
}

/// Applies `gain` (thousandths) to every sample of a captured block.
pub fn apply_gain(block: &mut Vec<i16>, gain: u32)
    ensures
        final(block)@.len() == old(block)@.len(),
        forall|i: int| 0 <= i < final(block)@.len() ==> #[trigger] final(block)@[i] == scaled(old(block)@[i], gain),
{
    let mut i: usize = 0;
    while i < block.len()
        invariant
            i <= block@.len(),
            block@.len() == old(block)@.len(),
            forall|k: int| 0 <= k < i ==> #[trigger] block@[k] == scaled(old(block)@[k], gain),
            forall|k: int| i <= k < block@.len() ==> #[trigger] block@[k] == old(block)@[k],
        decreases block.len() - i,
    {
        let s = block[i];
        assert(-0x8000_0000_0000 <= s as int * gain as int <= 0x8000_0000_0000) by (nonlinear_arith)
            requires
                -0x8000 <= s as int <= 0x7fff,
                0 <= gain as int <= 0xffff_ffff,
        ;
        let p: i64 = s as i64 * gain as i64;
        let q: i64 = if p >= 0 {
            p / UNITY_GAIN as i64
        } else {
            -((-p) / UNITY_GAIN as i64)
        };
        block.set(i, clamp(q));
        i += 1;
    }
}

/// Adds a voice onto an output block; where the voice is longer the block grows.
pub fn mix_into(out: &mut Vec<i16>, voice: &Vec<i16>)
    ensures
        final(out)@ == mixed(old(out)@, voice@),
{
    let n = out.len();
    let mut i: usize = 0;
    while i < voice.len()
        invariant
            i <= voice@.len(),
            n == old(out)@.len(),
            out@.len() == if n >= i {
                n as int
            } else {
                i as int
            },
            forall|k: int| 0 <= k < i ==> #[trigger] out@[k] == clamp_sample(
                sample_at(old(out)@, k) + sample_at(voice@, k),
            ),
            forall|k: int| i <= k < out@.len() ==> #[trigger] out@[k] == old(out)@[k],
        decreases voice.len() - i,
    {
        if i < out.len() {
            let v = clamp(out[i] as i64 + voice[i] as i64);
            out.set(i, v);
        } else {
            out.push(voice[i]);
        }
        i += 1;
    }
    assert forall|k: int| 0 <= k < out@.len() implies #[trigger] out@[k] == mixed(old(out)@, voice@)[k] by {
        if k >= voice@.len() {
            assert(out@[k] == old(out)@[k]);
        }
    }
    assert(out@ =~= mixed(old(out)@, voice@));
}

/// Two voices mixed into silence both reach the output: where nothing clips,
/// each output sample is the sum of the two voices' samples, in either order.
pub proof fn lemma_two_voices_mixed(silence: Seq<i16>, a: Seq<i16>, b: Seq<i16>, i: int)
    requires
        forall|k: int| 0 <= k < silence.len() ==> #[trigger] silence[k] == 0,
        0 <= i < mixed(mixed(silence, a), b).len(),
        i16::MIN <= sample_at(a, i) + sample_at(b, i) <= i16::MAX,
    ensures
        mixed(mixed(silence, a), b)[i] as int == sample_at(a, i) + sample_at(b, i),
        mixed(mixed(silence, a), b)[i] == mixed(mixed(silence, b), a)[i],
{
    let ab = mixed(silence, a);
    let ba = mixed(silence, b);
    assert(sample_at(ab, i) == sample_at(a, i));
    assert(sample_at(ba, i) == sample_at(b, i));
}

} // verus!
