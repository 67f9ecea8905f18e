//! The signal generator: per cycle it fills a block of samples with
//! silence when no note is held, and otherwise with amplitude-scaled
//! uniform noise, one independent draw per sample per channel.

use vstd::prelude::*;

use crate::VOLUME_SCALE;

verus! {

/// Relies on rand::random: one value of the asked type, drawn from
/// the thread-local generator. The draw is random, so nothing is
/// promised of the result.
pub assume_specification<T>[ rand::random::<T> ]() -> (r: T)
    where
        rand::distributions::Standard: rand::distributions::Distribution<T>,
;

/// One uniform draw from [0, 1), in thousandths.
fn random_unit() -> (u: u32)
    ensures
        u < VOLUME_SCALE,
{
    let r: u32 = rand::random();
    r % VOLUME_SCALE
}

/// What holds of every sample rendered against a held-note count and
/// a volume of `vol` thousandths: exact silence when no note is held
/// or the volume is zero, and an amplitude of at most the volume — a
/// sample of `s` against a volume of `vol` stands for the real values
/// `s / 1_000_000` and `vol / 1000`.
pub open spec fn sample_ok(s: i64, notes: nat, vol: u32) -> bool {
    &&& notes == 0 ==> s == 0
    &&& vol == 0 ==> s == 0
    &&& -(VOLUME_SCALE as int * vol as int) <= s <= VOLUME_SCALE as int * vol as int
}

/// One noise sample: a uniform draw from [0, 1), recentered to
/// [-1, 1) and scaled by the volume.
fn noise_sample(vol: u32) -> (s: i64)
    ensures
        -(VOLUME_SCALE as int * vol as int) <= s <= VOLUME_SCALE as int * vol as int,
        vol == 0 ==> s == 0,
{
    let u = random_unit();
    let centered: i64 = 2 * (u as i64) - (VOLUME_SCALE as i64);
    proof {
        assert(-(VOLUME_SCALE as int * vol as int) <= centered as int * vol as int <= VOLUME_SCALE
            as int * vol as int) by (nonlinear_arith)
            requires
                -(VOLUME_SCALE as int) <= centered as int <= VOLUME_SCALE as int,
                0 <= vol as int,
        ;
    }
    centered * (vol as i64)
}

/// Renders the block of one processing cycle, flattened
/// channel-major: the sample of channel `c` at frame `f` stands at
/// index `c * frames + f`. Silence is exact whenever no note is held
/// or the volume is zero; otherwise every sample is noise bounded by
/// the volume.
pub fn render_block(notes: u64, vol: u32, channels: usize, frames: usize) -> (out: Vec<i64>)
    requires
        channels * frames <= usize::MAX,
    ensures
        out@.len() == channels * frames,
        forall|k: int| 0 <= k < out@.len() ==> sample_ok(#[trigger] out@[k], notes as nat, vol),
{
    let total = channels * frames;
    let mut out: Vec<i64> = Vec::new();
    if notes == 0 {
        while out.len() < total
            invariant
                out@.len() <= total,
                forall|k: int| 0 <= k < out@.len() ==> #[trigger] out@[k] == 0,
            decreases total - out.len(),
        {
            out.push(0i64);
        }
        return out;
    }
    while out.len() < total
        invariant
            notes != 0,
            out@.len() <= total,
            forall|k: int| 0 <= k < out@.len() ==> sample_ok(#[trigger] out@[k], notes as nat, vol),
        decreases total - out.len(),
    {
        let s = noise_sample(vol);
        out.push(s);
    }
    out
}

} // verus!
