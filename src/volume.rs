use crate::error::AudioError;
use vstd::prelude::*;

verus! {

/// The native level that stands for 100% volume.
pub const NORMAL_VOLUME: u32 = 0x10000;

/// The native level of a silent channel.
pub const MUTED_VOLUME: u32 = 0;

/// The largest native level the audio service accepts on a channel.
pub const MAX_VOLUME: u32 = 0x7fff_ffff;

/// The most channels a channel-volume set holds.
pub const MAX_CHANNELS: usize = 32;

/// Sum of the channel levels.
pub open spec fn sum_of(c: Seq<u32>) -> int
    decreases c.len(),
{
    if c.len() == 0 {
        0
    } else {
        sum_of(c.drop_last()) + c.last()
    }
}

/// A channel-volume set the service considers valid: one to `MAX_CHANNELS`
/// channels, none above `MAX_VOLUME`.
pub open spec fn valid_channels(c: Seq<u32>) -> bool {
    &&& 1 <= c.len() <= MAX_CHANNELS
    &&& forall|i: int| 0 <= i < c.len() ==> c[i] <= MAX_VOLUME
}

/// The average level of a channel-volume set, rounded down; a set that is not
/// valid reads as silent.
pub open spec fn average_of(c: Seq<u32>) -> int {
    if valid_channels(c) {
        sum_of(c) / (c.len() as int)
    } else {
        MUTED_VOLUME as int
    }
}

/// A requested native level lies between silent and normal.
pub open spec fn level_in_range(units: int) -> bool {
    0 <= units <= NORMAL_VOLUME
}

proof fn lemma_sum_bounded(c: Seq<u32>)
    requires
        forall|i: int| 0 <= i < c.len() ==> c[i] <= MAX_VOLUME,
    ensures
        0 <= sum_of(c) <= c.len() * (MAX_VOLUME as int),
    decreases c.len(),
{
    if c.len() > 0 {
        let d = c.drop_last();
        assert forall|i: int| 0 <= i < d.len() implies d[i] <= MAX_VOLUME by {
            assert(d[i] == c[i]);
        }
        lemma_sum_bounded(d);
        assert(c.len() * (MAX_VOLUME as int) == d.len() * (MAX_VOLUME as int) + MAX_VOLUME)
            by (nonlinear_arith)
            requires
                c.len() == d.len() + 1,
        ;
    }
}

/// Average level of the channels, as the audio service computes it.
pub fn channel_average(channels: &Vec<u32>) -> (r: u32)
    ensures
        r as int == average_of(channels@),
{
    let n = channels.len();
    if n == 0 || n > MAX_CHANNELS {
        return MUTED_VOLUME;
    }
    let mut sum: u64 = 0;
    let mut i: usize = 0;
    while i < n
        invariant
            n == channels@.len(),
            1 <= n <= MAX_CHANNELS,
            i <= n,
            sum as int == sum_of(channels@.subrange(0, i as int)),
            forall|j: int| 0 <= j < i ==> channels@[j] <= MAX_VOLUME,
        decreases n - i,
    {
        let v = channels[i];
        if v > MAX_VOLUME {
            proof {
                assert(!valid_channels(channels@));
            }
            return MUTED_VOLUME;
        }
        proof {
            let s = channels@.subrange(0, i as int + 1);
            assert(s.drop_last() =~= channels@.subrange(0, i as int));
            lemma_sum_bounded(channels@.subrange(0, i as int));
            assert(i * (MAX_VOLUME as int) <= 32 * (MAX_VOLUME as int)) by (nonlinear_arith)
                requires
                    i <= 32,
            ;
        }
        sum = sum + v as u64;
        i = i + 1;
    }
    proof {
        assert(channels@.subrange(0, n as int) =~= channels@);
        lemma_sum_bounded(channels@);
        assert(sum_of(channels@) / (n as int) <= MAX_VOLUME) by (nonlinear_arith)
            requires
                0 <= sum_of(channels@) <= n * (MAX_VOLUME as int),
                n >= 1,
        ;
    }
    (sum / (n as u64)) as u32
}

/// Checks a requested native level: levels from silent to normal are accepted,
/// anything else is an invalid argument.
pub fn check_level(units: i64) -> (r: Result<u32, AudioError>)
    ensures
        level_in_range(units as int) ==> r == Ok::<u32, AudioError>(units as u32),
        !level_in_range(units as int) ==> r == Err::<u32, AudioError>(AudioError::InvalidArgument),
{
    if units < 0 || units > NORMAL_VOLUME as i64 {
        Err(AudioError::InvalidArgument)
    } else {
        Ok(units as u32)
    }
}

/// The level shown for a channel-volume set: its average, capped at normal, so
/// that a shown level never exceeds 100%.
pub open spec fn shown_level(c: Seq<u32>) -> int {
    if average_of(c) > NORMAL_VOLUME {
        NORMAL_VOLUME as int
    } else {
        average_of(c)
    }
}

/// A shown level lies between silent and normal.
pub proof fn lemma_shown_level_bounds(c: Seq<u32>)
    ensures
        0 <= shown_level(c) <= NORMAL_VOLUME,
{
    if valid_channels(c) {
        lemma_sum_bounded(c);
    }
}

/// The level shown for the channels: their average, capped at normal.
pub fn shown_volume(channels: &Vec<u32>) -> (r: u32)
    ensures
        r as int == shown_level(channels@),
        r <= NORMAL_VOLUME,
{
    let avg = channel_average(channels);
    if avg > NORMAL_VOLUME {
        NORMAL_VOLUME
    } else {
        avg
    }
}

/// Whether a channel count can be written: one to `MAX_CHANNELS`.
pub open spec fn writable_channels(n: int) -> bool {
    1 <= n <= MAX_CHANNELS
}

/// The channel-volume set a volume write sends: the level on each of `n`
/// channels.
pub fn uniform_levels(level: u32, n: usize) -> (r: Vec<u32>)
    ensures
        r@ == Seq::new(n as nat, |_i: int| level),
{
    let mut r: Vec<u32> = Vec::new();
    let mut i: usize = 0;
    while i < n
        invariant
            i <= n,
            r@ == Seq::new(i as nat, |_i: int| level),
        decreases n - i,
    {
        r.push(level);
        i = i + 1;
        assert(r@ =~= Seq::new(i as nat, |_i: int| level));
    }
    r
}

/// A channel-volume set with the same level on every channel averages to that
/// level: what a volume write sets is what a read gives back.
pub proof fn lemma_uniform_average(level: u32, n: nat)
    requires
        1 <= n <= MAX_CHANNELS,
        level <= MAX_VOLUME,
    ensures
        average_of(Seq::new(n, |_i: int| level)) == level,
{
    lemma_uniform_sum(level, n);
    assert((n as int) * (level as int) / (n as int) == level as int) by (nonlinear_arith)
        requires
            n >= 1,
    ;
}

proof fn lemma_uniform_sum(level: u32, n: nat)
    ensures
        sum_of(Seq::new(n, |_i: int| level)) == (n as int) * (level as int),
    decreases n,
{
    if n == 0 {
        assert(Seq::new(n, |_i: int| level).len() == 0);
    } else {
        let s = Seq::new(n, |_i: int| level);
        assert(s.drop_last() =~= Seq::new((n - 1) as nat, |_i: int| level));
        lemma_uniform_sum(level, (n - 1) as nat);
        assert(s.last() == level);
        assert(sum_of(s) == sum_of(s.drop_last()) + level);
        assert((n as int) * (level as int) == ((n - 1) as int) * (level as int) + level)
            by (nonlinear_arith);
    }
}

} // verus!
