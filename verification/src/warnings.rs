use vstd::prelude::*;

use crate::config::DaemonConfig;
use crate::session::SessionInfo;

verus! {

/// Whole minutes remaining, as the warning scan measures time: milliseconds
/// divided down to minutes with division that truncates toward zero.
pub open spec fn minutes_of_ms(ms: int) -> int {
    if ms >= 0 {
        ms / 60000
    } else {
        -((-ms) / 60000)
    }
}

/// The tolerance window of a threshold `w`: a tick whose remaining minutes lie
/// in `[w - 1, w]` is caught by `w`. The window is one minute wide below the
/// threshold because the warning cadence cannot be counted on to land exactly
/// on the threshold minute.
pub open spec fn in_window(w: int, rm: int) -> bool {
    w - 1 <= rm <= w
}

/// The first threshold at or after position `i`, in configured order, whose
/// window holds `rm`.
pub open spec fn first_due_from(thresholds: Seq<u64>, rm: int, i: int) -> Option<u64>
    decreases thresholds.len() - i when 0 <= i <= thresholds.len()
{
    if i >= thresholds.len() {
        None
    } else if in_window(thresholds[i] as int, rm) {
        Some(thresholds[i])
    } else {
        first_due_from(thresholds, rm, i + 1)
    }
}

/// The first threshold, in configured order, whose window holds `rm`.
pub open spec fn first_due(thresholds: Seq<u64>, rm: int) -> Option<u64> {
    first_due_from(thresholds, rm, 0)
}

/// Milliseconds to whole minutes, truncating toward zero.
pub fn remaining_minutes(ms: i64) -> (rm: i64)
    ensures
        rm == minutes_of_ms(ms as int),
{
    if ms >= 0 {
        let q: u64 = (ms as u64) / 60000;
        q as i64
    } else {
        let mag: u64 = (-(ms as i128)) as u64;
        assert(mag == -(ms as int));
        let q: u64 = mag / 60000;
        -(q as i64)
    }
}

/// One warning-check tick: never a warning once the session is expired;
/// otherwise the first configured threshold whose window holds the remaining
/// minutes, if there is one. At most one warning comes out of a tick, whatever
/// the configuration: the scan stops at the first match.
pub fn warning_decision(info: &SessionInfo, config: &DaemonConfig) -> (warn: Option<u64>)
    ensures
        info.is_expired ==> warn is None,
        !info.is_expired ==> warn == first_due(
            config.session_warnings@,
            minutes_of_ms(info.time_remaining as int),
        ),
{
    if info.is_expired {
        return None;
    }
    let rm = remaining_minutes(info.time_remaining);
    let thresholds = &config.session_warnings;
    let n = thresholds.len();
    let mut i: usize = 0;
    while i < n
        invariant
            !info.is_expired,
            0 <= i <= n,
            n == thresholds@.len(),
            thresholds@ == config.session_warnings@,
            rm == minutes_of_ms(info.time_remaining as int),
            first_due(thresholds@, rm as int) == first_due_from(thresholds@, rm as int, i as int),
        decreases n - i,
    {
        let w = thresholds[i];
        let hit = if rm >= 0 {
            let rmu = rm as u64;
            rmu <= w && w <= rmu + 1
        } else {
            // A negative minute count can only fall into the window of a zero
            // threshold, and only in its first minute past expiry.
            w == 0 && rm == -1
        };
        assert(hit == in_window(w as int, rm as int));
        if hit {
            assert(first_due_from(thresholds@, rm as int, i as int) == Some(w));
            return Some(w);
        }
        assert(first_due_from(thresholds@, rm as int, i as int)
            == first_due_from(thresholds@, rm as int, i as int + 1));
        i += 1;
    }
    assert(first_due_from(thresholds@, rm as int, i as int) is None);
    None
}

/// If every threshold from position `i` up to `k` misses `rm` and threshold
/// `k` catches it, the scan starting at `i` yields exactly threshold `k`.
proof fn lemma_first_due_from_hits(thresholds: Seq<u64>, rm: int, i: int, k: int)
    requires
        0 <= i <= k < thresholds.len(),
        forall|j: int| i <= j < k ==> !in_window(#[trigger] thresholds[j] as int, rm),
        in_window(thresholds[k] as int, rm),
    ensures
        first_due_from(thresholds, rm, i) == Some(thresholds[k]),
    decreases k - i,
{
    if i < k {
        lemma_first_due_from_hits(thresholds, rm, i + 1, k);
    }
}

/// A fired warning's window always holds the sampled minutes.
pub proof fn lemma_first_due_window(thresholds: Seq<u64>, rm: int, i: int)
    requires
        0 <= i <= thresholds.len(),
    ensures
        first_due_from(thresholds, rm, i) matches Some(w) ==> in_window(w as int, rm),
    decreases thresholds.len() - i,
{
    if i < thresholds.len() && !in_window(thresholds[i] as int, rm) {
        lemma_first_due_window(thresholds, rm, i + 1);
    }
}

/// What a tick's warning scan means, exactly. `Some(w)` holds when some
/// position carries `w`, its window holds the sampled minutes, and every
/// earlier position misses — the scan stops at the first match, so one tick
/// fires at most one warning however many windows are satisfied at once.
/// `None` holds when every position misses.
pub proof fn lemma_first_due_characterization(thresholds: Seq<u64>, rm: int, i: int)
    requires
        0 <= i <= thresholds.len(),
    ensures
        match first_due_from(thresholds, rm, i) {
            Some(w) => exists|k: int|
                #![auto]
                i <= k < thresholds.len() && thresholds[k] == w && in_window(w as int, rm) && (
                forall|j: int| i <= j < k ==> !in_window(#[trigger] thresholds[j] as int, rm)),
            None => forall|j: int|
                i <= j < thresholds.len() ==> !in_window(#[trigger] thresholds[j] as int, rm),
        },
    decreases thresholds.len() - i,
{
    if i < thresholds.len() {
        if in_window(thresholds[i] as int, rm) {
            let w = thresholds[i];
            assert(i <= i < thresholds.len() && thresholds[i] == w && in_window(w as int, rm)
                && (forall|j: int| i <= j < i ==> !in_window(
                #[trigger] thresholds[j] as int,
                rm,
            )));
        } else {
            lemma_first_due_characterization(thresholds, rm, i + 1);
            match first_due_from(thresholds, rm, i + 1) {
                Some(w) => {
                    let k = choose|k: int|
                        #![auto]
                        i + 1 <= k < thresholds.len() && thresholds[k] == w && in_window(
                            w as int,
                            rm,
                        ) && (forall|j: int|
                            i + 1 <= j < k ==> !in_window(#[trigger] thresholds[j] as int, rm));
                    assert(i <= k < thresholds.len() && thresholds[k] == w && in_window(w as int, rm)
                        && (forall|j: int| i <= j < k ==> !in_window(
                        #[trigger] thresholds[j] as int,
                        rm,
                    )));
                },
                None => {},
            }
        }
    }
}

/// Threshold lists given from the largest lead time down to the smallest, the
/// configured shape (for example 30, 15, 5).
pub open spec fn strictly_decreasing(thresholds: Seq<u64>) -> bool {
    forall|i: int, j: int|
        0 <= i < j < thresholds.len() ==> #[trigger] thresholds[i] > #[trigger] thresholds[j]
}

/// With strictly decreasing thresholds, a tick that samples one minute below a
/// configured threshold fires exactly that threshold's warning: every earlier
/// (larger) threshold's window lies above the sample.
pub proof fn lemma_due_below_threshold(thresholds: Seq<u64>, k: int)
    requires
        strictly_decreasing(thresholds),
        0 <= k < thresholds.len(),
    ensures
        first_due(thresholds, thresholds[k] - 1) == Some(thresholds[k]),
{
    let w = thresholds[k] as int;
    assert forall|j: int| 0 <= j < k implies !in_window(
        #[trigger] thresholds[j] as int,
        w - 1,
    ) by {
        assert(thresholds[j] > thresholds[k]);
    }
    lemma_first_due_from_hits(thresholds, w - 1, 0, k);
}

/// Ticks that decrease by exactly one per step sample, at step `i`, the start
/// value minus `i`.
proof fn lemma_consecutive_sample(samples: Seq<int>, i: int)
    requires
        forall|t: int| 0 <= t < samples.len() - 1 ==> #[trigger] samples[t + 1] == samples[t] - 1,
        0 <= i < samples.len(),
    ensures
        samples[i] == samples[0] - i,
    decreases i,
{
    if i > 0 {
        lemma_consecutive_sample(samples, i - 1);
        assert(samples[i - 1 + 1] == samples[i - 1] - 1);
    }
}

/// Threshold coverage. When the warning ticks sample remaining minutes that
/// decrease by exactly one per tick — the cadence the one-minute window is
/// sized for — and the sweep spans a configured threshold, that threshold's
/// warning fires at some tick; and only a tick sampling `w` or `w - 1` can
/// fire `w` at all.
pub proof fn lemma_threshold_coverage(thresholds: Seq<u64>, k: int, samples: Seq<int>)
    requires
        strictly_decreasing(thresholds),
        0 <= k < thresholds.len(),
        samples.len() > 0,
        forall|t: int| 0 <= t < samples.len() - 1 ==> #[trigger] samples[t + 1] == samples[t] - 1,
        samples[0] >= thresholds[k],
        samples[samples.len() - 1] <= thresholds[k] - 1,
    ensures
        exists|t: int|
            0 <= t < samples.len() && #[trigger] first_due(thresholds, samples[t]) == Some(
                thresholds[k],
            ),
        forall|t: int|
            0 <= t < samples.len() && #[trigger] first_due(thresholds, samples[t]) == Some(
                thresholds[k],
            ) ==> samples[t] == thresholds[k] || samples[t] == thresholds[k] - 1,
{
    let w = thresholds[k] as int;
    let t0 = samples[0] - (w - 1);
    lemma_consecutive_sample(samples, samples.len() - 1);
    assert(0 <= t0 < samples.len());
    lemma_consecutive_sample(samples, t0);
    assert(samples[t0] == w - 1);
    lemma_due_below_threshold(thresholds, k);
    assert(first_due(thresholds, samples[t0]) == Some(thresholds[k]));
    assert forall|t: int|
        0 <= t < samples.len() && #[trigger] first_due(thresholds, samples[t]) == Some(
            thresholds[k],
        ) implies samples[t] == thresholds[k] || samples[t] == thresholds[k] - 1 by {
        lemma_first_due_window(thresholds, samples[t], 0);
    }
}

} // verus!

