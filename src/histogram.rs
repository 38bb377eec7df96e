//! The latency histogram: hdrhistogram's `Histogram<u64>`, behind a few
//! trusted items whose contracts follow that crate's source.
use vstd::prelude::*;

use hdrhistogram::Histogram;
use vstd::multiset::Multiset;

verus! {

/// hdrhistogram's `Histogram<u64>`, held opaquely: Verus refuses a
/// declaration of it because of its `Counter` bound.
#[verifier::external_body]
pub struct LatencyHistogram {
    inner: Histogram<u64>,
}

/// The values recorded into a histogram, before bucketing.
pub uninterp spec fn recorded(h: LatencyHistogram) -> Multiset<u64>;

/// The highest value a histogram accepts without resizing.
pub uninterp spec fn highest_trackable(h: LatencyHistogram) -> u64;

/// `Histogram::min`: the lowest recorded value level, bucketed.
pub uninterp spec fn lowest_level(h: LatencyHistogram) -> u64;

/// `Histogram::max`: the highest recorded value level, bucketed.
pub uninterp spec fn highest_level(h: LatencyHistogram) -> u64;

/// `Histogram::value_at_percentile` at `percent`.
pub uninterp spec fn level_at(h: LatencyHistogram, percent: nat) -> u64;

/// `Histogram::mean`, truncated to whole units.
pub uninterp spec fn mean_level(h: LatencyHistogram) -> u64;

/// Relies on `Histogram::new_with_bounds`: it fails only for `low == 0`,
/// `high < 2 * low`, more than five significant digits, or bounds that
/// cannot be represented; with `low == 1` and a modest `high` it succeeds.
/// A new histogram is empty and tracks values up to `high`.
#[verifier::external_body]
pub(crate) fn new_histogram(low: u64, high: u64, sigfig: u8) -> (r: Option<LatencyHistogram>)
    ensures
        (low == 1 && 2 <= high <= 1_000_000 && sigfig <= 5) ==> r is Some,
        r matches Some(h) ==> recorded(h).len() == 0 && highest_trackable(h) == high,
{
    Histogram::new_with_bounds(low, high, sigfig).ok().map(|inner| LatencyHistogram { inner })
}

/// Relies on `Histogram::record`: a value up to the highest trackable one is
/// always counted; on failure nothing changes. The bound is kept.
#[verifier::external_body]
pub(crate) fn record_value(h: &mut LatencyHistogram, value: u64) -> (ok: bool)
    ensures
        value <= highest_trackable(*old(h)) ==> ok,
        ok ==> recorded(*final(h)) == recorded(*old(h)).insert(value),
        !ok ==> recorded(*final(h)) == recorded(*old(h)),
        highest_trackable(*final(h)) == highest_trackable(*old(h)),
{
    h.inner.record(value).is_ok()
}

/// Relies on `Histogram::min`: zero when empty; otherwise the lowest
/// equivalent of the smallest recorded value (zero if a zero was recorded),
/// so no recorded non-zero value lies below it.
#[verifier::external_body]
pub(crate) fn min_level(h: &LatencyHistogram) -> (r: u64)
    ensures
        r == lowest_level(*h),
        recorded(*h).len() == 0 ==> r == 0,
        forall|v: u64| #[trigger] recorded(*h).count(v) > 0 && v > 0 ==> r <= v,
{
    h.inner.min()
}

/// Relies on `Histogram::max`: zero when empty, otherwise the highest
/// equivalent of the largest recorded value, so no recorded value exceeds it.
#[verifier::external_body]
pub(crate) fn max_level(h: &LatencyHistogram) -> (r: u64)
    ensures
        r == highest_level(*h),
        recorded(*h).len() == 0 ==> r == 0,
        forall|v: u64| #[trigger] recorded(*h).count(v) > 0 ==> v <= r,
{
    h.inner.max()
}

/// Relies on `Histogram::value_at_percentile`: on a non-empty histogram the
/// value lies between `min` and `max` and grows with the percentile; an
/// empty histogram gives zero.
#[verifier::external_body]
pub(crate) fn percentile_level(h: &LatencyHistogram, percent: u32) -> (r: u64)
    requires
        percent <= 100,
    ensures
        r == level_at(*h, percent as nat),
        recorded(*h).len() == 0 ==> r == 0,
        recorded(*h).len() > 0 ==> lowest_level(*h) <= r <= highest_level(*h),
        recorded(*h).len() > 0 ==> forall|p: nat| p <= percent ==> #[trigger] level_at(*h, p) <= r,
        recorded(*h).len() > 0 ==> forall|p: nat|
            percent <= p <= 100 ==> r <= #[trigger] level_at(*h, p),
{
    h.inner.value_at_percentile(From::from(percent))
}

/// Relies on `Histogram::mean`: zero when empty, otherwise a weighted mean
/// of bucket midpoints, so between `min` and `max`.
#[verifier::external_body]
pub(crate) fn mean_value(h: &LatencyHistogram) -> (r: u64)
    ensures
        r == mean_level(*h),
        recorded(*h).len() == 0 ==> r == 0,
        recorded(*h).len() > 0 ==> lowest_level(*h) <= r <= highest_level(*h),
{
    h.inner.mean() as u64
}

} // verus!
