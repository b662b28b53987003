//! Counting reverts of vandalism and turning the count into a rate.

use crate::classifier::{is_revert, is_revert_of_vandalism, normalized};
use crate::matcher::Patterns;
use vstd::prelude::*;

verus! {

/// Length in minutes of the trailing window over which reverts are counted.
pub const INTERVAL_IN_MINS: u64 = 60;

/// A rate of reverts per minute, held exactly: so many reverts in so many
/// minutes. The window is never empty.
#[derive(Clone, Copy, Debug)]
pub struct Rate {
    reverts: u64,
    minutes: u64,
}

impl Rate {
    /// The window is at least a minute long.
    #[verifier::type_invariant]
    closed spec fn window_not_empty(self) -> bool {
        self.minutes > 0
    }

    /// Reverts counted in the window.
    pub closed spec fn spec_reverts(&self) -> u64 {
        self.reverts
    }

    /// Length of the window in minutes.
    pub closed spec fn spec_minutes(&self) -> u64 {
        self.minutes
    }

    /// The rate of `reverts` in `minutes`; there is none over an empty window.
    pub fn new(reverts: u64, minutes: u64) -> (r: Option<Rate>)
        ensures
            r is Some <==> minutes > 0,
            r matches Some(rate) ==> rate.reverts() == reverts && rate.minutes() == minutes,
    {
        if minutes > 0 {
            Some(Rate { reverts, minutes })
        } else {
            None
        }
    }

    /// The rate of `reverts` over the trailing window.
    pub fn over_interval(reverts: u64) -> (r: Rate)
        ensures
            r.reverts() == reverts,
            r.minutes() == INTERVAL_IN_MINS,
    {
        Rate { reverts, minutes: INTERVAL_IN_MINS }
    }

    /// This rate is `factor` times `other`.
    pub open spec fn is_multiple(self, factor: nat, other: Rate) -> bool {
        self.reverts() * other.minutes() == factor * (other.reverts() * self.minutes())
    }

    /// Reverts counted in the window.
    #[verifier::when_used_as_spec(spec_reverts)]
    pub fn reverts(&self) -> (r: u64)
        ensures
            r == self.reverts(),
    {
        self.reverts
    }

    /// Length of the window in minutes.
    #[verifier::when_used_as_spec(spec_minutes)]
    pub fn minutes(&self) -> (r: u64)
        ensures
            r == self.minutes(),
            r > 0,
    {
        proof {
            use_type_invariant(self);
        }
        self.minutes
    }
}

/// The test that a raw summary is a revert of vandalism, as a predicate.
pub open spec fn revert_test(patterns: Patterns) -> spec_fn(Seq<char>) -> bool {
    |summary: Seq<char>| is_revert(normalized(patterns, summary))
}

/// How many of `summaries` are reverts of vandalism.
pub open spec fn revert_count(patterns: Patterns, summaries: Seq<Seq<char>>) -> nat {
    summaries.filter(revert_test(patterns)).len()
}

/// Counts the reverts of vandalism among the summaries of one page.
pub fn count_reverts(patterns: &Patterns, summaries: &Vec<String>) -> (n: usize)
    ensures
        n == revert_count(*patterns, summaries.deep_view()),
{
    let ghost all = summaries.deep_view();
    let mut n: usize = 0;
    let mut i: usize = 0;
    proof {
        assert(all.take(0) =~= Seq::<Seq<char>>::empty());
        all.take(0).lemma_filter_len(revert_test(*patterns));
    }
    while i < summaries.len()
        invariant
            i <= summaries.len(),
            all == summaries.deep_view(),
            n <= i,
            n == revert_count(*patterns, all.take(i as int)),
        decreases summaries.len() - i,
    {
        proof {
            assert(all.take(i + 1) =~= all.take(i as int).push(summaries@[i as int]@));
            all.take(i as int).lemma_filter_push(summaries@[i as int]@, revert_test(*patterns));
        }
        if is_revert_of_vandalism(patterns, summaries[i].as_str()) {
            n += 1;
        }
        i += 1;
    }
    assert(all.take(i as int) =~= all);
    n
}

/// `rate` is the estimate for `summaries`: their reverts of vandalism, over
/// the trailing window.
pub open spec fn is_estimate(rate: Rate, patterns: Patterns, summaries: Seq<Seq<char>>) -> bool {
    &&& rate.reverts() == revert_count(patterns, summaries)
    &&& rate.minutes() == INTERVAL_IN_MINS
}

/// The sum of the counts of reverts of vandalism, page by page.
pub open spec fn sum_of_page_counts(patterns: Patterns, pages: Seq<Seq<Seq<char>>>) -> nat
    decreases pages.len(),
{
    if pages.len() == 0 {
        0
    } else {
        sum_of_page_counts(patterns, pages.drop_last()) + revert_count(patterns, pages.last())
    }
}

/// Adds the count of one more page to a running total, unless the total
/// would no longer fit.
pub fn add_page_count(total: u64, page: usize) -> (r: Option<u64>)
    ensures
        r is Some <==> total + page <= u64::MAX,
        r matches Some(sum) ==> sum == total + page,
{
    total.checked_add(page as u64)
}

/// Estimates the rate of reverts of vandalism from every page of summaries
/// that the trailing window holds. There is no estimate if the count does not
/// fit in 64 bits.
pub fn reverts_per_minute(patterns: &Patterns, pages: &Vec<Vec<String>>) -> (r: Option<Rate>)
    ensures
        r is Some <==> revert_count(*patterns, pages.deep_view().flatten()) <= u64::MAX,
        r matches Some(rate) ==> is_estimate(rate, *patterns, pages.deep_view().flatten()),
{
    let ghost all = pages.deep_view();
    let mut total: u64 = 0;
    let mut i: usize = 0;
    proof {
        assert(all.take(0) =~= Seq::<Seq<Seq<char>>>::empty());
    }
    while i < pages.len()
        invariant
            i <= pages.len(),
            all == pages.deep_view(),
            total == sum_of_page_counts(*patterns, all.take(i as int)),
        decreases pages.len() - i,
    {
        let count = count_reverts(patterns, &pages[i]);
        proof {
            assert(all.take(i + 1).drop_last() =~= all.take(i as int));
            assert(all.take(i + 1).last() == pages@[i as int].deep_view());
        }
        match add_page_count(total, count) {
            Some(sum) => {
                total = sum;
            },
            None => {
                proof {
                    lemma_page_sum_grows(*patterns, all, i + 1);
                    lemma_pages_complete(*patterns, all);
                }
                return None;
            },
        }
        i += 1;
    }
    proof {
        assert(all.take(i as int) =~= all);
        lemma_pages_complete(*patterns, all);
    }
    Some(Rate::over_interval(total))
}

/// The sum of page counts over some first pages is at most the sum over all.
pub proof fn lemma_page_sum_grows(patterns: Patterns, pages: Seq<Seq<Seq<char>>>, upto: int)
    requires
        0 <= upto <= pages.len(),
    ensures
        sum_of_page_counts(patterns, pages.take(upto)) <= sum_of_page_counts(patterns, pages),
    decreases pages.len() - upto,
{
    if upto == pages.len() {
        assert(pages.take(upto) =~= pages);
    } else {
        lemma_page_sum_grows(patterns, pages, upto + 1);
        assert(pages.take(upto + 1).drop_last() =~= pages.take(upto));
    }
}

/// Counting is additive: the reverts in two runs of summaries put together
/// are the reverts of the one plus the reverts of the other.
pub proof fn lemma_count_additive(patterns: Patterns, a: Seq<Seq<char>>, b: Seq<Seq<char>>)
    ensures
        revert_count(patterns, a + b) == revert_count(patterns, a) + revert_count(patterns, b),
{
    Seq::filter_distributes_over_add(a, b, revert_test(patterns));
}

/// The order in which two runs of summaries arrive does not change the count.
pub proof fn lemma_count_ignores_order(patterns: Patterns, a: Seq<Seq<char>>, b: Seq<Seq<char>>)
    ensures
        revert_count(patterns, a + b) == revert_count(patterns, b + a),
{
    lemma_count_additive(patterns, a, b);
    lemma_count_additive(patterns, b, a);
}

/// Pagination is complete: the count over all summaries of all pages is the
/// sum of the counts of the single pages, however many pages there are.
pub proof fn lemma_pages_complete(patterns: Patterns, pages: Seq<Seq<Seq<char>>>)
    ensures
        revert_count(patterns, pages.flatten()) == sum_of_page_counts(patterns, pages),
    decreases pages.len(),
{
    if pages.len() == 0 {
        assert(pages.flatten() =~= Seq::<Seq<char>>::empty());
        pages.flatten().lemma_filter_len(revert_test(patterns));
    } else {
        lemma_pages_complete(patterns, pages.drop_last());
        assert(pages =~= pages.drop_last().push(pages.last()));
        pages.drop_last().lemma_flatten_push(pages.last());
        lemma_count_additive(patterns, pages.drop_last().flatten(), pages.last());
    }
}

/// The rate is linear in the count: over one and the same window, `factor`
/// times as many reverts make `factor` times the rate.
pub proof fn lemma_rate_linear(single: Rate, many: Rate, factor: nat)
    requires
        single.minutes() == many.minutes(),
        many.reverts() == factor * single.reverts(),
    ensures
        many.is_multiple(factor, single),
{
    assert(many.reverts() * single.minutes() == factor * (single.reverts() * many.minutes()))
        by (nonlinear_arith)
        requires
            single.minutes() == many.minutes(),
            many.reverts() == factor * single.reverts(),
    ;
}

/// The estimate is linear in the count of reverts: summaries that hold
/// `factor` times as many reverts of vandalism give `factor` times the rate.
/// Twice the reverts, for one, are twice the rate.
pub proof fn lemma_estimate_linear(
    patterns: Patterns,
    fewer: Seq<Seq<char>>,
    more: Seq<Seq<char>>,
    single: Rate,
    many: Rate,
    factor: nat,
)
    requires
        is_estimate(single, patterns, fewer),
        is_estimate(many, patterns, more),
        revert_count(patterns, more) == factor * revert_count(patterns, fewer),
    ensures
        many.is_multiple(factor, single),
{
    lemma_rate_linear(single, many, factor);
}

/// A stretch of time in seconds since the epoch, from `start` up to but not
/// including `end`.
#[derive(Clone, Copy, Debug, PartialEq, Eq, Structural)]
pub struct TimeWindow {
    pub start: i64,
    pub end: i64,
}

/// The window of `INTERVAL_IN_MINS` minutes that ends at `now`, unless its
/// start cannot be told in 64 bits.
pub fn trailing_window(now: i64) -> (r: Option<TimeWindow>)
    ensures
        r is Some <==> now - 60 * INTERVAL_IN_MINS >= i64::MIN,
        r matches Some(w) ==> w.end == now && w.start == now - 60 * INTERVAL_IN_MINS,
{
    match now.checked_sub(3600) {
        Some(start) => Some(TimeWindow { start, end: now }),
        None => None,
    }
}

} // verus!
