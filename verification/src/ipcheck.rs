use vstd::prelude::*;

use crate::state::IpAddress;

verus! {

/// Where the fallback sequence over the IP check URLs stands.
#[derive(Debug, Clone, Copy, PartialEq, Eq, Structural)]
pub enum FetchStep {
    /// Ask the URL with this index.
    Try(usize),
    /// This URL answered with an IP: the fetch is over.
    Found(IpAddress),
    /// Every URL failed.
    Exhausted,
}

pub open spec fn spec_fetch_begin(url_count: usize) -> FetchStep {
    if url_count > 0 {
        FetchStep::Try(0)
    } else {
        FetchStep::Exhausted
    }
}

pub open spec fn spec_fetch_next(url_count: usize, tried: usize, outcome: Option<IpAddress>) -> FetchStep {
    match outcome {
        Some(a) => FetchStep::Found(a),
        None => if tried + 1 < url_count {
            FetchStep::Try((tried + 1) as usize)
        } else {
            FetchStep::Exhausted
        },
    }
}

/// The first step of `fetch_ip` over `url_count` URLs, tried in order.
pub fn fetch_ip_begin(url_count: usize) -> (r: FetchStep)
    ensures
        r == spec_fetch_begin(url_count),
{
    if url_count > 0 {
        FetchStep::Try(0)
    } else {
        FetchStep::Exhausted
    }
}

/// The step after the URL `tried` answered `outcome` (an IP, or `None` for a
/// timeout, a network error or a body that is not an IP): the first success wins.
pub fn fetch_ip_next(url_count: usize, tried: usize, outcome: Option<IpAddress>) -> (r: FetchStep)
    ensures
        r == spec_fetch_next(url_count, tried, outcome),
{
    match outcome {
        Some(a) => FetchStep::Found(a),
        None => {
            if tried < url_count && tried + 1 < url_count {
                FetchStep::Try(tried + 1)
            } else {
                FetchStep::Exhausted
            }
        },
    }
}

/// The first IP among the outcomes, in order.
pub open spec fn first_found(outcomes: Seq<Option<IpAddress>>) -> Option<IpAddress>
    decreases outcomes.len(),
{
    if outcomes.len() == 0 {
        None
    } else {
        match outcomes[0] {
            Some(a) => Some(a),
            None => first_found(outcomes.drop_first()),
        }
    }
}

/// What the fetch returns when URL `i` and the following ones answer `outcomes[i..]`.
pub open spec fn fetch_result(outcomes: Seq<Option<IpAddress>>, i: int) -> Option<IpAddress>
    decreases outcomes.len() - i,
{
    if 0 <= i < outcomes.len() && outcomes.len() <= usize::MAX {
        match spec_fetch_next(outcomes.len() as usize, i as usize, outcomes[i]) {
            FetchStep::Found(a) => Some(a),
            FetchStep::Exhausted => None,
            FetchStep::Try(j) => if j > i { fetch_result(outcomes, j as int) } else { None },
        }
    } else {
        None
    }
}

/// Driving the steps over the answers of the URLs, in order, yields the first IP
/// that any URL gave, and `None` exactly when every URL failed.
pub proof fn lemma_fetch_first_success(outcomes: Seq<Option<IpAddress>>)
    requires
        outcomes.len() <= usize::MAX,
    ensures
        (match spec_fetch_begin(outcomes.len() as usize) {
            FetchStep::Try(i) => fetch_result(outcomes, i as int),
            _ => None,
        }) == first_found(outcomes),
        first_found(outcomes) is None <==> forall|i: int| 0 <= i < outcomes.len() ==> #[trigger] outcomes[i] is None,
{
    lemma_fetch_result_suffix(outcomes, 0);
    lemma_first_found_none(outcomes);
    assert(outcomes.skip(0) == outcomes);
}

proof fn lemma_fetch_result_suffix(outcomes: Seq<Option<IpAddress>>, i: int)
    requires
        outcomes.len() <= usize::MAX,
        0 <= i <= outcomes.len(),
    ensures
        i < outcomes.len() ==> fetch_result(outcomes, i) == first_found(outcomes.skip(i)),
    decreases outcomes.len() - i,
{
    if i < outcomes.len() {
        lemma_fetch_result_suffix(outcomes, i + 1);
        let s = outcomes.skip(i);
        assert(s[0] == outcomes[i]);
        assert(s.drop_first() == outcomes.skip(i + 1));
        if i + 1 == outcomes.len() {
            assert(outcomes.skip(i + 1).len() == 0);
        }
    }
}

proof fn lemma_first_found_none(outcomes: Seq<Option<IpAddress>>)
    ensures
        first_found(outcomes) is None <==> forall|i: int| 0 <= i < outcomes.len() ==> #[trigger] outcomes[i] is None,
    decreases outcomes.len(),
{
    if outcomes.len() > 0 {
        let t = outcomes.drop_first();
        lemma_first_found_none(t);
        assert forall|i: int| 0 < i < outcomes.len() implies #[trigger] outcomes[i] == t[i - 1] by {}
    }
}

} // verus!
