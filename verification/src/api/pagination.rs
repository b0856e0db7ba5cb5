//! Generic paginated response wrapper for Notion list endpoints.

use vstd::prelude::*;

verus! {

#[derive(Debug)]
pub struct PaginatedResponse<T> {
    pub results: Vec<T>,
    pub has_more: bool,
    pub next_cursor: Option<String>,
}

impl<T> PaginatedResponse<T> {
    /// No further page can be fetched: the server says so, or it gave
    /// no cursor to continue from.
    pub fn is_exhausted(&self) -> (b: bool)
        ensures
            b == (!self.has_more || self.next_cursor is None),
    {
        !self.has_more || self.next_cursor.is_none()
    }
}

/// The indices of one page's items that a client-side collection takes,
/// from index `i` on: each item that passes, until the running count
/// reaches the cap. The cap is checked after an item is taken, so an
/// item that passes is always taken when the count starts below the
/// cap; `grows` says whether a taken item adds to the count (a stream
/// emits items without keeping them).
pub open spec fn taken_from(
    passes: Seq<bool>,
    i: int,
    count: int,
    cap: Option<usize>,
    grows: bool,
) -> Seq<int>
    decreases passes.len() - i,
{
    if i < 0 || i >= passes.len() {
        Seq::empty()
    } else if !passes[i] {
        taken_from(passes, i + 1, count, cap, grows)
    } else {
        let c = if grows {
            count + 1
        } else {
            count
        };
        if cap is Some && c >= cap->0 {
            seq![i]
        } else {
            seq![i] + taken_from(passes, i + 1, c, cap, grows)
        }
    }
}

proof fn lemma_taken_bounds(passes: Seq<bool>, i: int, count: int, cap: Option<usize>, grows: bool)
    requires
        0 <= i,
    ensures
        taken_from(passes, i, count, cap, grows).len() <= if i <= passes.len() {
            passes.len() - i
        } else {
            0
        },
        forall|k: int|
            0 <= k < taken_from(passes, i, count, cap, grows).len() ==> i <= #[trigger] taken_from(
                passes,
                i,
                count,
                cap,
                grows,
            )[k] < passes.len(),
    decreases passes.len() - i,
{
    if i < passes.len() {
        let c = if grows {
            count + 1
        } else {
            count
        };
        lemma_taken_bounds(passes, i + 1, count, cap, grows);
        lemma_taken_bounds(passes, i + 1, c, cap, grows);
    }
}

/// A collection never overshoots its limit: starting below the cap,
/// the items taken from a page bring the count at most to the cap;
/// and every taken item passes the filter, in page order.
pub proof fn law_collect_within_limit(passes: Seq<bool>, count: int, cap: Option<usize>)
    ensures
        cap matches Some(k) ==> (count < k ==> count + taken_from(passes, 0, count, cap, true).len()
            <= k),
        forall|j: int|
            0 <= j < taken_from(passes, 0, count, cap, true).len() ==> passes[#[trigger] taken_from(
                passes,
                0,
                count,
                cap,
                true,
            )[j]],
        forall|j1: int, j2: int|
            0 <= j1 < j2 < taken_from(passes, 0, count, cap, true).len() ==> #[trigger] taken_from(
                passes,
                0,
                count,
                cap,
                true,
            )[j1] < #[trigger] taken_from(passes, 0, count, cap, true)[j2],
{
    lemma_taken_from(passes, 0, count, cap);
}

proof fn lemma_taken_from(passes: Seq<bool>, i: int, count: int, cap: Option<usize>)
    requires
        0 <= i,
    ensures
        cap matches Some(k) ==> (count < k ==> count + taken_from(passes, i, count, cap, true).len()
            <= k),
        forall|j: int|
            0 <= j < taken_from(passes, i, count, cap, true).len() ==> i <= #[trigger] taken_from(
                passes,
                i,
                count,
                cap,
                true,
            )[j] < passes.len() && passes[taken_from(passes, i, count, cap, true)[j]],
        forall|j1: int, j2: int|
            0 <= j1 < j2 < taken_from(passes, i, count, cap, true).len() ==> #[trigger] taken_from(
                passes,
                i,
                count,
                cap,
                true,
            )[j1] < #[trigger] taken_from(passes, i, count, cap, true)[j2],
    decreases passes.len() - i,
{
    if i < passes.len() {
        lemma_taken_from(passes, i + 1, count, cap);
        lemma_taken_from(passes, i + 1, count + 1, cap);
        let t = taken_from(passes, i, count, cap, true);
        if !passes[i] {
            assert(t == taken_from(passes, i + 1, count, cap, true));
        } else if cap is Some && count + 1 >= cap->0 {
            assert(t == seq![i]);
        } else {
            let rest = taken_from(passes, i + 1, count + 1, cap, true);
            assert(t == seq![i] + rest);
            assert forall|j: int| 0 <= j < t.len() implies i <= #[trigger] t[j] < passes.len()
                && passes[t[j]] by {
                if j > 0 {
                    assert(t[j] == rest[j - 1]);
                }
            }
            assert forall|j1: int, j2: int| 0 <= j1 < j2 < t.len() implies #[trigger] t[j1]
                < #[trigger] t[j2] by {
                if j1 > 0 {
                    assert(t[j1] == rest[j1 - 1]);
                }
                assert(t[j2] == rest[j2 - 1]);
            }
        }
    }
}

/// What a collection does after one page: the indices of the items it
/// takes, and the cursor of the next page to fetch (`None`: stop).
#[derive(Debug)]
pub struct PageStep {
    pub take: Vec<usize>,
    pub next: Option<String>,
}

/// The count after a page: grown by the taken items when taking grows it.
pub open spec fn count_after(count: int, taken: nat, grows: bool) -> int {
    if grows {
        count + taken
    } else {
        count
    }
}

/// Collection stops after a page when the cap is reached, when one page
/// was asked for (a caller-given cursor), or when the server has no
/// further page.
pub open spec fn stops_after(
    after: int,
    cap: Option<usize>,
    single_page: bool,
    has_more: bool,
    next_cursor: Option<Seq<char>>,
) -> bool {
    (cap is Some && after >= cap->0) || single_page || !has_more || next_cursor is None
}

/// One step of a client-side collection over a paginated list: which of
/// this page's items are taken (`passes` says which items the filter
/// admits), and whether and from where to fetch again.
pub fn collect_step(
    passes: &Vec<bool>,
    count: usize,
    cap: Option<usize>,
    grows: bool,
    single_page: bool,
    has_more: bool,
    next_cursor: Option<String>,
) -> (s: PageStep)
    requires
        count + passes@.len() <= usize::MAX,
    ensures
        s.take@.map_values(|k: usize| k as int) == taken_from(passes@, 0, count as int, cap, grows),
        ({
            let after = count_after(count as int, s.take@.len(), grows);
            let nc = match next_cursor {
                Some(c) => Some(c@),
                None => None,
            };
            &&& stops_after(after, cap, single_page, has_more, nc) ==> s.next is None
            &&& !stops_after(after, cap, single_page, has_more, nc) ==> s.next == next_cursor
        }),
{
    let ghost full = taken_from(passes@, 0, count as int, cap, grows);
    let mut take: Vec<usize> = Vec::new();
    let mut cnt: usize = count;
    let mut i: usize = 0;
    let mut done = false;
    proof {
        lemma_taken_bounds(passes@, 0, count as int, cap, grows);
    }
    while i < passes.len() && !done
        invariant
            i <= passes@.len(),
            count + passes@.len() <= usize::MAX,
            full == taken_from(passes@, 0, count as int, cap, grows),
            take@.len() <= i,
            cnt == count_after(count as int, take@.len(), grows),
            !done ==> take@.map_values(|k: usize| k as int) + taken_from(
                passes@,
                i as int,
                cnt as int,
                cap,
                grows,
            ) == full,
            done ==> take@.map_values(|k: usize| k as int) == full,
        decreases passes@.len() - i,
    {
        let ghost before = take@.map_values(|k: usize| k as int);
        if passes[i] {
            take.push(i);
            if grows {
                cnt = cnt + 1;
            }
            let at_cap = match cap {
                Some(k) => cnt >= k,
                None => false,
            };
            assert(take@.map_values(|k: usize| k as int) =~= before.push(i as int));
            if at_cap {
                done = true;
                assert(before + seq![i as int] =~= before.push(i as int));
            } else {
                assert(before + (seq![i as int] + taken_from(passes@, i + 1, cnt as int, cap, grows))
                    =~= before.push(i as int) + taken_from(passes@, i + 1, cnt as int, cap, grows));
            }
        }
        i = i + 1;
    }
    if !done {
        assert(taken_from(passes@, i as int, cnt as int, cap, grows) =~= Seq::<int>::empty());
        assert(take@.map_values(|k: usize| k as int) + Seq::<int>::empty() =~= take@.map_values(
            |k: usize| k as int,
        ));
    }
    let reached = match cap {
        Some(k) => cnt >= k,
        None => false,
    };
    let next = if reached || single_page || !has_more || next_cursor.is_none() {
        None
    } else {
        next_cursor
    };
    PageStep { take, next }
}

} // verus!
