//! The response of an index-browse interface that hands out a cursor.

use crate::error::Error;
use crate::pagination::{answers, compatible, completes_with, halts_at_first_final_page, merge_all};
use crate::providers::{Continuation, ContinuationState, Merge, Paginated};
use vstd::prelude::*;

verus! {

/// One page of a browse, or the pages merged so far.
#[derive(Debug)]
pub struct AlgoliaBrowseResponse<T> {
    /// The records found, in the order of arrival.
    pub hits: Vec<T>,
    /// The time in milliseconds that the browse took on the far side.
    pub processing_time_ms: u32,
    /// The token with which the browse goes on, if it does.
    pub cursor: Option<String>,
}

/// The mathematical value of an [`AlgoliaBrowseResponse`].
pub ghost struct AlgoliaBrowse<T> {
    pub hits: Seq<T>,
    pub processing_time_ms: nat,
    pub cursor: Option<Seq<char>>,
}

impl<T> View for AlgoliaBrowseResponse<T> {
    type V = AlgoliaBrowse<T>;

    open spec fn view(&self) -> AlgoliaBrowse<T> {
        AlgoliaBrowse {
            hits: self.hits@,
            processing_time_ms: self.processing_time_ms as nat,
            cursor: match self.cursor {
                Some(token) => Some(token@),
                None => None,
            },
        }
    }
}

impl<T> Merge for AlgoliaBrowseResponse<T> {
    /// A browse reports no size of its listing: any two pages merge.
    open spec fn conflict(acc: AlgoliaBrowse<T>, page: AlgoliaBrowse<T>) -> Option<Error> {
        None
    }

    open spec fn fits(acc: AlgoliaBrowse<T>, page: AlgoliaBrowse<T>) -> bool {
        acc.processing_time_ms + page.processing_time_ms <= u32::MAX
    }

    open spec fn merged(acc: AlgoliaBrowse<T>, page: AlgoliaBrowse<T>) -> AlgoliaBrowse<T> {
        AlgoliaBrowse {
            hits: acc.hits + page.hits,
            processing_time_ms: acc.processing_time_ms + page.processing_time_ms,
            cursor: page.cursor,
        }
    }

    fn mergeable(&self, rhs: &Self) -> (admitted: bool) {
        rhs.processing_time_ms <= u32::MAX - self.processing_time_ms
    }

    fn merge(&mut self, rhs: Self) -> (outcome: Result<(), Error>) {
        let mut rhs = rhs;
        self.hits.append(&mut rhs.hits);
        self.processing_time_ms = self.processing_time_ms + rhs.processing_time_ms;
        self.cursor = rhs.cursor;
        Ok(())
    }
}

impl<T> Paginated for AlgoliaBrowseResponse<T> {
    open spec fn initial_state() -> Continuation {
        Continuation::Cursor(None)
    }

    /// The browse goes on while the last page carried a cursor.
    open spec fn continuation_of(acc: AlgoliaBrowse<T>) -> Continuation {
        match acc.cursor {
            Some(token) => Continuation::Cursor(Some(token)),
            None => Continuation::Done,
        }
    }

    fn initial() -> (state: ContinuationState) {
        ContinuationState::Cursor(None)
    }

    fn continuation(&self) -> (state: ContinuationState) {
        match &self.cursor {
            Some(token) => ContinuationState::Cursor(Some(token.clone())),
            None => ContinuationState::Done,
        }
    }

    proof fn last_page_decides(acc: AlgoliaBrowse<T>, page: AlgoliaBrowse<T>) {
    }

    proof fn merge_associative(a: AlgoliaBrowse<T>, b: AlgoliaBrowse<T>, c: AlgoliaBrowse<T>) {
        assert((a.hits + b.hits) + c.hits =~= a.hits + (b.hits + c.hits));
    }
}

impl<T> Default for AlgoliaBrowseResponse<T> {
    /// A response without hits: the accumulator before the first page.
    fn default() -> (empty: Self)
        ensures
            empty@ == (AlgoliaBrowse::<T> {
                hits: Seq::empty(),
                processing_time_ms: 0,
                cursor: None,
            }),
    {
        AlgoliaBrowseResponse { hits: Vec::new(), processing_time_ms: 0, cursor: None }
    }
}

impl<T> AlgoliaBrowseResponse<T> {
    /// Merges `rhs` into `self` as `merge` does, taking the hits and the
    /// cursor out of `rhs`, which stays behind without them.
    pub fn add_assign(&mut self, rhs: &mut Self)
        requires
            Self::fits(old(self)@, old(rhs)@),
        ensures
            final(self)@ == Self::merged(old(self)@, old(rhs)@),
            final(rhs)@ == (AlgoliaBrowse::<T> {
                hits: Seq::empty(),
                processing_time_ms: old(rhs)@.processing_time_ms,
                cursor: None,
            }),
    {
        self.processing_time_ms = self.processing_time_ms + rhs.processing_time_ms;
        self.cursor = rhs.cursor.take();
        self.hits.append(&mut rhs.hits);
    }
}

/// The hits of each page, page by page.
pub open spec fn hits_by_page<T>(pages: Seq<AlgoliaBrowse<T>>) -> Seq<Seq<T>> {
    pages.map_values(|page: AlgoliaBrowse<T>| page.hits)
}

/// The time that the pages took on the far side, taken together.
pub open spec fn time_of<T>(pages: Seq<AlgoliaBrowse<T>>) -> nat
    decreases pages.len(),
{
    if pages.len() == 0 {
        0
    } else {
        pages[0].processing_time_ms + time_of(pages.drop_first())
    }
}

proof fn lemma_merge_all_hits<T>(first: AlgoliaBrowse<T>, rest: Seq<AlgoliaBrowse<T>>)
    ensures
        compatible::<AlgoliaBrowseResponse<T>>(first, rest),
        merge_all::<AlgoliaBrowseResponse<T>>(first, rest).hits == first.hits + hits_by_page(
            rest,
        ).flatten(),
        merge_all::<AlgoliaBrowseResponse<T>>(first, rest).processing_time_ms
            == first.processing_time_ms + time_of(rest),
        merge_all::<AlgoliaBrowseResponse<T>>(first, rest).cursor == if rest.len() == 0 {
            first.cursor
        } else {
            rest.last().cursor
        },
    decreases rest.len(),
{
    if rest.len() > 0 {
        let tail = rest.drop_first();
        lemma_merge_all_hits(AlgoliaBrowseResponse::<T>::merged(first, rest[0]), tail);
        assert(hits_by_page(rest).drop_first() =~= hits_by_page(tail));
    }
}

/// A browse is gathered in the order of arrival until a page comes without a
/// cursor. Any pages merge; the first `n` merged hold the hits of all of
/// them, page after page, and the time of all of them; and a fetch that
/// receives the pages is complete after exactly `n` requests if and only if
/// the `n`-th page is the first without a cursor.
pub proof fn browse_is_gathered_until_cursor_is_omitted<T>(pages: Seq<AlgoliaBrowse<T>>, n: int)
    requires
        1 <= n <= pages.len(),
    ensures
        compatible::<AlgoliaBrowseResponse<T>>(pages[0], pages.subrange(1, n)),
        ({
            let whole = merge_all::<AlgoliaBrowseResponse<T>>(pages[0], pages.subrange(1, n));
            &&& whole.hits == hits_by_page(pages.take(n)).flatten()
            &&& whole.processing_time_ms == time_of(pages.take(n))
            &&& completes_with::<AlgoliaBrowseResponse<T>>(None, answers(pages), n, whole) <==> {
                &&& pages[n - 1].cursor is None
                &&& forall|i: int| 0 <= i < n - 1 ==> (#[trigger] pages[i]).cursor is Some
            }
        }),
{
    let first = pages[0];
    let rest = pages.subrange(1, n);
    let taken = pages.take(n);
    lemma_merge_all_hits(first, rest);
    assert(taken.drop_first() =~= rest);
    assert(hits_by_page(taken).drop_first() =~= hits_by_page(rest));
    halts_at_first_final_page::<AlgoliaBrowseResponse<T>>(pages, n);
}

} // verus!
