//! The pagination engine: which request follows which response.
//!
//! The engine makes no request itself. It holds the pages merged so far and
//! the state in which the next page is asked for; the caller performs the
//! request and hands back the parsed page or the failure. Pages are taken
//! strictly one after the other, and the engine sets no limit to their
//! number: a listing that never ends is for the caller to cut off.

use crate::error::Error;
use crate::providers::{
    Adapter, Continuation, ContinuationState, Merge, PageRequest, Paginated,
};
use vstd::pervasive::unreached;
use vstd::prelude::*;

verus! {

/// A fetch under way: the pages merged so far and the request that is due.
pub struct Pagination<R: Paginated> {
    accumulator: Option<R>,
    pending: ContinuationState,
}

/// What a response leads to.
pub enum Step<R: Paginated> {
    /// Another page is due.
    Continue(Pagination<R>),
    /// The listing is complete, and this is all of it.
    Complete(R),
    /// The fetch failed, and nothing of it is left.
    Abort(Error),
}

/// The mathematical value of a [`Step`]: the pages merged so far where the
/// fetch goes on, the whole listing or the failure where it does not. The
/// state in which a fetch that goes on asks for its next page is not held
/// apart: it is the state that the merged pages give.
pub ghost enum Progress<V> {
    Continue(V),
    Complete(V),
    Abort(Error),
}

/// The mathematical value of a response: the page's value, or the failure.
pub open spec fn response_view<R: View>(response: Result<R, Error>) -> Result<R::V, Error> {
    match response {
        Ok(page) => Ok(page@),
        Err(failure) => Err(failure),
    }
}

/// The merged value after `page` has arrived, or the failure. The first page
/// is taken as it is.
pub open spec fn absorb<R: Paginated>(acc: Option<R::V>, page: R::V) -> Result<R::V, Error> {
    match acc {
        None => Ok(page),
        Some(before) => match R::conflict(before, page) {
            None => Ok(R::merged(before, page)),
            Some(failure) => Err(failure),
        },
    }
}

/// Whether `response` can be taken in after `acc` within the range of the
/// fields: it is a failure, or the first page, or a page that conflicts with
/// the pages before it, or a page whose sums with them fit.
pub open spec fn admits<R: Paginated>(acc: Option<R::V>, response: Result<R::V, Error>) -> bool {
    match (acc, response) {
        (Some(before), Ok(page)) => R::conflict(before, page) is None ==> R::fits(before, page),
        _ => true,
    }
}

/// What the engine does with a response: a failure ends the fetch, be it the
/// caller's or a conflict between the pages; otherwise the page is merged,
/// and the merged value says whether the listing goes on.
pub open spec fn advance_spec<R: Paginated>(
    acc: Option<R::V>,
    response: Result<R::V, Error>,
) -> Progress<R::V> {
    match response {
        Err(failure) => Progress::Abort(failure),
        Ok(page) => match absorb::<R>(acc, page) {
            Err(failure) => Progress::Abort(failure),
            Ok(merged) => if R::continuation_of(merged) is Done {
                Progress::Complete(merged)
            } else {
                Progress::Continue(merged)
            },
        },
    }
}

impl<R: Paginated> Pagination<R> {
    /// The pages merged so far, none before the first response.
    pub closed spec fn merged(&self) -> Option<R::V> {
        match self.accumulator {
            Some(acc) => Some(acc@),
            None => None,
        }
    }

    /// The state in which the next page is asked for.
    pub closed spec fn due(&self) -> Continuation {
        self.pending@
    }

    #[verifier::type_invariant]
    spec fn consistent(&self) -> bool {
        &&& !(self.pending@ is Done)
        &&& self.pending@ == match self.accumulator {
            Some(acc) => R::continuation_of(acc@),
            None => R::initial_state(),
        }
    }

    /// A fetch of which no page has arrived; its request is the initial one
    /// of the response type.
    pub fn begin() -> (fetch: Self)
        ensures
            fetch.merged() is None,
            fetch.due() == R::initial_state(),
    {
        Pagination { accumulator: None, pending: R::initial() }
    }

    /// The state in which the next page is asked for. It is never `Done`,
    /// and it is the state that the merged pages give, or the initial one
    /// before the first page.
    pub fn pending(&self) -> (state: &ContinuationState)
        ensures
            state@ == self.due(),
            !(state@ is Done),
            self.due() == match self.merged() {
                Some(acc) => R::continuation_of(acc),
                None => R::initial_state(),
            },
    {
        proof {
            use_type_invariant(self);
        }
        &self.pending
    }

    /// The request that is due, as the interface `A` makes it. There always
    /// is one: a fetch under way is never done.
    pub fn next_request<A: Adapter<R>>(&self) -> (request: PageRequest)
        ensures
            A::request_for(self.due()) == Some(request@),
    {
        let state = self.pending();
        proof {
            A::asks_while_listing_goes_on(state@);
        }
        match A::request_page(state) {
            Some(request) => request,
            None => unreached(),
        }
    }

    /// Tests whether `response` can be handed to `advance`.
    pub fn admits(&self, response: &Result<R, Error>) -> (fits: bool)
        ensures
            fits == admits::<R>(self.merged(), response_view(*response)),
    {
        match (&self.accumulator, response) {
            (Some(acc), Ok(page)) => acc.mergeable(page),
            _ => true,
        }
    }

    /// Takes in the response to the pending request.
    pub fn advance(self, response: Result<R, Error>) -> (step: Step<R>)
        requires
            admits::<R>(self.merged(), response_view(response)),
        ensures
            step@ == advance_spec::<R>(self.merged(), response_view(response)),
            step matches Step::Continue(next) ==> next.merged() is Some && next.due()
                == R::continuation_of(next.merged()->Some_0),
    {
        let page = match response {
            Ok(page) => page,
            Err(failure) => {
                return Step::Abort(failure);
            },
        };
        let merged = match self.accumulator {
            None => page,
            Some(acc) => {
                let mut acc = acc;
                match acc.merge(page) {
                    Ok(()) => acc,
                    Err(failure) => {
                        return Step::Abort(failure);
                    },
                }
            },
        };
        let pending = merged.continuation();
        if pending.is_done() {
            Step::Complete(merged)
        } else {
            Step::Continue(Pagination { accumulator: Some(merged), pending })
        }
    }
}

impl<R: Paginated> View for Step<R> {
    type V = Progress<R::V>;

    open spec fn view(&self) -> Progress<R::V> {
        match *self {
            Step::Continue(fetch) => Progress::Continue(fetch.merged()->Some_0),
            Step::Complete(whole) => Progress::Complete(whole@),
            Step::Abort(failure) => Progress::Abort(failure),
        }
    }
}

/// What a fetch comes to that has merged `acc` and then receives the
/// responses in the order of `script`: the first step that does not go on,
/// or, where the script ends before that, the pages merged by then. Without
/// any page there is no value. Responses after the end of the fetch are never
/// asked for and do not count.
pub open spec fn run_spec<R: Paginated>(
    acc: Option<R::V>,
    script: Seq<Result<R::V, Error>>,
) -> Option<Progress<R::V>>
    decreases script.len(),
{
    if script.len() == 0 {
        match acc {
            Some(merged) => Some(Progress::Continue(merged)),
            None => None,
        }
    } else {
        match advance_spec::<R>(acc, script[0]) {
            Progress::Continue(merged) => run_spec::<R>(Some(merged), script.drop_first()),
            ended => Some(ended),
        }
    }
}

/// The number of requests that the fetch of `run_spec` makes and sees
/// answered.
pub open spec fn requests_spec<R: Paginated>(
    acc: Option<R::V>,
    script: Seq<Result<R::V, Error>>,
) -> nat
    decreases script.len(),
{
    if script.len() == 0 {
        0
    } else {
        match advance_spec::<R>(acc, script[0]) {
            Progress::Continue(merged) => 1 + requests_spec::<R>(Some(merged), script.drop_first()),
            _ => 1,
        }
    }
}

/// Whether every response that the fetch of `run_spec` takes in is within
/// the range of the fields.
pub open spec fn run_admits<R: Paginated>(
    acc: Option<R::V>,
    script: Seq<Result<R::V, Error>>,
) -> bool
    decreases script.len(),
{
    script.len() == 0 || (admits::<R>(acc, script[0]) && match advance_spec::<R>(acc, script[0]) {
        Progress::Continue(merged) => run_admits::<R>(Some(merged), script.drop_first()),
        _ => true,
    })
}

/// The mathematical value of a script of responses.
pub open spec fn script_view<R: View>(script: Seq<Result<R, Error>>) -> Seq<Result<R::V, Error>> {
    script.map_values(|response: Result<R, Error>| response_view(response))
}

/// The mathematical value of the step at which a replay ended.
pub open spec fn step_view<R: Paginated>(step: Option<Step<R>>) -> Option<Progress<R::V>> {
    match step {
        Some(step) => Some(step@),
        None => None,
    }
}

/// Runs a whole fetch against responses that are already at hand, taking
/// them in their order as the answers to its requests. Returns the step at
/// which the fetch ended or the script ran out, if any response was taken,
/// and the number of requests answered.
pub fn replay<R: Paginated>(script: Vec<Result<R, Error>>) -> (end: (Option<Step<R>>, usize))
    requires
        run_admits::<R>(None, script_view(script@)),
    ensures
        step_view(end.0) == run_spec::<R>(None, script_view(script@)),
        end.1 == requests_spec::<R>(None, script_view(script@)),
{
    let mut rest = script;
    let mut fetch: Pagination<R> = Pagination::begin();
    let mut answered: usize = 0;
    while rest.len() > 0
        invariant
            answered + rest.len() <= script.len(),
            run_admits::<R>(fetch.merged(), script_view(rest@)),
            run_spec::<R>(fetch.merged(), script_view(rest@)) == run_spec::<R>(
                None,
                script_view(script@),
            ),
            answered + requests_spec::<R>(fetch.merged(), script_view(rest@)) == requests_spec::<R>(
                None,
                script_view(script@),
            ),
            answered > 0 <==> fetch.merged() is Some,
        decreases rest.len(),
    {
        let ghost before = script_view(rest@);
        let response = rest.remove(0);
        assert(script_view(rest@) =~= before.drop_first());
        answered = answered + 1;
        match fetch.advance(response) {
            Step::Continue(next) => {
                fetch = next;
            },
            Step::Complete(merged) => {
                return (Some(Step::Complete(merged)), answered);
            },
            Step::Abort(failure) => {
                return (Some(Step::Abort(failure)), answered);
            },
        }
    }
    if answered > 0 {
        (Some(Step::Continue(fetch)), answered)
    } else {
        (None, answered)
    }
}

/// The responses that carry the pages of `pages`, none of them a failure.
pub open spec fn answers<V>(pages: Seq<V>) -> Seq<Result<V, Error>> {
    pages.map_values(|page: V| Ok::<V, Error>(page))
}

/// The pages of `rest` merged in their order into `first`.
pub open spec fn merge_all<R: Paginated>(first: R::V, rest: Seq<R::V>) -> R::V
    decreases rest.len(),
{
    if rest.len() == 0 {
        first
    } else {
        merge_all::<R>(R::merged(first, rest[0]), rest.drop_first())
    }
}

/// Whether each page of `rest` merges into what `first` and the pages before
/// it have merged into.
pub open spec fn compatible<R: Paginated>(first: R::V, rest: Seq<R::V>) -> bool
    decreases rest.len(),
{
    rest.len() == 0 || (R::conflict(first, rest[0]) is None && compatible::<R>(
        R::merged(first, rest[0]),
        rest.drop_first(),
    ))
}

/// Whether `page` says that its listing ends with it.
pub open spec fn ends_listing<R: Paginated>(page: R::V) -> bool {
    R::continuation_of(page) is Done
}

/// Whether the page at `last` is the first of `pages` that ends the listing.
pub open spec fn first_final<R: Paginated>(pages: Seq<R::V>, last: int) -> bool {
    &&& 0 <= last < pages.len()
    &&& ends_listing::<R>(pages[last])
    &&& forall|i: int| 0 <= i < last ==> !ends_listing::<R>(#[trigger] pages[i])
}

/// Whether the fetch of `run_spec` makes exactly `n` requests and then is
/// complete with `whole`.
pub open spec fn completes_with<R: Paginated>(
    acc: Option<R::V>,
    script: Seq<Result<R::V, Error>>,
    n: int,
    whole: R::V,
) -> bool {
    run_spec::<R>(acc, script) == Some(Progress::Complete(whole)) && requests_spec::<R>(
        acc,
        script,
    ) == n
}

/// Behind a page that does not end the listing, the first page that ends it
/// is the same with or without that page, one place apart.
proof fn lemma_first_final_behind<R: Paginated>(pages: Seq<R::V>, last: int)
    requires
        1 <= last < pages.len(),
        !ends_listing::<R>(pages[0]),
    ensures
        first_final::<R>(pages, last) <==> first_final::<R>(pages.drop_first(), last - 1),
{
    let rest = pages.drop_first();
    if first_final::<R>(pages, last) {
        assert forall|i: int| 0 <= i < last - 1 implies !ends_listing::<R>(#[trigger] rest[i]) by {
            assert(rest[i] == pages[i + 1]);
        }
    }
    if first_final::<R>(rest, last - 1) {
        assert forall|i: int| 0 <= i < last implies !ends_listing::<R>(#[trigger] pages[i]) by {
            if i > 0 {
                assert(pages[i] == rest[i - 1]);
            }
        }
    }
}

/// The fetch that has merged `acc`, and whose next pages merge into it,
/// makes `n` more requests and is complete with the next `n` pages merged
/// if and only if the `n`-th of them is the first that ends the listing.
proof fn lemma_halts_behind<R: Paginated>(acc: R::V, pages: Seq<R::V>, n: int)
    requires
        1 <= n <= pages.len(),
        compatible::<R>(acc, pages.take(n)),
    ensures
        first_final::<R>(pages, n - 1) <==> completes_with::<R>(
            Some(acc),
            answers(pages),
            n,
            merge_all::<R>(acc, pages.take(n)),
        ),
    decreases pages.len(),
{
    let script = answers(pages);
    let rest = pages.drop_first();
    let merged = R::merged(acc, pages[0]);
    assert(pages.take(n).drop_first() =~= rest.take(n - 1));
    assert(script.drop_first() =~= answers(rest));
    R::last_page_decides(acc, pages[0]);
    if ends_listing::<R>(pages[0]) {
        assert(run_spec::<R>(Some(acc), script) == Some(Progress::Complete(merged)));
        assert(requests_spec::<R>(Some(acc), script) == 1);
        assert(merge_all::<R>(merged, rest.take(0)) == merged);
    } else {
        assert(run_spec::<R>(Some(acc), script) == run_spec::<R>(Some(merged), answers(rest)));
        assert(requests_spec::<R>(Some(acc), script) == 1 + requests_spec::<R>(
            Some(merged),
            answers(rest),
        ));
        if n > 1 {
            lemma_halts_behind::<R>(merged, rest, n - 1);
            lemma_first_final_behind::<R>(pages, n - 1);
        } else if rest.len() > 0 {
            assert(requests_spec::<R>(Some(merged), answers(rest)) >= 1);
        }
    }
}

/// A fetch whose pages all arrive and merge halts exactly at the first page
/// that ends the listing, complete with the pages up to it merged in their
/// order: it makes `n` requests and is complete with the first `n` pages
/// merged if and only if the `n`-th page is the first that ends the listing.
pub proof fn halts_at_first_final_page<R: Paginated>(pages: Seq<R::V>, n: int)
    requires
        1 <= n <= pages.len(),
        compatible::<R>(pages[0], pages.subrange(1, n)),
    ensures
        first_final::<R>(pages, n - 1) <==> completes_with::<R>(
            None,
            answers(pages),
            n,
            merge_all::<R>(pages[0], pages.subrange(1, n)),
        ),
{
    let rest = pages.drop_first();
    assert(answers(pages).drop_first() =~= answers(rest));
    assert(rest.take(n - 1) =~= pages.subrange(1, n));
    if ends_listing::<R>(pages[0]) {
        assert(run_spec::<R>(None, answers(pages)) == Some(Progress::Complete(pages[0])));
    } else {
        assert(requests_spec::<R>(None, answers(pages)) == 1 + requests_spec::<R>(
            Some(pages[0]),
            answers(rest),
        ));
        if n > 1 {
            lemma_halts_behind::<R>(pages[0], rest, n - 1);
            lemma_first_final_behind::<R>(pages, n - 1);
        } else if rest.len() > 0 {
            assert(requests_spec::<R>(Some(pages[0]), answers(rest)) >= 1);
        }
    }
}

/// Whether the first `n` responses of `script` carry the pages of `pages`,
/// which merge and of which none ends the listing.
pub open spec fn goes_on_through<R: Paginated>(
    script: Seq<Result<R::V, Error>>,
    pages: Seq<R::V>,
) -> bool {
    &&& 1 <= pages.len() <= script.len()
    &&& compatible::<R>(pages[0], pages.drop_first())
    &&& forall|i: int|
        0 <= i < pages.len() ==> script[i] == Ok::<R::V, Error>(pages[i]) && !ends_listing::<R>(
            #[trigger] pages[i],
        )
}

proof fn lemma_goes_on_behind<R: Paginated>(
    acc: R::V,
    pages: Seq<R::V>,
    script: Seq<Result<R::V, Error>>,
)
    requires
        pages.len() <= script.len(),
        compatible::<R>(acc, pages),
        !ends_listing::<R>(acc),
        forall|i: int|
            0 <= i < pages.len() ==> script[i] == Ok::<R::V, Error>(pages[i]) && !ends_listing::<R>(
                #[trigger] pages[i],
            ),
    ensures
        !ends_listing::<R>(merge_all::<R>(acc, pages)),
        run_spec::<R>(Some(acc), script) == run_spec::<R>(
            Some(merge_all::<R>(acc, pages)),
            script.skip(pages.len() as int),
        ),
        requests_spec::<R>(Some(acc), script) == pages.len() + requests_spec::<R>(
            Some(merge_all::<R>(acc, pages)),
            script.skip(pages.len() as int),
        ),
    decreases pages.len(),
{
    if pages.len() == 0 {
        assert(script.skip(0) =~= script);
    } else {
        let rest = pages.drop_first();
        let behind = script.drop_first();
        R::last_page_decides(acc, pages[0]);
        assert(!ends_listing::<R>(pages[0]));
        assert forall|i: int| 0 <= i < rest.len() implies behind[i] == Ok::<R::V, Error>(rest[i])
            && !ends_listing::<R>(#[trigger] rest[i]) by {
            assert(!ends_listing::<R>(pages[i + 1]));
        }
        lemma_goes_on_behind::<R>(R::merged(acc, pages[0]), rest, behind);
        assert(behind.skip(rest.len() as int) =~= script.skip(pages.len() as int));
    }
}

/// After pages that merge and do not end the listing, the fetch stands where
/// those pages merged leave it: what it comes to is decided by the responses
/// that follow, taken in after the merged pages, and each page has cost one
/// request.
pub proof fn fetch_goes_on_through_pages<R: Paginated>(
    script: Seq<Result<R::V, Error>>,
    pages: Seq<R::V>,
)
    requires
        goes_on_through::<R>(script, pages),
    ensures
        run_spec::<R>(None, script) == run_spec::<R>(
            Some(merge_all::<R>(pages[0], pages.drop_first())),
            script.skip(pages.len() as int),
        ),
        requests_spec::<R>(None, script) == pages.len() + requests_spec::<R>(
            Some(merge_all::<R>(pages[0], pages.drop_first())),
            script.skip(pages.len() as int),
        ),
{
    let rest = pages.drop_first();
    let behind = script.drop_first();
    assert(!ends_listing::<R>(pages[0]));
    assert forall|i: int| 0 <= i < rest.len() implies behind[i] == Ok::<R::V, Error>(rest[i])
        && !ends_listing::<R>(#[trigger] rest[i]) by {
        assert(!ends_listing::<R>(pages[i + 1]));
    }
    lemma_goes_on_behind::<R>(pages[0], rest, behind);
    assert(behind.skip(rest.len() as int) =~= script.skip(pages.len() as int));
}

/// The first failure ends the fetch. After pages that merge and do not end
/// the listing, a response that is a failure, or a page that does not merge
/// into them, aborts the fetch with that failure or with the conflict, at
/// the request that it answers; nothing of the pages is handed on.
pub proof fn first_failure_aborts<R: Paginated>(
    script: Seq<Result<R::V, Error>>,
    pages: Seq<R::V>,
    failure: Error,
)
    requires
        goes_on_through::<R>(script, pages),
        pages.len() < script.len(),
        match script[pages.len() as int] {
            Err(reported) => reported == failure,
            Ok(page) => R::conflict(merge_all::<R>(pages[0], pages.drop_first()), page) == Some(
                failure,
            ),
        },
    ensures
        run_spec::<R>(None, script) == Some(Progress::<R::V>::Abort(failure)),
        requests_spec::<R>(None, script) == pages.len() + 1,
{
    fetch_goes_on_through_pages::<R>(script, pages);
    assert(script.skip(pages.len() as int)[0] == script[pages.len() as int]);
}

/// Fetching again against the same responses gives the same outcome: what a
/// fetch comes to, and after how many requests, depends on nothing but the
/// values of the responses in their order.
pub proof fn refetch_is_identical<R: Paginated>(
    first: Seq<Result<R, Error>>,
    second: Seq<Result<R, Error>>,
)
    requires
        first.len() == second.len(),
        forall|i: int|
            0 <= i < first.len() ==> response_view(#[trigger] first[i]) == response_view(second[i]),
    ensures
        run_spec::<R>(None, script_view(first)) == run_spec::<R>(None, script_view(second)),
        requests_spec::<R>(None, script_view(first)) == requests_spec::<R>(
            None,
            script_view(second),
        ),
{
    assert(script_view(first) =~= script_view(second));
}

} // verus!
