//! The capability that every upstream family offers to the pagination
//! engine: pages of one response type can be merged, and a merged response
//! says how the listing goes on.

pub mod algolia;
pub mod billa;
pub mod factfinder;
pub mod mpreis;
pub mod roksh;
pub mod spar;

use crate::error::Error;
use vstd::prelude::*;

verus! {

/// The upstream interfaces that can be fetched.
#[derive(Copy, Clone, PartialEq, Eq, Debug, Structural)]
pub enum FetchSource {
    Billa,
    Hofer,
    Mpreis,
    Spar,
}

/// How a listing goes on after the pages received so far.
///
/// A state other than `Done` names the next request. `Cursor(None)` is the
/// state of a cursor listing before its first page; after a page it is
/// `Cursor(Some(..))` with the token of that page, or `Done`.
#[derive(Debug)]
pub enum ContinuationState {
    /// Ask for the page that follows the first `n` pages; pages count from 0.
    Offset(usize),
    /// Ask with the token that the last page handed out.
    Cursor(Option<String>),
    /// Ask for the page of this number.
    PageLink(u32),
    /// The listing is complete.
    Done,
}

/// The mathematical value of a [`ContinuationState`].
pub ghost enum Continuation {
    Offset(nat),
    Cursor(Option<Seq<char>>),
    PageLink(nat),
    Done,
}

impl View for ContinuationState {
    type V = Continuation;

    open spec fn view(&self) -> Continuation {
        match *self {
            ContinuationState::Offset(n) => Continuation::Offset(n as nat),
            ContinuationState::Cursor(None) => Continuation::Cursor(None),
            ContinuationState::Cursor(Some(token)) => Continuation::Cursor(Some(token@)),
            ContinuationState::PageLink(n) => Continuation::PageLink(n as nat),
            ContinuationState::Done => Continuation::Done,
        }
    }
}

impl ContinuationState {
    /// Whether the listing is complete.
    pub fn is_done(&self) -> (done: bool)
        ensures
            done == (self@ is Done),
    {
        match self {
            ContinuationState::Done => true,
            _ => false,
        }
    }
}

/// A request for one page: the address to ask at and the parameters of the
/// query, in their order. Nothing in it is encoded for the wire.
#[derive(Debug)]
pub struct PageRequest {
    pub url: String,
    pub query: Vec<(String, String)>,
}

/// The mathematical value of a [`PageRequest`].
pub ghost struct Request {
    pub url: Seq<char>,
    pub query: Seq<(Seq<char>, Seq<char>)>,
}

impl View for PageRequest {
    type V = Request;

    open spec fn view(&self) -> Request {
        Request {
            url: self.url@,
            query: self.query@.map_values(|pair: (String, String)| (pair.0@, pair.1@)),
        }
    }
}

/// The parameter `name` with the value `value`.
pub fn parameter(name: &str, value: &str) -> (pair: (String, String))
    ensures
        pair.0@ == name@,
        pair.1@ == value@,
{
    (String::from_str(name), String::from_str(value))
}

/// Pages of one response type combine into one response.
///
/// `merge` folds the page `rhs` into the accumulator `self`. Lists grow by the
/// page's items in the order of arrival, elapsed times add up, and whatever
/// tells how the listing goes on is taken from the page. Two responses that
/// disagree on the size of the listing do not merge.
pub trait Merge<Other: View = Self>: View + Sized {
    /// The failure that keeps the page from merging into the accumulator, if
    /// there is one.
    spec fn conflict(acc: Self::V, page: Other::V) -> Option<Error>;

    /// Whether the sums that the merge forms are within the range of their
    /// fields. It matters only where there is no conflict.
    spec fn fits(acc: Self::V, page: Other::V) -> bool;

    /// The result of the merge.
    spec fn merged(acc: Self::V, page: Other::V) -> Self::V;

    /// Tests whether `rhs` can be handed to `merge`: the two conflict, so
    /// that no sum is formed, or the sums fit.
    fn mergeable(&self, rhs: &Other) -> (admitted: bool)
        ensures
            admitted == (Self::conflict(self@, rhs@) is None ==> Self::fits(self@, rhs@)),
    ;

    /// Folds `rhs` into `self`, or reports the conflict and leaves `self` as
    /// it was.
    fn merge(&mut self, rhs: Other) -> (outcome: Result<(), Error>)
        requires
            Self::conflict(old(self)@, rhs@) is None ==> Self::fits(old(self)@, rhs@),
        ensures
            match Self::conflict(old(self)@, rhs@) {
                None => outcome is Ok && final(self)@ == Self::merged(old(self)@, rhs@),
                Some(failure) => outcome == Err::<(), Error>(failure) && final(self)@ == old(
                    self,
                )@,
            },
    ;
}

/// A response that tells how its listing goes on.
pub trait Paginated: Merge {
    /// The state of a listing of which no page has arrived.
    spec fn initial_state() -> Continuation;

    /// The state of a listing whose pages so far merged into `acc`.
    spec fn continuation_of(acc: Self::V) -> Continuation;

    /// The state in which the first page is asked for.
    fn initial() -> (state: ContinuationState)
        ensures
            state@ == Self::initial_state(),
            !(state@ is Done),
    ;

    /// The state after the pages merged into `self`.
    fn continuation(&self) -> (state: ContinuationState)
        ensures
            state@ == Self::continuation_of(self@),
    ;

    /// Whether a listing ends is for its last page alone to say: the merged
    /// response is done exactly if the page merged last is.
    proof fn last_page_decides(acc: Self::V, page: Self::V)
        ensures
            Self::continuation_of(Self::merged(acc, page)) is Done <==> Self::continuation_of(
                page,
            ) is Done,
    ;

    /// Merging is associative as far as it is defined: three responses merge
    /// from the left exactly if they merge from the right, and then both ways
    /// give the same response.
    proof fn merge_associative(a: Self::V, b: Self::V, c: Self::V)
        ensures
            merges_left::<Self>(a, b, c) <==> merges_right::<Self>(a, b, c),
            merges_left::<Self>(a, b, c) ==> Self::merged(Self::merged(a, b), c) == Self::merged(
                a,
                Self::merged(b, c),
            ),
    ;
}

/// Whether `a`, `b` and `c` merge as `(a b) c`.
pub open spec fn merges_left<R: Merge>(a: R::V, b: R::V, c: R::V) -> bool {
    R::conflict(a, b) is None && R::conflict(R::merged(a, b), c) is None
}

/// Whether `a`, `b` and `c` merge as `a (b c)`.
pub open spec fn merges_right<R: Merge>(a: R::V, b: R::V, c: R::V) -> bool {
    R::conflict(b, c) is None && R::conflict(a, R::merged(b, c)) is None
}

/// Whether `state` is one in which a page of a listing of `R` is asked for:
/// the initial state, or the state after some merged response, and not
/// `Done`.
pub open spec fn listing_goes_on<R: Paginated>(state: Continuation) -> bool {
    &&& !(state is Done)
    &&& state == R::initial_state() || exists|acc: R::V| state == R::continuation_of(acc)
}

/// An upstream interface whose listings arrive as responses of the type `R`:
/// it knows the request for each page.
pub trait Adapter<R: Paginated> {
    /// The request for the page that `state` asks for, if the interface has
    /// one for it.
    spec fn request_for(state: Continuation) -> Option<Request>;

    /// The request for the page that `state` asks for.
    fn request_page(state: &ContinuationState) -> (request: Option<PageRequest>)
        ensures
            match request {
                Some(request) => Self::request_for(state@) == Some(request@),
                None => Self::request_for(state@) is None,
            },
    ;

    /// The interface has a request for the first page of a listing and for
    /// the page after every response that does not end it.
    proof fn asks_while_listing_goes_on(state: Continuation)
        requires
            listing_goes_on::<R>(state),
        ensures
            Self::request_for(state) is Some,
    ;
}

} // verus!
