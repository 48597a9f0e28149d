//! The response of a faceted search interface that links to its next page.

use crate::decimal::Decimal;
use crate::error::Error;
use crate::pagination::{
    answers, compatible, completes_with, ends_listing, first_failure_aborts,
    halts_at_first_final_page, merge_all, requests_spec, run_spec, Progress,
};
use crate::providers::{
    merges_left, merges_right, Continuation, ContinuationState, Merge, Paginated,
};
use vstd::prelude::*;

verus! {

/// The roles of the fields of the records, by field name.
///
/// A field name occurs once. Setting the role of a name that is present
/// replaces the role it had.
#[derive(Debug)]
pub struct FieldRoles {
    entries: Vec<(String, String)>,
}

/// Whether no field name occurs twice in `entries`.
pub open spec fn distinct_names(entries: Seq<(String, String)>) -> bool {
    forall|i: int, j: int|
        0 <= i < j < entries.len() ==> (#[trigger] entries[i]).0@ != (#[trigger] entries[j]).0@
}

/// Whether `entries` holds the field `name`.
pub open spec fn names(entries: Seq<(String, String)>, name: Seq<char>) -> bool {
    exists|i: int| 0 <= i < entries.len() && (#[trigger] entries[i]).0@ == name
}

/// The place of the field `name` in `entries`.
pub open spec fn place_of(entries: Seq<(String, String)>, name: Seq<char>) -> int {
    choose|i: int| 0 <= i < entries.len() && (#[trigger] entries[i]).0@ == name
}

/// The roles that `entries` gives, by field name.
pub open spec fn roles_of(entries: Seq<(String, String)>) -> Map<Seq<char>, Seq<char>> {
    Map::new(
        |name: Seq<char>| names(entries, name),
        |name: Seq<char>| entries[place_of(entries, name)].1@,
    )
}

impl View for FieldRoles {
    type V = Map<Seq<char>, Seq<char>>;

    closed spec fn view(&self) -> Map<Seq<char>, Seq<char>> {
        roles_of(self.entries@)
    }
}

impl FieldRoles {
    #[verifier::type_invariant]
    spec fn well_formed(&self) -> bool {
        distinct_names(self.entries@)
    }

    /// No roles at all.
    pub fn new() -> (roles: Self)
        ensures
            roles@ == Map::<Seq<char>, Seq<char>>::empty(),
    {
        FieldRoles { entries: Vec::new() }
    }

    /// The place of `name` among the entries, if it is there.
    fn find(&self, name: &String) -> (place: Option<usize>)
        ensures
            match place {
                Some(i) => i < self.entries@.len() && self.entries@[i as int].0@ == name@,
                None => !names(self.entries@, name@),
            },
    {
        let mut i: usize = 0;
        while i < self.entries.len()
            invariant
                i <= self.entries@.len(),
                forall|k: int| 0 <= k < i ==> (#[trigger] self.entries@[k]).0@ != name@,
            decreases self.entries@.len() - i,
        {
            if self.entries[i].0 == *name {
                return Some(i);
            }
            i = i + 1;
        }
        None
    }

    /// The role of the field `name`, if it has one.
    pub fn get(&self, name: &String) -> (role: Option<&String>)
        ensures
            match role {
                Some(found) => self@.contains_key(name@) && found@ == self@[name@],
                None => !self@.contains_key(name@),
            },
    {
        proof {
            use_type_invariant(self);
        }
        match self.find(name) {
            Some(i) => {
                assert(place_of(self.entries@, name@) == i);
                Some(&self.entries[i].1)
            },
            None => None,
        }
    }

    /// Gives the field `name` the role `role`, in place of the one it had.
    pub fn insert(&mut self, name: String, role: String)
        ensures
            final(self)@ == old(self)@.insert(name@, role@),
    {
        proof {
            use_type_invariant(&*self);
        }
        let ghost before = self.entries@;
        let place = self.find(&name);
        let mut entries: Vec<(String, String)> = Vec::new();
        core::mem::swap(&mut self.entries, &mut entries);
        match place {
            Some(i) => {
                entries.set(i, (name, role));
                proof {
                    lemma_roles_update(before, i as int, name, role);
                }
            },
            None => {
                entries.push((name, role));
                proof {
                    lemma_roles_push(before, name, role);
                }
            },
        }
        self.entries = entries;
    }

    /// Takes over every role of `other`, each in place of the role that its
    /// field had here.
    pub fn extend(&mut self, other: FieldRoles)
        ensures
            final(self)@ == old(self)@.union_prefer_right(other@),
    {
        proof {
            use_type_invariant(&other);
        }
        let ghost before = self@;
        let ghost all = other.entries@;
        for entry in taken: other.entries
            invariant
                taken.seq() == all,
                distinct_names(all),
                self@ == before.union_prefer_right(roles_of(all.subrange(0, taken.index() as int))),
        {
            let ghost i = taken.index() as int;
            proof {
                let prefix = all.subrange(0, i);
                assert(all.subrange(0, i + 1) =~= prefix.push(all[i]));
                lemma_roles_push(prefix, all[i].0, all[i].1);
            }
            let (name, role) = entry;
            self.insert(name, role);
        }
        assert(all.subrange(0, all.len() as int) =~= all);
    }

    /// The fields with their roles, each field once.
    pub fn into_entries(self) -> (entries: Vec<(String, String)>)
        ensures
            distinct_names(entries@),
            roles_of(entries@) == self@,
    {
        proof {
            use_type_invariant(&self);
        }
        self.entries
    }
}

/// Replacing the role of a field that is present sets its role and leaves
/// the others.
proof fn lemma_roles_update(entries: Seq<(String, String)>, i: int, name: String, role: String)
    requires
        distinct_names(entries),
        0 <= i < entries.len(),
        entries[i].0@ == name@,
    ensures
        distinct_names(entries.update(i, (name, role))),
        roles_of(entries.update(i, (name, role))) == roles_of(entries).insert(name@, role@),
{
    let after = entries.update(i, (name, role));
    assert forall|a: int, b: int| 0 <= a < b < after.len() implies (#[trigger] after[a]).0@ != (
    #[trigger] after[b]).0@ by {
        assert(after[a].0@ == entries[a].0@);
        assert(after[b].0@ == entries[b].0@);
    }
    assert forall|key: Seq<char>| names(after, key) <==> #[trigger] roles_of(entries).insert(
        name@,
        role@,
    ).contains_key(key) by {
        if names(after, key) {
            let k = place_of(after, key);
            assert(entries[k].0@ == key);
        }
        if names(entries, key) {
            let k = place_of(entries, key);
            assert(after[k].0@ == key);
        }
        if key == name@ {
            assert(after[i].0@ == key);
        }
    }
    assert forall|key: Seq<char>| names(after, key) implies #[trigger] roles_of(after)[key]
        == roles_of(entries).insert(name@, role@)[key] by {
        let k = place_of(after, key);
        assert(entries[k].0@ == key);
        if key != name@ {
            let k0 = place_of(entries, key);
            assert(after[k0].0@ == key);
            assert(k0 == k);
        } else {
            assert(k == i);
        }
    }
    assert(roles_of(after) =~= roles_of(entries).insert(name@, role@));
}

/// Adding a field that was not present gives it its role and leaves the
/// others.
proof fn lemma_roles_push(entries: Seq<(String, String)>, name: String, role: String)
    requires
        distinct_names(entries),
        !names(entries, name@),
    ensures
        distinct_names(entries.push((name, role))),
        roles_of(entries.push((name, role))) == roles_of(entries).insert(name@, role@),
{
    let after = entries.push((name, role));
    let n = entries.len() as int;
    assert forall|a: int, b: int| 0 <= a < b < after.len() implies (#[trigger] after[a]).0@ != (
    #[trigger] after[b]).0@ by {
        assert(after[a] == entries[a]);
        if b < n {
            assert(after[b] == entries[b]);
        }
    }
    assert forall|key: Seq<char>| names(after, key) <==> #[trigger] roles_of(entries).insert(
        name@,
        role@,
    ).contains_key(key) by {
        if names(after, key) {
            let k = place_of(after, key);
            if k < n {
                assert(entries[k].0@ == key);
            }
        }
        if names(entries, key) {
            let k = place_of(entries, key);
            assert(after[k].0@ == key);
        }
        if key == name@ {
            assert(after[n].0@ == key);
        }
    }
    assert forall|key: Seq<char>| names(after, key) implies #[trigger] roles_of(after)[key]
        == roles_of(entries).insert(name@, role@)[key] by {
        let k = place_of(after, key);
        if key != name@ {
            assert(k < n);
            assert(entries[k].0@ == key);
            let k0 = place_of(entries, key);
            assert(after[k0].0@ == key);
            assert(k0 == k);
        } else {
            assert(after[n].0@ == key);
            if k < n {
                assert(entries[k].0@ == key);
            }
            assert(k == n);
        }
    }
    assert(roles_of(after) =~= roles_of(entries).insert(name@, role@));
}

/// A link to one page of a search result.
#[derive(Copy, Clone, Debug, PartialEq, Eq, Structural)]
pub struct PageLink {
    /// Whether the link leads to the page that holds it.
    pub current_page: bool,
    /// The number of the page that the link leads to.
    pub number: u32,
}

/// How a search result is paged.
#[derive(Copy, Clone, Debug)]
pub struct PagingMetadata {
    pub current_page: u32,
    pub default_hits_per_page: u32,
    pub hits_per_page: u32,
    /// The link to the page that follows, absent on the last page.
    pub next_link: Option<PageLink>,
    pub page_count: u32,
    pub previous_link: Option<PageLink>,
}

impl Default for PagingMetadata {
    /// The paging of a result without any page.
    fn default() -> (paging: Self)
        ensures
            paging == (PagingMetadata {
                current_page: 0,
                default_hits_per_page: 0,
                hits_per_page: 0,
                next_link: None,
                page_count: 0,
                previous_link: None,
            }),
    {
        PagingMetadata {
            current_page: 0,
            default_hits_per_page: 0,
            hits_per_page: 0,
            next_link: None,
            page_count: 0,
            previous_link: None,
        }
    }
}

/// How the elements of a facet are shown.
#[derive(Copy, Clone, Debug, PartialEq, Eq, Structural)]
pub enum FacetFilterStyle {
    Default,
    Slider,
    Multiselect,
    Tree,
}

/// What selecting an element of a facet does to the others.
#[derive(Copy, Clone, Debug, PartialEq, Eq, Structural)]
pub enum FacetSelectionType {
    SingleHideUnselected,
    SingleShowUnselected,
    MultiSelectOr,
    MultiSelectAnd,
}

/// The kind of value that the elements of a facet hold.
#[derive(Copy, Clone, Debug, PartialEq, Eq, Structural)]
pub enum FacetElementType {
    Alphanumeric,
    Boolean,
    CategoryPath,
    Date,
    Float,
    Geo,
    Gtin,
    Integer,
    Multi,
    Property,
    Text,
}

/// One value of a facet by which the result can be narrowed.
#[derive(Debug)]
pub struct FacetElement {
    pub absolute_max_value: Option<Decimal>,
    pub absolute_min_value: Option<Decimal>,
    pub cluster_level: u32,
    pub selected: String,
    pub selected_max_value: Option<Decimal>,
    pub selected_min_value: Option<Decimal>,
    pub text: String,
    pub total_hits: usize,
}

/// A field of the records by whose values the result can be narrowed.
#[derive(Debug)]
pub struct SearchFacet {
    /// The field of the records that the facet stands for.
    pub associated_field_name: String,
    /// The number of fraction digits of a slider facet.
    pub decimal_places: Option<u32>,
    /// The number of links to show in the selection menu.
    pub detailed_links: u32,
    pub element_type: Option<FacetElementType>,
    pub elements: Vec<FacetElement>,
    pub filter_style: String,
    pub name: Option<String>,
    pub selected_elements: Vec<FacetElement>,
    pub selection_type: FacetSelectionType,
    pub show_preview_images: bool,
    pub unit: Option<String>,
}

/// One record found by a search; `T` holds the fields that the application
/// defines.
#[derive(Debug)]
pub struct SearchRecord<T> {
    /// The words that made the record a hit.
    pub found_words: Vec<String>,
    pub id: String,
    pub master_values: T,
    /// The place of the record in the whole result.
    pub position: u32,
    /// How well the record matches the query.
    pub score: Decimal,
}

/// One page of a search result, or the pages merged so far.
#[derive(Debug)]
pub struct SearchResponse<T> {
    pub facets: Vec<SearchFacet>,
    pub field_roles: FieldRoles,
    /// The parameter that speeds up a search that follows this one.
    pub follow_search: Option<String>,
    /// The records found, in the order of arrival.
    pub hits: Vec<SearchRecord<T>>,
    pub paging: PagingMetadata,
    /// Whether the search ran out of time on the far side, so that hits may
    /// be missing.
    pub timed_out: bool,
    /// Milliseconds spent on personalisation.
    pub took_loop_54: u32,
    /// Milliseconds spent in the framework.
    pub took_total: u32,
    /// Milliseconds spent in the core.
    pub took_worldmatch: u32,
    /// The number of records that the whole result has.
    pub total_hits: usize,
}

/// The mathematical value of a [`SearchResponse`].
pub ghost struct Search<T> {
    pub facets: Seq<SearchFacet>,
    pub field_roles: Map<Seq<char>, Seq<char>>,
    pub follow_search: Option<Seq<char>>,
    pub hits: Seq<SearchRecord<T>>,
    pub paging: PagingMetadata,
    pub timed_out: bool,
    pub took_loop_54: nat,
    pub took_total: nat,
    pub took_worldmatch: nat,
    pub total_hits: usize,
}

impl<T> View for SearchResponse<T> {
    type V = Search<T>;

    open spec fn view(&self) -> Search<T> {
        Search {
            facets: self.facets@,
            field_roles: self.field_roles@,
            follow_search: match self.follow_search {
                Some(link) => Some(link@),
                None => None,
            },
            hits: self.hits@,
            paging: self.paging,
            timed_out: self.timed_out,
            took_loop_54: self.took_loop_54 as nat,
            took_total: self.took_total as nat,
            took_worldmatch: self.took_worldmatch as nat,
            total_hits: self.total_hits,
        }
    }
}

impl<T> Default for SearchResponse<T> {
    /// A result without hits, facets or roles, that reports no records. It is
    /// no start for merging the pages of a search into: a page that reports
    /// records conflicts with it. A fetch starts from its first page.
    fn default() -> (empty: Self)
        ensures
            empty@ == (Search::<T> {
                facets: Seq::empty(),
                field_roles: Map::empty(),
                follow_search: None,
                hits: Seq::empty(),
                paging: PagingMetadata {
                    current_page: 0,
                    default_hits_per_page: 0,
                    hits_per_page: 0,
                    next_link: None,
                    page_count: 0,
                    previous_link: None,
                },
                timed_out: false,
                took_loop_54: 0,
                took_total: 0,
                took_worldmatch: 0,
                total_hits: 0,
            }),
    {
        SearchResponse {
            facets: Vec::new(),
            field_roles: FieldRoles::new(),
            follow_search: None,
            hits: Vec::new(),
            paging: PagingMetadata::default(),
            timed_out: false,
            took_loop_54: 0,
            took_total: 0,
            took_worldmatch: 0,
            total_hits: 0,
        }
    }
}

impl<T> Merge for SearchResponse<T> {
    /// Pages of one search report the same number of records in all. A
    /// response without any page, as `default` gives it, reports none: the
    /// first page of a search is taken as it is and not merged into such a
    /// response, with which it conflicts unless it reports no records itself.
    open spec fn conflict(acc: Search<T>, page: Search<T>) -> Option<Error> {
        if acc.total_hits == page.total_hits {
            None
        } else {
            Some(
                Error::InconsistentTotal {
                    expected: acc.total_hits,
                    found: page.total_hits,
                },
            )
        }
    }

    open spec fn fits(acc: Search<T>, page: Search<T>) -> bool {
        &&& acc.took_loop_54 + page.took_loop_54 <= u32::MAX
        &&& acc.took_total + page.took_total <= u32::MAX
        &&& acc.took_worldmatch + page.took_worldmatch <= u32::MAX
    }

    /// Facets and hits follow one another in the order of arrival, a role of
    /// the page replaces the role that its field had, the times add up, and
    /// the paging and the follow-up parameter are the page's. The merged
    /// result timed out only if both did.
    open spec fn merged(acc: Search<T>, page: Search<T>) -> Search<T> {
        Search {
            facets: acc.facets + page.facets,
            field_roles: acc.field_roles.union_prefer_right(page.field_roles),
            follow_search: page.follow_search,
            hits: acc.hits + page.hits,
            paging: page.paging,
            timed_out: acc.timed_out && page.timed_out,
            took_loop_54: acc.took_loop_54 + page.took_loop_54,
            took_total: acc.took_total + page.took_total,
            took_worldmatch: acc.took_worldmatch + page.took_worldmatch,
            total_hits: acc.total_hits,
        }
    }

    fn mergeable(&self, rhs: &Self) -> (admitted: bool) {
        self.total_hits != rhs.total_hits || (rhs.took_loop_54 <= u32::MAX - self.took_loop_54
            && rhs.took_total <= u32::MAX - self.took_total
            && rhs.took_worldmatch <= u32::MAX - self.took_worldmatch)
    }

    fn merge(&mut self, rhs: Self) -> (outcome: Result<(), Error>) {
        if self.total_hits != rhs.total_hits {
            return Err(
                Error::InconsistentTotal { expected: self.total_hits, found: rhs.total_hits },
            );
        }
        let mut rhs = rhs;
        self.facets.append(&mut rhs.facets);
        self.field_roles.extend(rhs.field_roles);
        self.follow_search = rhs.follow_search;
        self.hits.append(&mut rhs.hits);
        self.paging = rhs.paging;
        self.timed_out = self.timed_out && rhs.timed_out;
        self.took_loop_54 = self.took_loop_54 + rhs.took_loop_54;
        self.took_total = self.took_total + rhs.took_total;
        self.took_worldmatch = self.took_worldmatch + rhs.took_worldmatch;
        Ok(())
    }
}

impl<T> Paginated for SearchResponse<T> {
    open spec fn initial_state() -> Continuation {
        Continuation::PageLink(1)
    }

    /// The search goes on while the last page linked to a next one.
    open spec fn continuation_of(acc: Search<T>) -> Continuation {
        match acc.paging.next_link {
            Some(link) => Continuation::PageLink(link.number as nat),
            None => Continuation::Done,
        }
    }

    fn initial() -> (state: ContinuationState) {
        ContinuationState::PageLink(1)
    }

    fn continuation(&self) -> (state: ContinuationState) {
        match self.paging.next_link {
            Some(link) => ContinuationState::PageLink(link.number),
            None => ContinuationState::Done,
        }
    }

    proof fn last_page_decides(acc: Search<T>, page: Search<T>) {
    }

    proof fn merge_associative(a: Search<T>, b: Search<T>, c: Search<T>) {
        assert((a.facets + b.facets) + c.facets =~= a.facets + (b.facets + c.facets));
        assert((a.hits + b.hits) + c.hits =~= a.hits + (b.hits + c.hits));
        assert(a.field_roles.union_prefer_right(b.field_roles).union_prefer_right(c.field_roles)
            =~= a.field_roles.union_prefer_right(b.field_roles.union_prefer_right(c.field_roles)));
    }
}

/// The hits of each page, page by page.
pub open spec fn hits_by_page<T>(pages: Seq<Search<T>>) -> Seq<Seq<SearchRecord<T>>> {
    pages.map_values(|page: Search<T>| page.hits)
}

/// Whether all the pages report the number of records that the first of
/// them reports.
pub open spec fn same_total_hits<T>(pages: Seq<Search<T>>) -> bool {
    forall|i: int| 0 <= i < pages.len() ==> (#[trigger] pages[i]).total_hits == pages[0].total_hits
}

/// After a merge the search is done exactly if the page that was merged
/// carries no link to a next page; where it carries one, the search goes on
/// at the page that the link names.
pub proof fn merged_search_follows_its_last_page<T>(acc: Search<T>, page: Search<T>)
    ensures
        SearchResponse::<T>::continuation_of(SearchResponse::<T>::merged(acc, page)) is Done
            <==> page.paging.next_link is None,
        page.paging.next_link matches Some(link) ==> SearchResponse::<T>::continuation_of(
            SearchResponse::<T>::merged(acc, page),
        ) == Continuation::PageLink(link.number as nat),
{
}

proof fn lemma_merge_all_hits<T>(first: Search<T>, rest: Seq<Search<T>>)
    requires
        forall|i: int| 0 <= i < rest.len() ==> (#[trigger] rest[i]).total_hits == first.total_hits,
    ensures
        compatible::<SearchResponse<T>>(first, rest),
        merge_all::<SearchResponse<T>>(first, rest).hits == first.hits + hits_by_page(
            rest,
        ).flatten(),
        merge_all::<SearchResponse<T>>(first, rest).total_hits == first.total_hits,
    decreases rest.len(),
{
    if rest.len() > 0 {
        let tail = rest.drop_first();
        lemma_merge_all_hits(SearchResponse::<T>::merged(first, rest[0]), tail);
        assert(hits_by_page(rest).drop_first() =~= hits_by_page(tail));
    }
}

/// Pages of one search are gathered in the order of arrival until a page
/// links to no next one. The first `n` pages, reporting one number of
/// records, merge and hold the hits of all of them, page after page; and a
/// fetch that receives the pages is complete after exactly `n` requests if
/// and only if the `n`-th page is the first without a link to a next page.
pub proof fn search_is_gathered_until_link_is_absent<T>(pages: Seq<Search<T>>, n: int)
    requires
        1 <= n <= pages.len(),
        same_total_hits(pages.take(n)),
    ensures
        compatible::<SearchResponse<T>>(pages[0], pages.subrange(1, n)),
        ({
            let whole = merge_all::<SearchResponse<T>>(pages[0], pages.subrange(1, n));
            &&& whole.hits == hits_by_page(pages.take(n)).flatten()
            &&& whole.total_hits == pages[0].total_hits
            &&& completes_with::<SearchResponse<T>>(None, answers(pages), n, whole) <==> {
                &&& pages[n - 1].paging.next_link is None
                &&& forall|i: int| 0 <= i < n - 1 ==> (#[trigger] pages[i]).paging.next_link is Some
            }
        }),
{
    let first = pages[0];
    let rest = pages.subrange(1, n);
    let taken = pages.take(n);
    assert forall|i: int| 0 <= i < rest.len() implies (#[trigger] rest[i]).total_hits
        == first.total_hits by {
        assert(rest[i] == taken[i + 1]);
    }
    lemma_merge_all_hits(first, rest);
    assert(hits_by_page(taken).drop_first() =~= hits_by_page(rest));
    halts_at_first_final_page::<SearchResponse<T>>(pages, n);
}

/// A changed number of records aborts the fetch. After pages that report
/// one number of records and link to a next page, a page that reports
/// another number ends the fetch with the failure that names both numbers,
/// at the request that the page answers.
pub proof fn changed_total_aborts_the_fetch<T>(
    script: Seq<Result<Search<T>, Error>>,
    pages: Seq<Search<T>>,
    page: Search<T>,
)
    requires
        1 <= pages.len() < script.len(),
        same_total_hits(pages),
        forall|i: int|
            0 <= i < pages.len() ==> script[i] == Ok::<Search<T>, Error>(pages[i]) && (
            #[trigger] pages[i]).paging.next_link is Some,
        script[pages.len() as int] == Ok::<Search<T>, Error>(page),
        page.total_hits != pages[0].total_hits,
    ensures
        run_spec::<SearchResponse<T>>(None, script) == Some(
            Progress::<Search<T>>::Abort(
                Error::InconsistentTotal {
                    expected: pages[0].total_hits,
                    found: page.total_hits,
                },
            ),
        ),
        requests_spec::<SearchResponse<T>>(None, script) == pages.len() + 1,
{
    let rest = pages.drop_first();
    assert forall|i: int| 0 <= i < rest.len() implies (#[trigger] rest[i]).total_hits
        == pages[0].total_hits by {
        assert(rest[i] == pages[i + 1]);
    }
    lemma_merge_all_hits(pages[0], rest);
    assert forall|i: int| 0 <= i < pages.len() implies !ends_listing::<SearchResponse<T>>(
        #[trigger] pages[i],
    ) by {
        assert(pages[i].paging.next_link is Some);
    }
    first_failure_aborts::<SearchResponse<T>>(
        script,
        pages,
        Error::InconsistentTotal {
            expected: pages[0].total_hits,
            found: page.total_hits,
        },
    );
}

/// Merging is associative when and only when the pages report one number
/// of records. Three pages merge, from the left as from the right, exactly if
/// they report the same number, and then both ways give the same response.
/// Two pages with differing numbers do not merge: the attempt fails with
/// both numbers.
pub proof fn merge_is_associative_on_one_total<T>(a: Search<T>, b: Search<T>, c: Search<T>)
    ensures
        merges_left::<SearchResponse<T>>(a, b, c) <==> a.total_hits == b.total_hits
            && b.total_hits == c.total_hits,
        merges_right::<SearchResponse<T>>(a, b, c) <==> a.total_hits == b.total_hits
            && b.total_hits == c.total_hits,
        a.total_hits == b.total_hits && b.total_hits == c.total_hits ==> SearchResponse::<
            T,
        >::merged(SearchResponse::<T>::merged(a, b), c) == SearchResponse::<T>::merged(
            a,
            SearchResponse::<T>::merged(b, c),
        ),
        a.total_hits != b.total_hits ==> SearchResponse::<T>::conflict(a, b) == Some(
            Error::InconsistentTotal {
                expected: a.total_hits,
                found: b.total_hits,
            },
        ),
{
    SearchResponse::<T>::merge_associative(a, b, c);
}

} // verus!
