//! Listing queries: sort order, pagination and filters, and the listing URL
//! they produce.

use vstd::prelude::*;
use crate::text::dec_str_of;
use crate::text::u64_to_string;
use crate::text::urlencode;
use crate::text::urlencoded_of;
use crate::types::clone_opt_string;
use crate::types::deep_of;
use crate::types::lemma_deep_of_push;
use crate::types::lemma_vec_deep_view;

verus! {

/// Used to specify the sort behaviour of crate listing queries.
#[derive(Debug, Clone, Copy, PartialEq, Eq, Structural)]
pub enum Sort {
    /// Sort alphabetically.
    Alphabetical,
    /// Sort by relevance (meaningless if used without a query).
    Relevance,
    /// Sort by downloads.
    Downloads,
    /// Sort by recent downloads.
    RecentDownloads,
    /// Sort by recent updates.
    RecentUpdates,
    /// Sort by newly added.
    NewlyAdded,
}

/// The wire value of each sort order.
pub open spec fn sort_wire_value(s: Sort) -> Seq<char> {
    match s {
        Sort::Alphabetical => "alpha"@,
        Sort::Relevance => ""@,
        Sort::Downloads => "downloads"@,
        Sort::RecentDownloads => "recent-downloads"@,
        Sort::RecentUpdates => "recent-updates"@,
        Sort::NewlyAdded => "new"@,
    }
}

impl Sort {
    /// The value the sort parameter carries on the wire.
    pub fn to_str(&self) -> (r: &str)
        ensures
            r@ == sort_wire_value(*self),
    {
        match self {
            Sort::Alphabetical => "alpha",
            Sort::Relevance => "",
            Sort::Downloads => "downloads",
            Sort::RecentDownloads => "recent-downloads",
            Sort::RecentUpdates => "recent-updates",
            Sort::NewlyAdded => "new",
        }
    }
}

/// Options for listing requests: pagination, sorting and optional filters.
#[derive(Debug)]
pub struct CratesQuery {
    /// Sort order.
    pub sort: Sort,
    /// Number of items per page.
    pub per_page: u64,
    /// The page to fetch.
    pub page: u64,
    /// Filter by the id of an owning user.
    pub user_id: Option<u64>,
    /// Filter by a category name (lower-case, dash-separated).
    pub category: Option<String>,
    /// Free-text search query.
    pub search: Option<String>,
}

/// The query pairs a listing request sends, in order: page, page size, the
/// sort (omitted for relevance, which means nothing without a search query),
/// then the optional filters.
pub open spec fn query_pairs_of(q: CratesQuery) -> Seq<(Seq<char>, Seq<char>)> {
    let s = Seq::empty().push(("page"@, dec_str_of(q.page as int))).push(
        ("per_page"@, dec_str_of(q.per_page as int)),
    );
    let s = if (q.sort matches Sort::Relevance) {
        s
    } else {
        s.push(("sort"@, sort_wire_value(q.sort)))
    };
    let s = match q.user_id {
        Some(id) => s.push(("user_id"@, dec_str_of(id as int))),
        None => s,
    };
    let s = match q.search {
        Some(x) => s.push(("q"@, x@)),
        None => s,
    };
    match q.category {
        Some(c) => s.push(("category"@, c@)),
        None => s,
    }
}

/// Pushes one query pair, tracked at the view level.
fn push_pair(r: &mut Vec<(String, String)>, k: String, v: String)
    ensures
        final(r).deep_view() == old(r).deep_view().push((k@, v@)),
{
    let ghost pre = r@;
    let ghost pair = (k, v);
    r.push((k, v));
    proof {
        lemma_deep_of_push(pre, pair);
        assert(r.deep_view() =~= deep_of(r@));
        assert(old(r).deep_view() =~= deep_of(pre));
    }
}

impl CratesQuery {
    /// The query parameters this query sends, in the order they are sent.
    pub fn query_pairs(&self) -> (r: Vec<(String, String)>)
        ensures
            r.deep_view() == query_pairs_of(*self),
    {
        let mut r: Vec<(String, String)> = Vec::new();
        proof {
            assert(r.deep_view() =~= Seq::<(Seq<char>, Seq<char>)>::empty());
        }
        push_pair(&mut r, "page".to_owned(), u64_to_string(self.page));
        push_pair(&mut r, "per_page".to_owned(), u64_to_string(self.per_page));
        match &self.sort {
            Sort::Relevance => {},
            _ => {
                let wire = self.sort.to_str().to_owned();
                push_pair(&mut r, "sort".to_owned(), wire);
            },
        }
        match self.user_id {
            Some(id) => push_pair(&mut r, "user_id".to_owned(), u64_to_string(id)),
            None => {},
        }
        match &self.search {
            Some(x) => push_pair(&mut r, "q".to_owned(), x.clone()),
            None => {},
        }
        match &self.category {
            Some(c) => push_pair(&mut r, "category".to_owned(), c.clone()),
            None => {},
        }
        r
    }
}

/// The query string of a listing request: each pair form-urlencoded and
/// joined as `?k=v&k=v...`; empty for no pairs.
pub open spec fn encoded_pairs(pairs: Seq<(Seq<char>, Seq<char>)>) -> Seq<char>
    decreases pairs.len(),
{
    if pairs.len() == 0 {
        Seq::empty()
    } else {
        encoded_pairs(pairs.drop_last()) + (if pairs.len() == 1 {
            "?"@
        } else {
            "&"@
        }) + urlencoded_of(pairs.last().0) + "="@ + urlencoded_of(pairs.last().1)
    }
}

/// The URL of a listing request for given query pairs.
pub open spec fn listing_url_of(base: Seq<char>, pairs: Seq<(Seq<char>, Seq<char>)>) -> Seq<char> {
    base + "crates"@ + encoded_pairs(pairs)
}

proof fn lemma_encoded_pairs_take(pairs: Seq<(Seq<char>, Seq<char>)>, j: int)
    requires
        0 <= j < pairs.len(),
    ensures
        encoded_pairs(pairs.take(j + 1)) == encoded_pairs(pairs.take(j)) + (if j == 0 {
            "?"@
        } else {
            "&"@
        }) + urlencoded_of(pairs[j].0) + "="@ + urlencoded_of(pairs[j].1),
{
    let t = pairs.take(j + 1);
    assert(t.drop_last() =~= pairs.take(j));
    assert(t.last() == pairs[j]);
}

/// Builds the URL of a listing request: the listing endpoint under the base,
/// with the query's parameters form-urlencoded in order.
pub fn build_crates_url(base: &str, query: &CratesQuery) -> (u: String)
    ensures
        u@ == listing_url_of(base@, query_pairs_of(*query)),
{
    let pairs = query.query_pairs();
    let ghost pv = pairs.deep_view();
    let mut u = base.to_owned();
    u.append("crates");
    proof {
        assert(pv.take(0) =~= Seq::<(Seq<char>, Seq<char>)>::empty());
        lemma_vec_deep_view(&pairs);
    }
    let mut i: usize = 0;
    while i < pairs.len()
        invariant
            i <= pairs@.len(),
            pv == pairs.deep_view(),
            pv == query_pairs_of(*query),
            pv.len() == pairs@.len(),
            u@ == base@ + "crates"@ + encoded_pairs(pv.take(i as int)),
        decreases pairs@.len() - i,
    {
        if i == 0 {
            u.append("?");
        } else {
            u.append("&");
        }
        let ek = urlencode(pairs[i].0.as_str());
        u.append(ek.as_str());
        u.append("=");
        let ev = urlencode(pairs[i].1.as_str());
        u.append(ev.as_str());
        proof {
            lemma_vec_deep_view(&pairs);
            assert(pv[i as int] == pairs@[i as int].deep_view());
            lemma_encoded_pairs_take(pv, i as int);
        }
        i += 1;
    }
    proof {
        assert(pv.take(pv.len() as int) =~= pv);
    }
    u
}

impl CratesQuery {
    /// Construct a new [`CratesQueryBuilder`].
    pub fn builder() -> (r: CratesQueryBuilder)
        ensures
            r.query == default_crates_query(),
    {
        CratesQueryBuilder::new()
    }

    /// Get a reference to the crate query's sort.
    pub fn sort(&self) -> (r: &Sort)
        ensures
            *r == self.sort,
    {
        &self.sort
    }

    /// Set the crate query's sort.
    pub fn set_sort(&mut self, sort: Sort)
        ensures
            *final(self) == (CratesQuery { sort, ..*old(self) }),
    {
        self.sort = sort;
    }

    /// Get the crate query's page size.
    pub fn page_size(&self) -> (r: u64)
        ensures
            r == self.per_page,
    {
        self.per_page
    }

    /// Set the crate query's page size.
    pub fn set_page_size(&mut self, per_page: u64)
        ensures
            *final(self) == (CratesQuery { per_page, ..*old(self) }),
    {
        self.per_page = per_page;
    }

    /// Get the crate query's page.
    pub fn page(&self) -> (r: u64)
        ensures
            r == self.page,
    {
        self.page
    }

    /// Set the crate query's page.
    pub fn set_page(&mut self, page: u64)
        ensures
            *final(self) == (CratesQuery { page, ..*old(self) }),
    {
        self.page = page;
    }

    /// Get the crate query's user id filter.
    pub fn user_id(&self) -> (r: Option<u64>)
        ensures
            r == self.user_id,
    {
        self.user_id
    }

    /// Set the crate query's user id filter.
    pub fn set_user_id(&mut self, user_id: Option<u64>)
        ensures
            *final(self) == (CratesQuery { user_id, ..*old(self) }),
    {
        self.user_id = user_id;
    }

    /// Get a reference to the crate query's category filter.
    pub fn category(&self) -> (r: Option<&String>)
        ensures
            match r {
                Some(c) => self.category matches Some(x) && x == *c,
                None => self.category is None,
            },
    {
        self.category.as_ref()
    }

    /// Set the crate query's category filter.
    pub fn set_category(&mut self, category: Option<String>)
        ensures
            *final(self) == (CratesQuery { category, ..*old(self) }),
    {
        self.category = category;
    }

    /// Get a reference to the crate query's search query.
    pub fn search(&self) -> (r: Option<&String>)
        ensures
            match r {
                Some(s) => self.search matches Some(x) && x == *s,
                None => self.search is None,
            },
    {
        self.search.as_ref()
    }

    /// Set the crate query's search query.
    pub fn set_search(&mut self, search: Option<String>)
        ensures
            *final(self) == (CratesQuery { search, ..*old(self) }),
    {
        self.search = search;
    }
}

impl Clone for CratesQuery {
    /// Clones the query, preserving the value exactly.
    fn clone(&self) -> (r: Self)
        ensures
            r == *self,
    {
        CratesQuery {
            sort: self.sort,
            per_page: self.per_page,
            page: self.page,
            user_id: self.user_id,
            category: clone_opt_string(&self.category),
            search: clone_opt_string(&self.search),
        }
    }
}

/// The query a fresh builder starts from: first page of thirty, sorted by
/// recent updates, no filters.
pub open spec fn default_crates_query() -> CratesQuery {
    CratesQuery {
        sort: Sort::RecentUpdates,
        per_page: 30,
        page: 1,
        user_id: None,
        category: None,
        search: None,
    }
}

impl Default for CratesQuery {
    /// The default query: first page of thirty, sorted by recent updates, no
    /// filters.
    fn default() -> (r: Self)
        ensures
            r == default_crates_query(),
    {
        CratesQuery {
            sort: Sort::RecentUpdates,
            per_page: 30,
            page: 1,
            user_id: None,
            category: None,
            search: None,
        }
    }
}

/// Builder that enables easy construction of a [`CratesQuery`].
#[derive(Debug)]
pub struct CratesQueryBuilder {
    /// The query being built.
    pub query: CratesQuery,
}

impl CratesQueryBuilder {
    /// Construct a new builder, starting from the default query.
    #[must_use]
    pub fn new() -> (r: Self)
        ensures
            r.query == default_crates_query(),
    {
        CratesQueryBuilder { query: CratesQuery::default() }
    }

    /// Set the sorting method.
    #[must_use]
    pub fn sort(self, sort: Sort) -> (r: Self)
        ensures
            r.query == (CratesQuery { sort, ..self.query }),
    {
        let mut b = self;
        b.query.sort = sort;
        b
    }

    /// Set the page size.
    #[must_use]
    pub fn page_size(self, size: u64) -> (r: Self)
        ensures
            r.query == (CratesQuery { per_page: size, ..self.query }),
    {
        let mut b = self;
        b.query.per_page = size;
        b
    }

    /// Filter by a user id.
    #[must_use]
    pub fn user_id(self, user_id: u64) -> (r: Self)
        ensures
            r.query == (CratesQuery { user_id: Some(user_id), ..self.query }),
    {
        let mut b = self;
        b.query.user_id = Some(user_id);
        b
    }

    /// Filter by a category name (lower-case, dash-separated).
    #[must_use]
    pub fn category(self, category: &str) -> (r: Self)
        ensures
            r.query.category matches Some(c) && c@ == category@,
            r.query == (CratesQuery { category: r.query.category, ..self.query }),
    {
        let mut b = self;
        b.query.category = Some(category.to_owned());
        b
    }

    /// Set a free-text search term.
    #[must_use]
    pub fn search(self, search: &str) -> (r: Self)
        ensures
            r.query.search matches Some(s) && s@ == search@,
            r.query == (CratesQuery { search: r.query.search, ..self.query }),
    {
        let mut b = self;
        b.query.search = Some(search.to_owned());
        b
    }

    /// Finalize the builder into a usable [`CratesQuery`].
    #[must_use]
    pub fn build(self) -> (r: CratesQuery)
        ensures
            r == self.query,
    {
        self.query
    }
}

impl Default for CratesQueryBuilder {
    /// A fresh builder, starting from the default query.
    fn default() -> (r: Self)
        ensures
            r.query == default_crates_query(),
    {
        CratesQueryBuilder::new()
    }
}

} // verus!
