//! The pagination engine: eager accumulation and the lazy crate stream.
//!
//! Listing-style endpoints return bounded pages and give no explicit
//! continuation marker; an empty page is the sole termination signal. The
//! machines here hold the cursor state and decide, page by page, whether to
//! continue; the host program (or a test) performs the fetch each machine
//! asks for and feeds the result back.

use vstd::prelude::*;
use crate::error::Error;
use crate::query::CratesQuery;
use crate::types::Crate;
use crate::types::CratesPage;
use crate::types::Meta;
use crate::types::ReverseDependencies;
use crate::types::ReverseDependency;

verus! {

// ---------------------------------------------------------------------------
// Eager reverse-dependency pagination.
// ---------------------------------------------------------------------------

/// Eagerly accumulates reverse-dependency pages: feed the (already joined)
/// pages in page order until the machine reports itself finished.
#[derive(Debug)]
pub struct RdepsPager {
    /// The page the next request must ask for.
    pub next_page: u64,
    /// Whether an empty page has ended the pagination.
    pub finished: bool,
    /// The accumulated pairs and the most recently reported total.
    pub acc: ReverseDependencies,
}

/// The mathematical state of a [`RdepsPager`].
pub struct RdepsPagerModel {
    /// The page the next request must ask for.
    pub next_page: int,
    /// Whether an empty page has ended the pagination.
    pub finished: bool,
    /// The accumulated pairs.
    pub pairs: Seq<ReverseDependency>,
    /// The most recently reported total.
    pub total: u64,
}

/// The model of a pager value.
pub open spec fn rdeps_model(p: RdepsPager) -> RdepsPagerModel {
    RdepsPagerModel {
        next_page: p.next_page as int,
        finished: p.finished,
        pairs: p.acc.dependencies@,
        total: p.acc.meta.total,
    }
}

/// The state a fresh pager starts from: the first page, nothing accumulated.
pub open spec fn rdeps_initial() -> RdepsPagerModel {
    RdepsPagerModel { next_page: 1, finished: false, pairs: Seq::empty(), total: 0 }
}

/// One feeding step: an empty page finishes the pagination and changes
/// nothing else; a non-empty page is appended, advances the cursor, and its
/// reported total overwrites the running one (last page wins).
pub open spec fn rdeps_step(m: RdepsPagerModel, page: ReverseDependencies) -> RdepsPagerModel {
    if m.finished {
        m
    } else if page.dependencies@.len() == 0 {
        RdepsPagerModel { finished: true, ..m }
    } else {
        RdepsPagerModel {
            next_page: m.next_page + 1,
            finished: false,
            pairs: m.pairs + page.dependencies@,
            total: page.meta.total,
        }
    }
}

/// The pager state after the first `n` of the given pages have been fed.
pub open spec fn rdeps_run(pages: Seq<ReverseDependencies>, n: int) -> RdepsPagerModel
    decreases n,
{
    if n <= 0 {
        rdeps_initial()
    } else {
        rdeps_step(rdeps_run(pages, n - 1), pages[n - 1])
    }
}

/// The concatenation of the pairs of a sequence of pages.
pub open spec fn rdeps_concat(pages: Seq<ReverseDependencies>) -> Seq<ReverseDependency>
    decreases pages.len(),
{
    if pages.len() == 0 {
        Seq::empty()
    } else {
        rdeps_concat(pages.drop_last()) + pages.last().dependencies@
    }
}

/// While every page fed so far was non-empty, the pager has accumulated
/// exactly their concatenation, advanced the cursor one page per feed, kept
/// the most recent total, and not finished.
pub proof fn lemma_rdeps_run_prefix(pages: Seq<ReverseDependencies>, j: int)
    requires
        0 <= j <= pages.len(),
        forall|i: int| 0 <= i < j ==> pages[i].dependencies@.len() > 0,
    ensures
        !rdeps_run(pages, j).finished,
        rdeps_run(pages, j).next_page == j + 1,
        rdeps_run(pages, j).pairs == rdeps_concat(pages.take(j)),
        rdeps_run(pages, j).total == if j == 0 {
            0u64
        } else {
            pages[j - 1].meta.total
        },
    decreases j,
{
    if j == 0 {
        assert(pages.take(0) =~= Seq::<ReverseDependencies>::empty());
        assert(rdeps_run(pages, 0).pairs =~= rdeps_concat(pages.take(0)));
    } else {
        lemma_rdeps_run_prefix(pages, j - 1);
        let t = pages.take(j);
        assert(t.drop_last() =~= pages.take(j - 1));
        assert(t.last() == pages[j - 1]);
    }
}

/// Law: when the first `k` pages are non-empty and page `k + 1` is empty,
/// eager pagination consumes exactly those `k + 1` pages — it is unfinished
/// before each of them, finished after the last — and returns exactly the
/// concatenation of the non-empty pages' pairs, with the last non-empty
/// page's reported total.
pub proof fn lemma_eager_rdeps_pagination(pages: Seq<ReverseDependencies>, k: int)
    requires
        0 <= k < pages.len(),
        forall|i: int| 0 <= i < k ==> pages[i].dependencies@.len() > 0,
        pages[k].dependencies@.len() == 0,
    ensures
        forall|j: int| 0 <= j <= k ==> !rdeps_run(pages, j).finished,
        rdeps_run(pages, k + 1).finished,
        rdeps_run(pages, k + 1).pairs == rdeps_concat(pages.take(k)),
        rdeps_run(pages, k + 1).total == if k == 0 {
            0u64
        } else {
            pages[k - 1].meta.total
        },
{
    assert forall|j: int| 0 <= j <= k implies !rdeps_run(pages, j).finished by {
        lemma_rdeps_run_prefix(pages, j);
    }
    lemma_rdeps_run_prefix(pages, k);
}

impl RdepsPager {
    /// A fresh pager: the next request asks for page 1.
    pub fn new() -> (s: Self)
        ensures
            rdeps_model(s) == rdeps_initial(),
    {
        let s = RdepsPager {
            next_page: 1,
            finished: false,
            acc: ReverseDependencies { dependencies: Vec::new(), meta: Meta { total: 0 } },
        };
        proof {
            assert(rdeps_model(s).pairs =~= rdeps_initial().pairs);
        }
        s
    }

    /// Feeds the next page, already joined. An empty page finishes the
    /// pagination; a non-empty one is appended, advances the cursor, and its
    /// reported total overwrites the running one.
    pub fn feed(&mut self, page: ReverseDependencies)
        requires
            !old(self).finished,
            old(self).next_page < u64::MAX,
        ensures
            rdeps_model(*final(self)) == rdeps_step(rdeps_model(*old(self)), page),
            final(self).acc.dependencies@ == rdeps_step(rdeps_model(*old(self)), page).pairs,
    {
        if page.dependencies.len() == 0 {
            self.finished = true;
        } else {
            let mut p = page;
            self.acc.dependencies.append(&mut p.dependencies);
            self.acc.meta = p.meta;
            self.next_page = self.next_page + 1;
        }
    }
}

// ---------------------------------------------------------------------------
// Eager crate-listing pagination.
// ---------------------------------------------------------------------------

/// Eagerly accumulates listing pages for one query: feed the pages in page
/// order until the machine reports itself finished.
#[derive(Debug)]
pub struct CratesPager {
    /// The query the next request must send; its page field is the cursor.
    pub query: CratesQuery,
    /// Whether an empty page has ended the pagination.
    pub finished: bool,
    /// The accumulated crates.
    pub crates: Vec<Crate>,
}

/// The mathematical state of a [`CratesPager`] or of the lazy stream: the
/// page cursor, whether pagination has ended, and the items produced so far.
pub struct ListingModel {
    /// The page the next request must ask for.
    pub page: int,
    /// Whether an empty page (or, for a stream, an error) ended pagination.
    pub finished: bool,
    /// The items accumulated (pager) or yielded (stream) so far.
    pub items: Seq<Crate>,
}

/// The model of a pager value.
pub open spec fn crates_pager_model(p: CratesPager) -> ListingModel {
    ListingModel { page: p.query.page as int, finished: p.finished, items: p.crates@ }
}

/// The state pagination starts from at a given first page.
pub open spec fn listing_initial(first_page: int) -> ListingModel {
    ListingModel { page: first_page, finished: false, items: Seq::empty() }
}

/// One feeding step: an empty page finishes pagination and changes nothing
/// else; a non-empty page's crates are appended and the cursor advances.
pub open spec fn listing_step(m: ListingModel, page: CratesPage) -> ListingModel {
    if m.finished {
        m
    } else if page.crates@.len() == 0 {
        ListingModel { finished: true, ..m }
    } else {
        ListingModel { page: m.page + 1, finished: false, items: m.items + page.crates@ }
    }
}

/// The state after the first `n` of the given pages have been fed.
pub open spec fn listing_run(first_page: int, pages: Seq<CratesPage>, n: int) -> ListingModel
    decreases n,
{
    if n <= 0 {
        listing_initial(first_page)
    } else {
        listing_step(listing_run(first_page, pages, n - 1), pages[n - 1])
    }
}

/// The concatenation of the crates of a sequence of pages.
pub open spec fn crates_concat(pages: Seq<CratesPage>) -> Seq<Crate>
    decreases pages.len(),
{
    if pages.len() == 0 {
        Seq::empty()
    } else {
        crates_concat(pages.drop_last()) + pages.last().crates@
    }
}

/// While every page fed so far was non-empty, pagination has accumulated
/// exactly their concatenation, advanced the cursor one page per feed, and
/// not finished.
pub proof fn lemma_listing_run_prefix(first_page: int, pages: Seq<CratesPage>, j: int)
    requires
        0 <= j <= pages.len(),
        forall|i: int| 0 <= i < j ==> pages[i].crates@.len() > 0,
    ensures
        !listing_run(first_page, pages, j).finished,
        listing_run(first_page, pages, j).page == first_page + j,
        listing_run(first_page, pages, j).items == crates_concat(pages.take(j)),
    decreases j,
{
    if j == 0 {
        assert(pages.take(0) =~= Seq::<CratesPage>::empty());
        assert(listing_run(first_page, pages, 0).items =~= crates_concat(pages.take(0)));
    } else {
        lemma_listing_run_prefix(first_page, pages, j - 1);
        let t = pages.take(j);
        assert(t.drop_last() =~= pages.take(j - 1));
        assert(t.last() == pages[j - 1]);
    }
}

/// Law: when the first `k` pages are non-empty and page `k + 1` is empty,
/// eager pagination consumes exactly those `k + 1` pages — it is unfinished
/// before each of them, finished after the last — and accumulates exactly the
/// concatenation of the non-empty pages' crates, in order.
pub proof fn lemma_eager_listing_pagination(first_page: int, pages: Seq<CratesPage>, k: int)
    requires
        0 <= k < pages.len(),
        forall|i: int| 0 <= i < k ==> pages[i].crates@.len() > 0,
        pages[k].crates@.len() == 0,
    ensures
        forall|j: int| 0 <= j <= k ==> !listing_run(first_page, pages, j).finished,
        listing_run(first_page, pages, k + 1).finished,
        listing_run(first_page, pages, k + 1).items == crates_concat(pages.take(k)),
{
    assert forall|j: int| 0 <= j <= k implies !listing_run(first_page, pages, j).finished by {
        lemma_listing_run_prefix(first_page, pages, j);
    }
    lemma_listing_run_prefix(first_page, pages, k);
}

impl CratesPager {
    /// A fresh pager for one query; the cursor starts at the query's own
    /// page.
    pub fn new(query: CratesQuery) -> (s: Self)
        ensures
            s.query == query,
            crates_pager_model(s) == listing_initial(query.page as int),
    {
        let s = CratesPager { query, finished: false, crates: Vec::new() };
        proof {
            assert(crates_pager_model(s).items =~= Seq::<Crate>::empty());
        }
        s
    }

    /// Feeds the next page. An empty page finishes the pagination; a
    /// non-empty one has its crates appended and advances the cursor. Every
    /// other part of the query is kept as it is.
    pub fn feed(&mut self, page: CratesPage)
        requires
            !old(self).finished,
            old(self).query.page < u64::MAX,
        ensures
            crates_pager_model(*final(self)) == listing_step(
                crates_pager_model(*old(self)),
                page,
            ),
            final(self).query == (CratesQuery {
                page: final(self).query.page,
                ..old(self).query
            }),
    {
        if page.crates.len() == 0 {
            self.finished = true;
        } else {
            let mut p = page;
            self.crates.append(&mut p.crates);
            self.query.page = self.query.page + 1;
        }
    }
}

// ---------------------------------------------------------------------------
// Lazy crate-listing pagination: a pull-based, single-pass stream.
// ---------------------------------------------------------------------------

/// What one pull of the stream asks of its driver.
pub enum StreamStep {
    /// An item is ready: hand it to the consumer.
    Yield(Crate),
    /// No item is buffered: fetch the listing page this query names, then
    /// feed the result to [`CrateStream::on_page`].
    Fetch(CratesQuery),
    /// A fetch is already outstanding: wait for it.
    Wait,
    /// The stream is exhausted; no further request will be made.
    Done,
}

/// A pull-based, single-pass, forward-only stream over all crates a query
/// matches. Items come in page order, within a page in wire order; one page
/// is in flight at a time, fetched only once the buffer is drained; an empty
/// page — or one failed fetch — exhausts the stream for good.
#[derive(Debug)]
pub struct CrateStream {
    /// The query of the next page fetch; its page field is the cursor.
    pub filter: CratesQuery,
    /// Whether the stream is exhausted.
    pub closed: bool,
    /// Items received but not yet pulled, front first.
    pub buffer: Vec<Crate>,
    /// Whether a page fetch is outstanding.
    pub in_flight: bool,
}

impl CrateStream {
    /// A fresh stream over one query; nothing is fetched until the first
    /// pull.
    pub fn new(filter: CratesQuery) -> (s: Self)
        ensures
            s.filter == filter,
            !s.closed,
            s.buffer@.len() == 0,
            !s.in_flight,
    {
        CrateStream { filter, closed: false, buffer: Vec::new(), in_flight: false }
    }

    /// One pull: a closed stream is done; a buffered item is yielded, front
    /// first; otherwise, with no fetch outstanding, the driver is asked to
    /// fetch the current page and the cursor advances; with one outstanding,
    /// the puller waits.
    pub fn step(&mut self) -> (r: StreamStep)
        requires
            old(self).filter.page < u64::MAX,
        ensures
            old(self).closed ==> (r matches StreamStep::Done && *final(self) == *old(self)),
            !old(self).closed && old(self).buffer@.len() > 0 ==> (r matches StreamStep::Yield(c)
                && c == old(self).buffer@[0] && *final(self) == (CrateStream {
                buffer: final(self).buffer,
                ..*old(self)
            }) && final(self).buffer@ == old(self).buffer@.subrange(
                1,
                old(self).buffer@.len() as int,
            ) && seq![old(self).buffer@[0]] + final(self).buffer@ == old(self).buffer@),
            !old(self).closed && old(self).buffer@.len() == 0 && old(self).in_flight ==> (r matches
                StreamStep::Wait && *final(self) == *old(self)),
            !old(self).closed && old(self).buffer@.len() == 0 && !old(self).in_flight ==> (r matches
                StreamStep::Fetch(q) && q == old(self).filter && *final(self) == (CrateStream {
                filter: (CratesQuery { page: (old(self).filter.page + 1) as u64, ..old(self).filter }),
                in_flight: true,
                ..*old(self)
            })),
    {
        if self.closed {
            StreamStep::Done
        } else if self.buffer.len() > 0 {
            let c = self.buffer.remove(0);
            StreamStep::Yield(c)
        } else if self.in_flight {
            StreamStep::Wait
        } else {
            let q = self.filter.clone();
            self.filter.page = self.filter.page + 1;
            self.in_flight = true;
            StreamStep::Fetch(q)
        }
    }

    /// Feeds the outcome of the outstanding page fetch. An error yields that
    /// one error and exhausts the stream; an empty page exhausts it quietly;
    /// a non-empty page yields its first crate at once and buffers the rest.
    pub fn on_page(&mut self, res: Result<CratesPage, Error>) -> (out: Option<Result<Crate, Error>>)
        requires
            !old(self).closed,
            old(self).in_flight,
            old(self).buffer@.len() == 0,
        ensures
            final(self).filter == old(self).filter,
            !final(self).in_flight,
            match res {
                Err(e) => final(self).closed && out == Some(Err::<Crate, Error>(e))
                    && final(self).buffer@.len() == 0,
                Ok(page) => {
                    &&& page.crates@.len() == 0 ==> (final(self).closed && out is None
                        && final(self).buffer@.len() == 0)
                    &&& page.crates@.len() > 0 ==> (!final(self).closed && out == Some(
                        Ok::<Crate, Error>(page.crates@[0]),
                    ) && final(self).buffer@ == page.crates@.subrange(
                        1,
                        page.crates@.len() as int,
                    ) && seq![page.crates@[0]] + final(self).buffer@ == page.crates@)
                },
            },
    {
        self.in_flight = false;
        match res {
            Err(e) => {
                self.closed = true;
                Some(Err(e))
            },
            Ok(page) => {
                if page.crates.len() == 0 {
                    self.closed = true;
                    None
                } else {
                    let mut cs = page.crates;
                    let first = cs.remove(0);
                    self.buffer = cs;
                    Some(Ok(first))
                }
            },
        }
    }
}

/// The state of a lazy stream after `n` whole rounds — a round being one page
/// fetch followed by pulling every item it delivered — with `items` all items
/// yielded so far. One round yields a non-empty page's crates in wire order
/// (the first from the fetch itself, the rest pulled from the buffer, front
/// first), while an empty page yields nothing and closes the stream.
pub open spec fn stream_run(first_page: int, pages: Seq<CratesPage>, n: int) -> ListingModel
    decreases n,
{
    if n <= 0 {
        listing_initial(first_page)
    } else {
        let m = stream_run(first_page, pages, n - 1);
        let page = pages[n - 1];
        if m.finished {
            m
        } else if page.crates@.len() == 0 {
            ListingModel { finished: true, ..m }
        } else {
            ListingModel {
                page: m.page + 1,
                finished: false,
                items: m.items + seq![page.crates@[0]] + page.crates@.subrange(
                    1,
                    page.crates@.len() as int,
                ),
            }
        }
    }
}

/// Law: lazy pagination is equivalent to eager pagination — pulled to
/// exhaustion over any page sequence, the stream yields exactly the ordered
/// item sequence the eager pager accumulates.
pub proof fn lemma_lazy_eager_equivalent(first_page: int, pages: Seq<CratesPage>, n: int)
    requires
        0 <= n,
    ensures
        stream_run(first_page, pages, n) == listing_run(first_page, pages, n),
    decreases n,
{
    if n > 0 {
        lemma_lazy_eager_equivalent(first_page, pages, n - 1);
        let m = listing_run(first_page, pages, n - 1);
        let page = pages[n - 1];
        if !m.finished && page.crates@.len() > 0 {
            assert(seq![page.crates@[0]] + page.crates@.subrange(1, page.crates@.len() as int)
                =~= page.crates@);
            assert(m.items + seq![page.crates@[0]] + page.crates@.subrange(
                1,
                page.crates@.len() as int,
            ) =~= m.items + page.crates@);
        }
    }
}

} // verus!
