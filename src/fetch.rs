use vstd::prelude::*;
use crate::catalog::ReleaseTag;

verus! {

/// The state of a paginated listing fetch: the page to ask for next, the
/// entries gathered so far, and whether the listing has ended.
pub ghost struct FetchModel {
    pub next_page: nat,
    pub tags: Seq<ReleaseTag>,
    pub done: bool,
}

pub open spec fn fetch_start() -> FetchModel {
    FetchModel { next_page: 1, tags: Seq::empty(), done: false }
}

/// The effect of one listing page; `None` stands for a body that did not
/// parse, which ends the listing as an empty page does.
pub open spec fn fetch_step(m: FetchModel, page: Option<Seq<ReleaseTag>>) -> FetchModel {
    if m.done {
        m
    } else {
        match page {
            Some(p) => if p.len() > 0 {
                FetchModel { next_page: m.next_page + 1, tags: m.tags + p, done: false }
            } else {
                FetchModel { next_page: m.next_page, tags: m.tags, done: true }
            },
            None => FetchModel { next_page: m.next_page, tags: m.tags, done: true },
        }
    }
}

/// The state after the given answers, from the start.
pub open spec fn fetch_run(pages: Seq<Option<Seq<ReleaseTag>>>) -> FetchModel
    decreases pages.len(),
{
    if pages.len() == 0 {
        fetch_start()
    } else {
        fetch_step(fetch_run(pages.drop_last()), pages.last())
    }
}

/// The entries of the pages, in order.
pub open spec fn concat_pages(pages: Seq<Seq<ReleaseTag>>) -> Seq<ReleaseTag>
    decreases pages.len(),
{
    if pages.len() == 0 {
        Seq::empty()
    } else {
        concat_pages(pages.drop_last()) + pages.last()
    }
}

/// Pages that all parsed.
pub open spec fn parsed_pages(pages: Seq<Seq<ReleaseTag>>) -> Seq<Option<Seq<ReleaseTag>>> {
    pages.map_values(|p: Seq<ReleaseTag>| Some(p))
}

proof fn lemma_nonempty_pages(pages: Seq<Seq<ReleaseTag>>)
    requires
        forall|i: int| 0 <= i < pages.len() ==> (#[trigger] pages[i]).len() > 0,
    ensures
        fetch_run(parsed_pages(pages)) == (FetchModel {
            next_page: pages.len() + 1,
            tags: concat_pages(pages),
            done: false,
        }),
    decreases pages.len(),
{
    if pages.len() > 0 {
        assert(parsed_pages(pages).drop_last() =~= parsed_pages(pages.drop_last()));
        lemma_nonempty_pages(pages.drop_last());
    }
}

/// A listing whose pages are not empty up to a first empty page: the fetch
/// asks for pages `1, 2, ...` one past the last non-empty one, is not done
/// before that answer and is done after it, and holds the entries of all
/// the pages in order.
pub proof fn lemma_fetch_until_empty(pages: Seq<Seq<ReleaseTag>>)
    requires
        forall|i: int| 0 <= i < pages.len() ==> (#[trigger] pages[i]).len() > 0,
    ensures
        fetch_run(parsed_pages(pages).push(Some(Seq::empty()))) == (FetchModel {
            next_page: pages.len() + 1,
            tags: concat_pages(pages),
            done: true,
        }),
        forall|k: int|
            0 <= k <= pages.len() ==> {
                let m = #[trigger] fetch_run(
                    parsed_pages(pages).push(Some(Seq::empty())).subrange(0, k),
                );
                !m.done && m.next_page == k + 1
            },
{
    let all = parsed_pages(pages).push(Some(Seq::empty()));
    assert(all.drop_last() =~= parsed_pages(pages));
    lemma_nonempty_pages(pages);
    assert forall|k: int| 0 <= k <= pages.len() implies {
        let m = #[trigger] fetch_run(all.subrange(0, k));
        !m.done && m.next_page == k + 1
    } by {
        let front = pages.subrange(0, k);
        assert(all.subrange(0, k) =~= parsed_pages(front));
        assert forall|i: int| 0 <= i < front.len() implies (#[trigger] front[i]).len() > 0 by {
            assert(front[i] == pages[i]);
        }
        lemma_nonempty_pages(front);
    }
}

/// A paginated listing fetch, driven by whoever performs the requests: it
/// names the page to ask for and takes each answer in turn.
pub struct CatalogFetch {
    next_page: u64,
    tags: Vec<ReleaseTag>,
    done: bool,
}

impl View for CatalogFetch {
    type V = FetchModel;

    closed spec fn view(&self) -> FetchModel {
        FetchModel { next_page: self.next_page as nat, tags: self.tags@, done: self.done }
    }
}

pub open spec fn page_view(page: Option<Vec<ReleaseTag>>) -> Option<Seq<ReleaseTag>> {
    match page {
        Some(p) => Some(p@),
        None => None,
    }
}

impl CatalogFetch {
    /// A fetch that starts at page 1 with nothing gathered.
    pub fn new() -> (r: CatalogFetch)
        ensures
            r@ == fetch_start(),
    {
        CatalogFetch { next_page: 1, tags: Vec::new(), done: false }
    }

    /// The page to request next, or `None` once the listing has ended.
    pub fn next_request(&self) -> (r: Option<u64>)
        ensures
            r is Some <==> !self@.done,
            r matches Some(p) ==> p == self@.next_page,
    {
        if self.done {
            None
        } else {
            Some(self.next_page)
        }
    }

    /// Takes the answer for the requested page: its entries, or `None`
    /// where its body did not parse.
    pub fn on_page(&mut self, page: Option<Vec<ReleaseTag>>)
        requires
            old(self)@.next_page < u64::MAX,
        ensures
            final(self)@ == fetch_step(old(self)@, page_view(page)),
    {
        if self.done {
            return;
        }
        match page {
            Some(mut p) => {
                if p.len() > 0 {
                    self.tags.append(&mut p);
                    self.next_page = self.next_page + 1;
                } else {
                    self.done = true;
                }
            },
            None => {
                self.done = true;
            },
        }
    }

    /// Whether the listing has ended.
    pub fn is_done(&self) -> (r: bool)
        ensures
            r == self@.done,
    {
        self.done
    }

    /// The entries gathered, in listing order.
    pub fn into_tags(self) -> (r: Vec<ReleaseTag>)
        ensures
            r@ == self@.tags,
    {
        self.tags
    }
}

} // verus!
