//! The search paginator: asks for page after page of a search and gathers the
//! posts, until a page comes without a cursor to the next.

use crate::api::{Tweet, TweetView, TwitterApiResponse, TwitterApiResponseView, TwitterMeta, TwitterMetaView};
use vstd::prelude::*;

verus! {

/// One page of search results.
pub type SearchPage = TwitterApiResponse<Vec<Tweet>, TwitterMeta>;

/// The view of [`SearchPage`] that contracts speak of: each text is a sequence of characters.
pub type SearchPageView = TwitterApiResponseView<Seq<TweetView>, TwitterMetaView>;

/// A request for one page of the posts that match `query` and are no older than
/// `start_time`; `next_token` is the cursor of the page, and absent for the first.
#[derive(Debug, Clone, PartialEq, Eq)]
pub struct SearchRequest {
    pub query: String,
    pub start_time: String,
    pub next_token: Option<String>,
}

/// The view of [`SearchRequest`] that contracts speak of: each text is a sequence of characters.
pub struct SearchRequestView {
    pub query: Seq<char>,
    pub start_time: Seq<char>,
    pub next_token: Option<Seq<char>>,
}

impl View for SearchRequest {
    type V = SearchRequestView;

    open spec fn view(&self) -> SearchRequestView {
        SearchRequestView {
            query: self.query@,
            start_time: self.start_time@,
            next_token: self.next_token.deep_view(),
        }
    }
}

impl DeepView for SearchRequest {
    type V = SearchRequestView;

    open spec fn deep_view(&self) -> SearchRequestView {
        self@
    }
}

/// A walk through the pages of a search that has not ended: the request that is
/// outstanding, and the posts of the pages before.
#[derive(Debug, Clone, PartialEq, Eq)]
pub struct Paginator {
    pub request: SearchRequest,
    pub tweets: Vec<Tweet>,
}

/// The view of [`Paginator`] that contracts speak of: each text is a sequence of characters.
pub struct PaginatorView {
    pub request: SearchRequestView,
    pub tweets: Seq<TweetView>,
}

impl View for Paginator {
    type V = PaginatorView;

    open spec fn view(&self) -> PaginatorView {
        PaginatorView { request: self.request@, tweets: self.tweets.deep_view() }
    }
}

impl DeepView for Paginator {
    type V = PaginatorView;

    open spec fn deep_view(&self) -> PaginatorView {
        self@
    }
}

/// Where a walk stands after a page.
#[derive(Debug, Clone, PartialEq, Eq)]
pub enum Scrape {
    /// Another page has to be asked for.
    More(Paginator),
    /// The last page has come: the posts of all pages.
    Done(Vec<Tweet>),
}

/// The view of [`Scrape`] that contracts speak of: each text is a sequence of characters.
pub enum ScrapeView {
    More(PaginatorView),
    Done(Seq<TweetView>),
}

impl View for Scrape {
    type V = ScrapeView;

    open spec fn view(&self) -> ScrapeView {
        match self {
            Scrape::More(paginator) => ScrapeView::More(paginator@),
            Scrape::Done(tweets) => ScrapeView::Done(tweets.deep_view()),
        }
    }
}

impl DeepView for Scrape {
    type V = ScrapeView;

    open spec fn deep_view(&self) -> ScrapeView {
        self@
    }
}

/// The posts on a page: none where the page has no data.
pub open spec fn posts(page: SearchPageView) -> Seq<TweetView> {
    match page.data {
        Some(tweets) => tweets,
        None => Seq::empty(),
    }
}

/// The cursor to the page after `page`: none where the page has no summary, or
/// a summary without a cursor.
pub open spec fn cursor(page: SearchPageView) -> Option<Seq<char>> {
    match page.meta {
        Some(meta) => meta.next_token,
        None => None,
    }
}

/// The posts on `pages`, page after page, each page's posts in their order.
pub open spec fn all_posts(pages: Seq<SearchPageView>) -> Seq<TweetView>
    decreases pages.len(),
{
    if pages.len() == 0 {
        Seq::empty()
    } else {
        posts(pages[0]) + all_posts(pages.drop_first())
    }
}

/// The parameters that carry `request` to the search endpoint.
pub open spec fn params_of(request: SearchRequestView) -> Seq<(Seq<char>, Seq<char>)> {
    let fixed = seq![("query"@, request.query), ("start_time"@, request.start_time)];
    match request.next_token {
        Some(token) => fixed.push(("next_token"@, token)),
        None => fixed,
    }
}

/// The start of a walk: the first page is asked for without a cursor, and no
/// post has been gathered.
pub open spec fn first(search_term: Seq<char>, start_time: Seq<char>) -> PaginatorView {
    PaginatorView {
        request: SearchRequestView { query: search_term, start_time, next_token: None },
        tweets: Seq::empty(),
    }
}

/// Where a walk that has come as far as `so_far` stands once `page` has answered
/// its request.
///
/// The posts of the page join those gathered. A cursor on the page becomes the
/// cursor of the next request, in place of the one before; a page without a
/// cursor ends the walk.
pub open spec fn accept(so_far: PaginatorView, page: SearchPageView) -> ScrapeView {
    let tweets = so_far.tweets + posts(page);
    match cursor(page) {
        Some(token) => ScrapeView::More(
            PaginatorView {
                request: SearchRequestView { next_token: Some(token), ..so_far.request },
                tweets,
            },
        ),
        None => ScrapeView::Done(tweets),
    }
}

/// Where the walk that starts at `from` stands once `pages` have answered its
/// requests in turn. Pages after the one that ends the walk are not looked at.
pub open spec fn walk(from: PaginatorView, pages: Seq<SearchPageView>) -> ScrapeView
    decreases pages.len(),
{
    if pages.len() == 0 {
        ScrapeView::More(from)
    } else {
        match accept(from, pages[0]) {
            ScrapeView::More(next) => walk(next, pages.drop_first()),
            ScrapeView::Done(tweets) => ScrapeView::Done(tweets),
        }
    }
}

/// The requests that `pages` answer in the walk that starts at `from`.
pub open spec fn requests(from: PaginatorView, pages: Seq<SearchPageView>) -> Seq<
    SearchRequestView,
>
    decreases pages.len(),
{
    if pages.len() == 0 {
        Seq::empty()
    } else {
        seq![from.request] + match accept(from, pages[0]) {
            ScrapeView::More(next) => requests(next, pages.drop_first()),
            ScrapeView::Done(_) => Seq::empty(),
        }
    }
}

/// Whether `pages` is a search as the platform serves it: some pages, each but
/// the last with a cursor to the next, the last without.
pub open spec fn complete(pages: Seq<SearchPageView>) -> bool {
    &&& pages.len() > 0
    &&& forall|i: int| 0 <= i < pages.len() - 1 ==> cursor(#[trigger] pages[i]) is Some
    &&& cursor(pages.last()) is None
}

/// A walk through a complete search ends with its last page, and has then
/// gathered the posts of every page, in the order of the pages and, within a
/// page, in the order of the page.
pub proof fn lemma_walk_gathers_all(from: PaginatorView, pages: Seq<SearchPageView>)
    requires
        complete(pages),
    ensures
        walk(from, pages) == ScrapeView::Done(from.tweets + all_posts(pages)),
    decreases pages.len(),
{
    let rest = pages.drop_first();
    if pages.len() == 1 {
        assert(all_posts(rest) =~= Seq::<TweetView>::empty());
        assert(from.tweets + posts(pages[0]) =~= from.tweets + all_posts(pages));
    } else {
        let next = accept(from, pages[0])->More_0;
        assert forall|i: int| 0 <= i < rest.len() - 1 implies cursor(#[trigger] rest[i]) is Some by {
            assert(rest[i] == pages[i + 1]);
        }
        assert(rest.last() == pages.last());
        lemma_walk_gathers_all(next, rest);
        assert(next.tweets + all_posts(rest) =~= from.tweets + all_posts(pages));
    }
}

/// A search from its start gathers exactly the posts of its pages.
pub proof fn lemma_scrape_gathers_all(
    search_term: Seq<char>,
    start_time: Seq<char>,
    pages: Seq<SearchPageView>,
)
    requires
        complete(pages),
    ensures
        walk(first(search_term, start_time), pages) == ScrapeView::Done(all_posts(pages)),
{
    lemma_walk_gathers_all(first(search_term, start_time), pages);
    assert(Seq::<TweetView>::empty() + all_posts(pages) =~= all_posts(pages));
}

/// A walk through a complete search sends one request for each page. The first
/// is the one it starts with; each later one differs from it in the cursor
/// alone, which is the cursor that the page before gave.
pub proof fn lemma_walk_follows_cursors(from: PaginatorView, pages: Seq<SearchPageView>)
    requires
        complete(pages),
    ensures
        requests(from, pages).len() == pages.len(),
        requests(from, pages)[0] == from.request,
        forall|i: int|
            1 <= i < pages.len() ==> #[trigger] requests(from, pages)[i] == (SearchRequestView {
                next_token: cursor(pages[i - 1]),
                ..from.request
            }),
    decreases pages.len(),
{
    let rest = pages.drop_first();
    if pages.len() == 1 {
        assert(requests(from, pages) =~= seq![from.request]);
    } else {
        let next = accept(from, pages[0])->More_0;
        assert forall|i: int| 0 <= i < rest.len() - 1 implies cursor(#[trigger] rest[i]) is Some by {
            assert(rest[i] == pages[i + 1]);
        }
        assert(rest.last() == pages.last());
        lemma_walk_follows_cursors(next, rest);
        let later = requests(next, rest);
        assert(requests(from, pages) =~= seq![from.request] + later);
        assert forall|i: int| 1 <= i < pages.len() implies #[trigger] requests(from, pages)[i] == (
        SearchRequestView { next_token: cursor(pages[i - 1]), ..from.request }) by {
            assert(requests(from, pages)[i] == later[i - 1]);
            if i > 1 {
                assert(rest[i - 2] == pages[i - 1]);
            }
        }
    }
}

/// Starts the search for the posts that match `search_term` and are no older
/// than `start_time`.
pub fn scrape(search_term: String, start_time: String) -> (walk: Paginator)
    ensures
        walk@ == first(search_term@, start_time@),
{
    let walk = Paginator {
        request: SearchRequest { query: search_term, start_time, next_token: None },
        tweets: Vec::new(),
    };
    assert(walk.tweets.deep_view() =~= Seq::<TweetView>::empty());
    walk
}

impl SearchRequest {
    /// The parameters that carry the request to the search endpoint.
    pub fn params(&self) -> (params: Vec<(String, String)>)
        ensures
            params.deep_view() == params_of(self@),
    {
        let mut params: Vec<(String, String)> = Vec::new();
        params.push((String::from_str("query"), self.query.clone()));
        params.push((String::from_str("start_time"), self.start_time.clone()));
        match &self.next_token {
            Some(token) => {
                params.push((String::from_str("next_token"), token.clone()));
            },
            None => {},
        }
        assert(params.deep_view() =~= params_of(self@));
        params
    }
}

impl Paginator {
    /// Takes the page that answers the outstanding request and decides whether
    /// the walk goes on.
    pub fn accept(self, page: SearchPage) -> (next: Scrape)
        ensures
            next@ == accept(self@, page@),
    {
        let Paginator { request, tweets } = self;
        let TwitterApiResponse { data, meta } = page;
        let mut tweets = tweets;
        let ghost before = tweets.deep_view();
        match data {
            Some(found) => {
                let mut found = found;
                tweets.append(&mut found);
            },
            None => {},
        }
        assert(tweets.deep_view() =~= before + posts(page@));
        let next_token = match meta {
            Some(meta) => meta.next_token,
            None => None,
        };
        match next_token {
            Some(token) => Scrape::More(
                Paginator {
                    request: SearchRequest {
                        query: request.query,
                        start_time: request.start_time,
                        next_token: Some(token),
                    },
                    tweets,
                },
            ),
            None => Scrape::Done(tweets),
        }
    }
}

} // verus!
