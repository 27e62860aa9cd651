//! One pass of the job with an access credential in hand: find out who the
//! account is, search the look-back window, and re-share what was found.

use crate::api::{TwitterApiResponse, TwitterApiResponseView, User, UserView};
use crate::api::TweetView;
use crate::retweet::{
    deliver, dispatch_of, lemma_dispatch_reaches_every_post, record, report_of, result_of, retweet,
    summarize, Answer, AnswerView, Dispatch, DispatchView, Dispatcher, DispatcherView, Report,
    ReportView,
};
use crate::search::{
    accept, all_posts, complete, cursor, first, posts, scrape, walk, Paginator, PaginatorView,
    Scrape, ScrapeView, SearchPage, SearchPageView,
};
use crate::views::result_view;
use crate::window::{start_time, start_time_of, Instant};
use vstd::prelude::*;

verus! {

/// What the identity endpoint answers.
pub type IdentityResponse = TwitterApiResponse<User, ()>;

/// The view of [`IdentityResponse`] that contracts speak of: each text is a sequence of characters.
pub type IdentityResponseView = TwitterApiResponseView<UserView, ()>;

/// Why a pass ended without a report.
#[derive(Debug, Clone, PartialEq, Eq)]
pub enum JobError {
    /// The calendar cannot hold the start of the look-back window.
    Window,
    /// The identity endpoint did not answer, or not in its form; the cause in words.
    Identity(String),
    /// The identity endpoint answered without an identity.
    NoIdentity,
    /// The search endpoint did not answer, or not in its form; the cause in words.
    Search(String),
    /// An answer came that belongs to no request outstanding.
    OutOfTurn,
}

/// The view of [`JobError`] that contracts speak of: each text is a sequence of characters.
pub enum JobErrorView {
    Window,
    Identity(Seq<char>),
    NoIdentity,
    Search(Seq<char>),
    OutOfTurn,
}

impl View for JobError {
    type V = JobErrorView;

    open spec fn view(&self) -> JobErrorView {
        match self {
            JobError::Window => JobErrorView::Window,
            JobError::Identity(cause) => JobErrorView::Identity(cause@),
            JobError::NoIdentity => JobErrorView::NoIdentity,
            JobError::Search(cause) => JobErrorView::Search(cause@),
            JobError::OutOfTurn => JobErrorView::OutOfTurn,
        }
    }
}

impl DeepView for JobError {
    type V = JobErrorView;

    open spec fn deep_view(&self) -> JobErrorView {
        self@
    }
}

impl JobErrorView {
    /// The error in words.
    pub open spec fn message(self) -> Seq<char> {
        match self {
            JobErrorView::Window => "The look-back window starts outside the calendar"@,
            JobErrorView::Identity(cause) => cause,
            JobErrorView::NoIdentity => "No identity data returned by Twitter"@,
            JobErrorView::Search(cause) => cause,
            JobErrorView::OutOfTurn => "An answer arrived for a request that was not outstanding"@,
        }
    }
}

impl JobError {
    /// The error in words.
    pub fn message(&self) -> (message: String)
        ensures
            message@ == self@.message(),
    {
        match self {
            JobError::Window => String::from_str("The look-back window starts outside the calendar"),
            JobError::Identity(cause) => cause.clone(),
            JobError::NoIdentity => String::from_str("No identity data returned by Twitter"),
            JobError::Search(cause) => cause.clone(),
            JobError::OutOfTurn => String::from_str(
                "An answer arrived for a request that was not outstanding",
            ),
        }
    }
}

/// The account's identifier in the answer of the identity endpoint. An answer
/// without data is an error, and no identifier is made up for it.
pub open spec fn identity_of(answer: Result<IdentityResponseView, Seq<char>>) -> Result<
    Seq<char>,
    JobErrorView,
> {
    match answer {
        Err(cause) => Err(JobErrorView::Identity(cause)),
        Ok(response) => match response.data {
            Some(user) => Ok(user.id),
            None => Err(JobErrorView::NoIdentity),
        },
    }
}

/// An answer of the identity endpoint gives an identifier exactly when it has
/// data, and the identifier is then the one in the data: an answer without data
/// is the error of its own, never an identifier.
pub proof fn lemma_identity_needs_data(response: IdentityResponseView)
    ensures
        identity_of(Ok(response)) is Ok <==> response.data is Some,
        response.data is None ==> identity_of(Ok(response)) == Err::<Seq<char>, JobErrorView>(
            JobErrorView::NoIdentity,
        ),
        response.data matches Some(user) ==> identity_of(Ok(response)) == Ok::<
            Seq<char>,
            JobErrorView,
        >(user.id),
{
}

/// Returns the identifier of the account that the access credential belongs
/// to, from the answer of the identity endpoint.
pub fn get_self(answer: Result<IdentityResponse, String>) -> (found: Result<String, JobError>)
    ensures
        match found {
            Ok(user_id) => identity_of(result_view(answer)) == Ok::<Seq<char>, JobErrorView>(
                user_id@,
            ),
            Err(error) => identity_of(result_view(answer)) == Err::<Seq<char>, JobErrorView>(
                error@,
            ),
        },
{
    match answer {
        Err(cause) => Err(JobError::Identity(cause)),
        Ok(response) => match response.data {
            Some(user) => Ok(user.id),
            None => Err(JobError::NoIdentity),
        },
    }
}

/// A step of a pass: the request that is outstanding, or how the pass ended.
#[derive(Debug, PartialEq, Eq)]
pub enum ScrapeRetweet {
    /// The clock is being read: the window ends now.
    Clock { search_term: String, access_token: String, minutes: i64 },
    /// The identity endpoint is being asked who the account is.
    Identity { search_term: String, access_token: String, start_time: String },
    /// The search endpoint is being asked for the page that `walk` is waiting for.
    Search { access_token: String, user_id: String, walk: Paginator },
    /// The post that `dispatch` is waiting for is being re-shared.
    Retweet { access_token: String, dispatch: Dispatcher },
    /// Every post found has had its request.
    Done(Report),
    /// The pass was given up.
    Failed(JobError),
}

/// The view of [`ScrapeRetweet`] that contracts speak of: each text is a sequence of characters.
pub enum ScrapeRetweetView {
    Clock { search_term: Seq<char>, access_token: Seq<char>, minutes: i64 },
    Identity { search_term: Seq<char>, access_token: Seq<char>, start_time: Seq<char> },
    Search { access_token: Seq<char>, user_id: Seq<char>, walk: PaginatorView },
    Retweet { access_token: Seq<char>, dispatch: DispatcherView },
    Done(ReportView),
    Failed(JobErrorView),
}

impl View for ScrapeRetweet {
    type V = ScrapeRetweetView;

    open spec fn view(&self) -> ScrapeRetweetView {
        match self {
            ScrapeRetweet::Clock { search_term, access_token, minutes } => ScrapeRetweetView::Clock {
                search_term: search_term@,
                access_token: access_token@,
                minutes: *minutes,
            },
            ScrapeRetweet::Identity {
                search_term,
                access_token,
                start_time,
            } => ScrapeRetweetView::Identity {
                search_term: search_term@,
                access_token: access_token@,
                start_time: start_time@,
            },
            ScrapeRetweet::Search { access_token, user_id, walk } => ScrapeRetweetView::Search {
                access_token: access_token@,
                user_id: user_id@,
                walk: walk@,
            },
            ScrapeRetweet::Retweet { access_token, dispatch } => ScrapeRetweetView::Retweet {
                access_token: access_token@,
                dispatch: dispatch@,
            },
            ScrapeRetweet::Done(report) => ScrapeRetweetView::Done(report@),
            ScrapeRetweet::Failed(error) => ScrapeRetweetView::Failed(error@),
        }
    }
}

impl DeepView for ScrapeRetweet {
    type V = ScrapeRetweetView;

    open spec fn deep_view(&self) -> ScrapeRetweetView {
        self@
    }
}

/// The answer to the request that was outstanding.
#[derive(Debug, PartialEq, Eq)]
pub enum JobEvent {
    /// What the clock shows.
    Now(Instant),
    /// What the identity endpoint answered, or why no answer could be read.
    Identified(Result<IdentityResponse, String>),
    /// What the search endpoint answered, or why no answer could be read.
    Page(Result<SearchPage, String>),
    /// What the platform answered to the request to re-share, or why no answer came.
    Retweeted(Answer),
}

/// The view of [`JobEvent`] that contracts speak of: each text is a sequence of characters.
pub enum JobEventView {
    Now(Instant),
    Identified(Result<IdentityResponseView, Seq<char>>),
    Page(Result<SearchPageView, Seq<char>>),
    Retweeted(AnswerView),
}

impl View for JobEvent {
    type V = JobEventView;

    open spec fn view(&self) -> JobEventView {
        match self {
            JobEvent::Now(now) => JobEventView::Now(*now),
            JobEvent::Identified(answer) => JobEventView::Identified(result_view(*answer)),
            JobEvent::Page(answer) => JobEventView::Page(result_view(*answer)),
            JobEvent::Retweeted(answer) => JobEventView::Retweeted(result_view(*answer)),
        }
    }
}

impl DeepView for JobEvent {
    type V = JobEventView;

    open spec fn deep_view(&self) -> JobEventView {
        self@
    }
}

/// The first step of a pass that searches `search_term` over the last
/// `minutes` minutes.
pub open spec fn pass_of(search_term: Seq<char>, access_token: Seq<char>, minutes: i64)
    -> ScrapeRetweetView {
    ScrapeRetweetView::Clock { search_term, access_token, minutes }
}

/// The step of a pass whose dispatch stands at `dispatch`: the next request to
/// re-share, or the report when the dispatch has ended.
pub open spec fn acting(access_token: Seq<char>, dispatch: DispatchView) -> ScrapeRetweetView {
    match dispatch {
        DispatchView::Next(next) => ScrapeRetweetView::Retweet { access_token, dispatch: next },
        DispatchView::Done(results) => ScrapeRetweetView::Done(report_of(results)),
    }
}

/// The step that follows `step` once `event` has answered its request.
///
/// The window is fixed when the clock has been read, and the pass is given up
/// if the calendar cannot hold its start. The pass is given up if the account's
/// identity cannot be had, and if any page of the search cannot be had: the
/// posts of the pages before are then dropped, and nothing is re-shared. Once
/// the search has ended, every post gets its request; an answer that is no
/// success is noted and the pass goes on. A pass that has ended stays as it is.
pub open spec fn step(step: ScrapeRetweetView, event: JobEventView) -> ScrapeRetweetView {
    match (step, event) {
        (
            ScrapeRetweetView::Clock { search_term, access_token, minutes },
            JobEventView::Now(now),
        ) => match start_time_of(now, minutes) {
            Some(start_time) => ScrapeRetweetView::Identity { search_term, access_token, start_time },
            None => ScrapeRetweetView::Failed(JobErrorView::Window),
        },
        (
            ScrapeRetweetView::Identity { search_term, access_token, start_time },
            JobEventView::Identified(answer),
        ) => match identity_of(answer) {
            Ok(user_id) => ScrapeRetweetView::Search {
                access_token,
                user_id,
                walk: first(search_term, start_time),
            },
            Err(error) => ScrapeRetweetView::Failed(error),
        },
        (
            ScrapeRetweetView::Search { access_token, user_id, walk },
            JobEventView::Page(answer),
        ) => match answer {
            Err(cause) => ScrapeRetweetView::Failed(JobErrorView::Search(cause)),
            Ok(page) => match accept(walk, page) {
                ScrapeView::More(next) => ScrapeRetweetView::Search {
                    access_token,
                    user_id,
                    walk: next,
                },
                ScrapeView::Done(tweets) => acting(access_token, dispatch_of(user_id, tweets)),
            },
        },
        (
            ScrapeRetweetView::Retweet { access_token, dispatch },
            JobEventView::Retweeted(answer),
        ) => acting(access_token, record(dispatch, answer)),
        (ScrapeRetweetView::Done(report), _) => ScrapeRetweetView::Done(report),
        (ScrapeRetweetView::Failed(error), _) => ScrapeRetweetView::Failed(error),
        _ => ScrapeRetweetView::Failed(JobErrorView::OutOfTurn),
    }
}

/// Starts a pass that does not look at the environment: it searches
/// `search_term` over the last `minutes` minutes with `access_token`, and
/// re-shares what it finds.
pub fn scrape_retweet(search_term: String, access_token: String, minutes: i64) -> (first:
    ScrapeRetweet)
    ensures
        first@ == pass_of(search_term@, access_token@, minutes),
{
    ScrapeRetweet::Clock { search_term, access_token, minutes }
}

/// The step of a pass whose dispatch stands at `dispatch`.
fn act(access_token: String, dispatch: Dispatch) -> (next: ScrapeRetweet)
    ensures
        next@ == acting(access_token@, dispatch@),
{
    match dispatch {
        Dispatch::Next(next) => ScrapeRetweet::Retweet { access_token, dispatch: next },
        Dispatch::Done(results) => ScrapeRetweet::Done(summarize(results)),
    }
}

impl ScrapeRetweet {
    /// Whether the pass has ended, with or without a report.
    pub fn is_over(&self) -> (over: bool)
        ensures
            over == (self@ is Done || self@ is Failed),
    {
        match self {
            ScrapeRetweet::Done(_) => true,
            ScrapeRetweet::Failed(_) => true,
            _ => false,
        }
    }

    /// Takes the answer to the outstanding request and decides what follows.
    pub fn advance(self, event: JobEvent) -> (next: Self)
        ensures
            next@ == step(self@, event@),
    {
        match (self, event) {
            (ScrapeRetweet::Clock { search_term, access_token, minutes }, JobEvent::Now(now)) => {
                match start_time(now, minutes) {
                    Some(start_time) => ScrapeRetweet::Identity {
                        search_term,
                        access_token,
                        start_time,
                    },
                    None => ScrapeRetweet::Failed(JobError::Window),
                }
            },
            (
                ScrapeRetweet::Identity { search_term, access_token, start_time },
                JobEvent::Identified(answer),
            ) => {
                match get_self(answer) {
                    Ok(user_id) => ScrapeRetweet::Search {
                        access_token,
                        user_id,
                        walk: scrape(search_term, start_time),
                    },
                    Err(error) => ScrapeRetweet::Failed(error),
                }
            },
            (ScrapeRetweet::Search { access_token, user_id, walk }, JobEvent::Page(answer)) => {
                match answer {
                    Err(cause) => ScrapeRetweet::Failed(JobError::Search(cause)),
                    Ok(page) => match walk.accept(page) {
                        Scrape::More(next) => ScrapeRetweet::Search {
                            access_token,
                            user_id,
                            walk: next,
                        },
                        Scrape::Done(tweets) => act(access_token, retweet(user_id, tweets)),
                    },
                }
            },
            (ScrapeRetweet::Retweet { access_token, dispatch }, JobEvent::Retweeted(answer)) => {
                act(access_token, dispatch.record(answer))
            },
            (ScrapeRetweet::Done(report), _) => ScrapeRetweet::Done(report),
            (ScrapeRetweet::Failed(error), _) => ScrapeRetweet::Failed(error),
            _ => ScrapeRetweet::Failed(JobError::OutOfTurn),
        }
    }
}

/// The step reached from `from` when `events` answer the requests in turn.
pub open spec fn run(from: ScrapeRetweetView, events: Seq<JobEventView>) -> ScrapeRetweetView
    decreases events.len(),
{
    if events.len() == 0 {
        from
    } else {
        run(step(from, events[0]), events.drop_first())
    }
}

/// The search endpoint's answers when it serves `pages` without fault.
pub open spec fn pages_in(pages: Seq<SearchPageView>) -> Seq<JobEventView> {
    Seq::new(pages.len(), |i: int| JobEventView::Page(Ok(pages[i])))
}

/// The answers to the requests to re-share, as events.
pub open spec fn answers_in(answers: Seq<AnswerView>) -> Seq<JobEventView> {
    Seq::new(answers.len(), |i: int| JobEventView::Retweeted(answers[i]))
}

/// Answers that come one after the other take a pass as far as the first of
/// them do, and from there as far as the rest do.
pub proof fn lemma_run_in_two(
    from: ScrapeRetweetView,
    before: Seq<JobEventView>,
    after: Seq<JobEventView>,
)
    ensures
        run(from, before + after) == run(run(from, before), after),
    decreases before.len(),
{
    if before.len() == 0 {
        assert(before + after =~= after);
    } else {
        assert((before + after).drop_first() =~= before.drop_first() + after);
        lemma_run_in_two(step(from, before[0]), before.drop_first(), after);
    }
}

/// A pass that has ended stays where it ended, whatever answers come.
pub proof fn lemma_run_over(from: ScrapeRetweetView, events: Seq<JobEventView>)
    requires
        from is Done || from is Failed,
    ensures
        run(from, events) == from,
    decreases events.len(),
{
    if events.len() > 0 {
        lemma_run_over(from, events.drop_first());
    }
}

/// A pass that searches and is served a complete search goes on to re-share
/// the posts it had and those of every page.
proof fn lemma_run_search(
    access_token: Seq<char>,
    user_id: Seq<char>,
    walk: PaginatorView,
    pages: Seq<SearchPageView>,
)
    requires
        complete(pages),
    ensures
        run(ScrapeRetweetView::Search { access_token, user_id, walk }, pages_in(pages)) == acting(
            access_token,
            dispatch_of(user_id, walk.tweets + all_posts(pages)),
        ),
    decreases pages.len(),
{
    let rest = pages.drop_first();
    let searching = ScrapeRetweetView::Search { access_token, user_id, walk };
    assert(pages_in(pages).drop_first() =~= pages_in(rest));
    assert(run(searching, pages_in(pages)) == run(
        step(searching, pages_in(pages)[0]),
        pages_in(rest),
    ));
    if pages.len() == 1 {
        assert(pages.last() == pages[0]);
        assert(all_posts(rest) =~= Seq::<TweetView>::empty());
        assert(walk.tweets + posts(pages[0]) =~= walk.tweets + all_posts(pages));
        assert(run(step(searching, pages_in(pages)[0]), pages_in(rest)) == step(
            searching,
            pages_in(pages)[0],
        ));
    } else {
        let next = accept(walk, pages[0])->More_0;
        assert forall|i: int| 0 <= i < rest.len() - 1 implies cursor(#[trigger] rest[i]) is Some by {
            assert(rest[i] == pages[i + 1]);
        }
        assert(rest.last() == pages.last());
        lemma_run_search(access_token, user_id, next, rest);
        assert(next.tweets + all_posts(rest) =~= walk.tweets + all_posts(pages));
    }
}

/// A pass that re-shares stands where its dispatch stands, answer for answer.
proof fn lemma_run_dispatch(
    access_token: Seq<char>,
    dispatch: DispatchView,
    answers: Seq<AnswerView>,
)
    ensures
        run(acting(access_token, dispatch), answers_in(answers)) == acting(
            access_token,
            deliver(dispatch, answers),
        ),
    decreases answers.len(),
{
    if answers.len() > 0 {
        assert(answers_in(answers).drop_first() =~= answers_in(answers.drop_first()));
        match dispatch {
            DispatchView::Next(so_far) => {
                lemma_run_dispatch(access_token, record(so_far, answers[0]), answers.drop_first());
            },
            DispatchView::Done(results) => {
                lemma_run_over(ScrapeRetweetView::Done(report_of(results)), answers_in(answers));
            },
        }
    }
}

/// A pass that meets no fault re-shares exactly what the search found.
///
/// Let the clock show a moment whose window the calendar holds, let the
/// identity endpoint name the account, let the search endpoint serve a
/// complete search, and let there be an answer, of success or not, for each
/// post on its pages. Then the pass ends with the report on one result for
/// each post, in the order in which the search gave the posts, and the result
/// of a post is what its own answer says.
pub proof fn lemma_pass_reshares_what_it_finds(
    search_term: Seq<char>,
    access_token: Seq<char>,
    minutes: i64,
    now: Instant,
    identity: IdentityResponseView,
    pages: Seq<SearchPageView>,
    answers: Seq<AnswerView>,
)
    requires
        start_time_of(now, minutes) is Some,
        identity.data is Some,
        complete(pages),
        answers.len() == all_posts(pages).len(),
    ensures
        run(
            pass_of(search_term, access_token, minutes),
            seq![JobEventView::Now(now), JobEventView::Identified(Ok(identity))] + pages_in(pages)
                + answers_in(answers),
        ) == ScrapeRetweetView::Done(
            report_of(
                Seq::new(answers.len(), |i: int| result_of(all_posts(pages)[i], answers[i])),
            ),
        ),
{
    let start = pass_of(search_term, access_token, minutes);
    let opening = seq![JobEventView::Now(now), JobEventView::Identified(Ok(identity))];
    let user_id = identity.data->Some_0.id;
    let walk = first(search_term, start_time_of(now, minutes)->Some_0);
    let searching = ScrapeRetweetView::Search { access_token, user_id, walk };
    let found = all_posts(pages);

    assert(run(start, opening) == searching) by {
        let identifying = step(start, opening[0]);
        let later = opening.drop_first();
        assert(later[0] == opening[1]);
        assert(later.drop_first() =~= Seq::<JobEventView>::empty());
        assert(step(identifying, later[0]) == searching);
        assert(run(searching, later.drop_first()) == searching);
        assert(run(identifying, later) == run(step(identifying, later[0]), later.drop_first()));
        assert(run(start, opening) == run(identifying, later));
    }
    lemma_run_search(access_token, user_id, walk, pages);
    assert(walk.tweets + found =~= found);
    lemma_run_dispatch(access_token, dispatch_of(user_id, found), answers);
    lemma_dispatch_reaches_every_post(user_id, found, answers);
    lemma_run_in_two(start, opening, pages_in(pages));
    lemma_run_in_two(start, opening + pages_in(pages), answers_in(answers));
}

/// A pass that searches and is served pages that all have a cursor is still
/// searching, where the walk through those pages stands.
proof fn lemma_run_unfinished(
    access_token: Seq<char>,
    user_id: Seq<char>,
    from: PaginatorView,
    pages: Seq<SearchPageView>,
)
    requires
        forall|i: int| 0 <= i < pages.len() ==> cursor(#[trigger] pages[i]) is Some,
    ensures
        walk(from, pages) is More,
        run(ScrapeRetweetView::Search { access_token, user_id, walk: from }, pages_in(pages)) == (
        ScrapeRetweetView::Search { access_token, user_id, walk: walk(from, pages)->More_0 }),
    decreases pages.len(),
{
    if pages.len() > 0 {
        let rest = pages.drop_first();
        let searching = ScrapeRetweetView::Search { access_token, user_id, walk: from };
        let next = accept(from, pages[0])->More_0;
        assert(pages_in(pages).drop_first() =~= pages_in(rest));
        assert(run(searching, pages_in(pages)) == run(
            step(searching, pages_in(pages)[0]),
            pages_in(rest),
        ));
        assert forall|i: int| 0 <= i < rest.len() implies cursor(#[trigger] rest[i]) is Some by {
            assert(rest[i] == pages[i + 1]);
        }
        lemma_run_unfinished(access_token, user_id, next, rest);
    }
}

/// A search that breaks off before its last page ends the pass, and the pass
/// has then re-shared nothing.
///
/// Let a pass be searching, let the search endpoint serve pages that all
/// promise another, and let the next page fail to come. Then the pass is given
/// up with the cause of that failure, whatever the pages held and whatever
/// answers come later: no request to re-share was outstanding before the
/// failure, and none is after it.
pub proof fn lemma_broken_search_shares_nothing(
    access_token: Seq<char>,
    user_id: Seq<char>,
    from: PaginatorView,
    pages: Seq<SearchPageView>,
    cause: Seq<char>,
    later: Seq<JobEventView>,
)
    requires
        forall|i: int| 0 <= i < pages.len() ==> cursor(#[trigger] pages[i]) is Some,
    ensures
        run(ScrapeRetweetView::Search { access_token, user_id, walk: from }, pages_in(pages))
            is Search,
        run(
            ScrapeRetweetView::Search { access_token, user_id, walk: from },
            pages_in(pages) + seq![JobEventView::Page(Err(cause))] + later,
        ) == ScrapeRetweetView::Failed(JobErrorView::Search(cause)),
{
    let searching = ScrapeRetweetView::Search { access_token, user_id, walk: from };
    let failure = seq![JobEventView::Page(Err(cause))];
    let given_up = ScrapeRetweetView::Failed(JobErrorView::Search(cause));
    lemma_run_unfinished(access_token, user_id, from, pages);
    let still = run(searching, pages_in(pages));
    assert(run(still, failure) == given_up) by {
        assert(failure.drop_first() =~= Seq::<JobEventView>::empty());
        assert(step(still, failure[0]) == given_up);
        assert(run(given_up, failure.drop_first()) == given_up);
    }
    lemma_run_over(given_up, later);
    lemma_run_in_two(searching, pages_in(pages), failure);
    lemma_run_in_two(searching, pages_in(pages) + failure, later);
}

} // verus!
