//! The action dispatcher: re-shares each post that the search found, one
//! request for each, whatever became of the requests before.

use crate::api::{retweet_endpoint, retweet_url, HttpReply, HttpReplyView, Tweet, TweetView};
use crate::views::result_view;
use vstd::prelude::*;

verus! {

/// A request to re-share the post `tweet_id`: it is posted to `url`.
#[derive(Debug, Clone, PartialEq, Eq)]
pub struct ActionRequest {
    pub url: String,
    pub tweet_id: String,
}

/// The view of [`ActionRequest`] that contracts speak of: each text is a sequence of characters.
pub struct ActionRequestView {
    pub url: Seq<char>,
    pub tweet_id: Seq<char>,
}

impl View for ActionRequest {
    type V = ActionRequestView;

    open spec fn view(&self) -> ActionRequestView {
        ActionRequestView { url: self.url@, tweet_id: self.tweet_id@ }
    }
}

impl DeepView for ActionRequest {
    type V = ActionRequestView;

    open spec fn deep_view(&self) -> ActionRequestView {
        self@
    }
}

/// What became of one request.
#[derive(Debug, Clone, PartialEq, Eq)]
pub enum Outcome {
    /// The platform took the request.
    Success,
    /// The platform answered, and not with success; the cause is its answer.
    Rejected(HttpReply),
    /// The request did not reach the platform, or no answer came back; the cause in words.
    Unsent(String),
}

/// The view of [`Outcome`] that contracts speak of: each text is a sequence of characters.
pub enum OutcomeView {
    Success,
    Rejected(HttpReplyView),
    Unsent(Seq<char>),
}

impl View for Outcome {
    type V = OutcomeView;

    open spec fn view(&self) -> OutcomeView {
        match self {
            Outcome::Success => OutcomeView::Success,
            Outcome::Rejected(reply) => OutcomeView::Rejected(reply@),
            Outcome::Unsent(cause) => OutcomeView::Unsent(cause@),
        }
    }
}

impl DeepView for Outcome {
    type V = OutcomeView;

    open spec fn deep_view(&self) -> OutcomeView {
        self@
    }
}

/// What became of the request for the post `post_id`.
#[derive(Debug, Clone, PartialEq, Eq)]
pub struct ActionResult {
    pub post_id: String,
    pub outcome: Outcome,
}

/// The view of [`ActionResult`] that contracts speak of: each text is a sequence of characters.
pub struct ActionResultView {
    pub post_id: Seq<char>,
    pub outcome: OutcomeView,
}

impl View for ActionResult {
    type V = ActionResultView;

    open spec fn view(&self) -> ActionResultView {
        ActionResultView { post_id: self.post_id@, outcome: self.outcome@ }
    }
}

impl DeepView for ActionResult {
    type V = ActionResultView;

    open spec fn deep_view(&self) -> ActionResultView {
        self@
    }
}

/// What the platform answered to a request, or why no answer came.
pub type Answer = Result<HttpReply, String>;

/// The view of [`Answer`] that contracts speak of: each text is a sequence of characters.
pub type AnswerView = Result<HttpReplyView, Seq<char>>;

/// What an answer says of its request: a status from 200 to 299 is success.
pub open spec fn outcome_of(answer: AnswerView) -> OutcomeView {
    match answer {
        Ok(reply) => if 200 <= reply.status < 300 {
            OutcomeView::Success
        } else {
            OutcomeView::Rejected(reply)
        },
        Err(cause) => OutcomeView::Unsent(cause),
    }
}

/// What became of the request for `post`, given its answer.
pub open spec fn result_of(post: TweetView, answer: AnswerView) -> ActionResultView {
    ActionResultView { post_id: post.id, outcome: outcome_of(answer) }
}

/// The request that re-shares `post` for the account `user_id`.
pub open spec fn request_for(user_id: Seq<char>, post: TweetView) -> ActionRequestView {
    ActionRequestView { url: retweet_url(user_id), tweet_id: post.id }
}

/// Says what an answer means for its request.
pub fn classify(answer: Answer) -> (outcome: Outcome)
    ensures
        outcome@ == outcome_of(result_view(answer)),
{
    match answer {
        Ok(reply) => if 200 <= reply.status && reply.status < 300 {
            Outcome::Success
        } else {
            Outcome::Rejected(reply)
        },
        Err(cause) => Outcome::Unsent(cause),
    }
}

/// A dispatch that has not ended: the posts to re-share for the account
/// `user_id`, and what became of the requests that have been answered. The
/// request for the first post without a result is outstanding.
#[derive(Debug, PartialEq, Eq)]
pub struct Dispatcher {
    user_id: String,
    posts: Vec<Tweet>,
    results: Vec<ActionResult>,
}

/// The view of [`Dispatcher`] that contracts speak of: each text is a sequence of characters.
pub struct DispatcherView {
    pub user_id: Seq<char>,
    pub posts: Seq<TweetView>,
    pub results: Seq<ActionResultView>,
}

impl View for Dispatcher {
    type V = DispatcherView;

    closed spec fn view(&self) -> DispatcherView {
        DispatcherView {
            user_id: self.user_id@,
            posts: self.posts.deep_view(),
            results: self.results.deep_view(),
        }
    }
}

impl DeepView for Dispatcher {
    type V = DispatcherView;

    open spec fn deep_view(&self) -> DispatcherView {
        self@
    }
}

/// Where a dispatch stands after an answer.
#[derive(Debug, PartialEq, Eq)]
pub enum Dispatch {
    /// Another post has to be re-shared.
    Next(Dispatcher),
    /// Every post has had its request: what became of each, in the order of the posts.
    Done(Vec<ActionResult>),
}

/// The view of [`Dispatch`] that contracts speak of: each text is a sequence of characters.
pub enum DispatchView {
    Next(DispatcherView),
    Done(Seq<ActionResultView>),
}

impl View for Dispatch {
    type V = DispatchView;

    open spec fn view(&self) -> DispatchView {
        match self {
            Dispatch::Next(dispatcher) => DispatchView::Next(dispatcher@),
            Dispatch::Done(results) => DispatchView::Done(results.deep_view()),
        }
    }
}

impl DeepView for Dispatch {
    type V = DispatchView;

    open spec fn deep_view(&self) -> DispatchView {
        self@
    }
}

impl DispatcherView {
    /// Whether a request is outstanding: some post has no result.
    pub open spec fn pending(self) -> bool {
        self.results.len() < self.posts.len()
    }

    /// The post whose request is outstanding.
    pub open spec fn current(self) -> TweetView {
        self.posts[self.results.len() as int]
    }

    /// The request that is outstanding.
    pub open spec fn request(self) -> ActionRequestView {
        request_for(self.user_id, self.current())
    }
}

/// Where the dispatch of `posts` stands when `results` are in.
pub open spec fn standing(
    user_id: Seq<char>,
    posts: Seq<TweetView>,
    results: Seq<ActionResultView>,
) -> DispatchView {
    if results.len() < posts.len() {
        DispatchView::Next(DispatcherView { user_id, posts, results })
    } else {
        DispatchView::Done(results)
    }
}

/// The start of the dispatch of `posts` for the account `user_id`.
pub open spec fn dispatch_of(user_id: Seq<char>, posts: Seq<TweetView>) -> DispatchView {
    standing(user_id, posts, Seq::empty())
}

/// Where the dispatch `so_far` stands once `answer` has answered its request.
///
/// The answer becomes the result of the post that was asked for, success or
/// not, and the dispatch goes on to the next post until none is left.
pub open spec fn record(so_far: DispatcherView, answer: AnswerView) -> DispatchView {
    standing(
        so_far.user_id,
        so_far.posts,
        so_far.results.push(result_of(so_far.current(), answer)),
    )
}

/// Where the dispatch `from` stands once `answers` have answered its requests
/// in turn. Answers after the one that ends the dispatch are not looked at.
pub open spec fn deliver(from: DispatchView, answers: Seq<AnswerView>) -> DispatchView
    decreases answers.len(),
{
    if answers.len() == 0 {
        from
    } else {
        match from {
            DispatchView::Next(so_far) => deliver(record(so_far, answers[0]), answers.drop_first()),
            DispatchView::Done(_) => from,
        }
    }
}

/// The requests that `answers` answer in the dispatch `from`.
pub open spec fn attempts(from: DispatchView, answers: Seq<AnswerView>) -> Seq<ActionRequestView>
    decreases answers.len(),
{
    if answers.len() == 0 {
        Seq::empty()
    } else {
        match from {
            DispatchView::Next(so_far) => seq![so_far.request()] + attempts(
                record(so_far, answers[0]),
                answers.drop_first(),
            ),
            DispatchView::Done(_) => Seq::empty(),
        }
    }
}

/// A dispatch that is under way and gets an answer for each post that has none
/// sends a request for each of those posts, and ends with a result for every
/// post: the results it had, then one for each answer.
pub proof fn lemma_deliver_from(so_far: DispatcherView, answers: Seq<AnswerView>)
    requires
        so_far.pending(),
        answers.len() == so_far.posts.len() - so_far.results.len(),
    ensures
        deliver(DispatchView::Next(so_far), answers) == DispatchView::Done(
            so_far.results + Seq::new(
                answers.len(),
                |i: int| result_of(so_far.posts[so_far.results.len() + i], answers[i]),
            ),
        ),
        attempts(DispatchView::Next(so_far), answers) == Seq::new(
            answers.len(),
            |i: int| request_for(so_far.user_id, so_far.posts[so_far.results.len() + i]),
        ),
    decreases answers.len(),
{
    let done = so_far.results.len();
    let rest = answers.drop_first();
    let results = so_far.results.push(result_of(so_far.current(), answers[0]));
    let next = record(so_far, answers[0]);
    let all = so_far.results + Seq::new(
        answers.len(),
        |i: int| result_of(so_far.posts[done + i], answers[i]),
    );
    let asked = Seq::new(answers.len(), |i: int| request_for(so_far.user_id, so_far.posts[done + i]));
    if answers.len() == 1 {
        assert(next == DispatchView::Done(results));
        assert(deliver(next, rest) == next);
        assert(results =~= all);
        assert(attempts(next, rest) =~= Seq::<ActionRequestView>::empty());
        assert(attempts(DispatchView::Next(so_far), answers) =~= asked);
    } else {
        let after = DispatcherView { user_id: so_far.user_id, posts: so_far.posts, results };
        assert(next == DispatchView::Next(after));
        lemma_deliver_from(after, rest);
        assert(deliver(next, rest) == deliver(DispatchView::Next(so_far), answers));
        assert(results + Seq::new(
            rest.len(),
            |i: int| result_of(after.posts[results.len() + i], rest[i]),
        ) =~= all);
        assert(attempts(DispatchView::Next(so_far), answers) =~= asked);
    }
}

/// Every post of a dispatch is asked for, and every post gets its result.
///
/// Whatever the answers are, the dispatch of `posts` sends one request for each
/// post, in the order of the posts, and ends with one result for each post: the
/// result of a post says what the answer to its own request was, and nothing of
/// the answers to the others.
pub proof fn lemma_dispatch_reaches_every_post(
    user_id: Seq<char>,
    posts: Seq<TweetView>,
    answers: Seq<AnswerView>,
)
    requires
        answers.len() == posts.len(),
    ensures
        deliver(dispatch_of(user_id, posts), answers) == DispatchView::Done(
            Seq::new(posts.len(), |i: int| result_of(posts[i], answers[i])),
        ),
        attempts(dispatch_of(user_id, posts), answers) == Seq::new(
            posts.len(),
            |i: int| request_for(user_id, posts[i]),
        ),
{
    let all = Seq::new(posts.len(), |i: int| result_of(posts[i], answers[i]));
    let asked = Seq::new(posts.len(), |i: int| request_for(user_id, posts[i]));
    if posts.len() == 0 {
        assert(all =~= Seq::<ActionResultView>::empty());
        assert(asked =~= Seq::<ActionRequestView>::empty());
    } else {
        let start = DispatcherView { user_id, posts, results: Seq::empty() };
        lemma_deliver_from(start, answers);
        assert(start.results + Seq::new(
            answers.len(),
            |i: int| result_of(start.posts[start.results.len() + i], answers[i]),
        ) =~= all);
        assert(Seq::new(
            answers.len(),
            |i: int| request_for(start.user_id, start.posts[start.results.len() + i]),
        ) =~= asked);
    }
}

/// Starts to re-share `tweets` for the account `user_id`.
pub fn retweet(user_id: String, tweets: Vec<Tweet>) -> (start: Dispatch)
    ensures
        start@ == dispatch_of(user_id@, tweets.deep_view()),
{
    let results: Vec<ActionResult> = Vec::new();
    assert(results.deep_view() =~= Seq::<ActionResultView>::empty());
    if tweets.len() == 0 {
        Dispatch::Done(results)
    } else {
        Dispatch::Next(Dispatcher { user_id, posts: tweets, results })
    }
}

impl Dispatcher {
    #[verifier::type_invariant]
    spec fn pending(&self) -> bool {
        self.results.len() < self.posts.len()
    }

    /// The request that is outstanding.
    pub fn request(&self) -> (request: ActionRequest)
        ensures
            self@.pending(),
            request@ == self@.request(),
    {
        proof {
            use_type_invariant(self);
        }
        let post = &self.posts[self.results.len()];
        ActionRequest { url: retweet_endpoint(&self.user_id), tweet_id: post.id.clone() }
    }

    /// Takes the answer to the outstanding request, notes what became of the
    /// post, and goes on to the next post if there is one.
    pub fn record(self, answer: Answer) -> (next: Dispatch)
        ensures
            self@.pending(),
            next@ == record(self@, result_view(answer)),
    {
        proof {
            use_type_invariant(&self);
        }
        let Dispatcher { user_id, posts, results } = self;
        let mut results = results;
        let ghost before = results.deep_view();
        let post_id = posts[results.len()].id.clone();
        let result = ActionResult { post_id, outcome: classify(answer) };
        results.push(result);
        assert(results.deep_view() =~= before.push(
            result_of(posts.deep_view()[before.len() as int], result_view(answer)),
        ));
        if results.len() < posts.len() {
            Dispatch::Next(Dispatcher { user_id, posts, results })
        } else {
            Dispatch::Done(results)
        }
    }
}

/// What a run reports: how many posts were re-shared, how many were not, and
/// what became of each.
#[derive(Debug, Clone, PartialEq, Eq)]
pub struct Report {
    pub succeeded: usize,
    pub failed: usize,
    pub results: Vec<ActionResult>,
}

/// The view of [`Report`] that contracts speak of: each text is a sequence of characters.
pub struct ReportView {
    pub succeeded: nat,
    pub failed: nat,
    pub results: Seq<ActionResultView>,
}

impl View for Report {
    type V = ReportView;

    open spec fn view(&self) -> ReportView {
        ReportView {
            succeeded: self.succeeded as nat,
            failed: self.failed as nat,
            results: self.results.deep_view(),
        }
    }
}

impl DeepView for Report {
    type V = ReportView;

    open spec fn deep_view(&self) -> ReportView {
        self@
    }
}

/// How many of `results` are successes.
pub open spec fn successes(results: Seq<ActionResultView>) -> nat
    decreases results.len(),
{
    if results.len() == 0 {
        0
    } else {
        successes(results.drop_last()) + if results.last().outcome is Success {
            1nat
        } else {
            0nat
        }
    }
}

/// The results that are not successes, in their order.
pub open spec fn failures_of(results: Seq<ActionResultView>) -> Seq<ActionResultView>
    decreases results.len(),
{
    if results.len() == 0 {
        Seq::empty()
    } else if results.last().outcome is Success {
        failures_of(results.drop_last())
    } else {
        failures_of(results.drop_last()).push(results.last())
    }
}

/// The report on `results`.
pub open spec fn report_of(results: Seq<ActionResultView>) -> ReportView {
    ReportView {
        succeeded: successes(results),
        failed: (results.len() - successes(results)) as nat,
        results,
    }
}

/// Every result is a success or a failure: the two are as many as the results,
/// and the failures are the results that are not successes.
pub proof fn lemma_report_counts(results: Seq<ActionResultView>)
    ensures
        successes(results) <= results.len(),
        successes(results) + failures_of(results).len() == results.len(),
        report_of(results).succeeded + report_of(results).failed == results.len(),
        report_of(results).failed == failures_of(results).len(),
    decreases results.len(),
{
    if results.len() > 0 {
        lemma_report_counts(results.drop_last());
    }
}

impl Outcome {
    /// Whether the platform took the request.
    pub fn is_success(&self) -> (success: bool)
        ensures
            success == (self@ is Success),
    {
        match self {
            Outcome::Success => true,
            _ => false,
        }
    }

    /// A copy of the outcome.
    fn copy(&self) -> (copy: Self)
        ensures
            copy@ == self@,
    {
        match self {
            Outcome::Success => Outcome::Success,
            Outcome::Rejected(reply) => Outcome::Rejected(
                HttpReply { status: reply.status, body: reply.body.clone() },
            ),
            Outcome::Unsent(cause) => Outcome::Unsent(cause.clone()),
        }
    }
}

/// Counts what became of the posts.
pub fn summarize(results: Vec<ActionResult>) -> (report: Report)
    ensures
        report@ == report_of(results.deep_view()),
{
    let mut succeeded: usize = 0;
    let mut i: usize = 0;
    while i < results.len()
        invariant
            i <= results.len(),
            succeeded == successes(results.deep_view().take(i as int)),
            succeeded <= i,
        decreases results.len() - i,
    {
        assert(results.deep_view().take(i + 1).drop_last() =~= results.deep_view().take(i as int));
        if results[i].outcome.is_success() {
            succeeded += 1;
        }
        i += 1;
    }
    assert(results.deep_view().take(i as int) =~= results.deep_view());
    let failed = results.len() - succeeded;
    Report { succeeded, failed, results }
}

impl Report {
    /// The posts that were not re-shared, each with the cause.
    pub fn failures(&self) -> (failures: Vec<ActionResult>)
        ensures
            failures.deep_view() == failures_of(self@.results),
    {
        let mut failures: Vec<ActionResult> = Vec::new();
        let mut i: usize = 0;
        assert(self.results.deep_view().take(0) =~= Seq::<ActionResultView>::empty());
        while i < self.results.len()
            invariant
                i <= self.results.len(),
                failures.deep_view() == failures_of(self.results.deep_view().take(i as int)),
            decreases self.results.len() - i,
        {
            let ghost seen = self.results.deep_view().take(i as int);
            let ghost before = failures.deep_view();
            assert(self.results.deep_view().take(i + 1).drop_last() =~= seen);
            let result = &self.results[i];
            if !result.outcome.is_success() {
                failures.push(
                    ActionResult { post_id: result.post_id.clone(), outcome: result.outcome.copy() },
                );
                assert(failures.deep_view() =~= before.push(result@));
            }
            i += 1;
        }
        assert(self.results.deep_view().take(i as int) =~= self.results.deep_view());
        failures
    }
}

} // verus!
