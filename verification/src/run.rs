//! A whole run of the job: load the configuration, obtain an access
//! credential, and make one pass with it.

use crate::auth::{client_from_env, client_of, ClientSettings, ClientSettingsView};
use crate::dynamo::get_table_name;
use crate::environment::{
    get_scrape_interval, get_twitter_query, interval_of, required, ConfigError, Environment,
    Variable,
};
use crate::retweet::{Report, ReportView};
use crate::scrape::{
    pass_of, scrape_retweet, JobError, JobErrorView, JobEvent, JobEventView, ScrapeRetweet,
    ScrapeRetweetView,
};
use crate::token::{
    begin, get_access_token, TokenError, TokenErrorView, TokenEvent, TokenEventView, TokenRefresh,
    TokenRefreshView,
};
use vstd::prelude::*;

verus! {

/// Everything that a run takes from its environment.
#[derive(Debug, Clone, PartialEq, Eq)]
pub struct RunConfig {
    pub client: ClientSettings,
    pub table_name: String,
    pub query: String,
    pub minutes: i64,
}

/// The view of [`RunConfig`] that contracts speak of: each text is a sequence of characters.
pub struct RunConfigView {
    pub client: ClientSettingsView,
    pub table_name: Seq<char>,
    pub query: Seq<char>,
    pub minutes: i64,
}

impl View for RunConfig {
    type V = RunConfigView;

    open spec fn view(&self) -> RunConfigView {
        RunConfigView {
            client: self.client@,
            table_name: self.table_name@,
            query: self.query@,
            minutes: self.minutes,
        }
    }
}

impl DeepView for RunConfig {
    type V = RunConfigView;

    open spec fn deep_view(&self) -> RunConfigView {
        self@
    }
}

/// Why a run ended without a report.
#[derive(Debug, Clone, PartialEq, Eq)]
pub enum RunError {
    /// The configuration is incomplete or wrong. Nothing was sent anywhere.
    Config(ConfigError),
    /// No access credential was obtained.
    Token(TokenError),
    /// The pass was given up.
    Job(JobError),
    /// An answer came that belongs to no request outstanding.
    OutOfTurn,
}

/// The view of [`RunError`] that contracts speak of: each text is a sequence of characters.
pub enum RunErrorView {
    Config(ConfigError),
    Token(TokenErrorView),
    Job(JobErrorView),
    OutOfTurn,
}

impl View for RunError {
    type V = RunErrorView;

    open spec fn view(&self) -> RunErrorView {
        match self {
            RunError::Config(error) => RunErrorView::Config(*error),
            RunError::Token(error) => RunErrorView::Token(error@),
            RunError::Job(error) => RunErrorView::Job(error@),
            RunError::OutOfTurn => RunErrorView::OutOfTurn,
        }
    }
}

impl DeepView for RunError {
    type V = RunErrorView;

    open spec fn deep_view(&self) -> RunErrorView {
        self@
    }
}

impl RunErrorView {
    /// The error in words: the stage that failed, then the cause.
    pub open spec fn message(self) -> Seq<char> {
        match self {
            RunErrorView::Config(error) => "configuration: "@ + error.spec_message(),
            RunErrorView::Token(error) => "credential refresh: "@ + error.message(),
            RunErrorView::Job(error) => "scrape and retweet: "@ + error.message(),
            RunErrorView::OutOfTurn => "An answer arrived for a request that was not outstanding"@,
        }
    }
}

impl RunError {
    /// The error in words: the stage that failed, then the cause.
    pub fn message(&self) -> (message: String)
        ensures
            message@ == self@.message(),
    {
        match self {
            RunError::Config(error) => String::from_str("configuration: ").concat(
                error.message().as_str(),
            ),
            RunError::Token(error) => String::from_str("credential refresh: ").concat(
                error.message().as_str(),
            ),
            RunError::Job(error) => String::from_str("scrape and retweet: ").concat(
                error.message().as_str(),
            ),
            RunError::OutOfTurn => String::from_str(
                "An answer arrived for a request that was not outstanding",
            ),
        }
    }
}

/// The configuration that `env` describes, or the first thing wrong with
/// `env`: the client is read first, then the table, the search expression and
/// the look-back window.
pub open spec fn config_of(env: Seq<(Seq<char>, Seq<char>)>) -> Result<RunConfigView, ConfigError> {
    match client_of(env) {
        Err(error) => Err(error),
        Ok(client) => match required(env, Variable::TableName) {
            Err(error) => Err(error),
            Ok(table_name) => match required(env, Variable::Query) {
                Err(error) => Err(error),
                Ok(query) => match interval_of(env) {
                    Err(error) => Err(error),
                    Ok(minutes) => Ok(RunConfigView { client, table_name, query, minutes }),
                },
            },
        },
    }
}

impl RunConfig {
    /// Loads the configuration from the environment.
    pub fn from_env(env: &Environment) -> (loaded: Result<RunConfig, ConfigError>)
        ensures
            match loaded {
                Ok(config) => config_of(env@) == Ok::<RunConfigView, ConfigError>(config@),
                Err(error) => config_of(env@) == Err::<RunConfigView, ConfigError>(error),
            },
    {
        let client = match client_from_env(env) {
            Ok(client) => client,
            Err(error) => {
                return Err(error);
            },
        };
        let table_name = match get_table_name(env) {
            Ok(value) => value,
            Err(error) => {
                return Err(error);
            },
        };
        let query = match get_twitter_query(env) {
            Ok(value) => value,
            Err(error) => {
                return Err(error);
            },
        };
        let minutes = match get_scrape_interval(env) {
            Ok(value) => value,
            Err(error) => {
                return Err(error);
            },
        };
        Ok(RunConfig { client, table_name, query, minutes })
    }
}

/// A step of a run: the flow whose request is outstanding, or how the run ended.
#[derive(Debug, PartialEq, Eq)]
pub enum Run {
    /// The access credential is being obtained; the pass that follows searches
    /// `query` over the last `minutes` minutes.
    Refreshing { refresh: TokenRefresh, query: String, minutes: i64 },
    /// The pass is under way.
    Working(ScrapeRetweet),
    /// The run is over: what became of the posts.
    Finished(Report),
    /// The run was given up.
    Failed(RunError),
}

/// The view of [`Run`] that contracts speak of: each text is a sequence of characters.
pub enum RunView {
    Refreshing { refresh: TokenRefreshView, query: Seq<char>, minutes: i64 },
    Working(ScrapeRetweetView),
    Finished(ReportView),
    Failed(RunErrorView),
}

impl View for Run {
    type V = RunView;

    open spec fn view(&self) -> RunView {
        match self {
            Run::Refreshing { refresh, query, minutes } => RunView::Refreshing {
                refresh: refresh@,
                query: query@,
                minutes: *minutes,
            },
            Run::Working(pass) => RunView::Working(pass@),
            Run::Finished(report) => RunView::Finished(report@),
            Run::Failed(error) => RunView::Failed(error@),
        }
    }
}

impl DeepView for Run {
    type V = RunView;

    open spec fn deep_view(&self) -> RunView {
        self@
    }
}

/// The answer to the request that was outstanding.
#[derive(Debug, PartialEq, Eq)]
pub enum Event {
    /// An answer to a request of the credential refresh.
    Token(TokenEvent),
    /// An answer to a request of the pass.
    Job(JobEvent),
}

/// The view of [`Event`] that contracts speak of: each text is a sequence of characters.
pub enum EventView {
    Token(TokenEventView),
    Job(JobEventView),
}

impl View for Event {
    type V = EventView;

    open spec fn view(&self) -> EventView {
        match self {
            Event::Token(event) => EventView::Token(event@),
            Event::Job(event) => EventView::Job(event@),
        }
    }
}

impl DeepView for Event {
    type V = EventView;

    open spec fn deep_view(&self) -> EventView {
        self@
    }
}

/// The step of a run whose pass stands at `pass`.
pub open spec fn working(pass: ScrapeRetweetView) -> RunView {
    match pass {
        ScrapeRetweetView::Done(report) => RunView::Finished(report),
        ScrapeRetweetView::Failed(error) => RunView::Failed(RunErrorView::Job(error)),
        _ => RunView::Working(pass),
    }
}

/// The step of a run whose credential refresh stands at `refresh`: once the
/// access credential is there, the pass starts with it.
pub open spec fn refreshing(refresh: TokenRefreshView, query: Seq<char>, minutes: i64) -> RunView {
    match refresh {
        TokenRefreshView::Done(access) => working(pass_of(query, access.access_token, minutes)),
        TokenRefreshView::Failed(error) => RunView::Failed(RunErrorView::Token(error)),
        _ => RunView::Refreshing { refresh, query, minutes },
    }
}

/// The first step of a run in the environment `env`. A configuration that is
/// incomplete or wrong ends the run before any request is made.
pub open spec fn start(env: Seq<(Seq<char>, Seq<char>)>) -> RunView {
    match config_of(env) {
        Err(error) => RunView::Failed(RunErrorView::Config(error)),
        Ok(config) => refreshing(begin(config.client, config.table_name), config.query, config.minutes),
    }
}

/// The step that follows `step` once `event` has answered its request.
///
/// The flow that is under way takes the answer. A refresh that fails ends the
/// run, and so does a pass that is given up; a post that could not be
/// re-shared does not. A run that has ended stays as it is.
pub open spec fn step(step: RunView, event: EventView) -> RunView {
    match (step, event) {
        (RunView::Refreshing { refresh, query, minutes }, EventView::Token(event)) => refreshing(
            crate::token::step(refresh, event),
            query,
            minutes,
        ),
        (RunView::Working(pass), EventView::Job(event)) => working(crate::scrape::step(pass, event)),
        (RunView::Finished(report), _) => RunView::Finished(report),
        (RunView::Failed(error), _) => RunView::Failed(error),
        _ => RunView::Failed(RunErrorView::OutOfTurn),
    }
}

/// The step of a run whose pass stands at `pass`.
fn work(pass: ScrapeRetweet) -> (next: Run)
    ensures
        next@ == working(pass@),
{
    match pass {
        ScrapeRetweet::Done(report) => Run::Finished(report),
        ScrapeRetweet::Failed(error) => Run::Failed(RunError::Job(error)),
        _ => Run::Working(pass),
    }
}

/// The step of a run whose credential refresh stands at `refresh`.
fn refresh_then_work(refresh: TokenRefresh, query: String, minutes: i64) -> (next: Run)
    ensures
        next@ == refreshing(refresh@, query@, minutes),
{
    match refresh {
        TokenRefresh::Done(access) => work(scrape_retweet(query, access.access_token, minutes)),
        TokenRefresh::Failed(error) => Run::Failed(RunError::Token(error)),
        _ => Run::Refreshing { refresh, query, minutes },
    }
}

impl Run {
    /// Starts a run in the environment `env`.
    pub fn start(env: &Environment) -> (first: Self)
        ensures
            first@ == start(env@),
    {
        match RunConfig::from_env(env) {
            Err(error) => Run::Failed(RunError::Config(error)),
            Ok(config) => refresh_then_work(
                get_access_token(config.client, &config.table_name),
                config.query,
                config.minutes,
            ),
        }
    }

    /// Whether the run has ended, with or without a report.
    pub fn is_over(&self) -> (over: bool)
        ensures
            over == (self@ is Finished || self@ is Failed),
    {
        match self {
            Run::Finished(_) => true,
            Run::Failed(_) => true,
            _ => false,
        }
    }

    /// Takes the answer to the outstanding request and decides what follows.
    pub fn advance(self, event: Event) -> (next: Self)
        ensures
            next@ == step(self@, event@),
    {
        match (self, event) {
            (Run::Refreshing { refresh, query, minutes }, Event::Token(event)) => {
                refresh_then_work(refresh.advance(event), query, minutes)
            },
            (Run::Working(pass), Event::Job(event)) => work(pass.advance(event)),
            (Run::Finished(report), _) => Run::Finished(report),
            (Run::Failed(error), _) => Run::Failed(error),
            _ => Run::Failed(RunError::OutOfTurn),
        }
    }
}

/// The step reached from `from` when `events` answer the requests in turn.
pub open spec fn run(from: RunView, events: Seq<EventView>) -> RunView
    decreases events.len(),
{
    if events.len() == 0 {
        from
    } else {
        run(step(from, events[0]), events.drop_first())
    }
}

/// Answers to the requests of the credential refresh, as events of the run.
pub open spec fn token_events(events: Seq<TokenEventView>) -> Seq<EventView> {
    Seq::new(events.len(), |i: int| EventView::Token(events[i]))
}

/// Answers to the requests of the pass, as events of the run.
pub open spec fn job_events(events: Seq<JobEventView>) -> Seq<EventView> {
    Seq::new(events.len(), |i: int| EventView::Job(events[i]))
}

/// Answers that come one after the other take a run as far as the first of
/// them do, and from there as far as the rest do.
pub proof fn lemma_run_in_two(from: RunView, before: Seq<EventView>, after: Seq<EventView>)
    ensures
        run(from, before + after) == run(run(from, before), after),
    decreases before.len(),
{
    if before.len() == 0 {
        assert(before + after =~= after);
    } else {
        assert((before + after).drop_first() =~= before.drop_first() + after);
        lemma_run_in_two(step(from, before[0]), before.drop_first(), after);
    }
}

/// A run that has ended stays where it ended, whatever answers come.
pub proof fn lemma_run_over(from: RunView, events: Seq<EventView>)
    requires
        from is Finished || from is Failed,
    ensures
        run(from, events) == from,
    decreases events.len(),
{
    if events.len() > 0 {
        lemma_run_over(from, events.drop_first());
    }
}

/// While the pass is under way the run stands where the pass stands, answer
/// for answer: it finishes with the report of the pass, and is given up when
/// the pass is.
pub proof fn lemma_run_follows_pass(pass: ScrapeRetweetView, events: Seq<JobEventView>)
    ensures
        run(working(pass), job_events(events)) == working(crate::scrape::run(pass, events)),
    decreases events.len(),
{
    if events.len() > 0 {
        assert(job_events(events).drop_first() =~= job_events(events.drop_first()));
        if pass is Done || pass is Failed {
            lemma_run_over(working(pass), job_events(events));
            crate::scrape::lemma_run_over(pass, events);
        } else {
            lemma_run_follows_pass(crate::scrape::step(pass, events[0]), events.drop_first());
        }
    }
}

/// While the credential is being refreshed the run stands where the refresh
/// stands, answer for answer, as long as no answer comes after the one that
/// gave the access credential.
pub proof fn lemma_run_follows_refresh(
    refresh: TokenRefreshView,
    query: Seq<char>,
    minutes: i64,
    events: Seq<TokenEventView>,
)
    requires
        forall|k: int|
            0 <= k < events.len() ==> !(#[trigger] crate::token::run(refresh, events.take(k))
                is Done),
    ensures
        run(refreshing(refresh, query, minutes), token_events(events)) == refreshing(
            crate::token::run(refresh, events),
            query,
            minutes,
        ),
    decreases events.len(),
{
    if events.len() > 0 {
        let rest = events.drop_first();
        assert(token_events(events).drop_first() =~= token_events(rest));
        assert(crate::token::run(refresh, events.take(0)) == refresh);
        if refresh is Failed {
            lemma_run_over(refreshing(refresh, query, minutes), token_events(events));
            crate::token::lemma_run_over(refresh, events);
        } else {
            let next = crate::token::step(refresh, events[0]);
            assert forall|k: int| 0 <= k < rest.len() implies !(#[trigger] crate::token::run(
                next,
                rest.take(k),
            ) is Done) by {
                assert(events.take(k + 1).drop_first() =~= rest.take(k));
                assert(crate::token::run(refresh, events.take(k + 1)) == crate::token::run(
                    next,
                    rest.take(k),
                ));
            }
            lemma_run_follows_refresh(next, query, minutes, rest);
        }
    }
}

/// A run is the credential refresh, then the pass with the credential.
///
/// Let the environment hold a whole configuration, let the answers to the
/// refresh give an access credential with the last of them, and let any
/// answers to the pass follow. Then the run stands where the pass stands that
/// searches the configured expression over the configured window with that
/// credential: it finishes with the report of that pass, and is given up when
/// that pass is.
pub proof fn lemma_run_refreshes_then_passes(
    env: Seq<(Seq<char>, Seq<char>)>,
    refresh_answers: Seq<TokenEventView>,
    pass_answers: Seq<JobEventView>,
)
    requires
        config_of(env) is Ok,
        ({
            let config = config_of(env)->Ok_0;
            let first = begin(config.client, config.table_name);
            &&& crate::token::run(first, refresh_answers) is Done
            &&& forall|k: int|
                0 <= k < refresh_answers.len() ==> !(#[trigger] crate::token::run(
                    first,
                    refresh_answers.take(k),
                ) is Done)
        }),
    ensures
        ({
            let config = config_of(env)->Ok_0;
            let first = begin(config.client, config.table_name);
            let access = crate::token::run(first, refresh_answers)->Done_0;
            run(start(env), token_events(refresh_answers) + job_events(pass_answers)) == working(
                crate::scrape::run(
                    pass_of(config.query, access.access_token, config.minutes),
                    pass_answers,
                ),
            )
        }),
{
    let config = config_of(env)->Ok_0;
    let first = begin(config.client, config.table_name);
    let access = crate::token::run(first, refresh_answers)->Done_0;
    lemma_run_follows_refresh(first, config.query, config.minutes, refresh_answers);
    lemma_run_follows_pass(
        pass_of(config.query, access.access_token, config.minutes),
        pass_answers,
    );
    lemma_run_in_two(start(env), token_events(refresh_answers), job_events(pass_answers));
}

} // verus!
