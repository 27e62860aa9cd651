use rust_lang_retweet::api::{
    identity_endpoint, retweet_endpoint, search_endpoint, HttpReply, Tweet, TwitterApiResponse,
    User,
};
use rust_lang_retweet::auth::ClientSettings;
use rust_lang_retweet::dynamo::{Attribute, Item, StoreError};
use rust_lang_retweet::environment::{ConfigError, Environment, Variable};
use rust_lang_retweet::retweet::{ActionResult, Outcome, Report};
use rust_lang_retweet::run::{Event, Run, RunConfig, RunError};
use rust_lang_retweet::scrape::{JobError, JobEvent, ScrapeRetweet};
use rust_lang_retweet::token::{TokenError, TokenEvent, TokenGrant, TokenRefresh};
use rust_lang_retweet::window::Instant;

fn env(pairs: &[(&str, &str)]) -> Environment {
    Environment {
        variables: pairs.iter().map(|(name, value)| (name.to_string(), value.to_string())).collect(),
    }
}

fn complete() -> Vec<(&'static str, &'static str)> {
    vec![
        ("TWITTER_CLIENT_ID", "aWQ6MTpjaQ"),
        ("TWITTER_CLIENT_SECRET", "c2VjcmV0"),
        ("TWITTER_REDIRECT_URL", "https://example.com/callback"),
        ("AWS_TABLE_NAME", "tokens"),
        ("TWITTER_QUERY", "#rustlang -is:retweet"),
        ("TWITTER_SCRAPE_INTERVAL", "15"),
    ]
}

fn without(name: &str) -> Environment {
    let pairs: Vec<(&str, &str)> = complete().into_iter().filter(|(n, _)| *n != name).collect();
    env(&pairs)
}

fn stored(secret: &str) -> Event {
    Event::Token(TokenEvent::Fetched(Ok(Some(Item {
        attributes: vec![("value".to_string(), Attribute::Text(secret.to_string()))],
    }))))
}

fn granted(access: &str, refresh: Option<&str>) -> Event {
    Event::Token(TokenEvent::Exchanged(Ok(TokenGrant {
        access_token: access.to_string(),
        refresh_token: refresh.map(|r| r.to_string()),
        expires_in: None,
    })))
}

fn me() -> Event {
    Event::Job(JobEvent::Identified(Ok(TwitterApiResponse {
        data: Some(User { id: "7".to_string(), name: "n".to_string(), username: "u".to_string() }),
        meta: None,
    })))
}

#[test]
fn the_configuration_is_loaded_whole() {
    assert_eq!(
        RunConfig::from_env(&env(&complete())),
        Ok(RunConfig {
            client: ClientSettings::new(
                "aWQ6MTpjaQ".to_string(),
                "c2VjcmV0".to_string(),
                "https://example.com/callback".to_string()
            ),
            table_name: "tokens".to_string(),
            query: "#rustlang -is:retweet".to_string(),
            minutes: 15,
        })
    );
}

#[test]
fn the_first_thing_wrong_with_the_configuration_is_reported() {
    assert_eq!(RunConfig::from_env(&env(&[])), Err(ConfigError::Missing(Variable::ClientId)));
    for (name, variable) in [
        ("TWITTER_CLIENT_ID", Variable::ClientId),
        ("TWITTER_CLIENT_SECRET", Variable::ClientSecret),
        ("TWITTER_REDIRECT_URL", Variable::RedirectUrl),
        ("AWS_TABLE_NAME", Variable::TableName),
        ("TWITTER_QUERY", Variable::Query),
        ("TWITTER_SCRAPE_INTERVAL", Variable::ScrapeInterval),
    ] {
        assert_eq!(RunConfig::from_env(&without(name)), Err(ConfigError::Missing(variable)));
    }
    let two_wrong = env(&[
        ("TWITTER_CLIENT_ID", "id"),
        ("TWITTER_CLIENT_SECRET", "secret"),
        ("TWITTER_REDIRECT_URL", "nonsense"),
        ("TWITTER_SCRAPE_INTERVAL", "soon"),
    ]);
    assert_eq!(RunConfig::from_env(&two_wrong), Err(ConfigError::InvalidRedirectUrl));
    let late_wrong = env(&[
        ("TWITTER_CLIENT_ID", "id"),
        ("TWITTER_CLIENT_SECRET", "secret"),
        ("TWITTER_REDIRECT_URL", "https://example.com/"),
        ("AWS_TABLE_NAME", "t"),
        ("TWITTER_QUERY", "q"),
        ("TWITTER_SCRAPE_INTERVAL", "soon"),
    ]);
    assert_eq!(RunConfig::from_env(&late_wrong), Err(ConfigError::InvalidInterval));
}

#[test]
fn a_wrong_configuration_ends_the_run_before_any_request() {
    let run = Run::start(&without("TWITTER_QUERY"));
    assert_eq!(run, Run::Failed(RunError::Config(ConfigError::Missing(Variable::Query))));
    assert!(run.is_over());
}

#[test]
fn a_run_starts_with_the_credential_refresh() {
    match Run::start(&env(&complete())) {
        Run::Refreshing { refresh: TokenRefresh::Fetching { request, client }, query, minutes } => {
            assert_eq!(request.table, "tokens");
            assert_eq!(client.client_id, "aWQ6MTpjaQ");
            assert_eq!(query, "#rustlang -is:retweet");
            assert_eq!(minutes, 15);
        },
        other => panic!("the run did not start with the refresh: {:?}", other),
    }
}

#[test]
fn main_test_scrape() {
    let run = Run::start(&env(&complete()));
    let run = run.advance(stored("r0"));
    let run = run.advance(granted("access-9", Some("r1")));
    assert!(matches!(run, Run::Refreshing { refresh: TokenRefresh::Persisting { .. }, .. }));
    let run = run.advance(Event::Token(TokenEvent::Persisted(Ok(()))));
    assert_eq!(
        run,
        Run::Working(ScrapeRetweet::Clock {
            search_term: "#rustlang -is:retweet".to_string(),
            access_token: "access-9".to_string(),
            minutes: 15,
        })
    );
    let run = run.advance(Event::Job(JobEvent::Now(Instant { seconds: 1_643_673_600, nanos: 0 })));
    let run = run.advance(me());
    match &run {
        Run::Working(ScrapeRetweet::Search { walk, user_id, access_token }) => {
            assert_eq!(walk.request.start_time, "2022-01-31T23:45:00+00:00");
            assert_eq!(user_id, "7");
            assert_eq!(access_token, "access-9");
        },
        other => panic!("the search did not start: {:?}", other),
    }
    let run = run.advance(Event::Job(JobEvent::Page(Ok(TwitterApiResponse {
        data: Some(vec![Tweet { id: "1".to_string(), text: String::new() }]),
        meta: None,
    }))));
    assert!(!run.is_over());
    let run = run.advance(Event::Job(JobEvent::Retweeted(Ok(HttpReply {
        status: 403,
        body: "duplicate".to_string(),
    }))));
    assert!(run.is_over());
    assert_eq!(
        run,
        Run::Finished(Report {
            succeeded: 0,
            failed: 1,
            results: vec![ActionResult {
                post_id: "1".to_string(),
                outcome: Outcome::Rejected(HttpReply { status: 403, body: "duplicate".to_string() }),
            }],
        })
    );
}

#[test]
fn a_grant_without_rotation_starts_the_pass_at_once() {
    let run = Run::start(&env(&complete())).advance(stored("r0")).advance(granted("a", None));
    assert_eq!(
        run,
        Run::Working(ScrapeRetweet::Clock {
            search_term: "#rustlang -is:retweet".to_string(),
            access_token: "a".to_string(),
            minutes: 15,
        })
    );
}

#[test]
fn a_refresh_that_fails_ends_the_run() {
    let run = Run::start(&env(&complete())).advance(Event::Token(TokenEvent::Fetched(Ok(None))));
    assert_eq!(run, Run::Failed(RunError::Token(TokenError::Fetch(StoreError::NotFound))));
    let run = Run::start(&env(&complete()))
        .advance(stored("r0"))
        .advance(Event::Token(TokenEvent::Exchanged(Err("invalid_grant".to_string()))));
    assert_eq!(run, Run::Failed(RunError::Token(TokenError::Exchange("invalid_grant".to_string()))));
}

#[test]
fn a_pass_that_is_given_up_ends_the_run() {
    let run = Run::start(&env(&complete()))
        .advance(stored("r0"))
        .advance(granted("a", None))
        .advance(Event::Job(JobEvent::Now(Instant { seconds: 0, nanos: 0 })))
        .advance(Event::Job(JobEvent::Identified(Ok(TwitterApiResponse { data: None, meta: None }))));
    assert_eq!(run, Run::Failed(RunError::Job(JobError::NoIdentity)));
}

#[test]
fn an_answer_for_the_other_flow_ends_the_run() {
    let run = Run::start(&env(&complete())).advance(me());
    assert_eq!(run, Run::Failed(RunError::OutOfTurn));
    let run = Run::start(&env(&complete()))
        .advance(stored("r0"))
        .advance(granted("a", None))
        .advance(stored("r0"));
    assert_eq!(run, Run::Failed(RunError::OutOfTurn));
    let run = Run::start(&env(&complete())).advance(granted("a", None));
    assert_eq!(run, Run::Failed(RunError::Token(TokenError::OutOfTurn)));
}

#[test]
fn a_run_that_has_ended_stays_as_it_is() {
    let finished = Run::Finished(Report { succeeded: 0, failed: 0, results: vec![] });
    assert_eq!(
        finished.advance(me()),
        Run::Finished(Report { succeeded: 0, failed: 0, results: vec![] })
    );
    let failed = Run::Failed(RunError::OutOfTurn);
    assert_eq!(failed.advance(stored("r")), Run::Failed(RunError::OutOfTurn));
}

#[test]
fn run_errors_name_the_stage_that_failed() {
    assert_eq!(
        RunError::Config(ConfigError::InvalidInterval).message(),
        "configuration: The TWITTER_SCRAPE_INTERVAL variable does not hold a whole number of minutes"
    );
    assert_eq!(
        RunError::Token(TokenError::Fetch(StoreError::NotText)).message(),
        "credential refresh: The refresh token was not a string type"
    );
    assert_eq!(
        RunError::Job(JobError::NoIdentity).message(),
        "scrape and retweet: No identity data returned by Twitter"
    );
    assert_eq!(
        RunError::OutOfTurn.message(),
        "An answer arrived for a request that was not outstanding"
    );
}

#[test]
fn the_endpoints_of_the_platform() {
    assert_eq!(identity_endpoint(), "https://api.twitter.com/2/users/me");
    assert_eq!(search_endpoint(), "https://api.twitter.com/2/tweets/search/recent");
    assert_eq!(retweet_endpoint(&"12".to_string()), "https://api.twitter.com/2/users/12/retweets");
    assert_eq!(retweet_endpoint(&String::new()), "https://api.twitter.com/2/users//retweets");
}
