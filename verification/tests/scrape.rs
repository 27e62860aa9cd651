use rust_lang_retweet::api::{HttpReply, Tweet, TwitterApiResponse, TwitterMeta, User};
use rust_lang_retweet::retweet::{ActionRequest, ActionResult, Outcome, Report};
use rust_lang_retweet::scrape::{
    get_self, scrape_retweet, IdentityResponse, JobError, JobEvent, ScrapeRetweet,
};
use rust_lang_retweet::search::{SearchPage, SearchRequest};
use rust_lang_retweet::window::Instant;

fn tweet(id: &str) -> Tweet {
    Tweet { id: id.to_string(), text: format!("#rustlang {}", id) }
}

fn me() -> IdentityResponse {
    TwitterApiResponse {
        data: Some(User {
            id: "2244994945".to_string(),
            name: "Rust Language".to_string(),
            username: "rustlang".to_string(),
        }),
        meta: None,
    }
}

fn page(ids: &[&str], cursor: Option<&str>) -> SearchPage {
    TwitterApiResponse {
        data: Some(ids.iter().map(|id| tweet(id)).collect()),
        meta: Some(TwitterMeta {
            newest_id: ids.first().map(|id| id.to_string()),
            oldest_id: ids.last().map(|id| id.to_string()),
            result_count: Some(ids.len()),
            next_token: cursor.map(|c| c.to_string()),
        }),
    }
}

fn ok() -> JobEvent {
    JobEvent::Retweeted(Ok(HttpReply { status: 200, body: "{}".to_string() }))
}

fn noon() -> JobEvent {
    JobEvent::Now(Instant { seconds: 1_643_716_800, nanos: 0 })
}

fn begin() -> ScrapeRetweet {
    scrape_retweet("#rustlang -is:retweet".to_string(), "access-1".to_string(), 60)
}

fn searching() -> ScrapeRetweet {
    begin().advance(noon()).advance(JobEvent::Identified(Ok(me())))
}

fn outstanding(step: &ScrapeRetweet) -> ActionRequest {
    match step {
        ScrapeRetweet::Retweet { dispatch, .. } => dispatch.request(),
        other => panic!("no request to re-share is outstanding: {:?}", other),
    }
}

#[test]
fn test_self() {
    let id = get_self(Ok(me())).unwrap();
    assert!(id.len() > 0);
    assert_eq!(id, "2244994945");
}

#[test]
fn an_answer_without_identity_is_an_error() {
    let nobody: IdentityResponse = TwitterApiResponse { data: None, meta: None };
    assert_eq!(get_self(Ok(nobody)), Err(JobError::NoIdentity));
    let only_meta: IdentityResponse = TwitterApiResponse { data: None, meta: Some(()) };
    assert_eq!(get_self(Ok(only_meta)), Err(JobError::NoIdentity));
    assert_eq!(
        get_self(Err("error decoding response body".to_string())),
        Err(JobError::Identity("error decoding response body".to_string()))
    );
}

#[test]
fn a_pass_starts_by_reading_the_clock() {
    assert_eq!(
        begin(),
        ScrapeRetweet::Clock {
            search_term: "#rustlang -is:retweet".to_string(),
            access_token: "access-1".to_string(),
            minutes: 60,
        }
    );
    assert!(!begin().is_over());
}

#[test]
fn the_window_is_fixed_when_the_clock_is_read() {
    assert_eq!(
        begin().advance(noon()),
        ScrapeRetweet::Identity {
            search_term: "#rustlang -is:retweet".to_string(),
            access_token: "access-1".to_string(),
            start_time: "2022-02-01T11:00:00+00:00".to_string(),
        }
    );
}

#[test]
fn a_window_outside_the_calendar_ends_the_pass() {
    let pass = scrape_retweet("q".to_string(), "a".to_string(), i64::MAX);
    assert_eq!(pass.advance(noon()), ScrapeRetweet::Failed(JobError::Window));
    let pass = scrape_retweet("q".to_string(), "a".to_string(), 1);
    assert_eq!(
        pass.advance(JobEvent::Now(Instant { seconds: i64::MIN + 60, nanos: 0 })),
        ScrapeRetweet::Failed(JobError::Window)
    );
}

#[test]
fn the_search_starts_once_the_account_is_known() {
    match searching() {
        ScrapeRetweet::Search { access_token, user_id, walk } => {
            assert_eq!(access_token, "access-1");
            assert_eq!(user_id, "2244994945");
            assert_eq!(
                walk.request,
                SearchRequest {
                    query: "#rustlang -is:retweet".to_string(),
                    start_time: "2022-02-01T11:00:00+00:00".to_string(),
                    next_token: None,
                }
            );
            assert!(walk.tweets.is_empty());
        },
        other => panic!("the search did not start: {:?}", other),
    }
}

#[test]
fn a_pass_without_identity_is_given_up() {
    let nobody: IdentityResponse = TwitterApiResponse { data: None, meta: None };
    assert_eq!(
        begin().advance(noon()).advance(JobEvent::Identified(Ok(nobody))),
        ScrapeRetweet::Failed(JobError::NoIdentity)
    );
    assert_eq!(
        begin().advance(noon()).advance(JobEvent::Identified(Err("401".to_string()))),
        ScrapeRetweet::Failed(JobError::Identity("401".to_string()))
    );
}

#[test]
fn test_all() {
    let step = searching();
    let step = step.advance(JobEvent::Page(Ok(page(&["1", "2"], Some("x")))));
    match &step {
        ScrapeRetweet::Search { walk, .. } => {
            assert_eq!(walk.request.next_token, Some("x".to_string()))
        },
        other => panic!("the search ended early: {:?}", other),
    }
    let step = step.advance(JobEvent::Page(Ok(page(&["3"], None))));
    let url = "https://api.twitter.com/2/users/2244994945/retweets".to_string();
    assert_eq!(outstanding(&step), ActionRequest { url: url.clone(), tweet_id: "1".to_string() });
    let step = step.advance(ok());
    assert_eq!(outstanding(&step), ActionRequest { url: url.clone(), tweet_id: "2".to_string() });
    let step = step.advance(JobEvent::Retweeted(Err("timed out".to_string())));
    assert_eq!(outstanding(&step), ActionRequest { url: url.clone(), tweet_id: "3".to_string() });
    let step = step.advance(ok());
    assert!(step.is_over());
    assert_eq!(
        step,
        ScrapeRetweet::Done(Report {
            succeeded: 2,
            failed: 1,
            results: vec![
                ActionResult { post_id: "1".to_string(), outcome: Outcome::Success },
                ActionResult {
                    post_id: "2".to_string(),
                    outcome: Outcome::Unsent("timed out".to_string()),
                },
                ActionResult { post_id: "3".to_string(), outcome: Outcome::Success },
            ],
        })
    );
}

#[test]
fn a_search_that_finds_nothing_ends_the_pass_with_an_empty_report() {
    let nothing: SearchPage = TwitterApiResponse { data: None, meta: None };
    assert_eq!(
        searching().advance(JobEvent::Page(Ok(nothing))),
        ScrapeRetweet::Done(Report { succeeded: 0, failed: 0, results: vec![] })
    );
}

#[test]
fn a_search_that_breaks_off_drops_what_it_had_and_shares_nothing() {
    let step = searching().advance(JobEvent::Page(Ok(page(&["1", "2"], Some("x")))));
    let step = step.advance(JobEvent::Page(Err("connection closed before message completed".to_string())));
    assert_eq!(
        step,
        ScrapeRetweet::Failed(JobError::Search(
            "connection closed before message completed".to_string()
        ))
    );
    assert!(step.is_over());
}

#[test]
fn an_answer_out_of_turn_ends_the_pass() {
    assert_eq!(begin().advance(ok()), ScrapeRetweet::Failed(JobError::OutOfTurn));
    assert_eq!(
        begin().advance(JobEvent::Identified(Ok(me()))),
        ScrapeRetweet::Failed(JobError::OutOfTurn)
    );
    assert_eq!(searching().advance(noon()), ScrapeRetweet::Failed(JobError::OutOfTurn));
    assert_eq!(searching().advance(ok()), ScrapeRetweet::Failed(JobError::OutOfTurn));
    let sharing = searching().advance(JobEvent::Page(Ok(page(&["1"], None))));
    assert_eq!(
        sharing.advance(JobEvent::Page(Ok(page(&["2"], None)))),
        ScrapeRetweet::Failed(JobError::OutOfTurn)
    );
}

#[test]
fn a_pass_that_has_ended_stays_as_it_is() {
    let done = ScrapeRetweet::Done(Report { succeeded: 0, failed: 0, results: vec![] });
    assert_eq!(
        done.advance(noon()),
        ScrapeRetweet::Done(Report { succeeded: 0, failed: 0, results: vec![] })
    );
    let failed = ScrapeRetweet::Failed(JobError::NoIdentity);
    assert_eq!(failed.advance(ok()), ScrapeRetweet::Failed(JobError::NoIdentity));
}

#[test]
fn job_errors_say_what_went_wrong() {
    assert_eq!(JobError::NoIdentity.message(), "No identity data returned by Twitter");
    assert_eq!(JobError::Window.message(), "The look-back window starts outside the calendar");
    assert_eq!(JobError::Identity("401".to_string()).message(), "401");
    assert_eq!(JobError::Search("eof".to_string()).message(), "eof");
    assert_eq!(
        JobError::OutOfTurn.message(),
        "An answer arrived for a request that was not outstanding"
    );
}
