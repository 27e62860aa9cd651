use rust_lang_retweet::api::{HttpReply, Tweet};
use rust_lang_retweet::retweet::{
    classify, retweet, summarize, ActionRequest, ActionResult, Answer, Dispatch, Dispatcher,
    Outcome, Report,
};

fn post(id: &str) -> Tweet {
    Tweet { id: id.to_string(), text: format!("text of {}", id) }
}

fn reply(status: u16, body: &str) -> HttpReply {
    HttpReply { status, body: body.to_string() }
}

fn next(step: Dispatch) -> Dispatcher {
    match step {
        Dispatch::Next(dispatch) => dispatch,
        Dispatch::Done(_) => panic!("the dispatch ended with posts left"),
    }
}

/// Answers the requests of a dispatch in turn; returns what was asked and the results.
fn replay(user_id: &str, posts: Vec<Tweet>, answers: Vec<Answer>) -> (Vec<ActionRequest>, Vec<ActionResult>) {
    let mut asked = Vec::new();
    let mut step = retweet(user_id.to_string(), posts);
    for answer in answers {
        let dispatch = next(step);
        asked.push(dispatch.request());
        step = dispatch.record(answer);
    }
    match step {
        Dispatch::Done(results) => (asked, results),
        Dispatch::Next(_) => panic!("the answers ran out before the dispatch ended"),
    }
}

#[test]
fn a_failed_request_does_not_stop_the_requests_after_it() {
    let (asked, results) = replay(
        "2244994945",
        vec![post("1001"), post("1002"), post("1003")],
        vec![
            Ok(reply(200, "{\"data\":{\"retweeted\":true}}")),
            Err("connection reset by peer".to_string()),
            Ok(reply(200, "{\"data\":{\"retweeted\":true}}")),
        ],
    );
    let url = "https://api.twitter.com/2/users/2244994945/retweets".to_string();
    assert_eq!(
        asked,
        vec![
            ActionRequest { url: url.clone(), tweet_id: "1001".to_string() },
            ActionRequest { url: url.clone(), tweet_id: "1002".to_string() },
            ActionRequest { url: url.clone(), tweet_id: "1003".to_string() },
        ]
    );
    assert_eq!(
        results,
        vec![
            ActionResult { post_id: "1001".to_string(), outcome: Outcome::Success },
            ActionResult {
                post_id: "1002".to_string(),
                outcome: Outcome::Unsent("connection reset by peer".to_string()),
            },
            ActionResult { post_id: "1003".to_string(), outcome: Outcome::Success },
        ]
    );
}

#[test]
fn a_rejected_request_is_noted_with_the_answer_of_the_platform() {
    let (asked, results) = replay(
        "7",
        vec![post("10"), post("11")],
        vec![Ok(reply(403, "You have already retweeted this Tweet.")), Ok(reply(201, ""))],
    );
    assert_eq!(asked.len(), 2);
    assert_eq!(
        results,
        vec![
            ActionResult {
                post_id: "10".to_string(),
                outcome: Outcome::Rejected(reply(403, "You have already retweeted this Tweet.")),
            },
            ActionResult { post_id: "11".to_string(), outcome: Outcome::Success },
        ]
    );
}

#[test]
fn every_request_may_fail_and_every_post_is_still_asked_for() {
    let (asked, results) = replay(
        "7",
        vec![post("a"), post("b"), post("c"), post("d")],
        vec![
            Err("timeout".to_string()),
            Ok(reply(500, "oops")),
            Err("dns".to_string()),
            Ok(reply(429, "slow down")),
        ],
    );
    let ids: Vec<&str> = asked.iter().map(|r| r.tweet_id.as_str()).collect();
    assert_eq!(ids, vec!["a", "b", "c", "d"]);
    assert_eq!(results.len(), 4);
    assert!(results.iter().all(|r| r.outcome != Outcome::Success));
}

#[test]
fn nothing_to_share_ends_the_dispatch_at_once() {
    assert_eq!(retweet("7".to_string(), vec![]), Dispatch::Done(vec![]));
}

#[test]
fn one_post_takes_one_request() {
    let dispatch = next(retweet("42".to_string(), vec![post("1492")]));
    assert_eq!(
        dispatch.request(),
        ActionRequest {
            url: "https://api.twitter.com/2/users/42/retweets".to_string(),
            tweet_id: "1492".to_string(),
        }
    );
    assert_eq!(
        dispatch.record(Ok(reply(200, "ok"))),
        Dispatch::Done(vec![ActionResult { post_id: "1492".to_string(), outcome: Outcome::Success }])
    );
}

#[test]
fn success_is_a_status_from_200_to_299() {
    assert_eq!(classify(Ok(reply(199, "a"))), Outcome::Rejected(reply(199, "a")));
    assert_eq!(classify(Ok(reply(200, "b"))), Outcome::Success);
    assert_eq!(classify(Ok(reply(204, ""))), Outcome::Success);
    assert_eq!(classify(Ok(reply(299, "c"))), Outcome::Success);
    assert_eq!(classify(Ok(reply(300, "d"))), Outcome::Rejected(reply(300, "d")));
    assert_eq!(classify(Ok(reply(0, ""))), Outcome::Rejected(reply(0, "")));
    assert_eq!(classify(Ok(reply(u16::MAX, ""))), Outcome::Rejected(reply(u16::MAX, "")));
    assert_eq!(classify(Err("no route to host".to_string())), Outcome::Unsent("no route to host".to_string()));
}

#[test]
fn outcomes_know_whether_they_are_successes() {
    let outcomes = vec![
        Outcome::Success,
        Outcome::Rejected(reply(409, "conflict")),
        Outcome::Unsent("broken pipe".to_string()),
    ];
    assert_eq!(outcomes.iter().map(|o| o.is_success()).collect::<Vec<bool>>(), vec![true, false, false]);
}

#[test]
fn the_report_counts_successes_and_failures() {
    let results = vec![
        ActionResult { post_id: "1".to_string(), outcome: Outcome::Success },
        ActionResult { post_id: "2".to_string(), outcome: Outcome::Unsent("timeout".to_string()) },
        ActionResult { post_id: "3".to_string(), outcome: Outcome::Success },
        ActionResult { post_id: "4".to_string(), outcome: Outcome::Rejected(reply(403, "no")) },
        ActionResult { post_id: "5".to_string(), outcome: Outcome::Success },
    ];
    let report = summarize(results.clone());
    assert_eq!(report, Report { succeeded: 3, failed: 2, results: results.clone() });
    assert_eq!(report.succeeded + report.failed, report.results.len());
    assert_eq!(report.failures(), vec![results[1].clone(), results[3].clone()]);
}

#[test]
fn the_report_on_nothing_is_empty() {
    let report = summarize(vec![]);
    assert_eq!(report, Report { succeeded: 0, failed: 0, results: vec![] });
    assert_eq!(report.failures(), vec![]);
}

#[test]
fn a_report_of_successes_has_no_failures() {
    let results = vec![
        ActionResult { post_id: "1".to_string(), outcome: Outcome::Success },
        ActionResult { post_id: "2".to_string(), outcome: Outcome::Success },
    ];
    let report = summarize(results);
    assert_eq!((report.succeeded, report.failed), (2, 0));
    assert!(report.failures().is_empty());
}
