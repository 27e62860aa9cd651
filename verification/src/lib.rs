//! Decision logic of a scheduled retweet job: refresh an OAuth2 credential,
//! walk a cursor-paginated search, and re-share every post found.
//!
//! The library performs no input or output. Each flow is a state machine: its
//! state names the request that is outstanding, the caller performs that
//! request and hands the answer back, and the machine decides what comes next.

pub mod api;
pub mod auth;
pub mod dynamo;
pub mod environment;
pub mod retweet;
pub mod run;
pub mod scrape;
pub mod search;
pub mod text;
pub mod token;
pub mod views;
pub mod window;

