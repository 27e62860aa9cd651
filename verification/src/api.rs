//! What the platform's API sends, as far as the job reads it, and where its
//! endpoints are.

use vstd::prelude::*;

verus! {

/// The envelope of every answer of the API: either part may be absent.
#[derive(Debug, Clone, PartialEq, Eq)]
pub struct TwitterApiResponse<DATA, META> {
    pub data: Option<DATA>,
    pub meta: Option<META>,
}

/// The view of [`TwitterApiResponse`] that contracts speak of: each text is a sequence of characters.
pub struct TwitterApiResponseView<DATA, META> {
    pub data: Option<DATA>,
    pub meta: Option<META>,
}

impl<DATA: DeepView, META: DeepView> View for TwitterApiResponse<DATA, META> {
    type V = TwitterApiResponseView<DATA::V, META::V>;

    open spec fn view(&self) -> TwitterApiResponseView<DATA::V, META::V> {
        TwitterApiResponseView { data: self.data.deep_view(), meta: self.meta.deep_view() }
    }
}

impl<DATA: DeepView, META: DeepView> DeepView for TwitterApiResponse<DATA, META> {
    type V = TwitterApiResponseView<DATA::V, META::V>;

    open spec fn deep_view(&self) -> TwitterApiResponseView<DATA::V, META::V> {
        self@
    }
}

/// An account.
#[derive(Debug, Clone, PartialEq, Eq)]
pub struct User {
    pub id: String,
    pub name: String,
    pub username: String,
}

/// The view of [`User`] that contracts speak of: each text is a sequence of characters.
pub struct UserView {
    pub id: Seq<char>,
    pub name: Seq<char>,
    pub username: Seq<char>,
}

impl View for User {
    type V = UserView;

    open spec fn view(&self) -> UserView {
        UserView { id: self.id@, name: self.name@, username: self.username@ }
    }
}

impl DeepView for User {
    type V = UserView;

    open spec fn deep_view(&self) -> UserView {
        self@
    }
}

/// A post. Its text may be empty.
#[derive(Debug, Clone, PartialEq, Eq)]
pub struct Tweet {
    pub id: String,
    pub text: String,
}

/// The view of [`Tweet`] that contracts speak of: each text is a sequence of characters.
pub struct TweetView {
    pub id: Seq<char>,
    pub text: Seq<char>,
}

impl View for Tweet {
    type V = TweetView;

    open spec fn view(&self) -> TweetView {
        TweetView { id: self.id@, text: self.text@ }
    }
}

impl DeepView for Tweet {
    type V = TweetView;

    open spec fn deep_view(&self) -> TweetView {
        self@
    }
}

/// The summary of one page of search results.
#[derive(Debug, Clone, PartialEq, Eq)]
pub struct TwitterMeta {
    pub newest_id: Option<String>,
    pub oldest_id: Option<String>,
    pub result_count: Option<usize>,
    /// The cursor of the page that follows, where one does.
    pub next_token: Option<String>,
}

/// The view of [`TwitterMeta`] that contracts speak of: each text is a sequence of characters.
pub struct TwitterMetaView {
    pub newest_id: Option<Seq<char>>,
    pub oldest_id: Option<Seq<char>>,
    pub result_count: Option<usize>,
    pub next_token: Option<Seq<char>>,
}

impl View for TwitterMeta {
    type V = TwitterMetaView;

    open spec fn view(&self) -> TwitterMetaView {
        TwitterMetaView {
            newest_id: self.newest_id.deep_view(),
            oldest_id: self.oldest_id.deep_view(),
            result_count: self.result_count,
            next_token: self.next_token.deep_view(),
        }
    }
}

impl DeepView for TwitterMeta {
    type V = TwitterMetaView;

    open spec fn deep_view(&self) -> TwitterMetaView {
        self@
    }
}

/// What the platform answered to a request that is sent for its effect alone.
#[derive(Debug, Clone, PartialEq, Eq)]
pub struct HttpReply {
    pub status: u16,
    pub body: String,
}

/// The view of [`HttpReply`] that contracts speak of: each text is a sequence of characters.
pub struct HttpReplyView {
    pub status: u16,
    pub body: Seq<char>,
}

impl View for HttpReply {
    type V = HttpReplyView;

    open spec fn view(&self) -> HttpReplyView {
        HttpReplyView { status: self.status, body: self.body@ }
    }
}

impl DeepView for HttpReply {
    type V = HttpReplyView;

    open spec fn deep_view(&self) -> HttpReplyView {
        self@
    }
}

/// Where the account's own identity is asked for.
pub open spec fn identity_url() -> Seq<char> {
    "https://api.twitter.com/2/users/me"@
}

/// Where recent posts are searched.
pub open spec fn search_url() -> Seq<char> {
    "https://api.twitter.com/2/tweets/search/recent"@
}

/// Where the account `user_id` re-shares a post.
pub open spec fn retweet_url(user_id: Seq<char>) -> Seq<char> {
    "https://api.twitter.com/2/users/"@ + user_id + "/retweets"@
}

/// Where the account's own identity is asked for.
pub fn identity_endpoint() -> (url: String)
    ensures
        url@ == identity_url(),
{
    String::from_str("https://api.twitter.com/2/users/me")
}

/// Where recent posts are searched.
pub fn search_endpoint() -> (url: String)
    ensures
        url@ == search_url(),
{
    String::from_str("https://api.twitter.com/2/tweets/search/recent")
}

/// Where the account `user_id` re-shares a post.
pub fn retweet_endpoint(user_id: &String) -> (url: String)
    ensures
        url@ == retweet_url(user_id@),
{
    let mut url = String::from_str("https://api.twitter.com/2/users/");
    url.append(user_id.as_str());
    url.append("/retweets");
    url
}

} // verus!
