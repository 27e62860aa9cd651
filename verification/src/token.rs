//! The token manager: turns the stored refresh credential into an access
//! credential, and stores the refresh credential anew where the platform
//! rotated it.

use crate::auth::{ClientSettings, ClientSettingsView};
use crate::dynamo::{
    credential_item, credential_key, fetch_refresh_token, get, get_refresh_token,
    lemma_update_is_read_back, put, stored_credential, update_database, AttributeView, Fetched,
    GetItem, GetItemView, PutItem, PutItemView, Store, StoreError, StoreErrorView,
};
use crate::views::result_view;
use vstd::prelude::*;

verus! {

/// What the token endpoint grants.
#[derive(Debug, Clone, PartialEq, Eq)]
pub struct TokenGrant {
    pub access_token: String,
    /// The refresh credential that replaces the one that was presented, if the
    /// platform rotated it.
    pub refresh_token: Option<String>,
    /// For how many seconds the access credential is good, if the platform said so.
    pub expires_in: Option<u64>,
}

/// The view of [`TokenGrant`] that contracts speak of: each text is a sequence of characters.
pub struct TokenGrantView {
    pub access_token: Seq<char>,
    pub refresh_token: Option<Seq<char>>,
    pub expires_in: Option<u64>,
}

impl View for TokenGrant {
    type V = TokenGrantView;

    open spec fn view(&self) -> TokenGrantView {
        TokenGrantView {
            access_token: self.access_token@,
            refresh_token: self.refresh_token.deep_view(),
            expires_in: self.expires_in,
        }
    }
}

impl DeepView for TokenGrant {
    type V = TokenGrantView;

    open spec fn deep_view(&self) -> TokenGrantView {
        self@
    }
}

/// A short-lived credential for the platform's API. It lives for one run and
/// is never stored.
#[derive(Debug, Clone, PartialEq, Eq)]
pub struct AccessCredential {
    pub access_token: String,
    pub expires_in: Option<u64>,
}

/// The view of [`AccessCredential`] that contracts speak of: each text is a sequence of characters.
pub struct AccessCredentialView {
    pub access_token: Seq<char>,
    pub expires_in: Option<u64>,
}

impl View for AccessCredential {
    type V = AccessCredentialView;

    open spec fn view(&self) -> AccessCredentialView {
        AccessCredentialView { access_token: self.access_token@, expires_in: self.expires_in }
    }
}

impl DeepView for AccessCredential {
    type V = AccessCredentialView;

    open spec fn deep_view(&self) -> AccessCredentialView {
        self@
    }
}

/// A refresh grant: `refresh_token` is exchanged at the token endpoint of
/// `client`, and `extra_params` travel with the request.
#[derive(Debug, Clone, PartialEq, Eq)]
pub struct ExchangeRequest {
    pub client: ClientSettings,
    pub refresh_token: String,
    pub extra_params: Vec<(String, String)>,
}

/// The view of [`ExchangeRequest`] that contracts speak of: each text is a sequence of characters.
pub struct ExchangeRequestView {
    pub client: ClientSettingsView,
    pub refresh_token: Seq<char>,
    pub extra_params: Seq<(Seq<char>, Seq<char>)>,
}

impl View for ExchangeRequest {
    type V = ExchangeRequestView;

    open spec fn view(&self) -> ExchangeRequestView {
        ExchangeRequestView {
            client: self.client@,
            refresh_token: self.refresh_token@,
            extra_params: self.extra_params.deep_view(),
        }
    }
}

impl DeepView for ExchangeRequest {
    type V = ExchangeRequestView;

    open spec fn deep_view(&self) -> ExchangeRequestView {
        self@
    }
}

/// Why no access credential was obtained.
#[derive(Debug, Clone, PartialEq, Eq)]
pub enum TokenError {
    /// The stored refresh credential could not be read.
    Fetch(StoreError),
    /// The exchange failed; what the transport or the platform said, as it came.
    Exchange(String),
    /// The rotated refresh credential could not be stored; the cause in words.
    Persist(String),
    /// The platform granted access without the refresh credential that was asked for.
    NoRefreshToken,
    /// An answer came that belongs to no request outstanding.
    OutOfTurn,
}

/// The view of [`TokenError`] that contracts speak of: each text is a sequence of characters.
pub enum TokenErrorView {
    Fetch(StoreErrorView),
    Exchange(Seq<char>),
    Persist(Seq<char>),
    NoRefreshToken,
    OutOfTurn,
}

impl View for TokenError {
    type V = TokenErrorView;

    open spec fn view(&self) -> TokenErrorView {
        match self {
            TokenError::Fetch(error) => TokenErrorView::Fetch(error@),
            TokenError::Exchange(payload) => TokenErrorView::Exchange(payload@),
            TokenError::Persist(cause) => TokenErrorView::Persist(cause@),
            TokenError::NoRefreshToken => TokenErrorView::NoRefreshToken,
            TokenError::OutOfTurn => TokenErrorView::OutOfTurn,
        }
    }
}

impl DeepView for TokenError {
    type V = TokenErrorView;

    open spec fn deep_view(&self) -> TokenErrorView {
        self@
    }
}

impl TokenErrorView {
    /// The error in words.
    pub open spec fn message(self) -> Seq<char> {
        match self {
            TokenErrorView::Fetch(error) => error.message(),
            TokenErrorView::Exchange(payload) => payload,
            TokenErrorView::Persist(cause) => cause,
            TokenErrorView::NoRefreshToken => "No refresh token provided"@,
            TokenErrorView::OutOfTurn => "An answer arrived for a request that was not outstanding"@,
        }
    }
}

impl TokenError {
    /// The error in words.
    pub fn message(&self) -> (message: String)
        ensures
            message@ == self@.message(),
    {
        match self {
            TokenError::Fetch(error) => error.message(),
            TokenError::Exchange(payload) => payload.clone(),
            TokenError::Persist(cause) => cause.clone(),
            TokenError::NoRefreshToken => String::from_str("No refresh token provided"),
            TokenError::OutOfTurn => String::from_str(
                "An answer arrived for a request that was not outstanding",
            ),
        }
    }
}

/// A step of the refresh: the request that is outstanding, or how the refresh ended.
#[derive(Debug, Clone, PartialEq, Eq)]
#[allow(inconsistent_fields)]
pub enum TokenRefresh {
    /// The store is being asked for the refresh credential.
    Fetching { request: GetItem, client: ClientSettings },
    /// The refresh credential is being exchanged; `table` is where a rotated one goes.
    Exchanging { request: ExchangeRequest, table: String },
    /// The rotated refresh credential is being stored, `access` in hand.
    Persisting { request: PutItem, access: AccessCredential },
    /// The access credential.
    Done(AccessCredential),
    /// No access credential.
    Failed(TokenError),
}

/// The view of [`TokenRefresh`] that contracts speak of: each text is a sequence of characters.
#[allow(inconsistent_fields)]
pub enum TokenRefreshView {
    Fetching { request: GetItemView, client: ClientSettingsView },
    Exchanging { request: ExchangeRequestView, table: Seq<char> },
    Persisting { request: PutItemView, access: AccessCredentialView },
    Done(AccessCredentialView),
    Failed(TokenErrorView),
}

impl View for TokenRefresh {
    type V = TokenRefreshView;

    open spec fn view(&self) -> TokenRefreshView {
        match self {
            TokenRefresh::Fetching { request, client } => TokenRefreshView::Fetching {
                request: request@,
                client: client@,
            },
            TokenRefresh::Exchanging { request, table } => TokenRefreshView::Exchanging {
                request: request@,
                table: table@,
            },
            TokenRefresh::Persisting { request, access } => TokenRefreshView::Persisting {
                request: request@,
                access: access@,
            },
            TokenRefresh::Done(access) => TokenRefreshView::Done(access@),
            TokenRefresh::Failed(error) => TokenRefreshView::Failed(error@),
        }
    }
}

impl DeepView for TokenRefresh {
    type V = TokenRefreshView;

    open spec fn deep_view(&self) -> TokenRefreshView {
        self@
    }
}

/// The answer to the request that was outstanding.
#[derive(Debug, PartialEq, Eq)]
pub enum TokenEvent {
    /// What the store answered to the request for the refresh credential.
    Fetched(Fetched),
    /// What the token endpoint granted, or what went wrong, as it came.
    Exchanged(Result<TokenGrant, String>),
    /// Whether the store took the rotated refresh credential.
    Persisted(Result<(), String>),
}

/// The view of [`TokenEvent`] that contracts speak of: each text is a sequence of characters.
pub enum TokenEventView {
    Fetched(Result<Option<Seq<(Seq<char>, AttributeView)>>, Seq<char>>),
    Exchanged(Result<TokenGrantView, Seq<char>>),
    Persisted(Result<(), Seq<char>>),
}

impl View for TokenEvent {
    type V = TokenEventView;

    open spec fn view(&self) -> TokenEventView {
        match self {
            TokenEvent::Fetched(fetched) => TokenEventView::Fetched(result_view(*fetched)),
            TokenEvent::Exchanged(exchanged) => TokenEventView::Exchanged(result_view(*exchanged)),
            TokenEvent::Persisted(persisted) => TokenEventView::Persisted(result_view(*persisted)),
        }
    }
}

impl DeepView for TokenEvent {
    type V = TokenEventView;

    open spec fn deep_view(&self) -> TokenEventView {
        self@
    }
}

/// The refresh grant for `refresh_token`. The client's identifier travels twice:
/// in the authorization header that `client` asks for, and as a parameter of its own.
pub open spec fn exchange_of(client: ClientSettingsView, refresh_token: Seq<char>)
    -> ExchangeRequestView {
    ExchangeRequestView {
        client,
        refresh_token,
        extra_params: seq![("client_id"@, client.client_id)],
    }
}

/// The access credential of a grant.
pub open spec fn access_of(grant: TokenGrantView) -> AccessCredentialView {
    AccessCredentialView { access_token: grant.access_token, expires_in: grant.expires_in }
}

/// The first step of a refresh with `client`, the refresh credential being kept in `table`.
pub open spec fn begin(client: ClientSettingsView, table: Seq<char>) -> TokenRefreshView {
    TokenRefreshView::Fetching {
        request: GetItemView { table, key: credential_key() },
        client,
    }
}

/// The step that follows `step` once `event` has answered its request.
///
/// A stored credential that cannot be read ends the refresh, and so does an
/// exchange that fails. A grant that rotates the refresh credential is followed
/// by the request to store the new one, and the access credential is given out
/// only when the store has taken it. A refresh that has ended stays as it is.
pub open spec fn step(step: TokenRefreshView, event: TokenEventView) -> TokenRefreshView {
    match (step, event) {
        (TokenRefreshView::Fetching { request, client }, TokenEventView::Fetched(fetched)) => {
            match stored_credential(fetched) {
                Ok(refresh_token) => TokenRefreshView::Exchanging {
                    request: exchange_of(client, refresh_token),
                    table: request.table,
                },
                Err(error) => TokenRefreshView::Failed(TokenErrorView::Fetch(error)),
            }
        },
        (TokenRefreshView::Exchanging { request: _, table }, TokenEventView::Exchanged(exchanged)) => {
            match exchanged {
                Err(payload) => TokenRefreshView::Failed(TokenErrorView::Exchange(payload)),
                Ok(grant) => match grant.refresh_token {
                    Some(rotated) => TokenRefreshView::Persisting {
                        request: PutItemView { table, item: credential_item(rotated) },
                        access: access_of(grant),
                    },
                    None => TokenRefreshView::Done(access_of(grant)),
                },
            }
        },
        (TokenRefreshView::Persisting { request: _, access }, TokenEventView::Persisted(persisted)) => {
            match persisted {
                Ok(_) => TokenRefreshView::Done(access),
                Err(cause) => TokenRefreshView::Failed(TokenErrorView::Persist(cause)),
            }
        },
        (TokenRefreshView::Done(access), _) => TokenRefreshView::Done(access),
        (TokenRefreshView::Failed(error), _) => TokenRefreshView::Failed(error),
        _ => TokenRefreshView::Failed(TokenErrorView::OutOfTurn),
    }
}

/// The step reached from `from` when `events` answer the requests in turn.
pub open spec fn run(from: TokenRefreshView, events: Seq<TokenEventView>) -> TokenRefreshView
    decreases events.len(),
{
    if events.len() == 0 {
        from
    } else {
        run(step(from, events[0]), events.drop_first())
    }
}

/// The refresh grant request for `refresh_token`.
pub fn exchange_refresh_token(client: ClientSettings, refresh_token: String) -> (request:
    ExchangeRequest)
    ensures
        request@ == exchange_of(client@, refresh_token@),
{
    let mut extra_params: Vec<(String, String)> = Vec::new();
    extra_params.push((String::from_str("client_id"), client.client_id.clone()));
    let request = ExchangeRequest { client, refresh_token, extra_params };
    assert(request.extra_params.deep_view() =~= seq![("client_id"@, client.client_id@)]);
    request
}

/// Starts a refresh: the first request goes to the store, for the refresh
/// credential that `table` holds.
pub fn get_access_token(client: ClientSettings, table: &String) -> (first: TokenRefresh)
    ensures
        first@ == begin(client@, table@),
{
    TokenRefresh::Fetching { request: fetch_refresh_token(table), client }
}

impl TokenRefresh {
    /// Whether the refresh has ended, with or without an access credential.
    pub fn is_over(&self) -> (over: bool)
        ensures
            over == (self@ is Done || self@ is Failed),
    {
        match self {
            TokenRefresh::Done(_) => true,
            TokenRefresh::Failed(_) => true,
            _ => false,
        }
    }

    /// Takes the answer to the outstanding request and decides what follows.
    pub fn advance(self, event: TokenEvent) -> (next: Self)
        ensures
            next@ == step(self@, event@),
    {
        match (self, event) {
            (TokenRefresh::Fetching { request, client }, TokenEvent::Fetched(fetched)) => {
                match get_refresh_token(fetched) {
                    Ok(refresh_token) => TokenRefresh::Exchanging {
                        request: exchange_refresh_token(client, refresh_token),
                        table: request.table,
                    },
                    Err(error) => TokenRefresh::Failed(TokenError::Fetch(error)),
                }
            },
            (TokenRefresh::Exchanging { request: _, table }, TokenEvent::Exchanged(exchanged)) => {
                match exchanged {
                    Err(payload) => TokenRefresh::Failed(TokenError::Exchange(payload)),
                    Ok(grant) => {
                        let access = AccessCredential {
                            access_token: grant.access_token,
                            expires_in: grant.expires_in,
                        };
                        match grant.refresh_token {
                            Some(rotated) => TokenRefresh::Persisting {
                                request: update_database(&table, rotated),
                                access,
                            },
                            None => TokenRefresh::Done(access),
                        }
                    },
                }
            },
            (TokenRefresh::Persisting { request: _, access }, TokenEvent::Persisted(persisted)) => {
                match persisted {
                    Ok(_) => TokenRefresh::Done(access),
                    Err(cause) => TokenRefresh::Failed(TokenError::Persist(cause)),
                }
            },
            (TokenRefresh::Done(access), _) => TokenRefresh::Done(access),
            (TokenRefresh::Failed(error), _) => TokenRefresh::Failed(error),
            _ => TokenRefresh::Failed(TokenError::OutOfTurn),
        }
    }
}

/// The scopes that the first authorization of the account asks for.
pub open spec fn scopes() -> Seq<Seq<char>> {
    seq!["tweet.write"@, "tweet.read"@, "users.read"@, "offline.access"@]
}

/// The refresh credential in the answer to the first exchange, the one that
/// trades an authorization code: a grant without one is an error there.
pub open spec fn first_credential(exchanged: Result<TokenGrantView, Seq<char>>) -> Result<
    Seq<char>,
    TokenErrorView,
> {
    match exchanged {
        Err(payload) => Err(TokenErrorView::Exchange(payload)),
        Ok(grant) => match grant.refresh_token {
            Some(refresh_token) => Ok(refresh_token),
            None => Err(TokenErrorView::NoRefreshToken),
        },
    }
}

/// The scopes that the first authorization of the account asks for.
pub fn authorization_scopes() -> (asked: Vec<String>)
    ensures
        asked.deep_view() == scopes(),
{
    let mut asked: Vec<String> = Vec::new();
    asked.push(String::from_str("tweet.write"));
    asked.push(String::from_str("tweet.read"));
    asked.push(String::from_str("users.read"));
    asked.push(String::from_str("offline.access"));
    assert(asked.deep_view() =~= scopes());
    asked
}

/// Reads the refresh credential out of the answer to the first exchange. It
/// is what the store has to hold before the job runs for the first time.
pub fn first_refresh_token(exchanged: Result<TokenGrant, String>) -> (found: Result<String, TokenError>)
    ensures
        match found {
            Ok(refresh_token) => first_credential(result_view(exchanged)) == Ok::<
                Seq<char>,
                TokenErrorView,
            >(refresh_token@),
            Err(error) => first_credential(result_view(exchanged)) == Err::<
                Seq<char>,
                TokenErrorView,
            >(error@),
        },
{
    match exchanged {
        Err(payload) => Err(TokenError::Exchange(payload)),
        Ok(grant) => match grant.refresh_token {
            Some(refresh_token) => Ok(refresh_token),
            None => Err(TokenError::NoRefreshToken),
        },
    }
}

/// The requests of a refresh that meets a readable refresh credential and a
/// platform that grants access, and where the refresh ends.
///
/// The credential that the store holds is the one exchanged. The refresh ends
/// with the access credential that the platform granted, which is not empty
/// unless the grant's is. A grant that does not rotate the refresh credential
/// ends the refresh at once and leaves the store alone. A grant that rotates it
/// is followed by one request to the store, and the refresh ends when the store
/// has taken it; from then on the store gives the new credential to whoever
/// asks as the refresh does, whatever the old one was. This is said of a store
/// that no other run writes to meanwhile.
pub proof fn lemma_refresh_gives_access_and_stores_rotation(
    store: Store,
    client: ClientSettingsView,
    table: Seq<char>,
    grant: TokenGrantView,
)
    requires
        stored_credential(Ok(get(store, GetItemView { table, key: credential_key() }))) is Ok,
    ensures
        ({
            let fetch = GetItemView { table, key: credential_key() };
            let held = stored_credential(Ok(get(store, fetch)))->Ok_0;
            let fetched = TokenEventView::Fetched(Ok(get(store, fetch)));
            let exchanged = TokenEventView::Exchanged(Ok(grant));
            let persisted = TokenEventView::Persisted(Ok(()));
            &&& begin(client, table) == (TokenRefreshView::Fetching { request: fetch, client })
            &&& run(begin(client, table), seq![fetched]) == (TokenRefreshView::Exchanging {
                request: exchange_of(client, held),
                table,
            })
            &&& match grant.refresh_token {
                None => run(begin(client, table), seq![fetched, exchanged])
                    == TokenRefreshView::Done(access_of(grant)),
                Some(rotated) => {
                    let update = PutItemView { table, item: credential_item(rotated) };
                    &&& run(begin(client, table), seq![fetched, exchanged]) == (
                    TokenRefreshView::Persisting { request: update, access: access_of(grant) })
                    &&& run(begin(client, table), seq![fetched, exchanged, persisted])
                        == TokenRefreshView::Done(access_of(grant))
                    &&& stored_credential(Ok(get(put(store, update), fetch))) == Ok::<
                        Seq<char>,
                        StoreErrorView,
                    >(rotated)
                },
            }
            &&& access_of(grant).access_token == grant.access_token
            &&& grant.access_token.len() > 0 ==> access_of(grant).access_token.len() > 0
        }),
{
    let fetch = GetItemView { table, key: credential_key() };
    let fetched = TokenEventView::Fetched(Ok(get(store, fetch)));
    let exchanged = TokenEventView::Exchanged(Ok(grant));
    let persisted = TokenEventView::Persisted(Ok(()));
    let first = begin(client, table);
    lemma_run_one(first, fetched);
    lemma_run_two(first, fetched, exchanged);
    lemma_run_three(first, fetched, exchanged, persisted);
    if let Some(rotated) = grant.refresh_token {
        lemma_update_is_read_back(store, table, rotated);
    }
}

/// One answer takes a refresh one step on.
proof fn lemma_run_one(from: TokenRefreshView, a: TokenEventView)
    ensures
        run(from, seq![a]) == step(from, a),
{
    assert(seq![a].drop_first() =~= Seq::<TokenEventView>::empty());
    assert(run(step(from, a), Seq::<TokenEventView>::empty()) == step(from, a));
}

/// Two answers take a refresh two steps on.
proof fn lemma_run_two(from: TokenRefreshView, a: TokenEventView, b: TokenEventView)
    ensures
        run(from, seq![a, b]) == step(step(from, a), b),
{
    assert(seq![a, b].drop_first() =~= seq![b]);
    lemma_run_one(step(from, a), b);
}

/// Three answers take a refresh three steps on.
proof fn lemma_run_three(
    from: TokenRefreshView,
    a: TokenEventView,
    b: TokenEventView,
    c: TokenEventView,
)
    ensures
        run(from, seq![a, b, c]) == step(step(step(from, a), b), c),
{
    assert(seq![a, b, c].drop_first() =~= seq![b, c]);
    lemma_run_two(step(from, a), b, c);
}

/// A refresh that has ended stays where it ended, whatever answers come.
pub proof fn lemma_run_over(from: TokenRefreshView, events: Seq<TokenEventView>)
    requires
        from is Done || from is Failed,
    ensures
        run(from, events) == from,
    decreases events.len(),
{
    if events.len() > 0 {
        lemma_run_over(from, events.drop_first());
    }
}

} // verus!
