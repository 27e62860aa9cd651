//! The key-value store that keeps the refresh credential between runs: which
//! requests to send it, and how to read what it answers.

use crate::environment::{required, reads, ConfigError, Environment, Variable};
use crate::text::{lookup, position};
use crate::views::result_view;
use vstd::prelude::*;

verus! {

/// The value of one attribute of a stored item, as far as the job reads it.
#[derive(Debug, Clone, PartialEq, Eq)]
pub enum Attribute {
    /// A string.
    Text(String),
    /// A value of any other type.
    Other,
}

/// The view of [`Attribute`] that contracts speak of: each text is a sequence of characters.
pub enum AttributeView {
    Text(Seq<char>),
    Other,
}

impl View for Attribute {
    type V = AttributeView;

    open spec fn view(&self) -> AttributeView {
        match self {
            Attribute::Text(text) => AttributeView::Text(text@),
            Attribute::Other => AttributeView::Other,
        }
    }
}

impl DeepView for Attribute {
    type V = AttributeView;

    open spec fn deep_view(&self) -> AttributeView {
        self@
    }
}

/// A stored item: its attributes by name.
#[derive(Debug, Clone, PartialEq, Eq)]
pub struct Item {
    pub attributes: Vec<(String, Attribute)>,
}

impl View for Item {
    type V = Seq<(Seq<char>, AttributeView)>;

    open spec fn view(&self) -> Seq<(Seq<char>, AttributeView)> {
        self.attributes.deep_view()
    }
}

impl DeepView for Item {
    type V = Seq<(Seq<char>, AttributeView)>;

    open spec fn deep_view(&self) -> Seq<(Seq<char>, AttributeView)> {
        self@
    }
}

/// A request for the item of `table` that has the attributes of `key`.
#[derive(Debug, Clone, PartialEq, Eq)]
pub struct GetItem {
    pub table: String,
    pub key: Vec<(String, Attribute)>,
}

/// The view of [`GetItem`] that contracts speak of: each text is a sequence of characters.
pub struct GetItemView {
    pub table: Seq<char>,
    pub key: Seq<(Seq<char>, AttributeView)>,
}

impl View for GetItem {
    type V = GetItemView;

    open spec fn view(&self) -> GetItemView {
        GetItemView { table: self.table@, key: self.key.deep_view() }
    }
}

impl DeepView for GetItem {
    type V = GetItemView;

    open spec fn deep_view(&self) -> GetItemView {
        self@
    }
}

/// A request to store `item` in `table`, in place of any item with the same key.
#[derive(Debug, Clone, PartialEq, Eq)]
pub struct PutItem {
    pub table: String,
    pub item: Vec<(String, Attribute)>,
}

/// The view of [`PutItem`] that contracts speak of: each text is a sequence of characters.
pub struct PutItemView {
    pub table: Seq<char>,
    pub item: Seq<(Seq<char>, AttributeView)>,
}

impl View for PutItem {
    type V = PutItemView;

    open spec fn view(&self) -> PutItemView {
        PutItemView { table: self.table@, item: self.item.deep_view() }
    }
}

impl DeepView for PutItem {
    type V = PutItemView;

    open spec fn deep_view(&self) -> PutItemView {
        self@
    }
}

/// Why the store did not give the refresh credential, or did not take it.
#[derive(Debug, Clone, PartialEq, Eq)]
pub enum StoreError {
    /// The store could not be reached or refused the request; the cause in words.
    Unavailable(String),
    /// The store holds no item under the key.
    NotFound,
    /// The item has no attribute for the credential.
    NoValue,
    /// The attribute for the credential is not a string.
    NotText,
}

/// The view of [`StoreError`] that contracts speak of: each text is a sequence of characters.
pub enum StoreErrorView {
    Unavailable(Seq<char>),
    NotFound,
    NoValue,
    NotText,
}

impl View for StoreError {
    type V = StoreErrorView;

    open spec fn view(&self) -> StoreErrorView {
        match self {
            StoreError::Unavailable(cause) => StoreErrorView::Unavailable(cause@),
            StoreError::NotFound => StoreErrorView::NotFound,
            StoreError::NoValue => StoreErrorView::NoValue,
            StoreError::NotText => StoreErrorView::NotText,
        }
    }
}

impl DeepView for StoreError {
    type V = StoreErrorView;

    open spec fn deep_view(&self) -> StoreErrorView {
        self@
    }
}

impl StoreErrorView {
    /// The error in words.
    pub open spec fn message(self) -> Seq<char> {
        match self {
            StoreErrorView::Unavailable(cause) => cause,
            StoreErrorView::NotFound => "Failed to download key"@,
            StoreErrorView::NoValue => "Refresh token was not present in the database"@,
            StoreErrorView::NotText => "The refresh token was not a string type"@,
        }
    }
}

impl StoreError {
    /// The error in words.
    pub fn message(&self) -> (message: String)
        ensures
            message@ == self@.message(),
    {
        match self {
            StoreError::Unavailable(cause) => cause.clone(),
            StoreError::NotFound => String::from_str("Failed to download key"),
            StoreError::NoValue => String::from_str(
                "Refresh token was not present in the database",
            ),
            StoreError::NotText => String::from_str("The refresh token was not a string type"),
        }
    }
}

/// What the store answered to a request for an item: the item, `None` where it
/// holds none under the key, or why it could not answer.
pub type Fetched = Result<Option<Item>, String>;

/// The key of the one item that the job keeps.
pub open spec fn key_name() -> AttributeView {
    AttributeView::Text("refresh_token"@)
}

/// The key of the item that holds the refresh credential.
pub open spec fn credential_key() -> Seq<(Seq<char>, AttributeView)> {
    seq![("id"@, key_name())]
}

/// The item that holds `refresh_token` as the refresh credential.
pub open spec fn credential_item(refresh_token: Seq<char>) -> Seq<(Seq<char>, AttributeView)> {
    seq![("id"@, key_name()), ("value"@, AttributeView::Text(refresh_token))]
}

/// The refresh credential that `item` holds, or what is wrong with `item`.
pub open spec fn credential_of(item: Seq<(Seq<char>, AttributeView)>) -> Result<
    Seq<char>,
    StoreErrorView,
> {
    match lookup(item, "value"@) {
        None => Err(StoreErrorView::NoValue),
        Some(AttributeView::Other) => Err(StoreErrorView::NotText),
        Some(AttributeView::Text(refresh_token)) => Ok(refresh_token),
    }
}

/// The refresh credential in the store's answer, or why there is none.
pub open spec fn stored_credential(fetched: Result<Option<Seq<(Seq<char>, AttributeView)>>, Seq<char>>)
    -> Result<Seq<char>, StoreErrorView> {
    match fetched {
        Err(cause) => Err(StoreErrorView::Unavailable(cause)),
        Ok(None) => Err(StoreErrorView::NotFound),
        Ok(Some(item)) => credential_of(item),
    }
}

/// The value of the key under which the refresh credential is stored.
pub fn get_key_name() -> (key: Attribute)
    ensures
        key@ == key_name(),
{
    Attribute::Text(String::from_str("refresh_token"))
}

/// The name of the table that holds the refresh credential.
pub fn get_table_name(env: &Environment) -> (found: Result<String, ConfigError>)
    ensures
        reads(found, required(env@, Variable::TableName)),
{
    env.get(Variable::TableName)
}

/// The request that reads the refresh credential from `table`.
pub fn fetch_refresh_token(table: &String) -> (request: GetItem)
    ensures
        request@ == (GetItemView { table: table@, key: credential_key() }),
{
    let mut key: Vec<(String, Attribute)> = Vec::new();
    key.push((String::from_str("id"), get_key_name()));
    let request = GetItem { table: table.clone(), key };
    assert(request.key.deep_view() =~= credential_key());
    request
}

/// The request that puts `refresh_token` into `table` as the refresh credential.
pub fn update_database(table: &String, refresh_token: String) -> (request: PutItem)
    ensures
        request@ == (PutItemView { table: table@, item: credential_item(refresh_token@) }),
{
    let mut item: Vec<(String, Attribute)> = Vec::new();
    item.push((String::from_str("id"), get_key_name()));
    item.push((String::from_str("value"), Attribute::Text(refresh_token)));
    let request = PutItem { table: table.clone(), item };
    assert(request.item.deep_view() =~= credential_item(refresh_token@));
    request
}

/// Reads the refresh credential out of the store's answer.
///
/// An item that is missing, an item without the credential and a credential
/// that is no string are three different errors, and none of them is the error
/// of a store that did not answer.
pub fn get_refresh_token(fetched: Fetched) -> (found: Result<String, StoreError>)
    ensures
        match found {
            Ok(refresh_token) => stored_credential(result_view(fetched)) == Ok::<
                Seq<char>,
                StoreErrorView,
            >(refresh_token@),
            Err(error) => stored_credential(result_view(fetched)) == Err::<
                Seq<char>,
                StoreErrorView,
            >(error@),
        },
{
    match fetched {
        Err(cause) => Err(StoreError::Unavailable(cause)),
        Ok(None) => Err(StoreError::NotFound),
        Ok(Some(item)) => {
            let name = String::from_str("value");
            let mut attributes = item.attributes;
            match position(&attributes, &name) {
                None => Err(StoreError::NoValue),
                Some(i) => match attributes.swap_remove(i) {
                    (_, Attribute::Other) => Err(StoreError::NotText),
                    (_, Attribute::Text(refresh_token)) => Ok(refresh_token),
                },
            }
        },
    }
}

/// A store that holds no item, a store whose item lacks the credential and a
/// store whose credential is no string give three different errors, and none
/// of them is the error of a store that did not answer.
pub proof fn lemma_store_errors_differ(item: Seq<(Seq<char>, AttributeView)>, cause: Seq<char>)
    ensures
        stored_credential(Ok(None)) == Err::<Seq<char>, StoreErrorView>(StoreErrorView::NotFound),
        stored_credential(Err(cause)) == Err::<Seq<char>, StoreErrorView>(
            StoreErrorView::Unavailable(cause),
        ),
        lookup(item, "value"@) is None ==> stored_credential(Ok(Some(item))) == Err::<
            Seq<char>,
            StoreErrorView,
        >(StoreErrorView::NoValue),
        lookup(item, "value"@) == Some(AttributeView::Other) ==> stored_credential(Ok(Some(item)))
            == Err::<Seq<char>, StoreErrorView>(StoreErrorView::NotText),
        StoreErrorView::NotFound != StoreErrorView::NotText,
        StoreErrorView::NotFound != StoreErrorView::NoValue,
        StoreErrorView::NoValue != StoreErrorView::NotText,
        StoreErrorView::Unavailable(cause) != StoreErrorView::NotFound,
        StoreErrorView::Unavailable(cause) != StoreErrorView::NoValue,
        StoreErrorView::Unavailable(cause) != StoreErrorView::NotText,
{
}

/// The store as the job knows it: the items of each table, by the value of their `id`.
///
/// The job takes it that no other run writes to the store while it runs: one
/// run at a time is what the schedule provides, and nothing here defends
/// against two.
pub type Store = Map<(Seq<char>, AttributeView), Seq<(Seq<char>, AttributeView)>>;

/// The place in the store of the item of `table` whose `id` is among `attributes`.
pub open spec fn place(table: Seq<char>, attributes: Seq<(Seq<char>, AttributeView)>) -> (
    Seq<char>,
    AttributeView,
) {
    (table, lookup(attributes, "id"@).unwrap())
}

/// The store once it has taken `request`: the item stands in its place,
/// whatever stood there before.
pub open spec fn put(store: Store, request: PutItemView) -> Store {
    store.insert(place(request.table, request.item), request.item)
}

/// What the store answers to `request`.
pub open spec fn get(store: Store, request: GetItemView) -> Option<
    Seq<(Seq<char>, AttributeView)>,
> {
    let at = place(request.table, request.key);
    if store.dom().contains(at) {
        Some(store[at])
    } else {
        None
    }
}

/// Once the store has taken the request that `update_database` makes for a
/// refresh credential, the request that `fetch_refresh_token` makes for the same
/// table reads that credential back, whatever the store held before, as long
/// as nothing else has written to the store in between.
pub proof fn lemma_update_is_read_back(store: Store, table: Seq<char>, refresh_token: Seq<char>)
    ensures
        stored_credential(
            Ok(
                get(
                    put(store, PutItemView { table, item: credential_item(refresh_token) }),
                    GetItemView { table, key: credential_key() },
                ),
            ),
        ) == Ok::<Seq<char>, StoreErrorView>(refresh_token),
{
    reveal_strlit("id");
    reveal_strlit("value");
    let item = credential_item(refresh_token);
    assert(lookup(item, "id"@) == Some(key_name()));
    assert(lookup(credential_key(), "id"@) == Some(key_name()));
    assert("id"@.len() == 2 && "value"@.len() == 5);
    assert(item.drop_first()[0] == item[1]);
    assert(lookup(item.drop_first(), "value"@) == Some(AttributeView::Text(refresh_token)));
    assert(lookup(item, "value"@) == Some(AttributeView::Text(refresh_token)));
}

} // verus!
