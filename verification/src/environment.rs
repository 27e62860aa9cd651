//! The settings that the job takes from its environment.

use crate::text::{decimal_i64, lookup, parse_i64, position};
use vstd::prelude::*;

verus! {

/// The variables of the process environment, as pairs of name and value.
#[derive(Debug, Clone, PartialEq, Eq)]
pub struct Environment {
    pub variables: Vec<(String, String)>,
}

impl View for Environment {
    type V = Seq<(Seq<char>, Seq<char>)>;

    open spec fn view(&self) -> Seq<(Seq<char>, Seq<char>)> {
        self.variables.deep_view()
    }
}

/// A variable that the job reads.
#[derive(Debug, Clone, Copy, PartialEq, Eq)]
pub enum Variable {
    /// The OAuth2 client identifier.
    ClientId,
    /// The OAuth2 client secret.
    ClientSecret,
    /// The redirect URL registered with the platform.
    RedirectUrl,
    /// The search expression.
    Query,
    /// The look-back window, in minutes.
    ScrapeInterval,
    /// The table that holds the refresh credential.
    TableName,
}

/// Why the configuration could not be loaded.
#[derive(Debug, Clone, Copy, PartialEq, Eq)]
pub enum ConfigError {
    /// The variable is not set, or its value is not text.
    Missing(Variable),
    /// The redirect URL does not parse as a URL.
    InvalidRedirectUrl,
    /// The look-back window is not a decimal number of minutes.
    InvalidInterval,
}

impl Variable {
    /// The name under which the environment holds the variable.
    pub open spec fn spec_name(self) -> Seq<char> {
        match self {
            Variable::ClientId => "TWITTER_CLIENT_ID"@,
            Variable::ClientSecret => "TWITTER_CLIENT_SECRET"@,
            Variable::RedirectUrl => "TWITTER_REDIRECT_URL"@,
            Variable::Query => "TWITTER_QUERY"@,
            Variable::ScrapeInterval => "TWITTER_SCRAPE_INTERVAL"@,
            Variable::TableName => "AWS_TABLE_NAME"@,
        }
    }

    /// What to tell an operator who did not set the variable.
    pub open spec fn spec_hint(self) -> Seq<char> {
        match self {
            Variable::ClientId => "Please export the TWITTER_CLIENT_ID variable, which is provided by the Twitter API"@,
            Variable::ClientSecret => "Please export the TWITTER_CLIENT_SECRET variable, which is provided by the Twitter API"@,
            Variable::RedirectUrl => "Please export the TWITTER_REDIRECT_URL variable, which you must set in the Twitter API platform."@,
            Variable::Query => "Please export the TWITTER_QUERY variable, which is the search term for Tweets you want to retweet."@,
            Variable::ScrapeInterval => "Please include the TWITTER_SCRAPE_INTERVAL variable, which should be a number indicating the number of minutes between executions"@,
            Variable::TableName => "Please provide the AWS_TABLE_NAME variable, which points to the name of a DynamoDB table"@,
        }
    }

    /// The name under which the environment holds the variable.
    pub fn name(self) -> (name: String)
        ensures
            name@ == self.spec_name(),
    {
        match self {
            Variable::ClientId => String::from_str("TWITTER_CLIENT_ID"),
            Variable::ClientSecret => String::from_str("TWITTER_CLIENT_SECRET"),
            Variable::RedirectUrl => String::from_str("TWITTER_REDIRECT_URL"),
            Variable::Query => String::from_str("TWITTER_QUERY"),
            Variable::ScrapeInterval => String::from_str("TWITTER_SCRAPE_INTERVAL"),
            Variable::TableName => String::from_str("AWS_TABLE_NAME"),
        }
    }

    /// What to tell an operator who did not set the variable.
    pub fn hint(self) -> (hint: String)
        ensures
            hint@ == self.spec_hint(),
    {
        match self {
            Variable::ClientId => String::from_str(
                "Please export the TWITTER_CLIENT_ID variable, which is provided by the Twitter API",
            ),
            Variable::ClientSecret => String::from_str(
                "Please export the TWITTER_CLIENT_SECRET variable, which is provided by the Twitter API",
            ),
            Variable::RedirectUrl => String::from_str(
                "Please export the TWITTER_REDIRECT_URL variable, which you must set in the Twitter API platform.",
            ),
            Variable::Query => String::from_str(
                "Please export the TWITTER_QUERY variable, which is the search term for Tweets you want to retweet.",
            ),
            Variable::ScrapeInterval => String::from_str(
                "Please include the TWITTER_SCRAPE_INTERVAL variable, which should be a number indicating the number of minutes between executions",
            ),
            Variable::TableName => String::from_str(
                "Please provide the AWS_TABLE_NAME variable, which points to the name of a DynamoDB table",
            ),
        }
    }
}

impl ConfigError {
    /// The error in words.
    pub open spec fn spec_message(self) -> Seq<char> {
        match self {
            ConfigError::Missing(variable) => variable.spec_hint(),
            ConfigError::InvalidRedirectUrl => "The TWITTER_REDIRECT_URL variable does not hold a URL"@,
            ConfigError::InvalidInterval => "The TWITTER_SCRAPE_INTERVAL variable does not hold a whole number of minutes"@,
        }
    }

    /// The error in words.
    pub fn message(self) -> (message: String)
        ensures
            message@ == self.spec_message(),
    {
        match self {
            ConfigError::Missing(variable) => variable.hint(),
            ConfigError::InvalidRedirectUrl => String::from_str(
                "The TWITTER_REDIRECT_URL variable does not hold a URL",
            ),
            ConfigError::InvalidInterval => String::from_str(
                "The TWITTER_SCRAPE_INTERVAL variable does not hold a whole number of minutes",
            ),
        }
    }
}

/// What reading `variable` from `env` gives: its value, or the error that names it.
pub open spec fn required(env: Seq<(Seq<char>, Seq<char>)>, variable: Variable) -> Result<
    Seq<char>,
    ConfigError,
> {
    match lookup(env, variable.spec_name()) {
        Some(value) => Ok(value),
        None => Err(ConfigError::Missing(variable)),
    }
}

/// Whether `found` is the text `expected`, or the same error.
pub open spec fn reads(found: Result<String, ConfigError>, expected: Result<
    Seq<char>,
    ConfigError,
>) -> bool {
    match found {
        Ok(value) => expected == Ok::<Seq<char>, ConfigError>(value@),
        Err(error) => expected == Err::<Seq<char>, ConfigError>(error),
    }
}

impl Environment {
    /// The value of `variable`, which has to be set.
    pub fn get(&self, variable: Variable) -> (found: Result<String, ConfigError>)
        ensures
            reads(found, required(self@, variable)),
    {
        let name = variable.name();
        match position(&self.variables, &name) {
            Some(i) => Ok(self.variables[i].1.clone()),
            None => Err(ConfigError::Missing(variable)),
        }
    }
}

/// The OAuth2 client identifier.
pub fn get_twitter_client_id(env: &Environment) -> (found: Result<String, ConfigError>)
    ensures
        reads(found, required(env@, Variable::ClientId)),
{
    env.get(Variable::ClientId)
}

/// The OAuth2 client secret.
pub fn get_twitter_client_secret(env: &Environment) -> (found: Result<String, ConfigError>)
    ensures
        reads(found, required(env@, Variable::ClientSecret)),
{
    env.get(Variable::ClientSecret)
}

/// The redirect URL registered with the platform.
pub fn get_twitter_redirect_url(env: &Environment) -> (found: Result<String, ConfigError>)
    ensures
        reads(found, required(env@, Variable::RedirectUrl)),
{
    env.get(Variable::RedirectUrl)
}

/// The search expression.
pub fn get_twitter_query(env: &Environment) -> (found: Result<String, ConfigError>)
    ensures
        reads(found, required(env@, Variable::Query)),
{
    env.get(Variable::Query)
}

/// The look-back window that `env` asks for, in minutes.
pub open spec fn interval_of(env: Seq<(Seq<char>, Seq<char>)>) -> Result<i64, ConfigError> {
    match required(env, Variable::ScrapeInterval) {
        Ok(text) => match decimal_i64(text) {
            Some(minutes) => Ok(minutes),
            None => Err(ConfigError::InvalidInterval),
        },
        Err(error) => Err(error),
    }
}

/// The look-back window, in minutes.
pub fn get_scrape_interval(env: &Environment) -> (found: Result<i64, ConfigError>)
    ensures
        found == interval_of(env@),
{
    match env.get(Variable::ScrapeInterval) {
        Ok(text) => match parse_i64(text.as_str()) {
            Some(minutes) => Ok(minutes),
            None => Err(ConfigError::InvalidInterval),
        },
        Err(error) => Err(error),
    }
}

} // verus!
