//! Error types of the mirror.

use vstd::prelude::*;

use fantoccini::error::CmdError as WebDriverCmdError;
use fantoccini::error::NewSessionError as WebDriverSessionError;
use reqwest::Error as HttpError;
use serde_json::Error as JsonError;
use serde_urlencoded::ser::Error as UrlEncodeError;
use serde_yaml::Error as YamlError;

verus! {

/// The error of an HTTP request.
#[verifier::external_type_specification]
#[verifier::external_body]
pub struct ExReqwestError(HttpError);

/// The error of a JSON parse.
#[verifier::external_type_specification]
#[verifier::external_body]
pub struct ExJsonError(JsonError);

/// The error of a YAML parse.
#[verifier::external_type_specification]
#[verifier::external_body]
pub struct ExYamlError(YamlError);

/// The error of a form encoding.
#[verifier::external_type_specification]
#[verifier::external_body]
pub struct ExUrlEncodeError(UrlEncodeError);

/// The error of opening a WebDriver session.
#[verifier::external_type_specification]
#[verifier::external_body]
pub struct ExNewSessionError(WebDriverSessionError);

/// The error of a WebDriver command.
#[verifier::external_type_specification]
#[verifier::external_body]
pub struct ExCmdError(WebDriverCmdError);

/// The error of an I/O operation.
#[verifier::external_type_specification]
#[verifier::external_body]
pub struct ExIoError(std::io::Error);

/// Any error of the mirror.
#[derive(Debug)]
pub enum Error {
    Config(Config),
}

/// Errors while reading the configuration and setting up mirrors.
#[derive(Debug)]
pub enum Config {
    OpenFile(std::io::Error),
    Serde(YamlError),
    Mastodon(Mastodon),
}

/// Errors while talking to Reddit.
#[derive(Debug)]
pub enum Reddit {
    Reqwest(HttpError),
    Serde(JsonError),
    ParseGfycat,
}

/// Errors while talking to Mastodon.
#[derive(Debug)]
pub enum Mastodon {
    Reqwest(HttpError),
    Serde(JsonError),
    SerdeUrl(UrlEncodeError),
    FantoSession(WebDriverSessionError),
    FantoCmd(WebDriverCmdError),
    Blank,
}

/// The error type of a synchronisation cycle. No cycle produces one: the
/// functions that return it always succeed, as their contracts state.
#[derive(Debug)]
pub struct SyncData;

impl From<std::io::Error> for Config {
    fn from(e: std::io::Error) -> (r: Self) {
        Config::OpenFile(e)
    }
}

impl vstd::std_specs::convert::FromSpecImpl<std::io::Error> for Config {
    open spec fn obeys_from_spec() -> bool {
        true
    }

    open spec fn from_spec(v: std::io::Error) -> Self {
        Config::OpenFile(v)
    }
}

impl From<YamlError> for Config {
    fn from(e: YamlError) -> (r: Self) {
        Config::Serde(e)
    }
}

impl vstd::std_specs::convert::FromSpecImpl<YamlError> for Config {
    open spec fn obeys_from_spec() -> bool {
        true
    }

    open spec fn from_spec(v: YamlError) -> Self {
        Config::Serde(v)
    }
}

impl From<Mastodon> for Config {
    fn from(e: Mastodon) -> (r: Self) {
        Config::Mastodon(e)
    }
}

impl vstd::std_specs::convert::FromSpecImpl<Mastodon> for Config {
    open spec fn obeys_from_spec() -> bool {
        true
    }

    open spec fn from_spec(v: Mastodon) -> Self {
        Config::Mastodon(v)
    }
}

impl From<HttpError> for Reddit {
    fn from(e: HttpError) -> (r: Self) {
        Reddit::Reqwest(e)
    }
}

impl vstd::std_specs::convert::FromSpecImpl<HttpError> for Reddit {
    open spec fn obeys_from_spec() -> bool {
        true
    }

    open spec fn from_spec(v: HttpError) -> Self {
        Reddit::Reqwest(v)
    }
}

impl From<JsonError> for Reddit {
    fn from(e: JsonError) -> (r: Self) {
        Reddit::Serde(e)
    }
}

impl vstd::std_specs::convert::FromSpecImpl<JsonError> for Reddit {
    open spec fn obeys_from_spec() -> bool {
        true
    }

    open spec fn from_spec(v: JsonError) -> Self {
        Reddit::Serde(v)
    }
}

impl From<HttpError> for Mastodon {
    fn from(e: HttpError) -> (r: Self) {
        Mastodon::Reqwest(e)
    }
}

impl vstd::std_specs::convert::FromSpecImpl<HttpError> for Mastodon {
    open spec fn obeys_from_spec() -> bool {
        true
    }

    open spec fn from_spec(v: HttpError) -> Self {
        Mastodon::Reqwest(v)
    }
}

impl From<JsonError> for Mastodon {
    fn from(e: JsonError) -> (r: Self) {
        Mastodon::Serde(e)
    }
}

impl vstd::std_specs::convert::FromSpecImpl<JsonError> for Mastodon {
    open spec fn obeys_from_spec() -> bool {
        true
    }

    open spec fn from_spec(v: JsonError) -> Self {
        Mastodon::Serde(v)
    }
}

impl From<UrlEncodeError> for Mastodon {
    fn from(e: UrlEncodeError) -> (r: Self) {
        Mastodon::SerdeUrl(e)
    }
}

impl vstd::std_specs::convert::FromSpecImpl<UrlEncodeError> for Mastodon {
    open spec fn obeys_from_spec() -> bool {
        true
    }

    open spec fn from_spec(v: UrlEncodeError) -> Self {
        Mastodon::SerdeUrl(v)
    }
}

impl From<WebDriverSessionError> for Mastodon {
    fn from(e: WebDriverSessionError) -> (r: Self) {
        Mastodon::FantoSession(e)
    }
}

impl vstd::std_specs::convert::FromSpecImpl<WebDriverSessionError> for Mastodon {
    open spec fn obeys_from_spec() -> bool {
        true
    }

    open spec fn from_spec(v: WebDriverSessionError) -> Self {
        Mastodon::FantoSession(v)
    }
}

impl From<WebDriverCmdError> for Mastodon {
    fn from(e: WebDriverCmdError) -> (r: Self) {
        Mastodon::FantoCmd(e)
    }
}

impl vstd::std_specs::convert::FromSpecImpl<WebDriverCmdError> for Mastodon {
    open spec fn obeys_from_spec() -> bool {
        true
    }

    open spec fn from_spec(v: WebDriverCmdError) -> Self {
        Mastodon::FantoCmd(v)
    }
}

} // verus!
