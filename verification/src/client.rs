//! The client's configuration and the requests it plans. Sending a request and
//! sleeping are the caller's part; what to send and what an answer means are
//! decided here.

use vstd::prelude::*;
use vstd::string::*;
use crate::errors::{ErrorView, FrameQueryError};
use crate::retry::RetryState;
use crate::text::{trim_trailing_slashes, without_trailing_slashes};
use crate::time::TimeSpan;

verus! {

/// How many retries a call makes after its first attempt, by default.
pub const DEFAULT_MAX_RETRIES: u32 = 3;

/// The seconds one attempt may take, by default.
pub const DEFAULT_TIMEOUT_SECS: u64 = 60;

/// The address of the service, by default.
pub open spec fn default_base_url() -> Seq<char> {
    "https://api.framequery.com/v1/api"@
}

/// The text of the error for a client without an API key.
pub open spec fn missing_key_message() -> Seq<char> {
    "API key is required. Pass it to ClientBuilder::api_key() or set the FRAMEQUERY_API_KEY environment variable."@
}

/// Collects the settings of a [`Client`].
#[derive(Debug, PartialEq)]
pub struct ClientBuilder {
    api_key: Option<String>,
    base_url: String,
    max_retries: u32,
    timeout: TimeSpan,
}

/// The mathematical model of a [`ClientBuilder`].
pub struct BuilderView {
    pub api_key: Option<Seq<char>>,
    pub base_url: Seq<char>,
    pub max_retries: u32,
    pub timeout: TimeSpan,
}

impl View for ClientBuilder {
    type V = BuilderView;

    closed spec fn view(&self) -> BuilderView {
        BuilderView {
            api_key: match self.api_key {
                Some(key) => Some(key@),
                None => None,
            },
            base_url: self.base_url@,
            max_retries: self.max_retries,
            timeout: self.timeout,
        }
    }
}

/// The settings of a client: where the service is, the key that opens it, how
/// many retries a call makes, and how long one attempt may take.
#[derive(Clone, Debug, PartialEq)]
pub struct Client {
    base_url: String,
    api_key: String,
    max_retries: u32,
    timeout: TimeSpan,
}

/// The mathematical model of a [`Client`].
pub struct ClientView {
    pub base_url: Seq<char>,
    pub api_key: Seq<char>,
    pub max_retries: u32,
    pub timeout: TimeSpan,
}

impl View for Client {
    type V = ClientView;

    closed spec fn view(&self) -> ClientView {
        ClientView {
            base_url: self.base_url@,
            api_key: self.api_key@,
            max_retries: self.max_retries,
            timeout: self.timeout,
        }
    }
}

/// The client that a builder with these settings makes, given the key that the
/// environment offers: the builder's own key goes first, and the address loses
/// the slashes at its end. Without any key there is no client.
pub open spec fn built(builder: BuilderView, fallback_key: Option<Seq<char>>) -> Option<ClientView> {
    let key = match builder.api_key {
        Some(key) => Some(key),
        None => fallback_key,
    };
    match key {
        Some(api_key) => Some(
            ClientView {
                base_url: without_trailing_slashes(builder.base_url),
                api_key,
                max_retries: builder.max_retries,
                timeout: builder.timeout,
            },
        ),
        None => None,
    }
}

impl ClientBuilder {
    /// A builder with the default address, three retries, sixty seconds for an
    /// attempt, and no key yet.
    pub fn new() -> (builder: ClientBuilder)
        ensures
            builder@ == (BuilderView {
                api_key: None,
                base_url: default_base_url(),
                max_retries: DEFAULT_MAX_RETRIES,
                timeout: TimeSpan { secs: DEFAULT_TIMEOUT_SECS, nanos: 0 },
            }),
    {
        ClientBuilder {
            api_key: None,
            base_url: String::from_str("https://api.framequery.com/v1/api"),
            max_retries: DEFAULT_MAX_RETRIES,
            timeout: TimeSpan::from_secs(DEFAULT_TIMEOUT_SECS),
        }
    }

    /// Sets the key that opens the service.
    pub fn api_key(self, key: &str) -> (builder: ClientBuilder)
        ensures
            builder@ == (BuilderView { api_key: Some(key@), ..self@ }),
    {
        let mut builder = self;
        builder.api_key = Some(String::from_str(key));
        builder
    }

    /// Sets the address of the service.
    pub fn base_url(self, url: &str) -> (builder: ClientBuilder)
        ensures
            builder@ == (BuilderView { base_url: url@, ..self@ }),
    {
        let mut builder = self;
        builder.base_url = String::from_str(url);
        builder
    }

    /// Sets how many retries a call makes after its first attempt.
    pub fn max_retries(self, n: u32) -> (builder: ClientBuilder)
        ensures
            builder@ == (BuilderView { max_retries: n, ..self@ }),
    {
        let mut builder = self;
        builder.max_retries = n;
        builder
    }

    /// Sets how long one attempt may take.
    pub fn timeout(self, d: TimeSpan) -> (builder: ClientBuilder)
        ensures
            builder@ == (BuilderView { timeout: d, ..self@ }),
    {
        let mut builder = self;
        builder.timeout = d;
        builder
    }

    /// Makes the client. `fallback_key` is the key that the environment offers,
    /// used where none was set on the builder. Without any key the result is the
    /// authentication error.
    pub fn build(self, fallback_key: Option<String>) -> (r: Result<Client, FrameQueryError>)
        ensures
            match r {
                Ok(client) => built(
                    self@,
                    match fallback_key {
                        Some(key) => Some(key@),
                        None => None,
                    },
                ) == Some(client@),
                Err(e) => built(
                    self@,
                    match fallback_key {
                        Some(key) => Some(key@),
                        None => None,
                    },
                ) is None && e@ == (ErrorView::Authentication { message: missing_key_message() }),
            },
    {
        let key = match self.api_key {
            Some(key) => Some(key),
            None => fallback_key,
        };
        match key {
            Some(api_key) => Ok(
                Client {
                    base_url: trim_trailing_slashes(self.base_url.as_str()),
                    api_key,
                    max_retries: self.max_retries,
                    timeout: self.timeout,
                },
            ),
            None => Err(
                FrameQueryError::Authentication {
                    message: String::from_str(
                        "API key is required. Pass it to ClientBuilder::api_key() or set the FRAMEQUERY_API_KEY environment variable.",
                    ),
                },
            ),
        }
    }
}

impl Client {
    /// A client with this key and the default settings.
    pub fn new(api_key: &str) -> (client: Client)
        ensures
            client@ == (ClientView {
                base_url: default_base_url(),
                api_key: api_key@,
                max_retries: DEFAULT_MAX_RETRIES,
                timeout: TimeSpan { secs: DEFAULT_TIMEOUT_SECS, nanos: 0 },
            }),
    {
        Client {
            base_url: String::from_str("https://api.framequery.com/v1/api"),
            api_key: String::from_str(api_key),
            max_retries: DEFAULT_MAX_RETRIES,
            timeout: TimeSpan::from_secs(DEFAULT_TIMEOUT_SECS),
        }
    }

    /// The address of the service.
    pub fn base_url(&self) -> (url: &str)
        ensures
            url@ == self@.base_url,
    {
        self.base_url.as_str()
    }

    /// The key that opens the service.
    pub fn api_key(&self) -> (key: &str)
        ensures
            key@ == self@.api_key,
    {
        self.api_key.as_str()
    }

    /// How many retries a call makes after its first attempt.
    pub fn max_retries(&self) -> (n: u32)
        ensures
            n == self@.max_retries,
    {
        self.max_retries
    }

    /// How long one attempt may take.
    pub fn timeout(&self) -> (d: TimeSpan)
        ensures
            d == self@.timeout,
    {
        self.timeout
    }

    /// The state in which a call of this client makes its first attempt.
    pub fn retry_state(&self) -> (state: RetryState)
        ensures
            state == (RetryState { max_retries: self@.max_retries, attempt: 0 }),
    {
        RetryState::new(self.max_retries)
    }
}

impl Default for ClientBuilder {
    fn default() -> (builder: ClientBuilder)
        ensures
            builder@ == (BuilderView {
                api_key: None,
                base_url: default_base_url(),
                max_retries: DEFAULT_MAX_RETRIES,
                timeout: TimeSpan { secs: DEFAULT_TIMEOUT_SECS, nanos: 0 },
            }),
    {
        ClientBuilder::new()
    }
}

} // verus!
