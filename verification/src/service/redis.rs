//! The event notifier: publishes session events on a Redis channel.
//!
//! Opening the client only parses the URL, so it is done here. Connecting
//! and sending are the caller's: the service says what to send, and turns
//! what the caller saw into the notifier's result.

use crate::config::{Config, ConfigError, ConfigKey, ConfigView};
use crate::event::{payload_text, SessionEvent, SessionEventView};
use vstd::pervasive::unreached;
use vstd::prelude::*;

verus! {

/// The client of the `redis` crate.
#[verifier::external_type_specification]
#[verifier::external_body]
pub struct ExClient(::redis::Client);

/// The error of the `redis` crate.
#[verifier::external_type_specification]
#[verifier::external_body]
pub struct ExRedisError(::redis::RedisError);

/// The client that `redis::Client::open` makes of `url`, or `None` where
/// it does not accept the URL.
pub uninterp spec fn opened_client(url: Seq<char>) -> Option<::redis::Client>;

/// Whether `redis::Client::open` accepts `url`.
pub open spec fn redis_url_accepted(url: Seq<char>) -> bool {
    opened_client(url) is Some
}

/// Opens a client with `redis::Client::open`, which checks the URL and
/// connects to nothing. The contract names the outcome: the client that
/// comes back is the one of this URL, and an error comes back exactly
/// where there is none.
#[verifier::external_body]
fn open_client(url: &str) -> (res: Result<::redis::Client, ::redis::RedisError>)
    ensures
        match res {
            Ok(client) => opened_client(url@) == Some(client),
            Err(_) => opened_client(url@) is None,
        },
{
    ::redis::Client::open(url)
}

/// Why an event was not published.
#[derive(Debug, Clone, Copy, PartialEq, Eq, Structural)]
pub enum NotifyError {
    /// The message backend could not be reached.
    ConnectionFailed,
    /// The backend was reached and refused the message.
    PublishFailed,
}

/// What became of an attempt to publish.
#[derive(Debug, Clone, Copy, PartialEq, Eq, Structural)]
pub enum PublishOutcome {
    /// The backend took the message.
    Delivered,
    /// No connection to the backend could be made.
    Unreachable,
    /// The connection stood and the send failed.
    Rejected,
}

/// The notifier's result for an outcome.
pub open spec fn notify_result(outcome: PublishOutcome) -> Result<(), NotifyError> {
    match outcome {
        PublishOutcome::Delivered => Ok(()),
        PublishOutcome::Unreachable => Err(NotifyError::ConnectionFailed),
        PublishOutcome::Rejected => Err(NotifyError::PublishFailed),
    }
}

/// A message to publish: the channel and the text.
#[derive(Debug, Clone)]
pub struct OutboundMessage {
    pub channel: String,
    pub payload: String,
}

/// The message that carries `event`: its payload, on the channel `events`.
pub open spec fn message_carries(message: OutboundMessage, event: SessionEventView) -> bool {
    &&& message.channel@ == "events"@
    &&& message.payload@ == payload_text(event)
}

/// Whether a notifier is configured, and with which URL: no notifier
/// where no URL is set, an error where the client does not accept the URL.
pub open spec fn notifier_url(config: ConfigView) -> Result<Option<Seq<char>>, ConfigError> {
    match config.redis_url {
        None => Ok(None),
        Some(url) => if redis_url_accepted(url) {
            Ok(Some(url))
        } else {
            Err(ConfigError::Malformed(ConfigKey::RedisUrl))
        },
    }
}

/// The notifier's handle on the message backend.
pub struct RedisService {
    client: ::redis::Client,
    redis_url: String,
}

impl RedisService {
    #[verifier::type_invariant]
    spec fn client_of_url(self) -> bool {
        opened_client(self.redis_url@) == Some(self.client)
    }

    /// The URL that the service was opened with.
    pub closed spec fn url_view(&self) -> Seq<char> {
        self.redis_url@
    }

    /// A service for the backend at `redis_url`, which must be a URL that
    /// the client accepts. Nothing is connected yet.
    pub fn new(redis_url: &str) -> (service: RedisService)
        requires
            redis_url_accepted(redis_url@),
        ensures
            service.url_view() == redis_url@,
    {
        match open_client(redis_url) {
            Ok(client) => RedisService { client, redis_url: redis_url.to_owned() },
            Err(_) => unreached(),
        }
    }

    /// A service for the backend at `redis_url`, or `None` where the client
    /// does not accept the URL.
    pub fn try_new(redis_url: &str) -> (service: Option<RedisService>)
        ensures
            service is Some <==> redis_url_accepted(redis_url@),
            service matches Some(s) ==> s.url_view() == redis_url@,
    {
        match open_client(redis_url) {
            Ok(_) => Some(RedisService::new(redis_url)),
            Err(_) => None,
        }
    }

    /// The notifier that `config` asks for: none where no URL is set, a
    /// service where the client accepts the URL, an error where it does
    /// not.
    pub fn from_config(config: &Config) -> (res: Result<Option<RedisService>, ConfigError>)
        ensures
            match res {
                Ok(Some(service)) => notifier_url(config@) == Ok::<Option<Seq<char>>, ConfigError>(
                    Some(service.url_view()),
                ),
                Ok(None) => notifier_url(config@) == Ok::<Option<Seq<char>>, ConfigError>(None),
                Err(e) => notifier_url(config@) == Err::<Option<Seq<char>>, ConfigError>(e),
            },
    {
        match &config.redis_url {
            None => Ok(None),
            Some(url) => match RedisService::try_new(url.as_str()) {
                Some(service) => Ok(Some(service)),
                None => Err(ConfigError::Malformed(ConfigKey::RedisUrl)),
            },
        }
    }

    /// The URL that the service was opened with.
    pub fn url(&self) -> (url: &str)
        ensures
            url@ == self.url_view(),
    {
        self.redis_url.as_str()
    }

    /// The client to connect with: the one that was opened with the
    /// service's URL.
    pub fn client(&self) -> (client: &::redis::Client)
        ensures
            opened_client(self.url_view()) == Some(*client),
    {
        proof {
            use_type_invariant(self);
        }
        &self.client
    }

    /// What to publish for `event`: its payload, on the channel `events`.
    pub fn message_for(&self, event: &SessionEvent) -> (message: OutboundMessage)
        ensures
            message_carries(message, event@),
    {
        OutboundMessage { channel: "events".to_owned(), payload: event.payload() }
    }

    /// The notifier's result, given what became of the attempt to publish.
    pub fn publish_result(outcome: PublishOutcome) -> (res: Result<(), NotifyError>)
        ensures
            res == notify_result(outcome),
    {
        match outcome {
            PublishOutcome::Delivered => Ok(()),
            PublishOutcome::Unreachable => Err(NotifyError::ConnectionFailed),
            PublishOutcome::Rejected => Err(NotifyError::PublishFailed),
        }
    }
}

} // verus!
