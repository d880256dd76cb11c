//! How emails leave the server: queued in memory or in Redis, and
//! delivered over HTTP, SMTP, or only logged.

use vstd::prelude::*;
use crate::text::{str_eq, parse_u16, parsed_within};

verus! {

/// Where a queued email goes.
#[derive(PartialEq, Eq, Structural, Clone, Copy)]
pub enum EmailQueue {
    /// The in-memory channel of the email worker.
    Channel,
    /// The Redis list `emails`.
    Redis,
    /// No queue: deliver it now.
    Direct,
}

/// How an email is delivered.
#[derive(PartialEq, Eq, Structural, Clone, Copy)]
pub enum Delivery {
    /// Posted as JSON to `EMAIL_HTTP_ENDPOINT`.
    Http,
    /// Sent through the configured SMTP relay.
    Smtp,
    /// Only written to the log.
    LogOnly,
}

/// Where an email is queued: the worker's channel where it runs, else Redis
/// where `REDIS_URL` is set, else nowhere.
pub fn enqueue_email(channel_ready: bool, redis_url_set: bool) -> (r: EmailQueue)
    ensures
        r == if channel_ready {
            EmailQueue::Channel
        } else if redis_url_set {
            EmailQueue::Redis
        } else {
            EmailQueue::Direct
        },
{
    if channel_ready {
        EmailQueue::Channel
    } else if redis_url_set {
        EmailQueue::Redis
    } else {
        EmailQueue::Direct
    }
}

/// How an email is delivered: over HTTP where an endpoint is set, else over
/// SMTP where a relay is configured, else only logged.
pub fn deliver_email(http_endpoint_set: bool, smtp_configured: bool) -> (r: Delivery)
    ensures
        r == if http_endpoint_set {
            Delivery::Http
        } else if smtp_configured {
            Delivery::Smtp
        } else {
            Delivery::LogOnly
        },
{
    if http_endpoint_set {
        Delivery::Http
    } else if smtp_configured {
        Delivery::Smtp
    } else {
        Delivery::LogOnly
    }
}

/// Whether the email worker reads the Redis queue (provider "redis") rather
/// than an in-memory channel.
pub fn start_email_worker(provider: &str) -> (r: bool)
    ensures
        r == (provider@ == "redis"@),
{
    str_eq(provider, "redis")
}

/// Whether an SMTP port setting is present and parses as a `u16`.
pub open spec fn port_parses(port: Option<&str>) -> bool {
    match port {
        Some(p) => parsed_within(p@, u16::MAX as nat) is Some,
        None => false,
    }
}

/// Whether an SMTP relay is configured: its server, a port that parses as
/// a `u16`, a user name and a password are all set.
pub fn smtp_configured(server: Option<&str>, port: Option<&str>, username: Option<&str>, password: Option<&str>) -> (r: bool)
    ensures
        r == (server is Some && username is Some && password is Some && port_parses(port)),
{
    let port_ok = match port {
        Some(p) => parse_u16(p).is_some(),
        None => false,
    };
    server.is_some() && username.is_some() && password.is_some() && port_ok
}

} // verus!
