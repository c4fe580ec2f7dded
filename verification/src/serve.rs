//! The settings of the service: where it listens, which relay it hands its
//! mail to, and what it answers when asked whether it is alive.

use vstd::prelude::*;
use vstd::string::StringExecFns;
use std::borrow::Cow;
use std::time::Duration;
use crate::locale::Locales;
use crate::strings::decimal;
use crate::strings::push_decimal;
use crate::strings::texts;

verus! {

/// The length of a span of time in nanoseconds.
pub uninterp spec fn nanoseconds(span: Duration) -> nat;

/// Trusted: `Duration::from_secs` of std, a span of the given number of
/// whole seconds.
#[verifier::external_body]
fn seconds(secs: u64) -> (span: Duration)
    ensures
        nanoseconds(span) == secs * 1_000_000_000,
{
    Duration::from_secs(secs)
}

/// The port on which the service listens unless it is told otherwise.
pub const LISTEN_PORT: u16 = 3000;

/// The time a relay is given to answer unless the settings say otherwise:
/// five seconds.
pub fn default_timeout() -> (timeout: Option<Duration>)
    ensures
        timeout matches Some(span) && nanoseconds(span) == 5_000_000_000,
{
    Some(seconds(5))
}

/// The host of the relay unless the settings name one.
pub fn default_host() -> (host: Cow<'static, str>)
    ensures
        host@ == "localhost"@,
{
    Cow::Borrowed("localhost")
}

/// The port of the relay unless the settings name one.
pub fn default_port() -> (port: u16)
    ensures
        port == 25,
{
    25
}

/// How the server should listen for requests.
///
/// By default the server uses a passed file descriptor if there is one,
/// and otherwise listens on the configured address, 127.0.0.1:3000 unless
/// the settings say otherwise.
#[derive(Debug)]
pub enum ListenerConfig {
    /// Listen on the socket that was passed in.
    FileDescriptor,
    /// Listen on the socket that was passed in, if any; else on the
    /// address.
    AutomaticSelection { port: u16, host: String },
    /// Listen on the address.
    TcpListener { port: u16, host: String },
}

impl Default for ListenerConfig {
    fn default() -> (config: ListenerConfig)
        ensures
            config matches ListenerConfig::AutomaticSelection { port, host } && port == LISTEN_PORT
                && host@ == "127.0.0.1"@,
    {
        ListenerConfig::AutomaticSelection { port: LISTEN_PORT, host: "127.0.0.1".to_owned() }
    }
}

/// The relay of the service: how the connection is secured, where the
/// relay is, and how long it is given to answer. Plaintext to
/// localhost:25 with five seconds unless the settings say otherwise.
#[derive(Debug)]
pub enum SmtpMailerConfig {
    /// The connection is upgraded to TLS after the greeting.
    Startls { port: u16, host: Cow<'static, str>, timeout: Option<Duration> },
    /// The connection is wrapped in TLS from the start.
    Tls { port: u16, host: Cow<'static, str>, timeout: Option<Duration> },
    /// The connection is not secured.
    Plaintext { port: u16, host: Cow<'static, str>, timeout: Option<Duration> },
}

impl Default for SmtpMailerConfig {
    fn default() -> (config: SmtpMailerConfig)
        ensures
            config matches SmtpMailerConfig::Plaintext { port, host, timeout } && port == 25
                && host@ == "localhost"@ && (timeout matches Some(span) && nanoseconds(span)
                == 5_000_000_000),
    {
        SmtpMailerConfig::Plaintext {
            port: default_port(),
            host: default_host(),
            timeout: default_timeout(),
        }
    }
}

/// The settings of the service.
#[derive(Debug)]
pub struct Settings {
    pub listen: ListenerConfig,
    pub smtp: SmtpMailerConfig,
}

impl Default for Settings {
    fn default() -> (settings: Settings)
        ensures
            settings.listen matches ListenerConfig::AutomaticSelection { port, host } && port
                == LISTEN_PORT && host@ == "127.0.0.1"@,
            settings.smtp matches SmtpMailerConfig::Plaintext { port, host, timeout } && port
                == 25 && host@ == "localhost"@ && (timeout matches Some(span) && nanoseconds(
                span,
            ) == 5_000_000_000),
    {
        Settings { listen: ListenerConfig::default(), smtp: SmtpMailerConfig::default() }
    }
}

/// The codes of all the locales that the service offers, in the order of
/// the table.
pub fn available_locales(locales: &Locales) -> (codes: &Vec<String>)
    ensures
        texts(codes@) == locales.codes(),
{
    locales.all_codes()
}

/// What the service answers when asked whether it is alive.
pub fn healthcheck() -> (answer: &'static str)
    ensures
        answer@ == "ok"@,
{
    "ok"
}

/// The address at which a service with these settings is reached from the
/// machine it runs on: host and port where it listens on an address, and
/// localhost with the usual port where it was handed a socket.
pub open spec fn local_address(listen: ListenerConfig) -> Seq<char> {
    match listen {
        ListenerConfig::FileDescriptor => "localhost:3000"@,
        ListenerConfig::AutomaticSelection { port, host } => host@ + ":"@ + decimal(port as nat),
        ListenerConfig::TcpListener { port, host } => host@ + ":"@ + decimal(port as nat),
    }
}

/// The URL at which a service with these settings answers the question
/// whether it is alive.
pub fn healthcheck_endpoint(listen: &ListenerConfig) -> (url: String)
    ensures
        url@ == "http://"@ + local_address(*listen) + "/healthcheck"@,
{
    let mut url = "http://".to_owned();
    match listen {
        ListenerConfig::FileDescriptor => {
            url.append("localhost:3000");
        },
        ListenerConfig::AutomaticSelection { port, host } => {
            url.append(host.as_str());
            url.append(":");
            push_decimal(&mut url, *port as u64);
        },
        ListenerConfig::TcpListener { port, host } => {
            url.append(host.as_str());
            url.append(":");
            push_decimal(&mut url, *port as u64);
        },
    }
    url.append("/healthcheck");
    assert(url@ =~= "http://"@ + local_address(*listen) + "/healthcheck"@);
    url
}

} // verus!
