//! Service configuration, and the addresses derived from it.

use vstd::prelude::*;
use vstd::utf8::encode_utf8;
use crate::number::{i64_chars, i64_text};
use crate::text::text_of;

verus! {

/// The whole configuration file.
#[derive(Clone, Debug, PartialEq, Eq)]
pub struct Config {
    pub server: Option<ConfigServer>,
    pub redis: Option<ConfigRedis>,
    pub wx: Option<ConfigApi>,
    pub api: Option<ConfigApi>,
}

/// Where the HTTP server listens.
#[derive(Clone, Debug, PartialEq, Eq)]
pub struct ConfigServer {
    pub path: Option<String>,
    pub port: Option<u16>,
    pub url: Option<String>,
}

/// Database settings (read from the file, used by nothing yet).
#[derive(Clone, Debug, PartialEq, Eq)]
pub struct ConfigDatabase {
    pub url: Option<String>,
    pub name: Option<String>,
    pub username: Option<String>,
    pub password: Option<String>,
}

/// The Redis server that caches the WeChat access token.
#[derive(Clone, Debug, PartialEq, Eq)]
pub struct ConfigRedis {
    pub url: Option<String>,
    pub username: Option<String>,
    pub password: Option<String>,
    pub expire: Option<i64>,
}

/// An HTTP API: the account service, or WeChat's.
#[derive(Clone, Debug, PartialEq, Eq)]
pub struct ConfigApi {
    pub ws: Option<String>,
    pub url: Option<String>,
    pub id: Option<String>,
    pub account: Option<String>,
    pub token: Option<String>,
    pub secret: Option<String>,
}

impl Default for Config {
    fn default() -> (c: Self)
        ensures
            c.server is None && c.redis is None && c.wx is None && c.api is None,
    {
        Config { server: None, redis: None, wx: None, api: None }
    }
}

impl Default for ConfigServer {
    fn default() -> (c: Self)
        ensures
            c.path is None && c.port is None && c.url is None,
    {
        ConfigServer { path: None, port: None, url: None }
    }
}

impl Default for ConfigDatabase {
    fn default() -> (c: Self)
        ensures
            c.url is None && c.name is None && c.username is None && c.password is None,
    {
        ConfigDatabase { url: None, name: None, username: None, password: None }
    }
}

impl Default for ConfigRedis {
    fn default() -> (c: Self)
        ensures
            c.url is None && c.username is None && c.password is None && c.expire is None,
    {
        ConfigRedis { url: None, username: None, password: None, expire: None }
    }
}

impl Default for ConfigApi {
    fn default() -> (c: Self)
        ensures
            c.ws is None && c.url is None && c.id is None && c.account is None && c.token is None
                && c.secret is None,
    {
        ConfigApi { ws: None, url: None, id: None, account: None, token: None, secret: None }
    }
}

/// The text of an optional string, empty where there is none
/// (`Option::<String>::unwrap_or_default`).
pub open spec fn text_or_empty(o: Option<String>) -> Seq<char> {
    match o {
        Some(s) => s@,
        None => Seq::empty(),
    }
}

/// `o.clone().unwrap_or_default()`.
pub fn owned_or_empty(o: &Option<String>) -> (s: String)
    ensures
        s@ == text_or_empty(*o),
{
    match o {
        Some(t) => t.clone(),
        None => String::new(),
    }
}

/// The password with which the bot logs in to Redis.
pub const REDIS_PASSWORD: &'static str = "Z#2nTt98ve!Q#*RY";

/// A byte that URL encoding leaves as it is: an ASCII letter or digit, or one
/// of `-`, `.`, `_`, `~`.
pub open spec fn url_safe(b: u8) -> bool {
    (48 <= b <= 57) || (65 <= b <= 90) || (97 <= b <= 122) || b == 45 || b == 46 || b == 95
        || b == 126
}

/// The upper-case hexadecimal digit of `d` (for `d < 16`).
pub open spec fn hex_digit(d: u8) -> char {
    if d < 10 {
        ((48 + d) as u8) as char
    } else {
        ((55 + d) as u8) as char
    }
}

/// Percent-encoding of `bytes`: each safe byte as its character, every other
/// byte as `%` and its two upper-case hexadecimal digits.
pub open spec fn percent_encoded(bytes: Seq<u8>) -> Seq<char>
    decreases bytes.len(),
{
    if bytes.len() == 0 {
        Seq::empty()
    } else {
        let b = bytes[0];
        let head = if url_safe(b) {
            seq![b as char]
        } else {
            seq!['%', hex_digit(b / 16), hex_digit(b % 16)]
        };
        head + percent_encoded(bytes.drop_first())
    }
}

/// Calls `urlencoding::encode`. Trusted: its source percent-encodes every
/// byte of the UTF-8 text except ASCII alphanumerics and `-`, `_`, `.`, `~`,
/// writing `%` and two upper-case hexadecimal digits; that is `percent_encoded`.
#[verifier::external_body]
fn url_encode(s: &str) -> (r: String)
    ensures
        r@ == percent_encoded(encode_utf8(s@)),
{
    urlencoding::encode(s).into_owned()
}

/// The connection URL for Redis: `redis://{username}:{password}@{url}`, with
/// the password percent-encoded and missing settings empty.
pub open spec fn redis_url_text(redis: ConfigRedis) -> Seq<char> {
    "redis://"@ + text_or_empty(redis.username) + ":"@ + percent_encoded(
        encode_utf8(REDIS_PASSWORD@),
    ) + "@"@ + text_or_empty(redis.url)
}

impl ConfigRedis {
    /// The URL to which the bot connects for this Redis server.
    pub fn redis_url(&self) -> (u: String)
        ensures
            u@ == redis_url_text(*self),
    {
        let mut u = "redis://".to_owned();
        let user = owned_or_empty(&self.username);
        u.append(user.as_str());
        u.append(":");
        let password = url_encode(REDIS_PASSWORD);
        u.append(password.as_str());
        u.append("@");
        let host = owned_or_empty(&self.url);
        u.append(host.as_str());
        u
    }
}

impl Config {
    /// The Redis settings, the defaults where the file has none.
    pub fn redis_settings(&self) -> (r: ConfigRedis)
        ensures
            r.url == (match self.redis { Some(c) => c.url, None => None }),
            r.username == (match self.redis { Some(c) => c.username, None => None }),
            r.password == (match self.redis { Some(c) => c.password, None => None }),
            r.expire == (match self.redis { Some(c) => c.expire, None => None }),
    {
        match &self.redis {
            Some(c) => ConfigRedis {
                url: c.url.clone(),
                username: c.username.clone(),
                password: c.password.clone(),
                expire: c.expire,
            },
            None => ConfigRedis::default(),
        }
    }

    /// The URL for the configured Redis server (defaults where none is set).
    pub fn redis_url(&self) -> (u: String)
        ensures
            u@ == redis_url_text(
                match self.redis {
                    Some(c) => c,
                    None => ConfigRedis { url: None, username: None, password: None, expire: None },
                },
            ),
    {
        let r = self.redis_settings();
        r.redis_url()
    }

    /// The address the HTTP server binds: all interfaces, at the configured
    /// port or 9000.
    pub fn listen_address(&self) -> (a: String)
        ensures
            a@ == "0.0.0.0:"@ + i64_text(
                match self.server {
                    Some(s) => match s.port {
                        Some(p) => p as i64,
                        None => 9000,
                    },
                    None => 9000,
                },
            ),
    {
        let port: u16 = match &self.server {
            Some(s) => match s.port {
                Some(p) => p,
                None => 9000,
            },
            None => 9000,
        };
        let mut a = "0.0.0.0:".to_owned();
        let digits = text_of(&i64_chars(port as i64));
        a.append(digits.as_str());
        a
    }
}

} // verus!
