//! The WeChat access token: where it comes from and where it is kept.

use vstd::prelude::*;
use crate::config::{owned_or_empty, text_or_empty, ConfigApi, ConfigRedis};

verus! {

/// WeChat's answer to a request for an access token.
#[derive(Clone, Debug, PartialEq, Eq)]
pub struct ResAccessToken {
    pub access_token: Option<String>,
    pub expires_in: Option<i64>,
    pub err_code: Option<String>,
    pub err_msg: Option<String>,
}

impl ResAccessToken {
    /// The token in the answer, empty where it holds none.
    pub fn get_token(&self) -> (t: String)
        ensures
            t@ == text_or_empty(self.access_token),
    {
        owned_or_empty(&self.access_token)
    }
}

/// The key under which the token is kept in Redis.
pub open spec fn token_key() -> Seq<char> {
    "snipe_wx_access_token"@
}

/// The key under which the token is kept in Redis.
pub fn token_key_text() -> (k: String)
    ensures
        k@ == token_key(),
{
    "snipe_wx_access_token".to_owned()
}

/// The URL that asks WeChat for a token with the configured app id and secret.
pub open spec fn token_url_text(wx: ConfigApi) -> Seq<char> {
    "https://api.weixin.qq.com/cgi-bin/token?grant_type=client_credential&appid="@ + text_or_empty(
        wx.id,
    ) + "&secret="@ + text_or_empty(wx.secret)
}

/// The URL that asks WeChat for a token.
pub fn token_url(wx: &ConfigApi) -> (u: String)
    ensures
        u@ == token_url_text(*wx),
{
    let mut u = "https://api.weixin.qq.com/cgi-bin/token?grant_type=client_credential&appid=".to_owned();
    u.append(owned_or_empty(&wx.id).as_str());
    u.append("&secret=");
    u.append(owned_or_empty(&wx.secret).as_str());
    u
}

/// What to do for a token, given what the cache held.
#[derive(Debug, PartialEq, Eq)]
pub enum TokenStep {
    /// The cache held this token: use it.
    Use(String),
    /// The cache held none: ask WeChat.
    Fetch,
}

/// A token found in the cache is used as it is; without one, WeChat is asked.
pub fn from_cache(cached: Option<String>) -> (s: TokenStep)
    ensures
        match cached {
            Some(t) => s matches TokenStep::Use(u) && u@ == t@,
            None => s is Fetch,
        },
{
    match cached {
        Some(t) => TokenStep::Use(t),
        None => TokenStep::Fetch,
    }
}

/// A write to the cache: the value under the key, kept for `expire` seconds.
#[derive(Debug, PartialEq, Eq)]
pub struct CacheWrite {
    pub key: String,
    pub value: String,
    pub expire: i64,
}

/// The token that WeChat gave, and the cache write that keeps it: the token
/// written is the token used, kept for the configured time (0 where none is
/// set).
pub fn keep_fetched(res: &ResAccessToken, redis: &ConfigRedis) -> (r: (String, CacheWrite))
    ensures
        r.0@ == text_or_empty(res.access_token),
        r.1.value@ == r.0@,
        r.1.key@ == token_key(),
        r.1.expire == match redis.expire {
            Some(e) => e,
            None => 0,
        },
{
    let token = res.get_token();
    let value = token.clone();
    let expire = match redis.expire {
        Some(e) => e,
        None => 0,
    };
    (token, CacheWrite { key: token_key_text(), value, expire })
}

/// The token from WeChat, for the path that does not keep it: the empty
/// text where the request failed or the answer held none.
pub fn fetched_or_empty(res: Option<ResAccessToken>) -> (t: String)
    ensures
        t@ == match res {
            Some(r) => text_or_empty(r.access_token),
            None => Seq::empty(),
        },
{
    match res {
        Some(r) => r.get_token(),
        None => String::new(),
    }
}

} // verus!
