//! Client-credentials token cache.
//!
//! The manager decides when a cached token can be used and turns the token
//! endpoint's reply into a cached token; the HTTP exchange and the clock are
//! the caller's, who hands in the reply and the current time.
use crate::error::OAuth2Error;
use crate::text::{owned, push_char};
use vstd::prelude::*;

verus! {

/// Seconds before expiry at which a token counts as expired.
pub const REFRESH_BUFFER_SECONDS: i64 = 300;

/// Credentials and endpoint of the client-credentials flow.
#[derive(Debug, Clone)]
pub struct OAuth2Config {
    pub token_url: String,
    pub client_id: String,
    pub client_secret: String,
    pub scope: String,
}

/// A cached access token and its expiry (seconds since the epoch).
#[derive(Debug, Clone)]
pub struct CachedToken {
    pub access_token: String,
    pub expires_at: i64,
}

/// The fields of a decoded token reply.
#[derive(Debug, Clone)]
pub struct TokenReply {
    pub access_token: String,
    pub expires_in: u64,
}

pub open spec fn saturating_sub_i64(a: int, b: int) -> int {
    if a - b < i64::MIN {
        i64::MIN as int
    } else if a - b > i64::MAX {
        i64::MAX as int
    } else {
        a - b
    }
}

pub open spec fn saturating_add_i64(a: int, b: int) -> int {
    if a + b > i64::MAX {
        i64::MAX as int
    } else {
        a + b
    }
}

/// Lifetime in seconds of a token, capped to the range of `i64`.
pub open spec fn token_lifetime(expires_in: u64) -> int {
    if expires_in > i64::MAX as u64 {
        i64::MAX as int
    } else {
        expires_in as int
    }
}

impl CachedToken {
    /// Expired, or within the refresh buffer of expiring, at time `now`.
    pub open spec fn expired_at(&self, now: int) -> bool {
        now >= saturating_sub_i64(self.expires_at as int, REFRESH_BUFFER_SECONDS as int)
    }

    /// Whether the token should be refreshed at time `now` (seconds since the epoch).
    pub fn is_expired(&self, now: i64) -> (r: bool)
        ensures
            r == self.expired_at(now as int),
    {
        let refresh_at = if self.expires_at < i64::MIN + REFRESH_BUFFER_SECONDS {
            i64::MIN
        } else {
            self.expires_at - REFRESH_BUFFER_SECONDS
        };
        now >= refresh_at
    }
}

/// Token manager: configuration and the cached token, if any.
pub struct OAuth2Manager {
    config: OAuth2Config,
    cached_token: Option<CachedToken>,
}

/// ASCII letters and digits and `-`, `_`, `.`, `~` stand for themselves.
pub open spec fn is_unreserved(c: char) -> bool {
    ('A' <= c && c <= 'Z') || ('a' <= c && c <= 'z') || ('0' <= c && c <= '9') || c == '-' || c
        == '_' || c == '.' || c == '~'
}

/// Upper-case hexadecimal digit.
pub open spec fn hex_char(d: int) -> char {
    if d < 10 {
        crate::text::digit_char(d)
    } else if d == 10 {
        'A'
    } else if d == 11 {
        'B'
    } else if d == 12 {
        'C'
    } else if d == 13 {
        'D'
    } else if d == 14 {
        'E'
    } else {
        'F'
    }
}

/// Form encoding of one character: unreserved as is, space as `+`, any
/// other as `%` and two hex digits of the low byte of its code point.
pub open spec fn encoded_char(c: char) -> Seq<char> {
    if is_unreserved(c) {
        seq![c]
    } else if c == ' ' {
        seq!['+']
    } else {
        let b = (c as u32) as int % 256;
        seq!['%', hex_char(b / 16), hex_char(b % 16)]
    }
}

pub open spec fn encoded(s: Seq<char>) -> Seq<char>
    decreases s.len(),
{
    if s.len() == 0 {
        seq![]
    } else {
        encoded(s.drop_last()) + encoded_char(s.last())
    }
}

fn hex_digit(d: u32) -> (c: char)
    requires
        d < 16,
    ensures
        c == hex_char(d as int),
{
    if d < 10 {
        crate::text::digit(d as u64)
    } else if d == 10 {
        'A'
    } else if d == 11 {
        'B'
    } else if d == 12 {
        'C'
    } else if d == 13 {
        'D'
    } else if d == 14 {
        'E'
    } else {
        'F'
    }
}

/// Form-urlencodes a text for a token request body.
pub fn encode(input: &str) -> (r: String)
    ensures
        r@ == encoded(input@),
{
    let n = input.unicode_len();
    let mut out = String::new();
    let mut i: usize = 0;
    while i < n
        invariant
            n == input@.len(),
            i <= n,
            out@ == encoded(input@.take(i as int)),
        decreases n - i,
    {
        let c = input.get_char(i);
        let ghost before = out@;
        if ('A' <= c && c <= 'Z') || ('a' <= c && c <= 'z') || ('0' <= c && c <= '9') || c == '-'
            || c == '_' || c == '.' || c == '~' {
            push_char(&mut out, c);
        } else if c == ' ' {
            push_char(&mut out, '+');
        } else {
            let b = (c as u32) % 256;
            push_char(&mut out, '%');
            push_char(&mut out, hex_digit(b / 16));
            push_char(&mut out, hex_digit(b % 16));
        }
        proof {
            assert(input@.take(i + 1).drop_last() =~= input@.take(i as int));
            assert(input@.take(i + 1).last() == c);
            assert(out@ =~= before + encoded_char(c));
        }
        i = i + 1;
    }
    assert(input@.take(n as int) =~= input@);
    out
}

impl OAuth2Manager {
    pub closed spec fn config_view(&self) -> OAuth2Config {
        self.config
    }

    pub closed spec fn cache(&self) -> Option<CachedToken> {
        self.cached_token
    }

    /// A manager with an empty cache.
    pub fn new(config: OAuth2Config) -> (r: Self)
        ensures
            r.cache() is None,
            r.config_view() == config,
    {
        OAuth2Manager { config, cached_token: None }
    }

    pub fn config(&self) -> (r: &OAuth2Config)
        ensures
            *r == self.config_view(),
    {
        &self.config
    }

    /// Whether a token is cached.
    pub fn has_cached_token(&self) -> (r: bool)
        ensures
            r == self.cache() is Some,
    {
        self.cached_token.is_some()
    }

    /// The cached token when it is still fresh at `now`; `None` when a new
    /// token must be fetched.
    pub fn get_token(&self, now: i64) -> (r: Option<String>)
        ensures
            match self.cache() {
                Some(t) => if t.expired_at(now as int) {
                    r is None
                } else {
                    r matches Some(v) && v@ == t.access_token@
                },
                None => r is None,
            },
    {
        match &self.cached_token {
            Some(token) => if token.is_expired(now) {
                None
            } else {
                Some(token.access_token.clone())
            },
            None => None,
        }
    }

    /// Body of the token request: grant type, client id, client secret and
    /// scope, form encoded.
    pub fn token_request_body(&self) -> (r: String)
        ensures
            r@ == "grant_type=client_credentials&client_id="@ + encoded(self.config_view().client_id@)
                + "&client_secret="@ + encoded(self.config_view().client_secret@) + "&scope="@
                + encoded(self.config_view().scope@),
    {
        let mut out = owned("grant_type=client_credentials&client_id=");
        out.append(encode(self.config.client_id.as_str()).as_str());
        out.append("&client_secret=");
        out.append(encode(self.config.client_secret.as_str()).as_str());
        out.append("&scope=");
        out.append(encode(self.config.scope.as_str()).as_str());
        out
    }

    /// Takes the token endpoint's reply (`status`, `body`, and the decoded
    /// fields or the decoder's message) received at `now`, caches the new
    /// token and returns it.
    ///
    /// A status other than 200, an undecodable reply, an empty token or a
    /// zero lifetime is an error, and leaves the cache as it was.
    pub fn accept_token_reply(
        &mut self,
        status: u16,
        body: String,
        decoded: Result<TokenReply, String>,
        now: i64,
    ) -> (r: Result<String, OAuth2Error>)
        ensures
            final(self).config_view() == old(self).config_view(),
            status == 401 ==> (r matches Err(OAuth2Error::InvalidCredentials)),
            status != 200 && status != 401 ==> (r matches Err(
                OAuth2Error::FetchFailed { status: s, body: b },
            ) && s == status && b@ == body@),
            status == 200 ==> match decoded {
                Err(_) => (r matches Err(OAuth2Error::InvalidTokenResponse(_))),
                Ok(t) => if t.access_token@.len() == 0 || t.expires_in == 0 {
                    (r matches Err(OAuth2Error::InvalidTokenResponse(_)))
                } else {
                    (r matches Ok(v) && v@ == t.access_token@) && (final(self).cache() matches Some(
                        c,
                    ) && c.access_token@ == t.access_token@ && c.expires_at == saturating_add_i64(
                        now as int,
                        token_lifetime(t.expires_in),
                    ))
                },
            },
            r is Err ==> final(self).cache() == old(self).cache(),
    {
        if status != 200 {
            if status == 401 {
                return Err(OAuth2Error::InvalidCredentials);
            }
            return Err(OAuth2Error::FetchFailed { status, body });
        }
        let reply = match decoded {
            Ok(t) => t,
            Err(msg) => {
                let mut m = owned("Failed to parse token response: ");
                m.append(msg.as_str());
                m.append(". Body: ");
                m.append(body.as_str());
                return Err(OAuth2Error::InvalidTokenResponse(m));
            },
        };
        if reply.access_token.as_str().unicode_len() == 0 {
            return Err(OAuth2Error::InvalidTokenResponse(owned("access_token is empty")));
        }
        if reply.expires_in == 0 {
            return Err(OAuth2Error::InvalidTokenResponse(owned("expires_in is 0")));
        }
        let lifetime: i64 = if reply.expires_in > i64::MAX as u64 {
            i64::MAX
        } else {
            reply.expires_in as i64
        };
        let expires_at = if now > i64::MAX - lifetime {
            i64::MAX
        } else {
            now + lifetime
        };
        let token = reply.access_token.clone();
        self.cached_token = Some(CachedToken { access_token: reply.access_token, expires_at });
        Ok(token)
    }

    /// Drops the cached token, so that the next request fetches a new one.
    pub fn clear_cache(&mut self)
        ensures
            final(self).cache() is None,
            final(self).config_view() == old(self).config_view(),
    {
        self.cached_token = None;
    }

    /// Whether a token must be fetched before the next call: none is
    /// cached, or the cached one is within the refresh buffer of expiring.
    pub fn is_near_expiry(&self, now: i64) -> (r: bool)
        ensures
            r == match self.cache() {
                Some(t) => t.expired_at(now as int),
                None => true,
            },
    {
        match &self.cached_token {
            Some(token) => token.is_expired(now),
            None => true,
        }
    }
}

} // verus!
