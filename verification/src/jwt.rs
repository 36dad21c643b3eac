//! Signed claims tokens that expire.
//!
//! A [`Jwt`] holds the application's claims and the instant at which they
//! stop being valid. It travels as a compact signed text, made and checked
//! with the secret of a [`JWTConfig`], and can be put into a cookie.
//!
//! Checking a signature and checking the expiry are two separate steps:
//! [`Jwt::validate`] accepts a stale token whose signature is good, and the
//! caller asks [`Jwt::is_expired`].

use crate::errors::{Status, STATUS_INTERNAL};
use crate::json::{
    as_integer, copy, integer, integer_value, no_entries, object_entries, object_insert,
    object_new, object_remove, Object,
};
use serde_json::Value;
use vstd::prelude::*;

verus! {

/// The expiry of a token made without a lifetime: a Unix timestamp far in
/// the future.
pub const NEVER_EXPIRES: i64 = 4856112000;

/// The first Unix timestamp that the system clock is never read as.
pub const CLOCK_END: i64 = 0x1_0000_0000_0000;

/// The longest lifetime, in seconds, that a token can be given.
pub const MAX_LIFETIME: i64 = 0x7fff_0000_0000_0000;

/// The first instant that a cookie's expiry can hold: the start of the year
/// -9999.
pub const COOKIE_FIRST: i64 = -377705116800;

/// The last instant that a cookie's expiry can hold: the last second of the
/// year 9999.
pub const COOKIE_LAST: i64 = 253402300799;

/// Why a token could not be signed, checked or put into a cookie.
#[derive(Debug, Clone, Copy, PartialEq, Eq, Structural)]
pub enum TokenError {
    /// No secret has been configured.
    SecretUnavailable,
    /// The text is not a token signed with the configured secret.
    TokenInvalid,
    /// The expiry is not an instant that a cookie can carry.
    ExpiryOutOfRange,
}

impl TokenError {
    /// The status that the client sees: an internal fault, whatever the
    /// error.
    pub fn status(&self) -> (status: Status)
        ensures
            status == (Status { code: STATUS_INTERNAL }),
    {
        Status::new(STATUS_INTERNAL)
    }
}

/// `jsonwebtoken::errors::Error`: why the signing library gave no result.
#[verifier::external_type_specification]
#[verifier::external_body]
pub struct ExTokenFault(jsonwebtoken::errors::Error);

/// The compact signed text for a token payload under a secret.
pub uninterp spec fn signed_text(payload: Map<Seq<char>, Value>, secret: Seq<char>) -> Seq<char>;

/// The payload of a token text whose signature is good under a secret, and
/// `None` for any other text.
pub uninterp spec fn verified_payload(token: Seq<char>, secret: Seq<char>) -> Option<
    Map<Seq<char>, Value>,
>;

/// Whether a Unix timestamp is an instant that a cookie's expiry can hold.
pub open spec fn cookie_instant(timestamp: i64) -> bool {
    COOKIE_FIRST <= timestamp <= COOKIE_LAST
}

/// `chrono::Utc::now().timestamp()`: the system clock, in seconds since the
/// Unix epoch. Which second it is cannot be known beforehand. `now` takes the
/// seconds from a duration since the epoch, which is not negative, and makes
/// a date of them only where the day number fits in 32 bits. On a machine
/// whose clock is set before 1970 or past chrono's last date, `now` panics.
#[verifier::external_body]
fn unix_now() -> (now: i64)
    ensures
        0 <= now < CLOCK_END,
{
    chrono::Utc::now().timestamp()
}

/// `jsonwebtoken::encode` with the default header (HS256) and a key made of
/// the secret's bytes: the compact form of the payload, signed with
/// HMAC-SHA256. The call has three ways to fail and none is open here: the
/// key is of the header's family, a JSON object is written to memory without
/// an error, and signing with HMAC gives no error.
#[verifier::external_body]
fn encode_hs256(payload: &Object, secret: &str) -> (outcome: Result<
    String,
    jsonwebtoken::errors::Error,
>)
    ensures
        outcome is Ok,
        outcome matches Ok(token) ==> token@ == signed_text(object_entries(*payload), secret@),
{
    let key = jsonwebtoken::EncodingKey::from_secret(secret.as_bytes());
    jsonwebtoken::encode(&jsonwebtoken::Header::default(), payload, &key)
}

/// `jsonwebtoken::decode` with a key made of the secret's bytes, HS256 as the
/// one accepted algorithm and every check on the claims switched off: the
/// payload object of a text that has three parts, a readable header that
/// names HS256, the right signature and a JSON object as payload; an error
/// for any other text.
#[verifier::external_body]
fn decode_hs256(token: &str, secret: &str) -> (outcome: Result<Object, jsonwebtoken::errors::Error>)
    ensures
        outcome matches Ok(payload) ==> verified_payload(token@, secret@) == Some(
            object_entries(payload),
        ),
        outcome is Err ==> verified_payload(token@, secret@) is None,
{
    let key = jsonwebtoken::DecodingKey::from_secret(secret.as_bytes());
    let mut rules = jsonwebtoken::Validation::new(jsonwebtoken::Algorithm::HS256);
    rules.validate_exp = false;
    rules.validate_aud = false;
    rules.required_spec_claims.clear();
    jsonwebtoken::decode::<Object>(token, &key, &rules).map(|data| data.claims)
}

/// `cookie::time::OffsetDateTime::from_unix_timestamp`: whether the timestamp
/// lies within the dates that the `time` crate holds, which are those of the
/// years -9999 to 9999.
#[verifier::external_body]
fn is_cookie_instant(timestamp: i64) -> (held: bool)
    ensures
        held == cookie_instant(timestamp),
{
    cookie::time::OffsetDateTime::from_unix_timestamp(timestamp).is_ok()
}

/// The secret that tokens are signed with. It is set once: the first secret
/// given stays.
pub struct JWTConfig {
    secret: Option<String>,
}

impl JWTConfig {
    /// The configured secret, if one has been set.
    pub closed spec fn secret(&self) -> Option<Seq<char>> {
        match self.secret {
            Some(secret) => Some(secret@),
            None => None,
        }
    }

    /// A configuration without a secret.
    pub fn new() -> (config: JWTConfig)
        ensures
            config.secret() is None,
    {
        JWTConfig { secret: None }
    }

    /// Sets the secret, unless one has been set before.
    pub fn set_static(&mut self, secret: &str)
        ensures
            final(self).secret() == match old(self).secret() {
                Some(first) => Some(first),
                None => Some(secret@),
            },
    {
        if self.secret.is_none() {
            self.secret = Some(secret.to_owned());
        }
    }

    /// Whether a secret has been set.
    pub fn is_set(&self) -> (set: bool)
        ensures
            set == self.secret() is Some,
    {
        self.secret.is_some()
    }
}

impl Default for JWTConfig {
    fn default() -> (config: JWTConfig)
        ensures
            config.secret() is None,
    {
        JWTConfig::new()
    }
}

/// Application claims with the Unix timestamp at which they expire.
#[derive(Debug, Clone, PartialEq, Eq, Hash)]
pub struct Jwt<T> {
    pub exp: i64,
    pub claims: T,
}

/// What a cookie is made of: its name, its value and, where the client is to
/// drop it by itself, the Unix timestamp at which it expires.
#[derive(Debug, Clone, PartialEq, Eq)]
pub struct CookieDescriptor {
    pub name: String,
    pub value: String,
    pub expires: Option<i64>,
}

/// Whether a token that expires at `exp` is stale at the instant `now`.
pub open spec fn expired_at(exp: int, now: int) -> bool {
    now > exp
}

/// The payload that is signed for a token: its claims and its expiry, each
/// under its name.
pub open spec fn payload_of(exp: i64, claims: Value) -> Map<Seq<char>, Value> {
    no_entries().insert("claims"@, claims).insert("exp"@, integer_value(exp))
}

/// The token that a payload holds: its `exp` member has to be an integer, and
/// it has to have a `claims` member. Other members are passed over.
pub open spec fn token_of(payload: Map<Seq<char>, Value>) -> Result<Jwt<Value>, TokenError> {
    if payload.contains_key("exp"@) && payload.contains_key("claims"@) && exists|n: i64|
        payload["exp"@] == integer_value(n) {
        Ok(
            Jwt {
                exp: choose|n: i64| payload["exp"@] == integer_value(n),
                claims: payload["claims"@],
            },
        )
    } else {
        Err(TokenError::TokenInvalid)
    }
}

/// What checking a token text gives, from what the signature check gave.
pub open spec fn validated(verified: Option<Map<Seq<char>, Value>>) -> Result<Jwt<Value>, TokenError> {
    match verified {
        Some(payload) => token_of(payload),
        None => Err(TokenError::TokenInvalid),
    }
}

/// What signing a token gives: the signed text of its payload, if there is
/// a secret to sign with.
pub open spec fn signing(secret: Option<Seq<char>>, exp: i64, claims: Value) -> Result<
    Seq<char>,
    TokenError,
> {
    match secret {
        Some(secret) => Ok(signed_text(payload_of(exp, claims), secret)),
        None => Err(TokenError::SecretUnavailable),
    }
}

/// The characters of a signed text, or the error in its place.
pub open spec fn text_of(signed: Result<String, TokenError>) -> Result<Seq<char>, TokenError> {
    match signed {
        Ok(text) => Ok(text@),
        Err(error) => Err(error),
    }
}

/// The cookie for a signed token, or the reason why there is none. A token
/// that could not be signed gives that error. An expiry is shown to the
/// client only on request, and then has to be an instant a cookie can hold.
pub open spec fn cookie_of(
    signed: Result<Seq<char>, TokenError>,
    name: Seq<char>,
    exp: i64,
    client_exp: bool,
    holds: bool,
) -> Result<(Seq<char>, Seq<char>, Option<i64>), TokenError> {
    match signed {
        Err(error) => Err(error),
        Ok(value) => if !client_exp {
            Ok((name, value, None))
        } else if holds {
            Ok((name, value, Some(exp)))
        } else {
            Err(TokenError::ExpiryOutOfRange)
        },
    }
}

impl CookieDescriptor {
    /// The descriptor as plain values: name, value and expiry.
    pub open spec fn parts(self) -> (Seq<char>, Seq<char>, Option<i64>) {
        (self.name@, self.value@, self.expires)
    }

    /// Makes the cookie for a token that has been signed, or passes on why it
    /// could not be. `holds` says whether `exp` is an instant that a cookie
    /// can carry; it is looked at only where the client is to see the expiry.
    pub fn assemble(
        signed: Result<String, TokenError>,
        name: &str,
        exp: i64,
        client_exp: bool,
        holds: bool,
    ) -> (outcome: Result<CookieDescriptor, TokenError>)
        ensures
            match cookie_of(text_of(signed), name@, exp, client_exp, holds) {
                Ok(parts) => outcome matches Ok(cookie) && cookie.parts() == parts,
                Err(error) => outcome == Err::<CookieDescriptor, TokenError>(error),
            },
    {
        match signed {
            Err(error) => Err(error),
            Ok(value) => {
                if !client_exp {
                    Ok(CookieDescriptor { name: name.to_owned(), value, expires: None })
                } else if holds {
                    Ok(CookieDescriptor { name: name.to_owned(), value, expires: Some(exp) })
                } else {
                    Err(TokenError::ExpiryOutOfRange)
                }
            },
        }
    }
}

impl<T> Jwt<T> {
    /// A token that does not expire in practice.
    pub fn new(claims: T) -> (token: Self)
        ensures
            token == (Jwt { exp: NEVER_EXPIRES, claims }),
    {
        Self { exp: NEVER_EXPIRES, claims }
    }

    /// A token made at the instant `now` that lives for `duration` seconds.
    pub fn new_with_exp_at(claims: T, now: i64, duration: i64) -> (token: Self)
        requires
            i64::MIN <= now + duration <= i64::MAX,
        ensures
            token.claims == claims,
            token.exp == now + duration,
    {
        Self { exp: now + duration, claims }
    }

    /// A token made now that lives for `duration` seconds. Which second
    /// "now" is, the system clock says; on a machine whose clock is set
    /// before 1970, reading it panics.
    pub fn new_with_exp(claims: T, duration: i64) -> (token: Self)
        requires
            duration <= MAX_LIFETIME,
        ensures
            token.claims == claims,
            duration <= token.exp < duration + CLOCK_END,
    {
        let now: i64 = unix_now();
        Self::new_with_exp_at(claims, now, duration)
    }

    /// Whether the token is stale at the instant `now`.
    pub fn is_expired_at(&self, now: i64) -> (stale: bool)
        ensures
            stale == expired_at(self.exp as int, now as int),
    {
        now > self.exp
    }

    /// Whether the token is stale now. Which second "now" is, the system
    /// clock says; on a machine whose clock is set before 1970, reading it
    /// panics.
    pub fn is_expired(&self) -> (stale: bool)
        ensures
            self.exp < 0 ==> stale,
            self.exp >= CLOCK_END - 1 ==> !stale,
    {
        let now: i64 = unix_now();
        self.is_expired_at(now)
    }
}

impl Jwt<Value> {
    /// Reads a token out of a payload object.
    pub fn from_payload(payload: Object) -> (outcome: Result<Self, TokenError>)
        ensures
            outcome == token_of(object_entries(payload)),
    {
        let mut members = payload;
        proof {
            reveal_strlit("exp");
            reveal_strlit("claims");
            assert("exp"@.len() != "claims"@.len());
        }
        let exp = object_remove(&mut members, "exp");
        let claims = object_remove(&mut members, "claims");
        match (exp, claims) {
            (Some(number), Some(claims)) => match as_integer(&number) {
                Some(exp) => {
                    proof {
                        let found = choose|n: i64| number == integer_value(n);
                        assert(number == integer_value(exp));
                        assert(number == integer_value(found));
                    }
                    Ok(Jwt { exp, claims })
                },
                None => Err(TokenError::TokenInvalid),
            },
            _ => Err(TokenError::TokenInvalid),
        }
    }

    /// The payload object that is signed for this token. Read again, it
    /// gives the token back.
    pub fn to_payload(&self) -> (payload: Object)
        ensures
            object_entries(payload) == payload_of(self.exp, self.claims),
            token_of(object_entries(payload)) == Ok::<Jwt<Value>, TokenError>(*self),
    {
        let mut payload = object_new();
        object_insert(&mut payload, "claims".to_owned(), copy(&self.claims));
        let exp = integer(self.exp);
        object_insert(&mut payload, "exp".to_owned(), exp);
        proof {
            reveal_strlit("exp");
            reveal_strlit("claims");
            assert("exp"@.len() != "claims"@.len());
            let entries = object_entries(payload);
            assert(entries["exp"@] == integer_value(self.exp));
            let found = choose|n: i64| entries["exp"@] == integer_value(n);
            assert(exp == integer_value(found));
        }
        payload
    }

    /// Signs the token with the configured secret: the text is the signed
    /// form of the token's payload. Without a secret there is nothing to
    /// sign with.
    pub fn sign(&self, config: &JWTConfig) -> (outcome: Result<String, TokenError>)
        ensures
            text_of(outcome) == signing(config.secret(), self.exp, self.claims),
    {
        match &config.secret {
            None => Err(TokenError::SecretUnavailable),
            Some(secret) => {
                let payload = self.to_payload();
                match encode_hs256(&payload, secret.as_str()) {
                    Ok(text) => Ok(text),
                    Err(_) => unreached(),
                }
            },
        }
    }

    /// Checks a token text against the configured secret and reads the token
    /// out of it. A stale token with a good signature is accepted. A missing
    /// secret, a bad signature and an unreadable text all give the same
    /// error.
    pub fn validate(token: &str, config: &JWTConfig) -> (outcome: Result<Self, TokenError>)
        ensures
            outcome == match config.secret() {
                Some(secret) => validated(verified_payload(token@, secret)),
                None => Err(TokenError::TokenInvalid),
            },
    {
        match &config.secret {
            None => Err(TokenError::TokenInvalid),
            Some(secret) => match decode_hs256(token, secret.as_str()) {
                Ok(payload) => Self::from_payload(payload),
                Err(_) => Err(TokenError::TokenInvalid),
            },
        }
    }

    /// Signs the token and puts it into a cookie of the given name. With
    /// `client_exp` the cookie expires when the token does, which has to be
    /// an instant a cookie can hold; without it the cookie says nothing of
    /// an expiry.
    pub fn as_cookie(&self, config: &JWTConfig, name: &str, client_exp: bool) -> (outcome: Result<
        CookieDescriptor,
        TokenError,
    >)
        ensures
            match cookie_of(
                signing(config.secret(), self.exp, self.claims),
                name@,
                self.exp,
                client_exp,
                cookie_instant(self.exp),
            ) {
                Ok(parts) => outcome matches Ok(cookie) && cookie.parts() == parts,
                Err(error) => outcome == Err::<CookieDescriptor, TokenError>(error),
            },
    {
        let signed = self.sign(config);
        let holds = client_exp && is_cookie_instant(self.exp);
        CookieDescriptor::assemble(signed, name, self.exp, client_exp, holds)
    }

    /// Reads the token out of a cookie: the same as checking its value.
    pub fn from_cookie(cookie: &CookieDescriptor, config: &JWTConfig) -> (outcome: Result<
        Self,
        TokenError,
    >)
        ensures
            outcome == match config.secret() {
                Some(secret) => validated(verified_payload(cookie.value@, secret)),
                None => Err(TokenError::TokenInvalid),
            },
    {
        Self::validate(cookie.value.as_str(), config)
    }
}

/// Checking a token text fails in one way only: whatever is wrong with the
/// text, the signature or the payload, the error is the same.
pub proof fn lemma_invalid_is_the_only_failure(verified: Option<Map<Seq<char>, Value>>)
    ensures
        verified is None ==> validated(verified) is Err,
        validated(verified) is Err ==> validated(verified) == Err::<Jwt<Value>, TokenError>(
            TokenError::TokenInvalid,
        ),
{
}

/// A token made with a positive lifetime is fresh at the instant it is made,
/// and stale at every instant after its lifetime has passed.
pub proof fn lemma_fresh_then_stale(now: int, duration: int, later: int)
    requires
        duration > 0,
    ensures
        !expired_at(now + duration, now),
        later > now + duration ==> expired_at(now + duration, later),
{
}

} // verus!
