//! The session codec: issues and verifies the signed session credentials
//! that carry a username claim and an expiry, and the decision at the end of
//! the OAuth login flow.

use std::collections::BTreeMap;

use hmac::{Hmac, Mac};
use jwt::{Claims, RegisteredClaims, SignWithKey, VerifyWithKey};
use sha2::Sha256;
use vstd::prelude::*;

use crate::config::EnvVars;
use crate::errors::{AuthError, Error};

verus! {

/// Seconds in the seven days a session credential stays valid.
pub const SESSION_LIFETIME_SECONDS: u64 = 7 * 24 * 60 * 60;

/// The auth information of a user: a session token and the username it
/// proves.
#[derive(Clone, Debug)]
pub struct Auth {
    pub jwt: String,
    pub username: String,
}

/// What signing a single-claim token returns: a pure function of the
/// secret, the claim and the expiry.
pub uninterp spec fn signed_token(
    secret: Seq<char>,
    claim_key: Seq<char>,
    claim_value: Seq<char>,
    exp: u64,
) -> Seq<char>;

/// What verifying a token and extracting one claim returns: `None` when the
/// signature does not verify; otherwise the string value of the claim (or
/// `None` when absent or not a string) and the expiration claim.
pub uninterp spec fn decoded_claim(
    secret: Seq<char>,
    claim_key: Seq<char>,
    token: Seq<char>,
) -> Option<(Option<Seq<char>>, Option<u64>)>;

/// The view of an exec decode result at the level `decoded_claim` speaks.
pub open spec fn claims_view(
    r: Option<(Option<String>, Option<u64>)>,
) -> Option<(Option<Seq<char>>, Option<u64>)> {
    match r {
        None => None,
        Some((value, exp)) => Some(
            (
                match value {
                    None => None,
                    Some(s) => Some(s@),
                },
                exp,
            ),
        ),
    }
}

/// Relies on jwt's `SignWithKey` for `Claims` with an `Hmac<Sha256>` key
/// built by the hmac crate: the token is a function of the secret, the
/// single private claim and the expiry alone, and jwt's `VerifyWithKey` on
/// that token with the same secret yields back the same claim value and
/// expiry.  Signing always succeeds: HMAC derives a key from a slice of any
/// length, HMAC-SHA256 signing is infallible, and serializing a claims map
/// with one string claim and a numeric expiry cannot fail.  The claim key
/// must not collide with a registered claim name: jwt's `Claims` flattens
/// the registered and private claim maps into one JSON object, so a private
/// claim under a registered name would not survive the round trip.
#[verifier::external_body]
fn sign_claim(secret: &str, claim_key: &str, claim_value: &str, exp: u64) -> (r: Option<String>)
    requires
        claim_key@ != "iss"@,
        claim_key@ != "sub"@,
        claim_key@ != "aud"@,
        claim_key@ != "exp"@,
        claim_key@ != "nbf"@,
        claim_key@ != "iat"@,
        claim_key@ != "jti"@,
    ensures
        r is Some,
        r matches Some(t) ==> t@ == signed_token(secret@, claim_key@, claim_value@, exp),
        r is Some ==> decoded_claim(
            secret@,
            claim_key@,
            signed_token(secret@, claim_key@, claim_value@, exp),
        ) == Some((Some(claim_value@), Some(exp))),
{
    let key: Hmac<Sha256> = Hmac::new_from_slice(secret.as_bytes()).ok()?;
    let mut private = BTreeMap::new();
    private.insert(claim_key.to_string(), serde_json::Value::String(claim_value.to_string()));
    let registered = RegisteredClaims { expiration: Some(exp), ..RegisteredClaims::default() };
    (Claims { registered, private }).sign_with_key(&key).ok()
}

/// Relies on jwt's `VerifyWithKey` for `&str` with an `Hmac<Sha256>` key:
/// the outcome is a function of the secret, the claim key and the token text
/// alone.  `None` when the secret cannot form a key or the signature does
/// not verify.
#[verifier::external_body]
fn decode_claim(secret: &str, claim_key: &str, token: &str) -> (r: Option<
    (Option<String>, Option<u64>),
>)
    ensures
        claims_view(r) == decoded_claim(secret@, claim_key@, token@),
{
    let key: Hmac<Sha256> = Hmac::new_from_slice(secret.as_bytes()).ok()?;
    let claims: Claims = token.verify_with_key(&key).ok()?;
    let value = claims.private.get(claim_key).and_then(|v| v.as_str()).map(|s| s.to_string());
    Some((value, claims.registered.expiration))
}

proof fn lemma_username_key_not_registered()
    ensures
        "username"@ != "iss"@,
        "username"@ != "sub"@,
        "username"@ != "aud"@,
        "username"@ != "exp"@,
        "username"@ != "nbf"@,
        "username"@ != "iat"@,
        "username"@ != "jti"@,
{
    reveal_strlit("username");
    reveal_strlit("iss");
    reveal_strlit("sub");
    reveal_strlit("aud");
    reveal_strlit("exp");
    reveal_strlit("nbf");
    reveal_strlit("iat");
    reveal_strlit("jti");
    assert("username"@.len() == 8);
}

/// Relies on chrono's `Utc::now` for the current Unix time.  Nothing is
/// assumed of the value beyond what its type gives: the result is the
/// absolute value of an `i64` second count, so it fits in 63 bits and
/// leaves a seven-day expiry representable.
#[verifier::external_body]
fn current_timestamp() -> (r: u64)
    ensures
        r <= 0x8000000000000000u64,
{
    chrono::Utc::now().timestamp().unsigned_abs()
}

/// The outcome of verifying `token` against `secret` at time `now`.  An
/// expired token (and one without an expiry claim) is rejected with the same
/// error as a bad signature: no distinct "expired" signal is surfaced.
pub open spec fn verify_outcome(secret: Seq<char>, token: Seq<char>, now: u64) -> Result<
    Seq<char>,
    Error,
> {
    match decoded_claim(secret, "username"@, token) {
        None => Err(Error::Auth(AuthError::InvalidSignature)),
        Some((claim, exp)) => match claim {
            None => Err(Error::Auth(AuthError::MalformedClaims)),
            Some(username) => match exp {
                None => Err(Error::Auth(AuthError::InvalidSignature)),
                Some(e) => if now < e {
                    Ok(username)
                } else {
                    Err(Error::Auth(AuthError::InvalidSignature))
                },
            },
        },
    }
}

/// Verifies a session credential at the given time: the signature must
/// verify, the username claim must be a string, and the expiry must lie in
/// the future.
pub fn verify_token_at(token: &str, now: u64, env_vars: &EnvVars) -> (r: Result<Auth, Error>)
    ensures
        r matches Ok(a) ==> verify_outcome(env_vars.jwt_secret@, token@, now) == Ok::<
            Seq<char>,
            Error,
        >(a.username@),
        r matches Ok(a) ==> a.jwt@ == token@,
        r matches Err(e) ==> verify_outcome(env_vars.jwt_secret@, token@, now) == Err::<
            Seq<char>,
            Error,
        >(e),
{
    match decode_claim(env_vars.jwt_secret.as_str(), "username", token) {
        None => Err(Error::Auth(AuthError::InvalidSignature)),
        Some((claim, exp)) => match claim {
            None => Err(Error::Auth(AuthError::MalformedClaims)),
            Some(username) => match exp {
                None => Err(Error::Auth(AuthError::InvalidSignature)),
                Some(e) => if now < e {
                    Ok(Auth { jwt: token.to_owned(), username })
                } else {
                    Err(Error::Auth(AuthError::InvalidSignature))
                },
            },
        },
    }
}

/// Builds and signs a session credential for `username`, expiring
/// `SESSION_LIFETIME_SECONDS` after `now`.  Issuance succeeds on every
/// input whose expiry is representable, and fails with a configuration
/// error exactly when it is not: the signing key accepts a secret of any
/// length.
pub fn issue_token_at(username: &str, now: u64, env_vars: &EnvVars) -> (r: Result<Auth, Error>)
    ensures
        r is Ok <==> now + SESSION_LIFETIME_SECONDS <= u64::MAX,
        r matches Ok(a) ==> a.username@ == username@,
        r matches Ok(a) ==> a.jwt@ == signed_token(
            env_vars.jwt_secret@,
            "username"@,
            username@,
            (now + SESSION_LIFETIME_SECONDS) as u64,
        ),
        r matches Ok(a) ==> decoded_claim(env_vars.jwt_secret@, "username"@, a.jwt@) == Some(
            (Some(username@), Some((now + SESSION_LIFETIME_SECONDS) as u64)),
        ),
        r matches Err(e) ==> e == Error::Config,
{
    let exp = match now.checked_add(SESSION_LIFETIME_SECONDS) {
        Some(e) => e,
        None => {
            return Err(Error::Config);
        },
    };
    proof {
        lemma_username_key_not_registered();
    }
    match sign_claim(env_vars.jwt_secret.as_str(), "username", username, exp) {
        Some(t) => Ok(Auth { jwt: t, username: username.to_owned() }),
        None => Err(Error::Config),
    }
}

/// Generates a signed session token for `username` with the configured
/// secret; the expiry is seven days from the current clock reading.
/// Issuance always succeeds: the signing key accepts a secret of any
/// length, and the clock value leaves the expiry representable.
pub fn generate_token(username: &str, env_vars: &EnvVars) -> (r: Result<String, Error>)
    ensures
        r is Ok,
        r matches Ok(t) ==> exists|now: u64|
            now + SESSION_LIFETIME_SECONDS <= u64::MAX && t@ == #[trigger] signed_token(
                env_vars.jwt_secret@,
                "username"@,
                username@,
                (now + SESSION_LIFETIME_SECONDS) as u64,
            ) && decoded_claim(env_vars.jwt_secret@, "username"@, t@) == Some(
                (Some(username@), Some((now + SESSION_LIFETIME_SECONDS) as u64)),
            ),
{
    let now = current_timestamp();
    match issue_token_at(username, now, env_vars) {
        Ok(a) => {
            proof {
                assert(now + SESSION_LIFETIME_SECONDS <= u64::MAX && a.jwt@ == signed_token(
                    env_vars.jwt_secret@,
                    "username"@,
                    username@,
                    (now + SESSION_LIFETIME_SECONDS) as u64,
                ) && decoded_claim(env_vars.jwt_secret@, "username"@, a.jwt@) == Some(
                    (Some(username@), Some((now + SESSION_LIFETIME_SECONDS) as u64)),
                ));
            }
            Ok(a.jwt)
        },
        Err(e) => Err(e),
    }
}

/// Verifies whether a token is valid and signed with the secret key at the
/// current clock reading; returns the username and the token in a struct.
pub fn verify_token(token: &str, env_vars: &EnvVars) -> (r: Result<Auth, Error>)
    ensures
        r matches Ok(a) ==> a.jwt@ == token@ && exists|now: u64| #[trigger] verify_outcome(
            env_vars.jwt_secret@,
            token@,
            now,
        ) == Ok::<Seq<char>, Error>(a.username@),
        r matches Err(e) ==> exists|now: u64| #[trigger] verify_outcome(
            env_vars.jwt_secret@,
            token@,
            now,
        ) == Err::<Seq<char>, Error>(e),
{
    let now = current_timestamp();
    let r = verify_token_at(token, now, env_vars);
    proof {
        assert(match r {
            Ok(a) => verify_outcome(env_vars.jwt_secret@, token@, now) == Ok::<Seq<char>, Error>(
                a.username@,
            ),
            Err(e) => verify_outcome(env_vars.jwt_secret@, token@, now) == Err::<Seq<char>, Error>(
                e,
            ),
        });
    }
    r
}

/// The decision at the end of the OAuth login flow, at the given time: an
/// organization member is owed a freshly issued credential whenever its
/// expiry is representable; a non-member receives `None`, a normal
/// unauthorized outcome distinct from an upstream failure.
pub fn login_decision_at(
    is_member: bool,
    username: &str,
    now: u64,
    env_vars: &EnvVars,
) -> (r: Result<Option<Auth>, Error>)
    ensures
        !is_member ==> (r matches Ok(o) && o is None),
        is_member ==> (r is Ok <==> now + SESSION_LIFETIME_SECONDS <= u64::MAX),
        is_member ==> (r matches Ok(o) ==> o matches Some(a) && a.username@ == username@
            && a.jwt@ == signed_token(
            env_vars.jwt_secret@,
            "username"@,
            username@,
            (now + SESSION_LIFETIME_SECONDS) as u64,
        ) && decoded_claim(env_vars.jwt_secret@, "username"@, a.jwt@) == Some(
            (Some(username@), Some((now + SESSION_LIFETIME_SECONDS) as u64)),
        )),
        is_member ==> (r matches Err(e) ==> e == Error::Config),
{
    if is_member {
        match issue_token_at(username, now, env_vars) {
            Ok(a) => Ok(Some(a)),
            Err(e) => Err(e),
        }
    } else {
        Ok(None)
    }
}

/// The decision at the end of the OAuth login flow, at the current clock
/// reading: the binary hands in the answer of the membership probe and gets
/// back the credential an organization member is owed, or `None` for a
/// non-member.  The decision always succeeds, since the clock value leaves
/// the expiry representable.
pub fn login_decision(is_member: bool, username: &str, env_vars: &EnvVars) -> (r: Result<
    Option<Auth>,
    Error,
>)
    ensures
        r is Ok,
        !is_member ==> (r matches Ok(o) && o is None),
        is_member ==> (r matches Ok(o) ==> o matches Some(a) && a.username@ == username@
            && exists|now: u64|
            now + SESSION_LIFETIME_SECONDS <= u64::MAX && a.jwt@ == #[trigger] signed_token(
                env_vars.jwt_secret@,
                "username"@,
                username@,
                (now + SESSION_LIFETIME_SECONDS) as u64,
            ) && decoded_claim(env_vars.jwt_secret@, "username"@, a.jwt@) == Some(
                (Some(username@), Some((now + SESSION_LIFETIME_SECONDS) as u64)),
            )),
{
    let now = current_timestamp();
    let r = login_decision_at(is_member, username, now, env_vars);
    proof {
        if is_member {
            assert(match r {
                Ok(o) => o matches Some(a) ==> a.username@ == username@ && now
                    + SESSION_LIFETIME_SECONDS <= u64::MAX && a.jwt@ == signed_token(
                    env_vars.jwt_secret@,
                    "username"@,
                    username@,
                    (now + SESSION_LIFETIME_SECONDS) as u64,
                ) && decoded_claim(env_vars.jwt_secret@, "username"@, a.jwt@) == Some(
                    (Some(username@), Some((now + SESSION_LIFETIME_SECONDS) as u64)),
                ),
                Err(e) => e == Error::Config,
            });
        }
    }
    r
}

/// Round-trip law: a token that decodes to a username claim and an expiry
/// still in the future verifies back to exactly that username.  Together
/// with the contract of `issue_token_at` this says that a credential issued
/// for a username verifies to the same username at any time before expiry.
pub proof fn lemma_round_trip(
    secret: Seq<char>,
    token: Seq<char>,
    username: Seq<char>,
    exp: u64,
    now: u64,
)
    requires
        decoded_claim(secret, "username"@, token) == Some((Some(username), Some(exp))),
        now < exp,
    ensures
        verify_outcome(secret, token, now) == Ok::<Seq<char>, Error>(username),
{
}

/// Expiry law: a token whose expiration is not in the future fails
/// verification even though its signature is valid, with the same error
/// category as a bad signature.
pub proof fn lemma_expired_token_rejected(
    secret: Seq<char>,
    token: Seq<char>,
    username: Seq<char>,
    exp: u64,
    now: u64,
)
    requires
        decoded_claim(secret, "username"@, token) == Some((Some(username), Some(exp))),
        exp <= now,
    ensures
        verify_outcome(secret, token, now) == Err::<Seq<char>, Error>(
            Error::Auth(AuthError::InvalidSignature),
        ),
{
}

} // verus!
