//! Credential codec, session tokens, and the authentication gate.
//!
//! Passwords are hashed with argon2 behind trusted wrappers; session tokens
//! are HS256 JWTs minted and checked through jsonwebtoken. Everything around
//! those two calls — expiry arithmetic, bearer-header extraction, the login
//! decision, the order of authentication checks — is verified here over
//! plain values.
//! Time is always an argument (seconds since the epoch); this module never
//! reads a clock.

use vstd::prelude::*;
use vstd::string::*;

use crate::models::LoginRequest;
use crate::models::RegisterRequest;
use crate::models::User;

verus! {

/// Seconds a freshly minted session token stays valid: seven days.
pub const SESSION_TTL_SECS: u64 = 7 * 24 * 60 * 60;

/// Claim set carried by a session token.
pub struct Claims {
    /// Subject: the identity id the token was minted for.
    pub sub: String,
    /// Expiration time, seconds since the epoch.
    pub exp: u64,
}

/// Why a request or a login attempt is rejected as unauthenticated.
///
/// Callers surface every variant identically to the client; the distinction
/// exists only for server-side diagnostics.
#[derive(Clone, Copy, PartialEq, Eq, Structural, Debug)]
pub enum AuthError {
    /// No authorization header, or one without a bearer token.
    MissingToken,
    /// The token is malformed or was not signed with the verifier's secret.
    InvalidToken,
    /// The token's signature is valid but its expiry has passed.
    ExpiredToken,
    /// The token or login names an identity the store does not hold,
    /// or a login password that does not match the stored hash.
    UnknownIdentity,
}

/// Hashing accepts passwords below argon2's length cap; a character is at
/// most four bytes, so fewer than 2^30 characters stays under the cap of
/// 2^32 - 1 bytes.
pub const PASSWORD_LEN_LIMIT: usize = 0x4000_0000;

/// Whether argon2 verification of `password` against the PHC-encoded string
/// `stored` succeeds. False whenever `stored` is not a well-formed encoded
/// hash. A function of its arguments alone: the salt is read from `stored`.
pub uninterp spec fn argon2_verifies(password: Seq<char>, stored: Seq<char>) -> bool;

/// Whether argon2's PHC-string parser (`PasswordHash::new`) accepts
/// `stored` as a well-formed encoded hash. A function of the string alone.
pub uninterp spec fn phc_wellformed(stored: Seq<char>) -> bool;

/// Relies on argon2's `PasswordHasher::hash_password`, which draws a fresh
/// random salt, and on the crate's promise that the PHC string it renders
/// parses back and verifies against the same password. The `requires`
/// keeps the password under argon2's length cap, the one input on which
/// hashing fails and the `expect` would fire.
#[verifier::external_body]
pub fn hash_password(password: &str) -> (r: String)
    requires
        password@.len() < PASSWORD_LEN_LIMIT,
    ensures
        argon2_verifies(password@, r@),
        phc_wellformed(r@),
{
    let hash = argon2::PasswordHasher::hash_password(&argon2::Argon2::default(), password.as_bytes())
        .expect("password hashing failed");
    hash.to_string()
}

/// Relies on argon2's `PasswordVerifier<str>::verify_password`, which parses
/// the stored PHC string with `PasswordHash::new` — an error there becomes
/// a clean failure, never a panic — and recomputes the hash with the
/// embedded salt and parameters.
#[verifier::external_body]
pub fn verify_password(password: &str, hash: &str) -> (r: bool)
    ensures
        r == argon2_verifies(password@, hash@),
        !phc_wellformed(hash@) ==> r == false,
{
    argon2::PasswordVerifier::<str>::verify_password(
        &argon2::Argon2::default(),
        password.as_bytes(),
        hash,
    )
    .is_ok()
}

/// A password always verifies against a hash freshly derived from it.
pub fn hashed_password_verifies(password: &str) -> (ok: bool)
    requires
        password@.len() < PASSWORD_LEN_LIMIT,
    ensures
        ok,
{
    let stored = hash_password(password);
    verify_password(password, stored.as_str())
}

/// The HS256 JWT that encodes the claim set `{sub, exp}` under `secret`.
/// A function of its arguments alone: header, claim serialization and
/// signature are all deterministic.
pub uninterp spec fn jwt_for(sub: Seq<char>, exp: u64, secret: Seq<char>) -> Seq<char>;

/// Relies on jsonwebtoken's `encode` with the default HS256 header: the
/// returned token is a pure function of the claims and the secret. Signing
/// with a symmetric key cannot fail for these claims, so the `expect` never
/// fires.
#[verifier::external_body]
fn encode_claims(sub: &str, exp: u64, secret: &str) -> (r: String)
    ensures
        r@ == jwt_for(sub@, exp, secret@),
{
    let mut claims = serde_json::Map::new();
    claims.insert("sub".to_string(), serde_json::Value::String(sub.to_string()));
    claims.insert("exp".to_string(), serde_json::Value::from(exp));
    let key = jsonwebtoken::EncodingKey::from_secret(secret.as_bytes());
    jsonwebtoken::encode(&jsonwebtoken::Header::default(), &serde_json::Value::Object(claims), &key)
        .expect("token signing failed")
}

/// Whether jsonwebtoken's `decode`, restricted as below, accepts `token`
/// under `secret` and reads this subject and expiry from its claims: the
/// header names HS256, the signature verifies under the secret over the
/// token's own bytes, and the claim set carries exactly this string `sub`
/// and numeric `exp`. A function of its arguments alone: no clock, no
/// randomness. Acceptance is wider than minting: any validly signed
/// claims segment is accepted, not only the byte-for-byte shape that
/// `encode` renders for these claims.
pub uninterp spec fn hs256_accepts(
    token: Seq<char>,
    secret: Seq<char>,
    sub: Seq<char>,
    exp: u64,
) -> bool;

/// Relies on jsonwebtoken's `decode` restricted to HS256, with expiry
/// validation turned off so that the call reads no clock: its outcome is a
/// pure function of token and secret. Every accepted token bears a valid
/// signature under the secret and carries the returned claims; every token
/// this module mints under the same secret is accepted, with exactly its
/// minted claims.
#[verifier::external_body]
fn decode_claims(token: &str, secret: &str) -> (r: Option<Claims>)
    ensures
        r matches Some(c) ==> hs256_accepts(token@, secret@, c.sub@, c.exp),
        r matches Some(c) ==> forall|sub: Seq<char>, exp: u64|
            token@ == jwt_for(sub, exp, secret@) ==> (c.sub@ == sub && c.exp == exp),
        r is None ==> forall|sub: Seq<char>, exp: u64| token@ != jwt_for(sub, exp, secret@),
{
    let key = jsonwebtoken::DecodingKey::from_secret(secret.as_bytes());
    let mut validation = jsonwebtoken::Validation::new(jsonwebtoken::Algorithm::HS256);
    validation.validate_exp = false;
    validation.validate_aud = false;
    validation.required_spec_claims.clear();
    let data = jsonwebtoken::decode::<serde_json::Value>(token, &key, &validation).ok()?;
    let sub = data.claims.get("sub").and_then(serde_json::Value::as_str)?.to_string();
    let exp = data.claims.get("exp").and_then(serde_json::Value::as_u64)?;
    Some(Claims { sub, exp })
}

/// Mint a session token for an identity: subject is the identity id, expiry
/// is seven days past `now`.
pub fn issue_token(identity_id: &str, secret: &str, now: u64) -> (r: String)
    requires
        now + SESSION_TTL_SECS <= u64::MAX,
    ensures
        r@ == jwt_for(identity_id@, (now + SESSION_TTL_SECS) as u64, secret@),
{
    encode_claims(identity_id, now + SESSION_TTL_SECS, secret)
}

/// Whether the verifier accepts this token at time `now` as belonging to
/// `id`: the token bears a valid signature under `secret` over a claim set
/// with subject `id` and an expiry still in the future.
pub open spec fn spec_token_grants(token: Seq<char>, secret: Seq<char>, id: Seq<char>, now: u64) -> bool {
    exists|exp: u64| hs256_accepts(token, secret, id, exp) && exp > now
}

/// Check a token's signature and expiry against `secret` and the caller's
/// clock reading `now`.
///
/// Success is owed for every unexpired token minted under this secret, and
/// resolves to the identity id it was minted for. Conversely every success
/// means the token bears a valid, unexpired signature under this very
/// secret naming the returned identity; a token that carries no valid
/// signature under this secret — one signed only under another secret,
/// barring a signature collision between the two — is always rejected as
/// invalid.
pub fn verify_token(token: &str, secret: &str, now: u64) -> (r: Result<String, AuthError>)
    ensures
        forall|sub: Seq<char>, exp: u64|
            token@ == jwt_for(sub, exp, secret@) ==> if exp > now {
                r matches Ok(id) && id@ == sub
            } else {
                r matches Err(AuthError::ExpiredToken)
            },
        r matches Ok(id) ==> spec_token_grants(token@, secret@, id@, now),
        (forall|sub: Seq<char>, exp: u64| !hs256_accepts(token@, secret@, sub, exp))
            ==> r matches Err(AuthError::InvalidToken),
{
    match decode_claims(token, secret) {
        None => Err(AuthError::InvalidToken),
        Some(c) => {
            let Claims { sub, exp } = c;
            if exp > now {
                proof {
                    assert(hs256_accepts(token@, secret@, sub@, exp));
                    assert(spec_token_grants(token@, secret@, sub@, now));
                }
                Ok(sub)
            } else {
                Err(AuthError::ExpiredToken)
            }
        },
    }
}

/// A token round trip: verifying a token freshly issued for an identity
/// yields that identity back whenever the check happens before the seven-day
/// expiry, and the expiration-classified error once the expiry has passed.
pub fn issue_then_verify(identity_id: &str, secret: &str, issued_at: u64, checked_at: u64) -> (r:
    Result<String, AuthError>)
    requires
        issued_at + SESSION_TTL_SECS <= u64::MAX,
    ensures
        checked_at < issued_at + SESSION_TTL_SECS ==> (r matches Ok(id) && id@ == identity_id@),
        checked_at >= issued_at + SESSION_TTL_SECS ==> r matches Err(AuthError::ExpiredToken),
{
    let token = issue_token(identity_id, secret, issued_at);
    verify_token(token.as_str(), secret, checked_at)
}

/// The token part of an authorization header value, when the value is
/// exactly `"Bearer "` followed by the token.
pub open spec fn spec_bearer_token(h: Seq<char>) -> Option<Seq<char>> {
    if h.len() >= 7 && h.subrange(0, 7) == "Bearer "@ {
        Some(h.subrange(7, h.len() as int))
    } else {
        None
    }
}

/// Strip the bearer scheme from an authorization header, if one was present
/// and well-formed; every other shape counts as a missing token.
pub fn extract_bearer(header: Option<&str>) -> (r: Result<String, AuthError>)
    ensures
        match header {
            Some(h) => match spec_bearer_token(h@) {
                Some(t) => r matches Ok(tok) && tok@ == t,
                None => r matches Err(AuthError::MissingToken),
            },
            None => r matches Err(AuthError::MissingToken),
        },
{
    proof {
        reveal_strlit("Bearer ");
    }
    let h = match header {
        None => {
            return Err(AuthError::MissingToken);
        },
        Some(h) => h,
    };
    let n = h.unicode_len();
    if n < 7 {
        return Err(AuthError::MissingToken);
    }
    let prefix = "Bearer ";
    let mut i: usize = 0;
    while i < 7
        invariant
            0 <= i <= 7,
            header == Some(h),
            n == h@.len(),
            7 <= n,
            prefix@ == "Bearer "@,
            prefix@.len() == 7,
            forall|j: int| 0 <= j < i ==> h@[j] == prefix@[j],
        decreases 7 - i,
    {
        if h.get_char(i) != prefix.get_char(i) {
            proof {
                assert(h@.subrange(0, 7)[i as int] == h@[i as int]);
                assert(h@.subrange(0, 7) != "Bearer "@);
                assert(spec_bearer_token(h@) is None);
            }
            return Err(AuthError::MissingToken);
        }
        i += 1;
    }
    proof {
        assert(h@.subrange(0, 7) =~= "Bearer "@);
    }
    let token = h.substring_char(7, n);
    Ok(token.to_owned())
}

/// The authentication gate up to the store lookup: extract the bearer token
/// from the inbound authorization header and verify it, before any handler
/// logic runs. On success the caller resolves the returned identity id
/// against the record store and finishes with [`resolve_identity`].
pub fn gate_check(header: Option<&str>, secret: &str, now: u64) -> (r: Result<String, AuthError>)
    ensures
        match header {
            None => r matches Err(AuthError::MissingToken),
            Some(h) => match spec_bearer_token(h@) {
                None => r matches Err(AuthError::MissingToken),
                Some(t) => (forall|sub: Seq<char>, exp: u64|
                    t == jwt_for(sub, exp, secret@) ==> if exp > now {
                        r matches Ok(id) && id@ == sub
                    } else {
                        r matches Err(AuthError::ExpiredToken)
                    }) && (r matches Ok(id) ==> spec_token_grants(t, secret@, id@, now)) && ((forall|
                    sub: Seq<char>,
                    exp: u64,
                |
                    !hs256_accepts(t, secret@, sub, exp)) ==> r matches Err(
                    AuthError::InvalidToken,
                )),
            },
        },
{
    let token = match extract_bearer(header) {
        Err(e) => {
            return Err(e);
        },
        Ok(t) => t,
    };
    verify_token(token.as_str(), secret, now)
}

/// Finish authentication with the record store's answer: an id the store does not
/// resolve is rejected as unauthenticated, indistinguishable to the client
/// from a bad token.
pub fn resolve_identity(lookup: Option<User>) -> (r: Result<User, AuthError>)
    ensures
        match lookup {
            Some(u) => r matches Ok(x) && x == u,
            None => r matches Err(AuthError::UnknownIdentity),
        },
{
    match lookup {
        Some(u) => Ok(u),
        None => Err(AuthError::UnknownIdentity),
    }
}

/// Decide a login attempt, given the store's answer for the submitted email.
///
/// An unknown email and a wrong password yield the same rejection, so the
/// outcome leaks nothing about which identities exist. A correct password
/// yields a session token for the stored identity's id, expiring seven days
/// past `now`.
pub fn login_decision(lookup: Option<User>, req: &LoginRequest, secret: &str, now: u64) -> (r:
    Result<String, AuthError>)
    requires
        now + SESSION_TTL_SECS <= u64::MAX,
    ensures
        match lookup {
            None => r matches Err(AuthError::UnknownIdentity),
            Some(u) => if argon2_verifies(req.password@, u.password_hash@) {
                r matches Ok(tok) && tok@ == jwt_for(u.id@, (now + SESSION_TTL_SECS) as u64, secret@)
            } else {
                r matches Err(AuthError::UnknownIdentity)
            },
        },
{
    let user = match lookup {
        None => {
            return Err(AuthError::UnknownIdentity);
        },
        Some(u) => u,
    };
    if !verify_password(req.password.as_str(), user.password_hash.as_str()) {
        return Err(AuthError::UnknownIdentity);
    }
    Ok(issue_token(user.id.as_str(), secret, now))
}

/// The compute half of registration: derive the stored identity record from
/// the submitted credentials, with the password replaced by its salted hash.
/// The caller supplies the fresh id and the clock reading; persisting the
/// record is the store's business.
pub fn register_identity(id: String, req: &RegisterRequest, created_at: u64) -> (u: User)
    requires
        req.password@.len() < PASSWORD_LEN_LIMIT,
    ensures
        u.id == id,
        u.email == req.email,
        u.created_at == created_at,
        argon2_verifies(req.password@, u.password_hash@),
{
    let password_hash = hash_password(req.password.as_str());
    User { id, email: req.email.clone(), password_hash, created_at }
}

} // verus!
