//! Bearer tokens: signed, self-contained and time-bound.
//!
//! A token is a JSON Web Token signed with HMAC-SHA256 under the service's
//! secret. It carries the claims `user_id`, `username`, `iat` and `exp`.
//! Whether a token is still valid is decided here, against the clock and
//! without any tolerance: a token is rejected from the second `exp` on.

use crate::common::clock::unix_now;
use crate::common::errors::AppError;
use crate::common::payload::{
    as_signed, as_text, as_unsigned, integer_at, new_payload, no_entries, payload_entries,
    put_integer, put_text, text_at, unsigned_at, ClaimValue, JsonMap,
};
use crate::config::JWTConfig;
use vstd::prelude::*;

verus! {

#[verifier::external_type_specification]
#[verifier::external_body]
pub struct ExTokenError(jsonwebtoken::errors::Error);

/// What a token says: who it was issued to, when, and until when.
#[derive(Debug, Clone)]
pub struct Claims {
    pub user_id: i64,
    pub username: String,
    /// The first second at which the token is no longer valid.
    pub exp: usize,
    /// The second at which the token was issued.
    pub iat: usize,
}

pub struct ClaimsView {
    pub user_id: i64,
    pub username: Seq<char>,
    pub exp: usize,
    pub iat: usize,
}

impl View for Claims {
    type V = ClaimsView;

    open spec fn view(&self) -> ClaimsView {
        ClaimsView {
            user_id: self.user_id,
            username: self.username@,
            exp: self.exp,
            iat: self.iat,
        }
    }
}

/// The claim set that `jsonwebtoken::decode` finds in `token` when it checks
/// it against `secret` with HS256 as the only algorithm allowed and with its
/// own expiry check switched off; `None` where it rejects the token.
pub uninterp spec fn hs256_payload(token: Seq<char>, secret: Seq<char>) -> Option<
    Map<Seq<char>, ClaimValue>,
>;

/// The claim sets that `jsonwebtoken::decode` reads back and accepts after
/// a good signature: every member is an integer or a text, `exp` is an
/// integer that fits `u64`, and there is no audience.
pub open spec fn signable(entries: Map<Seq<char>, ClaimValue>) -> bool {
    &&& forall|key: Seq<char>| entries.contains_key(key) ==> !(#[trigger] entries[key] is Other)
    &&& as_unsigned(entries, "exp"@) is Some
    &&& !entries.contains_key("aud"@)
}

/// `jsonwebtoken::encode` with the default header (HS256) and `secret` as
/// the HMAC key. With that header and a key made from a secret it always
/// returns a token: a JSON object is always written down, and HMAC takes a
/// key of any length. For a claim set that is `signable`,
/// `jsonwebtoken::decode` (as in `open_hs256`) finds that claim set in the
/// token under the same secret.
#[verifier::external_body]
fn sign_hs256(payload: &JsonMap, secret: &str) -> (signed: Result<
    String,
    jsonwebtoken::errors::Error,
>)
    ensures
        signed is Ok,
        signed matches Ok(token) ==> (signable(payload_entries(*payload)) ==> hs256_payload(
            token@,
            secret@,
        ) == Some(payload_entries(*payload))),
{
    jsonwebtoken::encode(
        &jsonwebtoken::Header::default(),
        payload,
        &jsonwebtoken::EncodingKey::from_secret(secret.as_bytes()),
    )
}

/// `jsonwebtoken::decode` into a JSON object, with `secret` as the HMAC key
/// and `Validation::new(Algorithm::HS256)`, in which `validate_exp` is set
/// to `false`: the structure, the algorithm and the signature are checked
/// there, the expiry here.
#[verifier::external_body]
fn open_hs256(token: &str, secret: &str) -> (opened: Result<JsonMap, jsonwebtoken::errors::Error>)
    ensures
        match opened {
            Ok(payload) => hs256_payload(token@, secret@) == Some(payload_entries(payload)),
            Err(_) => hs256_payload(token@, secret@) is None,
        },
{
    let mut validation = jsonwebtoken::Validation::new(jsonwebtoken::Algorithm::HS256);
    validation.validate_exp = false;
    let key = jsonwebtoken::DecodingKey::from_secret(secret.as_bytes());
    jsonwebtoken::decode::<JsonMap>(token, &key, &validation).map(|data| data.claims)
}

/// The claim set that stands for `claims`.
pub open spec fn claims_entries(claims: ClaimsView) -> Map<Seq<char>, ClaimValue> {
    no_entries().insert("user_id"@, ClaimValue::Integer(claims.user_id as int)).insert(
        "username"@,
        ClaimValue::Text(claims.username),
    ).insert("exp"@, ClaimValue::Integer(claims.exp as int)).insert(
        "iat"@,
        ClaimValue::Integer(claims.iat as int),
    )
}

/// The claims that a claim set stands for: all four members are there, each
/// of its kind and within the range of its field. Other members are ignored.
pub open spec fn entries_claims(entries: Map<Seq<char>, ClaimValue>) -> Option<ClaimsView> {
    match (
        as_signed(entries, "user_id"@),
        as_text(entries, "username"@),
        as_unsigned(entries, "exp"@),
        as_unsigned(entries, "iat"@),
    ) {
        (Some(user_id), Some(username), Some(exp), Some(iat)) => if exp <= usize::MAX && iat
            <= usize::MAX {
            Some(ClaimsView { user_id, username, exp: exp as usize, iat: iat as usize })
        } else {
            None
        },
        _ => None,
    }
}

/// The claims of a token issued at `now` for `ttl` seconds: `iat` is `now`
/// and `exp` is `now + ttl`. `None` where one of the two is negative or does
/// not fit its field.
pub open spec fn issued_claims(user_id: i64, username: Seq<char>, now: i64, ttl: i64) -> Option<
    ClaimsView,
> {
    if 0 <= now <= usize::MAX && 0 <= now + ttl <= i64::MAX && now + ttl <= usize::MAX {
        Some(ClaimsView { user_id, username, exp: (now + ttl) as usize, iat: now as usize })
    } else {
        None
    }
}

/// The claims that `token` proves at the time `now` under `secret`: it is
/// signed with the secret, it holds all four claims, and it has not expired.
/// `None` where the token is to be rejected.
pub open spec fn accepted_claims(token: Seq<char>, secret: Seq<char>, now: int) -> Option<
    ClaimsView,
> {
    match hs256_payload(token, secret) {
        Some(entries) => match entries_claims(entries) {
            Some(claims) => if now < claims.exp {
                Some(claims)
            } else {
                None
            },
            None => None,
        },
        None => None,
    }
}

/// Whether `token` is what issuing at `now` for `ttl` seconds comes to: a
/// token that holds exactly the claims issued, where `now` and `now + ttl`
/// can be written down, and `JWTCreationFailed` where they cannot.
pub open spec fn issued_at(
    token: Result<String, AppError>,
    user_id: i64,
    username: Seq<char>,
    secret: Seq<char>,
    now: i64,
    ttl: i64,
) -> bool {
    match issued_claims(user_id, username, now, ttl) {
        Some(claims) => token matches Ok(text) && hs256_payload(text@, secret) == Some(
            claims_entries(claims),
        ),
        None => token matches Err(e) && e == AppError::JWTCreationFailed,
    }
}

/// The claims in the result of a verification.
pub open spec fn verified_claims(outcome: Result<Claims, AppError>) -> Option<ClaimsView> {
    match outcome {
        Ok(claims) => Some(claims@),
        Err(_) => None,
    }
}

/// The four member names differ from each other and from `aud`.
proof fn member_names_differ()
    ensures
        "user_id"@ != "username"@,
        "user_id"@ != "exp"@,
        "user_id"@ != "iat"@,
        "user_id"@ != "aud"@,
        "username"@ != "exp"@,
        "username"@ != "iat"@,
        "username"@ != "aud"@,
        "exp"@ != "iat"@,
        "exp"@ != "aud"@,
        "iat"@ != "aud"@,
{
    reveal_strlit("user_id");
    reveal_strlit("username");
    reveal_strlit("exp");
    reveal_strlit("iat");
    reveal_strlit("aud");
    assert("user_id"@.len() == 7);
    assert("username"@.len() == 8);
    assert("exp"@.len() == 3);
    assert("exp"@[0] != "iat"@[0]);
    assert("exp"@[0] != "aud"@[0]);
    assert("iat"@[0] != "aud"@[0]);
}

/// Writing claims down and reading them back gives the same claims, and
/// what is written down can be signed.
pub proof fn claims_survive_encoding(claims: ClaimsView)
    requires
        claims.exp <= i64::MAX,
        claims.iat <= i64::MAX,
    ensures
        entries_claims(claims_entries(claims)) == Some(claims),
        signable(claims_entries(claims)),
{
    member_names_differ();
}

/// The claims of a token issued at `now` for `ttl` seconds.
fn claims_at(username: &str, user_id: i64, now: i64, ttl: i64) -> (claims: Option<Claims>)
    ensures
        match claims {
            Some(c) => issued_claims(user_id, username@, now, ttl) == Some(c@),
            None => issued_claims(user_id, username@, now, ttl) is None,
        },
{
    if now < 0 {
        return None;
    }
    let exp = match now.checked_add(ttl) {
        Some(exp) => exp,
        None => {
            return None;
        },
    };
    if exp < 0 || exp as u64 > usize::MAX as u64 || now as u64 > usize::MAX as u64 {
        return None;
    }
    Some(Claims { user_id, username: username.to_owned(), exp: exp as usize, iat: now as usize })
}

/// The claim set that stands for `claims`.
fn claims_payload(claims: &Claims) -> (payload: JsonMap)
    requires
        claims.exp <= i64::MAX,
        claims.iat <= i64::MAX,
    ensures
        payload_entries(payload) == claims_entries(claims@),
{
    let mut payload = new_payload();
    put_integer(&mut payload, "user_id", claims.user_id);
    put_text(&mut payload, "username", claims.username.as_str());
    put_integer(&mut payload, "exp", claims.exp as i64);
    put_integer(&mut payload, "iat", claims.iat as i64);
    payload
}

/// The claims that a claim set stands for.
fn payload_claims(payload: &JsonMap) -> (claims: Option<Claims>)
    ensures
        match claims {
            Some(c) => entries_claims(payload_entries(*payload)) == Some(c@),
            None => entries_claims(payload_entries(*payload)) is None,
        },
{
    let user_id = match integer_at(payload, "user_id") {
        Some(user_id) => user_id,
        None => {
            return None;
        },
    };
    let username = match text_at(payload, "username") {
        Some(username) => username,
        None => {
            return None;
        },
    };
    let exp = match unsigned_at(payload, "exp") {
        Some(exp) => exp,
        None => {
            return None;
        },
    };
    let iat = match unsigned_at(payload, "iat") {
        Some(iat) => iat,
        None => {
            return None;
        },
    };
    if exp > usize::MAX as u64 || iat > usize::MAX as u64 {
        return None;
    }
    Some(Claims { user_id, username, exp: exp as usize, iat: iat as usize })
}

/// What a signing attempt becomes: the token, or `JWTCreationFailed`.
pub fn issued(signed: Result<String, jsonwebtoken::errors::Error>) -> (token: Result<
    String,
    AppError,
>)
    ensures
        match signed {
            Ok(text) => token matches Ok(t) && t@ == text@,
            Err(_) => token matches Err(e) && e == AppError::JWTCreationFailed,
        },
{
    match signed {
        Ok(text) => Ok(text),
        Err(_) => Err(AppError::JWTCreationFailed),
    }
}

/// What the claims found in a token become at the time `now`: the claims
/// while `now < exp`, and `InvalidToken` from `exp` on or where there are
/// none.
pub fn unexpired(found: Option<Claims>, now: i64) -> (outcome: Result<Claims, AppError>)
    ensures
        match found {
            Some(claims) if now < claims.exp => outcome matches Ok(c) && c@ == claims@,
            _ => outcome matches Err(e) && e == AppError::InvalidToken,
        },
{
    match found {
        Some(claims) => {
            if now < 0 || (now as u64) < claims.exp as u64 {
                Ok(claims)
            } else {
                Err(AppError::InvalidToken)
            }
        },
        None => Err(AppError::InvalidToken),
    }
}

/// Issues a token for `username` and `user_id` as of the time `now`, valid
/// for `config.expiration` seconds.
///
/// The token carries `iat = now` and `exp = now + config.expiration`, and
/// under `config.secret` it proves exactly these claims until `exp`. A
/// token is issued whenever the two times can be written down: neither is
/// negative, and both fit their fields. Otherwise the call fails with
/// `JWTCreationFailed`.
pub fn generate_token_at(username: &str, user_id: i64, config: &JWTConfig, now: i64) -> (token:
    Result<String, AppError>)
    ensures
        issued_at(token, user_id, username@, config.secret@, now, config.expiration),
        token matches Ok(t) ==> forall|at: int|
            at < issued_claims(user_id, username@, now, config.expiration)->0.exp
                ==> #[trigger] accepted_claims(t@, config.secret@, at) == issued_claims(
                user_id,
                username@,
                now,
                config.expiration,
            ),
{
    let claims = match claims_at(username, user_id, now, config.expiration) {
        Some(claims) => claims,
        None => {
            return Err(AppError::JWTCreationFailed);
        },
    };
    let payload = claims_payload(&claims);
    proof {
        claims_survive_encoding(claims@);
    }
    issued(sign_hs256(&payload, config.secret.as_str()))
}

/// Issues a token for `username` and `user_id` as of now: what
/// `generate_token_at` returns for the time that the clock gives.
pub fn generate_token(username: &str, user_id: i64, config: &JWTConfig) -> (token: Result<
    String,
    AppError,
>)
    ensures
        exists|now: i64| #[trigger]
            issued_at(token, user_id, username@, config.secret@, now, config.expiration),
{
    let now = unix_now();
    generate_token_at(username, user_id, config, now)
}

/// Verifies `token` as of the time `now`.
///
/// Returns the claims where the token is signed with `config.secret` under
/// HS256, holds all four claims, and `now < exp`. Fails with `InvalidToken`
/// in every other case: a bad signature, a malformed token, another
/// algorithm, a missing claim, or an expired token.
pub fn verify_token_at(token: &str, config: &JWTConfig, now: i64) -> (outcome: Result<
    Claims,
    AppError,
>)
    ensures
        verified_claims(outcome) == accepted_claims(token@, config.secret@, now as int),
        outcome matches Err(e) ==> e == AppError::InvalidToken,
{
    let found = match open_hs256(token, config.secret.as_str()) {
        Ok(payload) => payload_claims(&payload),
        Err(_) => None,
    };
    unexpired(found, now)
}

/// Verifies `token` as of now.
pub fn verify_token(token: &str, config: &JWTConfig) -> (outcome: Result<Claims, AppError>)
    ensures
        exists|now: i64| verified_claims(outcome) == #[trigger] accepted_claims(
            token@,
            config.secret@,
            now as int,
        ),
        outcome matches Err(e) ==> e == AppError::InvalidToken,
{
    let now = unix_now();
    verify_token_at(token, config, now)
}

/// A token that was issued for a positive lifetime is accepted at the
/// moment of its issue, with the claims it was issued for.
pub proof fn issued_token_is_accepted(
    token: Seq<char>,
    secret: Seq<char>,
    user_id: i64,
    username: Seq<char>,
    now: i64,
    ttl: i64,
)
    requires
        ttl > 0,
        issued_claims(user_id, username, now, ttl) matches Some(c) && hs256_payload(token, secret)
            == Some(claims_entries(c)),
    ensures
        accepted_claims(token, secret, now as int) == issued_claims(user_id, username, now, ttl),
        accepted_claims(token, secret, now as int) matches Some(c) && c.user_id == user_id
            && c.username == username,
{
    claims_survive_encoding(issued_claims(user_id, username, now, ttl)->0);
}

/// A token is rejected at every time from its `exp` on.
pub proof fn expired_token_is_rejected(token: Seq<char>, secret: Seq<char>, now: int, later: int)
    requires
        accepted_claims(token, secret, now) matches Some(c) && c.exp <= later,
    ensures
        accepted_claims(token, secret, later) is None,
{
}

/// A token that is rejected stays rejected: time never makes a token valid.
pub proof fn rejection_is_final(token: Seq<char>, secret: Seq<char>, now: int, later: int)
    requires
        now <= later,
        accepted_claims(token, secret, now) is None,
    ensures
        accepted_claims(token, secret, later) is None,
{
}

} // verus!
