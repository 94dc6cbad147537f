//! Authentication of a request: from the `Authorization` header of a request to
//! the identity of its caller.
//!
//! Authentication says who the caller is. Whether that caller may touch a given
//! resource is decided where the resource is read or written, by comparing
//! its owner with the identity established here.

use crate::common::clock::unix_now;
use crate::common::errors::AppError;
use crate::common::jwt::{accepted_claims, verify_token_at};
use crate::config::JWTConfig;
use vstd::prelude::*;
use vstd::string::StrSliceExecFns;

verus! {

/// The caller of one request, as proved by its token. It is made once per
/// request and handed down to whatever serves the request.
#[derive(Debug, Clone)]
pub struct AuthenticatedUser {
    pub user_id: i64,
    pub username: String,
}

pub struct AuthenticatedUserView {
    pub user_id: i64,
    pub username: Seq<char>,
}

impl View for AuthenticatedUser {
    type V = AuthenticatedUserView;

    open spec fn view(&self) -> AuthenticatedUserView {
        AuthenticatedUserView { user_id: self.user_id, username: self.username@ }
    }
}

impl AuthenticatedUser {
    pub fn new(username: String, user_id: i64) -> (user: Self)
        ensures
            user.user_id == user_id,
            user.username == username,
    {
        Self { user_id, username }
    }
}

/// The scheme of the only credentials accepted, with the space that follows
/// it.
pub open spec fn bearer_prefix() -> Seq<char> {
    "Bearer "@
}

/// The token in an `Authorization` header: what follows `Bearer `, where
/// the header starts with exactly that and something follows.
pub open spec fn bearer_credential(header: Option<Seq<char>>) -> Option<Seq<char>> {
    match header {
        Some(text) => if bearer_prefix().is_prefix_of(text) && text.len() > bearer_prefix().len() {
            Some(text.skip(bearer_prefix().len() as int))
        } else {
            None
        },
        None => None,
    }
}

/// A header, as a value.
pub open spec fn header_view(header: Option<&str>) -> Option<Seq<char>> {
    match header {
        Some(text) => Some(text@),
        None => None,
    }
}

/// The identity that a request with this header has at the time `now`.
pub open spec fn authenticated(header: Option<Seq<char>>, secret: Seq<char>, now: int) -> Option<
    AuthenticatedUserView,
> {
    match bearer_credential(header) {
        Some(token) => match accepted_claims(token, secret, now) {
            Some(claims) => Some(
                AuthenticatedUserView { user_id: claims.user_id, username: claims.username },
            ),
            None => None,
        },
        None => None,
    }
}

/// The identity in the result of an authentication.
pub open spec fn admitted(outcome: Result<AuthenticatedUser, AppError>) -> Option<
    AuthenticatedUserView,
> {
    match outcome {
        Ok(user) => Some(user@),
        Err(_) => None,
    }
}

/// Extracts the token from an `Authorization` header.
///
/// The header must be `Bearer `, then a token that is not empty. An absent
/// header, another scheme, another spelling of the scheme and an empty token
/// all fail with `InvalidToken`.
pub fn bearer_token<'a>(header: Option<&'a str>) -> (token: Result<&'a str, AppError>)
    ensures
        match token {
            Ok(t) => bearer_credential(header_view(header)) == Some(t@),
            Err(e) => e == AppError::InvalidToken && bearer_credential(header_view(header))
                is None,
        },
{
    let text = match header {
        Some(text) => text,
        None => {
            return Err(AppError::InvalidToken);
        },
    };
    proof {
        reveal_strlit("Bearer ");
    }
    let length = text.unicode_len();
    if length <= 7 {
        return Err(AppError::InvalidToken);
    }
    if text.get_char(0) != 'B' || text.get_char(1) != 'e' || text.get_char(2) != 'a'
        || text.get_char(3) != 'r' || text.get_char(4) != 'e' || text.get_char(5) != 'r'
        || text.get_char(6) != ' ' {
        assert(!bearer_prefix().is_prefix_of(text@)) by {
            if bearer_prefix().is_prefix_of(text@) {
                let head = text@.subrange(0, 7);
                assert(head == bearer_prefix());
                assert(head[0] == text@[0] && head[1] == text@[1] && head[2] == text@[2]);
                assert(head[3] == text@[3] && head[4] == text@[4] && head[5] == text@[5]);
                assert(head[6] == text@[6]);
            }
        }
        return Err(AppError::InvalidToken);
    }
    assert(bearer_prefix() =~= text@.subrange(0, 7));
    Ok(text.substring_char(7, length))
}

/// Establishes the caller of a request as of the time `now`.
///
/// Succeeds where the header carries a bearer token that `verify_token_at`
/// accepts, with the identity that the token's claims name. Every other
/// request fails with `InvalidToken`, and nothing of it is to be served.
pub fn middleware_auth_at(authorization: Option<&str>, jwt_config: &JWTConfig, now: i64) -> (outcome:
    Result<AuthenticatedUser, AppError>)
    ensures
        admitted(outcome) == authenticated(
            header_view(authorization),
            jwt_config.secret@,
            now as int,
        ),
        outcome matches Err(e) ==> e == AppError::InvalidToken,
{
    let token = match bearer_token(authorization) {
        Ok(token) => token,
        Err(e) => {
            return Err(e);
        },
    };
    match verify_token_at(token, jwt_config, now) {
        Ok(claims) => Ok(AuthenticatedUser::new(claims.username, claims.user_id)),
        Err(e) => Err(e),
    }
}

/// Establishes the caller of a request as of now.
pub fn middleware_auth(authorization: Option<&str>, jwt_config: &JWTConfig) -> (outcome: Result<
    AuthenticatedUser,
    AppError,
>)
    ensures
        exists|now: i64| admitted(outcome) == #[trigger] authenticated(
            header_view(authorization),
            jwt_config.secret@,
            now as int,
        ),
        outcome matches Err(e) ==> e == AppError::InvalidToken,
        bearer_credential(header_view(authorization)) is None ==> outcome is Err,
{
    let now = unix_now();
    middleware_auth_at(authorization, jwt_config, now)
}

/// A header made of `Bearer ` and a token that is not empty carries that
/// token.
pub proof fn bearer_header_carries_token(token: Seq<char>)
    requires
        token.len() > 0,
    ensures
        bearer_credential(Some(bearer_prefix() + token)) == Some(token),
{
    let text = bearer_prefix() + token;
    assert(text.subrange(0, bearer_prefix().len() as int) =~= bearer_prefix());
    assert(text.skip(bearer_prefix().len() as int) =~= token);
}

/// Without a header nobody is authenticated, whatever the time and the
/// secret.
pub proof fn no_header_no_identity(secret: Seq<char>, now: int)
    ensures
        authenticated(None, secret, now) is None,
{
}

} // verus!
