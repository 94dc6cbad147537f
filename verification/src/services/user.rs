//! The decisions of registration and login.
//!
//! Registration talks to the store several times, so it is a state machine:
//! `UserService::create_user` takes where the registration stands and what
//! just happened, and says what to do next. Whoever drives it performs each
//! action and reports its outcome as the next event, until the action is a
//! reply. Login needs one read of the store; it is a plain function of what
//! was read.

use crate::common::clock::unix_now;
use crate::common::errors::{AppError, StorageError};
use crate::common::jwt::{claims_entries, generate_token_at, hs256_payload, issued_claims};
use crate::common::utils::{password_matches, PasswordUtils};
use crate::config::JWTConfig;
use crate::models::user::{DBUserQuery, LoginResponse, SignupAndLoginPayload};
use vstd::prelude::*;

verus! {

pub struct UserService;

/// Where a registration stands.
#[derive(Debug)]
pub enum Registration {
    /// Nothing has been done.
    Start,
    /// The store is being asked whether the name is taken.
    CheckingName,
    /// The password is being hashed.
    Hashing,
    /// A transaction is being opened; `digest` is the hashed password.
    OpeningTransaction { digest: String },
    /// The account is being inserted.
    Inserting,
    /// The transaction is being committed; `id` is the id that the store
    /// assigned to the account.
    Committing { id: i64 },
    /// The reply has been given.
    Finished,
}

/// What happened since the last action.
#[derive(Debug)]
pub enum RegistrationEvent {
    /// The request arrived.
    Begin,
    /// The store said whether an account has the name.
    NameChecked(Result<bool, StorageError>),
    /// The password was hashed.
    Hashed(Result<String, AppError>),
    /// The transaction was opened.
    TransactionOpened(Result<(), StorageError>),
    /// The account was inserted, under the id given.
    Inserted(Result<i64, StorageError>),
    /// The transaction was committed.
    Committed(Result<(), StorageError>),
}

/// What to do next.
#[derive(Debug)]
pub enum RegistrationAction {
    /// Ask the store whether an account has the requested name.
    CheckName,
    /// Hash the requested password.
    HashPassword,
    /// Open a transaction.
    OpenTransaction,
    /// Insert the account with this digest, in the transaction.
    Insert { digest: String },
    /// Commit the transaction.
    Commit,
    /// Answer the request and drop the transaction if one is open: what
    /// was not committed is rolled back.
    Reply(Result<i64, AppError>),
}

/// What a failure of the store means for a registration: a violated
/// uniqueness constraint says that the name is taken; anything else is a
/// failure of the store.
pub open spec fn registration_failure(failure: StorageError) -> AppError {
    match failure {
        StorageError::UniqueViolation => AppError::UserAlreadyExists,
        _ => AppError::DatabaseQueryFailed,
    }
}

/// The next state and action of a registration.
///
/// The name is looked up first, for an early and friendly refusal; then
/// the password is hashed; then the account is inserted and committed in
/// one transaction. An event that does not answer the action that was
/// pending ends the registration with `SignupFailed`.
pub open spec fn registration_step(state: Registration, event: RegistrationEvent) -> (
    Registration,
    RegistrationAction,
) {
    match (state, event) {
        (Registration::Start, RegistrationEvent::Begin) => (
            Registration::CheckingName,
            RegistrationAction::CheckName,
        ),
        (Registration::CheckingName, RegistrationEvent::NameChecked(Ok(taken))) => if taken {
            (Registration::Finished, RegistrationAction::Reply(Err(AppError::UserAlreadyExists)))
        } else {
            (Registration::Hashing, RegistrationAction::HashPassword)
        },
        (Registration::CheckingName, RegistrationEvent::NameChecked(Err(failure))) => (
            Registration::Finished,
            RegistrationAction::Reply(Err(registration_failure(failure))),
        ),
        (Registration::Hashing, RegistrationEvent::Hashed(Ok(digest))) => (
            Registration::OpeningTransaction { digest },
            RegistrationAction::OpenTransaction,
        ),
        (Registration::Hashing, RegistrationEvent::Hashed(Err(_))) => (
            Registration::Finished,
            RegistrationAction::Reply(Err(AppError::PasswordHashingFailed)),
        ),
        (
            Registration::OpeningTransaction { digest },
            RegistrationEvent::TransactionOpened(Ok(_)),
        ) => (Registration::Inserting, RegistrationAction::Insert { digest }),
        (
            Registration::OpeningTransaction { digest },
            RegistrationEvent::TransactionOpened(Err(failure)),
        ) => (
            Registration::Finished,
            RegistrationAction::Reply(Err(registration_failure(failure))),
        ),
        (Registration::Inserting, RegistrationEvent::Inserted(Ok(id))) => (
            Registration::Committing { id },
            RegistrationAction::Commit,
        ),
        (Registration::Inserting, RegistrationEvent::Inserted(Err(failure))) => (
            Registration::Finished,
            RegistrationAction::Reply(Err(registration_failure(failure))),
        ),
        (Registration::Committing { id }, RegistrationEvent::Committed(Ok(_))) => (
            Registration::Finished,
            RegistrationAction::Reply(Ok(id)),
        ),
        (Registration::Committing { id }, RegistrationEvent::Committed(Err(failure))) => (
            Registration::Finished,
            RegistrationAction::Reply(Err(registration_failure(failure))),
        ),
        _ => (Registration::Finished, RegistrationAction::Reply(Err(AppError::SignupFailed))),
    }
}

/// Who a login is for.
///
/// An account that does not exist and a password that does not match give
/// the same failure, so that a caller cannot learn which names exist.
pub open spec fn credentials_checked(
    account: Result<Option<DBUserQuery>, StorageError>,
    password: Seq<char>,
) -> Result<DBUserQuery, AppError> {
    match account {
        Ok(Some(user)) => if password_matches(password, user.password_hash@) {
            Ok(user)
        } else {
            Err(AppError::InvalidUserCredentials)
        },
        Ok(None) => Err(AppError::InvalidUserCredentials),
        Err(_) => Err(AppError::DatabaseQueryFailed),
    }
}

/// Whether `outcome` is what a login at `now` comes to.
///
/// Where the credentials are good and a token can be issued, a session:
/// with the account's id, the requested name, and a token that holds the
/// account's id and name, `iat = now` and `exp = now + ttl`. Where they are
/// good and the times of the token cannot be written down,
/// `JWTCreationFailed`. Otherwise the failure of the credentials.
pub open spec fn logged_in(
    outcome: Result<LoginResponse, AppError>,
    account: Result<Option<DBUserQuery>, StorageError>,
    request: SignupAndLoginPayload,
    secret: Seq<char>,
    now: i64,
    ttl: i64,
) -> bool {
    match credentials_checked(account, request.password@) {
        Ok(user) => match issued_claims(user.id, user.username@, now, ttl) {
            Some(claims) => {
                &&& outcome matches Ok(session)
                &&& session.user_id == user.id
                &&& session.username == request.username
                &&& hs256_payload(session.token@, secret) == Some(claims_entries(claims))
            },
            None => outcome matches Err(e) && e == AppError::JWTCreationFailed,
        },
        Err(e) => outcome matches Err(f) && f == e,
    }
}

impl UserService {
    /// What a failure of the store means for a registration.
    pub fn registration_failed(failure: StorageError) -> (error: AppError)
        ensures
            error == registration_failure(failure),
    {
        match failure {
            StorageError::UniqueViolation => AppError::UserAlreadyExists,
            _ => AppError::DatabaseQueryFailed,
        }
    }

    /// Advances a registration by one event: the next state, and the
    /// action to perform. A registration starts in `Registration::Start`
    /// with the event `RegistrationEvent::Begin`.
    pub fn create_user(state: Registration, event: RegistrationEvent) -> (next: (
        Registration,
        RegistrationAction,
    ))
        ensures
            next == registration_step(state, event),
    {
        match (state, event) {
            (Registration::Start, RegistrationEvent::Begin) => (
                Registration::CheckingName,
                RegistrationAction::CheckName,
            ),
            (Registration::CheckingName, RegistrationEvent::NameChecked(Ok(taken))) => {
                if taken {
                    (
                        Registration::Finished,
                        RegistrationAction::Reply(Err(AppError::UserAlreadyExists)),
                    )
                } else {
                    (Registration::Hashing, RegistrationAction::HashPassword)
                }
            },
            (Registration::CheckingName, RegistrationEvent::NameChecked(Err(failure))) => (
                Registration::Finished,
                RegistrationAction::Reply(Err(Self::registration_failed(failure))),
            ),
            (Registration::Hashing, RegistrationEvent::Hashed(Ok(digest))) => (
                Registration::OpeningTransaction { digest },
                RegistrationAction::OpenTransaction,
            ),
            (Registration::Hashing, RegistrationEvent::Hashed(Err(_))) => (
                Registration::Finished,
                RegistrationAction::Reply(Err(AppError::PasswordHashingFailed)),
            ),
            (
                Registration::OpeningTransaction { digest },
                RegistrationEvent::TransactionOpened(Ok(_)),
            ) => (Registration::Inserting, RegistrationAction::Insert { digest }),
            (
                Registration::OpeningTransaction { digest },
                RegistrationEvent::TransactionOpened(Err(failure)),
            ) => (
                Registration::Finished,
                RegistrationAction::Reply(Err(Self::registration_failed(failure))),
            ),
            (Registration::Inserting, RegistrationEvent::Inserted(Ok(id))) => (
                Registration::Committing { id },
                RegistrationAction::Commit,
            ),
            (Registration::Inserting, RegistrationEvent::Inserted(Err(failure))) => (
                Registration::Finished,
                RegistrationAction::Reply(Err(Self::registration_failed(failure))),
            ),
            (Registration::Committing { id }, RegistrationEvent::Committed(Ok(_))) => (
                Registration::Finished,
                RegistrationAction::Reply(Ok(id)),
            ),
            (Registration::Committing { id }, RegistrationEvent::Committed(Err(failure))) => (
                Registration::Finished,
                RegistrationAction::Reply(Err(Self::registration_failed(failure))),
            ),
            _ => (Registration::Finished, RegistrationAction::Reply(Err(AppError::SignupFailed))),
        }
    }

    /// Decides who a login is for, from what the store holds under the
    /// requested name.
    pub fn check_credentials(account: Result<Option<DBUserQuery>, StorageError>, password: &str) -> (user:
        Result<DBUserQuery, AppError>)
        ensures
            user == credentials_checked(account, password@),
    {
        match account {
            Ok(Some(user)) => {
                if PasswordUtils::verfify_passowrd(password, user.password_hash.as_str()) {
                    Ok(user)
                } else {
                    Err(AppError::InvalidUserCredentials)
                }
            },
            Ok(None) => Err(AppError::InvalidUserCredentials),
            Err(_) => Err(AppError::DatabaseQueryFailed),
        }
    }

    /// Logs in as of the time `now`, given what the store holds under the
    /// requested name.
    ///
    /// Where the credentials are good, the session carries a token for the
    /// account's id and name, issued at `now` for `jwt_config.expiration`
    /// seconds. Fails with `InvalidUserCredentials` where there is no such
    /// account or the password does not match, with `DatabaseQueryFailed`
    /// where the store failed, and with `JWTCreationFailed` where the times
    /// of the token cannot be written down.
    pub fn login_at(
        account: Result<Option<DBUserQuery>, StorageError>,
        request: SignupAndLoginPayload,
        jwt_config: &JWTConfig,
        now: i64,
    ) -> (outcome: Result<LoginResponse, AppError>)
        ensures
            logged_in(outcome, account, request, jwt_config.secret@, now, jwt_config.expiration),
    {
        let user = match Self::check_credentials(account, request.password.as_str()) {
            Ok(user) => user,
            Err(e) => {
                return Err(e);
            },
        };
        match generate_token_at(user.username.as_str(), user.id, jwt_config, now) {
            Ok(token) => Ok(LoginResponse { token, username: request.username, user_id: user.id }),
            Err(e) => Err(e),
        }
    }

    /// Logs in as of now: what `login_at` returns for the time that the
    /// clock gives.
    pub fn login(
        account: Result<Option<DBUserQuery>, StorageError>,
        request: SignupAndLoginPayload,
        jwt_config: &JWTConfig,
    ) -> (outcome: Result<LoginResponse, AppError>)
        ensures
            exists|now: i64| #[trigger]
                logged_in(
                    outcome,
                    account,
                    request,
                    jwt_config.secret@,
                    now,
                    jwt_config.expiration,
                ),
            credentials_checked(account, request.password@) matches Err(e) ==> outcome
                matches Err(f) && f == e,
    {
        let now = unix_now();
        Self::login_at(account, request, jwt_config, now)
    }
}

/// A registration succeeds only by a commit that succeeded: no reply
/// carries an id unless the account is stored for good.
pub proof fn success_follows_commit(state: Registration, event: RegistrationEvent, id: i64)
    requires
        registration_step(state, event).1 == RegistrationAction::Reply(Ok(id)),
    ensures
        state == (Registration::Committing { id }),
        event matches RegistrationEvent::Committed(Ok(_)),
{
}

/// Where the store refuses the insert or the commit because the name is
/// taken, the registration ends with `UserAlreadyExists`, whatever the
/// earlier look-up said.
pub proof fn taken_name_is_a_conflict(id: i64)
    ensures
        registration_step(
            Registration::Inserting,
            RegistrationEvent::Inserted(Err(StorageError::UniqueViolation)),
        ).1 == RegistrationAction::Reply(Err(AppError::UserAlreadyExists)),
        registration_step(
            Registration::Committing { id },
            RegistrationEvent::Committed(Err(StorageError::UniqueViolation)),
        ).1 == RegistrationAction::Reply(Err(AppError::UserAlreadyExists)),
{
}

/// Every step that does not continue the registration ends it: a reply
/// comes with the state `Finished`, and only with it.
pub proof fn reply_ends_registration(state: Registration, event: RegistrationEvent)
    ensures
        registration_step(state, event).1 is Reply <==> registration_step(state, event).0
            is Finished,
{
}

/// A login for a name that no account has fails exactly as a login with a
/// wrong password does.
pub proof fn unknown_name_looks_like_wrong_password(
    user: DBUserQuery,
    password: Seq<char>,
    wrong: Seq<char>,
)
    requires
        !password_matches(wrong, user.password_hash@),
    ensures
        credentials_checked(Ok(None), password) == credentials_checked(Ok(Some(user)), wrong),
{
}

} // verus!
