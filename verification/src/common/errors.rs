use vstd::prelude::*;

verus! {

/// Every failure the service reports to a client.
#[derive(Debug, Clone, Copy, PartialEq, Eq, Structural)]
pub enum AppError {
    SignupFailed,
    UserAlreadyExists,
    PasswordHashingFailed,
    DatabaseQueryFailed,
    InvalidUserCredentials,
    JWTCreationFailed,
    ErrorFetchingTasks,
    Unauthorized,
    InvalidToken,
    TaskCreationFailed,
    TaskNotFound,
    ErrorUpdatingTask,
    ErrorDeletingTask,
    NotFound,
}

/// Why the store did not do what it was asked.
#[derive(Debug, Clone, Copy, PartialEq, Eq, Structural)]
pub enum StorageError {
    /// The store refused a row because another row already holds the value
    /// that must be unique.
    UniqueViolation,
    /// The store has no row of the kind asked for.
    RowNotFound,
    /// No connection of the pool became free within the acquisition timeout.
    PoolTimedOut,
    /// Any other failure.
    Other,
}

/// What a client receives for a failure: the HTTP status and the JSON body
/// `{"success": false, "error": <error>}`.
pub struct ErrorResponse {
    pub status: u16,
    pub success: bool,
    pub error: String,
}

pub const STATUS_UNAUTHORIZED: u16 = 401;

pub const STATUS_FORBIDDEN: u16 = 403;

pub const STATUS_NOT_FOUND: u16 = 404;

pub const STATUS_CONFLICT: u16 = 409;

pub const STATUS_INTERNAL_SERVER_ERROR: u16 = 500;

impl AppError {
    /// The HTTP status of each failure: authentication failures are 401,
    /// a missing permission 403, a missing resource 404, a duplicate account
    /// 409, and every internal failure (of the hashing, of the signing, of
    /// the store) 500.
    pub open spec fn spec_status_code(self) -> u16 {
        match self {
            AppError::SignupFailed => STATUS_INTERNAL_SERVER_ERROR,
            AppError::UserAlreadyExists => STATUS_CONFLICT,
            AppError::PasswordHashingFailed => STATUS_INTERNAL_SERVER_ERROR,
            AppError::DatabaseQueryFailed => STATUS_INTERNAL_SERVER_ERROR,
            AppError::InvalidUserCredentials => STATUS_UNAUTHORIZED,
            AppError::JWTCreationFailed => STATUS_INTERNAL_SERVER_ERROR,
            AppError::ErrorFetchingTasks => STATUS_INTERNAL_SERVER_ERROR,
            AppError::Unauthorized => STATUS_FORBIDDEN,
            AppError::InvalidToken => STATUS_UNAUTHORIZED,
            AppError::TaskCreationFailed => STATUS_INTERNAL_SERVER_ERROR,
            AppError::TaskNotFound => STATUS_NOT_FOUND,
            AppError::ErrorUpdatingTask => STATUS_INTERNAL_SERVER_ERROR,
            AppError::ErrorDeletingTask => STATUS_INTERNAL_SERVER_ERROR,
            AppError::NotFound => STATUS_NOT_FOUND,
        }
    }

    /// The text sent to the client in the `error` field of the body.
    pub open spec fn spec_client_message(self) -> Seq<char> {
        match self {
            AppError::SignupFailed => "Sign-up process failed unexpectedly"@,
            AppError::UserAlreadyExists => "The user already exists"@,
            AppError::PasswordHashingFailed => "Passoword hashing failed"@,
            AppError::DatabaseQueryFailed => "Database query failed"@,
            AppError::InvalidUserCredentials => "Invalid email or password"@,
            AppError::JWTCreationFailed => "Failed to create authentication token(JWT)"@,
            AppError::ErrorFetchingTasks => "Error getching all user tasks"@,
            AppError::Unauthorized => "Unauthorized to access"@,
            AppError::InvalidToken => "Invalid token"@,
            AppError::TaskCreationFailed => "Failed to create task"@,
            AppError::TaskNotFound => "Task not found"@,
            AppError::ErrorUpdatingTask => "Error updating task"@,
            AppError::ErrorDeletingTask => "Error deleting task"@,
            AppError::NotFound => "Not found"@,
        }
    }

    /// The text of the failure as it appears in logs.
    pub open spec fn spec_to_string(self) -> Seq<char> {
        match self {
            AppError::SignupFailed => "Sign up failed"@,
            AppError::UserAlreadyExists => "User already exists"@,
            AppError::PasswordHashingFailed => "Password hasing failed"@,
            AppError::DatabaseQueryFailed => "Database query failed"@,
            AppError::InvalidUserCredentials => "Invalid login credentials"@,
            AppError::JWTCreationFailed => "JWT creation failed"@,
            AppError::ErrorFetchingTasks => "Error fetching tasks"@,
            AppError::Unauthorized => "Unauthorized"@,
            AppError::InvalidToken => "Invalid Token"@,
            AppError::TaskCreationFailed => "Task creation failed"@,
            AppError::TaskNotFound => "Task not found"@,
            AppError::ErrorUpdatingTask => "Error updating task"@,
            AppError::ErrorDeletingTask => "Error deleting task"@,
            AppError::NotFound => "Not found"@,
        }
    }

    pub fn status_code(&self) -> (status: u16)
        ensures
            status == self.spec_status_code(),
    {
        match self {
            AppError::SignupFailed => STATUS_INTERNAL_SERVER_ERROR,
            AppError::UserAlreadyExists => STATUS_CONFLICT,
            AppError::PasswordHashingFailed => STATUS_INTERNAL_SERVER_ERROR,
            AppError::DatabaseQueryFailed => STATUS_INTERNAL_SERVER_ERROR,
            AppError::InvalidUserCredentials => STATUS_UNAUTHORIZED,
            AppError::JWTCreationFailed => STATUS_INTERNAL_SERVER_ERROR,
            AppError::ErrorFetchingTasks => STATUS_INTERNAL_SERVER_ERROR,
            AppError::Unauthorized => STATUS_FORBIDDEN,
            AppError::InvalidToken => STATUS_UNAUTHORIZED,
            AppError::TaskCreationFailed => STATUS_INTERNAL_SERVER_ERROR,
            AppError::TaskNotFound => STATUS_NOT_FOUND,
            AppError::ErrorUpdatingTask => STATUS_INTERNAL_SERVER_ERROR,
            AppError::ErrorDeletingTask => STATUS_INTERNAL_SERVER_ERROR,
            AppError::NotFound => STATUS_NOT_FOUND,
        }
    }

    pub fn client_message(&self) -> (message: &'static str)
        ensures
            message@ == self.spec_client_message(),
    {
        match self {
            AppError::SignupFailed => "Sign-up process failed unexpectedly",
            AppError::UserAlreadyExists => "The user already exists",
            AppError::PasswordHashingFailed => "Passoword hashing failed",
            AppError::DatabaseQueryFailed => "Database query failed",
            AppError::InvalidUserCredentials => "Invalid email or password",
            AppError::JWTCreationFailed => "Failed to create authentication token(JWT)",
            AppError::ErrorFetchingTasks => "Error getching all user tasks",
            AppError::Unauthorized => "Unauthorized to access",
            AppError::InvalidToken => "Invalid token",
            AppError::TaskCreationFailed => "Failed to create task",
            AppError::TaskNotFound => "Task not found",
            AppError::ErrorUpdatingTask => "Error updating task",
            AppError::ErrorDeletingTask => "Error deleting task",
            AppError::NotFound => "Not found",
        }
    }

    pub fn to_string(&self) -> (text: String)
        ensures
            text@ == self.spec_to_string(),
    {
        let text: &'static str = match self {
            AppError::SignupFailed => "Sign up failed",
            AppError::UserAlreadyExists => "User already exists",
            AppError::PasswordHashingFailed => "Password hasing failed",
            AppError::DatabaseQueryFailed => "Database query failed",
            AppError::InvalidUserCredentials => "Invalid login credentials",
            AppError::JWTCreationFailed => "JWT creation failed",
            AppError::ErrorFetchingTasks => "Error fetching tasks",
            AppError::Unauthorized => "Unauthorized",
            AppError::InvalidToken => "Invalid Token",
            AppError::TaskCreationFailed => "Task creation failed",
            AppError::TaskNotFound => "Task not found",
            AppError::ErrorUpdatingTask => "Error updating task",
            AppError::ErrorDeletingTask => "Error deleting task",
            AppError::NotFound => "Not found",
        };
        text.to_owned()
    }

    /// The response for this failure. The body never carries more than the
    /// client message: details of the underlying fault stay in the logs.
    pub fn to_response(&self) -> (response: ErrorResponse)
        ensures
            response.status == self.spec_status_code(),
            !response.success,
            response.error@ == self.spec_client_message(),
    {
        ErrorResponse {
            status: self.status_code(),
            success: false,
            error: self.client_message().to_owned(),
        }
    }
}

/// Every failure is answered with a client or server error status, never
/// with a success or a redirection; and whatever went wrong inside (the
/// hashing, the signing, the store) is a 500.
pub proof fn failure_status_is_an_error_status(error: AppError)
    ensures
        400 <= error.spec_status_code() <= 599,
        error.spec_status_code() == STATUS_INTERNAL_SERVER_ERROR <==> !(error
            is UserAlreadyExists || error is InvalidUserCredentials || error is InvalidToken
            || error is Unauthorized || error is TaskNotFound || error is NotFound),
{
}

} // verus!
