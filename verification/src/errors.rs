//! The errors that the API answers with: each has a fixed HTTP status and a
//! fixed message, which the server sends as `{ "error": message }`.
use vstd::prelude::*;

verus! {

/// An error answer of the API.
#[derive(PartialEq, Eq, Structural, Clone, Copy, Debug)]
pub enum ApiError {
    /// Signup input is not a valid email with a password of 8 to 72 bytes.
    InvalidSignup,
    /// Signup for an email that already has an account.
    UserExists,
    /// Hashing the password or storing the account failed.
    AccountCreationFailed,
    /// Login with an unknown email or a wrong password.
    InvalidCredentials,
    /// The account lookup or the password check could not run.
    SignInFailed,
    /// The token could not be created.
    TokenCreationFailed,
    /// No `Authorization: Bearer <token>` header.
    Unauthorized,
    /// The bearer token was not accepted.
    InvalidToken,
    /// The article is empty or longer than 20,000 characters.
    InvalidArticle,
    /// The summarization service could not be reached or refused the request.
    SummaryServiceUnavailable,
    /// The summarization service answered with something that is not a completion.
    SummaryServiceInvalidResponse,
    /// The summarization service answered without a summary.
    SummaryServiceEmpty,
    /// The summary could not be stored.
    SummarySaveFailed,
    /// The history could not be read.
    HistoryFetchFailed,
}

impl ApiError {
    /// The HTTP status of the error.
    pub open spec fn spec_status(self) -> u16 {
        match self {
            ApiError::InvalidSignup => 400,
            ApiError::InvalidArticle => 400,
            ApiError::UserExists => 409,
            ApiError::InvalidCredentials => 401,
            ApiError::Unauthorized => 401,
            ApiError::InvalidToken => 401,
            ApiError::SummaryServiceUnavailable => 502,
            ApiError::SummaryServiceInvalidResponse => 502,
            ApiError::SummaryServiceEmpty => 502,
            ApiError::AccountCreationFailed => 500,
            ApiError::SignInFailed => 500,
            ApiError::TokenCreationFailed => 500,
            ApiError::SummarySaveFailed => 500,
            ApiError::HistoryFetchFailed => 500,
        }
    }

    /// The message sent in the `error` field.
    pub open spec fn spec_message(self) -> Seq<char> {
        match self {
            ApiError::InvalidSignup => "Enter a valid email and a password of 8 to 72 bytes"@,
            ApiError::UserExists => "User already exists"@,
            ApiError::AccountCreationFailed => "Failed to create account"@,
            ApiError::InvalidCredentials => "Invalid credentials"@,
            ApiError::SignInFailed => "Failed to sign in"@,
            ApiError::TokenCreationFailed => "Failed to create token"@,
            ApiError::Unauthorized => "Unauthorized"@,
            ApiError::InvalidToken => "Invalid token"@,
            ApiError::InvalidArticle => "Article must contain 1 to 20,000 characters"@,
            ApiError::SummaryServiceUnavailable => "Summarization service is unavailable"@,
            ApiError::SummaryServiceInvalidResponse =>
                "Summarization service returned an invalid response"@,
            ApiError::SummaryServiceEmpty => "Summarization service returned an empty summary"@,
            ApiError::SummarySaveFailed => "Failed to save summary"@,
            ApiError::HistoryFetchFailed => "Failed to fetch summaries"@,
        }
    }

    /// The HTTP status of the error.
    pub fn status(&self) -> (r: u16)
        ensures
            r == self.spec_status(),
    {
        match self {
            ApiError::InvalidSignup => 400,
            ApiError::InvalidArticle => 400,
            ApiError::UserExists => 409,
            ApiError::InvalidCredentials => 401,
            ApiError::Unauthorized => 401,
            ApiError::InvalidToken => 401,
            ApiError::SummaryServiceUnavailable => 502,
            ApiError::SummaryServiceInvalidResponse => 502,
            ApiError::SummaryServiceEmpty => 502,
            ApiError::AccountCreationFailed => 500,
            ApiError::SignInFailed => 500,
            ApiError::TokenCreationFailed => 500,
            ApiError::SummarySaveFailed => 500,
            ApiError::HistoryFetchFailed => 500,
        }
    }

    /// The message sent in the `error` field.
    pub fn message(&self) -> (r: &'static str)
        ensures
            r@ == self.spec_message(),
    {
        match self {
            ApiError::InvalidSignup => "Enter a valid email and a password of 8 to 72 bytes",
            ApiError::UserExists => "User already exists",
            ApiError::AccountCreationFailed => "Failed to create account",
            ApiError::InvalidCredentials => "Invalid credentials",
            ApiError::SignInFailed => "Failed to sign in",
            ApiError::TokenCreationFailed => "Failed to create token",
            ApiError::Unauthorized => "Unauthorized",
            ApiError::InvalidToken => "Invalid token",
            ApiError::InvalidArticle => "Article must contain 1 to 20,000 characters",
            ApiError::SummaryServiceUnavailable => "Summarization service is unavailable",
            ApiError::SummaryServiceInvalidResponse =>
                "Summarization service returned an invalid response",
            ApiError::SummaryServiceEmpty => "Summarization service returned an empty summary",
            ApiError::SummarySaveFailed => "Failed to save summary",
            ApiError::HistoryFetchFailed => "Failed to fetch summaries",
        }
    }
}

/// Every error answer has a client-error or server-error status
/// (400, 401, 409, 500 or 502), and the status is fixed by the error.
pub proof fn lemma_error_status_is_error(e: ApiError)
    ensures
        400 <= e.spec_status() < 600,
        e.spec_status() == 400 || e.spec_status() == 401 || e.spec_status() == 409
            || e.spec_status() == 500 || e.spec_status() == 502,
{
}

} // verus!
