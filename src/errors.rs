use vstd::prelude::*;

verus! {

/// The broad class of a failure, which decides how a caller reports it.
#[derive(Debug, Clone, Copy, PartialEq, Eq, Structural)]
pub enum ErrorClass {
    /// Bad or missing input (400).
    Validation,
    /// A duplicate email or list title.
    Conflict,
    /// Missing, invalid or expired credentials, or an unverified account.
    Auth,
    /// The addressed record does not exist (404).
    NotFound,
    /// A failure of the machinery behind the request (500).
    Internal,
}

/// Every way an operation of the library can fail.
#[derive(Debug, Clone, Copy, PartialEq, Eq, Structural)]
pub enum ApiError {
    /// The password could not be hashed.
    HashingFailed,
    /// A user with this email already exists.
    EmailTaken,
    /// The store could not take the record (a fresh id collided).
    StorageFailure,
    /// Unknown email or wrong password at login.
    IncorrectCredentials,
    /// The stored password hash could not be parsed.
    PasswordCheckFailed,
    /// Login was attempted before the email address was verified.
    EmailNotVerified,
    /// The submitted passcode is empty, unknown, for another email, or expired.
    InvalidOrExpiredOtp,
    /// No user holds the email address being verified.
    UnknownEmail,
    /// The `Authorization` header is absent or not of the form `Bearer <token>`.
    MissingAuthHeader,
    /// The bearer token does not verify or has expired.
    InvalidToken,
    /// The token's subject is not a known user.
    NotAuthorized,
    /// The user already has a list item with this title.
    TitleTaken,
    /// The importance is not one of `high`, `medium` or `low`.
    InvalidImportance,
    /// No list item has the id to delete.
    ListNotFound,
    /// No list item has the id to update.
    ListToUpdateNotFound,
    /// No list item has the id to read.
    ListToReadNotFound,
    /// The page number is zero, or the offset or the next page number does not fit.
    InvalidPagination,
    /// The image host refused or failed the upload.
    UploadFailed,
    /// The upload request carried no file.
    NoFileToUpload,
}

impl ApiError {
    pub open spec fn spec_class(self) -> ErrorClass {
        match self {
            ApiError::HashingFailed => ErrorClass::Internal,
            ApiError::EmailTaken => ErrorClass::Conflict,
            ApiError::StorageFailure => ErrorClass::Internal,
            ApiError::IncorrectCredentials => ErrorClass::Auth,
            ApiError::PasswordCheckFailed => ErrorClass::Internal,
            ApiError::EmailNotVerified => ErrorClass::Auth,
            ApiError::InvalidOrExpiredOtp => ErrorClass::Validation,
            ApiError::UnknownEmail => ErrorClass::Validation,
            ApiError::MissingAuthHeader => ErrorClass::Auth,
            ApiError::InvalidToken => ErrorClass::Auth,
            ApiError::NotAuthorized => ErrorClass::Auth,
            ApiError::TitleTaken => ErrorClass::Conflict,
            ApiError::InvalidImportance => ErrorClass::Validation,
            ApiError::ListNotFound => ErrorClass::NotFound,
            ApiError::ListToUpdateNotFound => ErrorClass::NotFound,
            ApiError::ListToReadNotFound => ErrorClass::NotFound,
            ApiError::InvalidPagination => ErrorClass::Validation,
            ApiError::UploadFailed => ErrorClass::Internal,
            ApiError::NoFileToUpload => ErrorClass::Validation,
        }
    }

    /// The class of this failure.
    pub fn class(&self) -> (r: ErrorClass)
        ensures
            r == self.spec_class(),
    {
        match self {
            ApiError::HashingFailed => ErrorClass::Internal,
            ApiError::EmailTaken => ErrorClass::Conflict,
            ApiError::StorageFailure => ErrorClass::Internal,
            ApiError::IncorrectCredentials => ErrorClass::Auth,
            ApiError::PasswordCheckFailed => ErrorClass::Internal,
            ApiError::EmailNotVerified => ErrorClass::Auth,
            ApiError::InvalidOrExpiredOtp => ErrorClass::Validation,
            ApiError::UnknownEmail => ErrorClass::Validation,
            ApiError::MissingAuthHeader => ErrorClass::Auth,
            ApiError::InvalidToken => ErrorClass::Auth,
            ApiError::NotAuthorized => ErrorClass::Auth,
            ApiError::TitleTaken => ErrorClass::Conflict,
            ApiError::InvalidImportance => ErrorClass::Validation,
            ApiError::ListNotFound => ErrorClass::NotFound,
            ApiError::ListToUpdateNotFound => ErrorClass::NotFound,
            ApiError::ListToReadNotFound => ErrorClass::NotFound,
            ApiError::InvalidPagination => ErrorClass::Validation,
            ApiError::UploadFailed => ErrorClass::Internal,
            ApiError::NoFileToUpload => ErrorClass::Validation,
        }
    }

    pub open spec fn spec_status_code(self) -> u16 {
        match self {
            ApiError::HashingFailed => 500,
            ApiError::EmailTaken => 400,
            ApiError::StorageFailure => 500,
            ApiError::IncorrectCredentials => 401,
            ApiError::PasswordCheckFailed => 500,
            ApiError::EmailNotVerified => 401,
            ApiError::InvalidOrExpiredOtp => 400,
            ApiError::UnknownEmail => 400,
            ApiError::MissingAuthHeader => 403,
            ApiError::InvalidToken => 401,
            ApiError::NotAuthorized => 401,
            ApiError::TitleTaken => 406,
            ApiError::InvalidImportance => 400,
            ApiError::ListNotFound => 404,
            ApiError::ListToUpdateNotFound => 404,
            ApiError::ListToReadNotFound => 404,
            ApiError::InvalidPagination => 400,
            ApiError::UploadFailed => 500,
            ApiError::NoFileToUpload => 400,
        }
    }

    /// The HTTP status code with which this failure is answered.
    pub fn status_code(&self) -> (r: u16)
        ensures
            r == self.spec_status_code(),
    {
        match self {
            ApiError::HashingFailed => 500,
            ApiError::EmailTaken => 400,
            ApiError::StorageFailure => 500,
            ApiError::IncorrectCredentials => 401,
            ApiError::PasswordCheckFailed => 500,
            ApiError::EmailNotVerified => 401,
            ApiError::InvalidOrExpiredOtp => 400,
            ApiError::UnknownEmail => 400,
            ApiError::MissingAuthHeader => 403,
            ApiError::InvalidToken => 401,
            ApiError::NotAuthorized => 401,
            ApiError::TitleTaken => 406,
            ApiError::InvalidImportance => 400,
            ApiError::ListNotFound => 404,
            ApiError::ListToUpdateNotFound => 404,
            ApiError::ListToReadNotFound => 404,
            ApiError::InvalidPagination => 400,
            ApiError::UploadFailed => 500,
            ApiError::NoFileToUpload => 400,
        }
    }

    pub open spec fn spec_message(self) -> &'static str {
        match self {
            ApiError::HashingFailed => "Cannot hash password",
            ApiError::EmailTaken => "User with this email already exists",
            ApiError::StorageFailure => "Cannot store this record",
            ApiError::IncorrectCredentials => "Incorrect credentials",
            ApiError::PasswordCheckFailed => "Password verification failed",
            ApiError::EmailNotVerified => "Please verify your email first",
            ApiError::InvalidOrExpiredOtp => "Invalid or expired otp",
            ApiError::UnknownEmail => "Cannot verify this email",
            ApiError::MissingAuthHeader => "Provide a valid auth header",
            ApiError::InvalidToken => "Unable to decode JWT auth token",
            ApiError::NotAuthorized => "Not authorized",
            ApiError::TitleTaken => "You already have an item with this title",
            ApiError::InvalidImportance => "Importance must be high, medium or low",
            ApiError::ListNotFound => "List not found",
            ApiError::ListToUpdateNotFound => "Cannot find this list",
            ApiError::ListToReadNotFound => "Cannot retrieve this list item",
            ApiError::InvalidPagination => "Page must be positive and the page window must fit",
            ApiError::UploadFailed => "Cannot upload image",
            ApiError::NoFileToUpload => "No fields to process",
        }
    }

    /// The message shown to the client.
    pub fn message(&self) -> (r: &'static str)
        ensures
            r == self.spec_message(),
    {
        match self {
            ApiError::HashingFailed => "Cannot hash password",
            ApiError::EmailTaken => "User with this email already exists",
            ApiError::StorageFailure => "Cannot store this record",
            ApiError::IncorrectCredentials => "Incorrect credentials",
            ApiError::PasswordCheckFailed => "Password verification failed",
            ApiError::EmailNotVerified => "Please verify your email first",
            ApiError::InvalidOrExpiredOtp => "Invalid or expired otp",
            ApiError::UnknownEmail => "Cannot verify this email",
            ApiError::MissingAuthHeader => "Provide a valid auth header",
            ApiError::InvalidToken => "Unable to decode JWT auth token",
            ApiError::NotAuthorized => "Not authorized",
            ApiError::TitleTaken => "You already have an item with this title",
            ApiError::InvalidImportance => "Importance must be high, medium or low",
            ApiError::ListNotFound => "List not found",
            ApiError::ListToUpdateNotFound => "Cannot find this list",
            ApiError::ListToReadNotFound => "Cannot retrieve this list item",
            ApiError::InvalidPagination => "Page must be positive and the page window must fit",
            ApiError::UploadFailed => "Cannot upload image",
            ApiError::NoFileToUpload => "No fields to process",
        }
    }
}

} // verus!
