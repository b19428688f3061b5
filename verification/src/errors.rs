//! Error types of the library.
//!
//! Domain errors describe inputs the library rejects; server errors describe
//! infrastructure failures that the surrounding layer maps to 5xx responses.
//! The two kinds are kept apart so that callers can decide on retry policy
//! for the latter while treating the former as final.

use vstd::prelude::*;

verus! {

/// Errors raised by operations on the data domain's objects.
///
/// Credential-related variants are deliberately coarse: a mismatching secret
/// and a malformed stored hash both surface as
/// [`DataDomainError::InvalidAccessCredentials`], and an unknown client is
/// reported as [`DataDomainError::InvalidId`] whether the account or the
/// credential is missing, so that callers learn nothing they should not.
#[derive(Clone, Copy, Debug, PartialEq, Eq, Structural)]
pub enum DataDomainError {
    /// Some params contain an invalid format.
    InvalidParams,
    /// The given ID has an invalid format, or no matching entry exists.
    InvalidId,
    /// The given string is not a valid recipe's category.
    InvalidRecipeCategory,
    /// The data provided in the form is invalid.
    InvalidFormData,
    /// The search criteria is invalid.
    InvalidSearch,
    /// Expired access token.
    ExpiredAccess,
    /// Wrong access token.
    InvalidAccessCredentials,
    /// Email not registered.
    InvalidEmail,
    /// Account disabled.
    AccountDisabled,
}

/// Errors raised by the infrastructure the library models or drives.
#[derive(Clone, Copy, Debug, PartialEq, Eq, Structural)]
pub enum ServerError {
    /// Error from a storage operation.
    DbError,
    /// Error from the email client.
    EmailClientError,
}

impl DataDomainError {
    /// A short, stable description of the error.
    pub fn describe(&self) -> (r: &'static str)
        ensures
            match self {
                DataDomainError::InvalidParams => r@ == "some params contain an invalid format"@,
                DataDomainError::InvalidId => r@ == "the given ID has an invalid format"@,
                DataDomainError::InvalidRecipeCategory => r@
                    == "the given string is not a valid recipe's category"@,
                DataDomainError::InvalidFormData => r@
                    == "the data provided in the form is invalid"@,
                DataDomainError::InvalidSearch => r@ == "the search criteria is invalid"@,
                DataDomainError::ExpiredAccess => r@ == "expired access token"@,
                DataDomainError::InvalidAccessCredentials => r@ == "wrong access token"@,
                DataDomainError::InvalidEmail => r@ == "email not registered"@,
                DataDomainError::AccountDisabled => r@ == "account disabled"@,
            },
    {
        match self {
            DataDomainError::InvalidParams => "some params contain an invalid format",
            DataDomainError::InvalidId => "the given ID has an invalid format",
            DataDomainError::InvalidRecipeCategory => {
                "the given string is not a valid recipe's category"
            },
            DataDomainError::InvalidFormData => "the data provided in the form is invalid",
            DataDomainError::InvalidSearch => "the search criteria is invalid",
            DataDomainError::ExpiredAccess => "expired access token",
            DataDomainError::InvalidAccessCredentials => "wrong access token",
            DataDomainError::InvalidEmail => "email not registered",
            DataDomainError::AccountDisabled => "account disabled",
        }
    }
}

impl ServerError {
    /// A short, stable description of the error.
    pub fn describe(&self) -> (r: &'static str)
        ensures
            match self {
                ServerError::DbError => r@ == "error from a storage operation"@,
                ServerError::EmailClientError => r@ == "error from the email client"@,
            },
    {
        match self {
            ServerError::DbError => "error from a storage operation",
            ServerError::EmailClientError => "error from the email client",
        }
    }
}

} // verus!
