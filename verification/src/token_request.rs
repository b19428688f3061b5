//! Form data of a token request.
//!
//! A prospective client submits a display name (optional), an email address
//! and a free-text justification. The email must satisfy the HTML5 email
//! grammar and the justification must run 20 to 400 characters; a request
//! that fails either check is rejected as invalid form data.

use crate::errors::DataDomainError;
use crate::validate::{is_valid_email, valid_email};
use vstd::prelude::*;
use vstd::string::*;

verus! {

/// Validated payload of a token request.
pub struct TokenRequestData {
    name: Option<String>,
    email: String,
    explanation: String,
}

/// Mathematical image of a [`TokenRequestData`].
pub ghost struct TokenRequestView {
    pub name: Option<Seq<char>>,
    pub email: Seq<char>,
    pub explanation: Seq<char>,
}

impl View for TokenRequestData {
    type V = TokenRequestView;

    closed spec fn view(&self) -> TokenRequestView {
        TokenRequestView {
            name: match self.name {
                Some(n) => Some(n@),
                None => None,
            },
            email: self.email@,
            explanation: self.explanation@,
        }
    }
}

/// The acceptance condition of a token request: a well-formed email and a
/// justification of 20 to 400 characters. The display name is free-form.
pub open spec fn token_request_acceptable(email: Seq<char>, explanation: Seq<char>) -> bool {
    is_valid_email(email) && 20 <= explanation.len() <= 400
}

impl TokenRequestData {
    /// Build a validated request. Succeeds exactly when the email and the
    /// justification pass [`token_request_acceptable`].
    pub fn new(name: Option<&str>, email: &str, explanation: &str) -> (r: Result<
        Self,
        DataDomainError,
    >)
        ensures
            r is Ok <==> token_request_acceptable(email@, explanation@),
            r matches Ok(d) ==> {
                &&& d@.email == email@
                &&& d@.explanation == explanation@
                &&& d@.name == (match name {
                    Some(n) => Some(n@),
                    None => None::<Seq<char>>,
                })
            },
            r matches Err(e) ==> e == DataDomainError::InvalidFormData,
    {
        if !valid_email(email) {
            return Err(DataDomainError::InvalidFormData);
        }
        let explanation_len = explanation.unicode_len();
        if explanation_len < 20 || explanation_len > 400 {
            return Err(DataDomainError::InvalidFormData);
        }
        Ok(TokenRequestData {
            name: match name {
                Some(n) => Some(String::from_str(n)),
                None => None,
            },
            email: String::from_str(email),
            explanation: String::from_str(explanation),
        })
    }

    /// The requester's display name, if one was given.
    pub fn name(&self) -> (r: Option<&str>)
        ensures
            r matches Some(n) ==> self@.name == Some(n@),
            r is None ==> self@.name is None,
    {
        match &self.name {
            Some(n) => Some(n.as_str()),
            None => None,
        }
    }

    /// The requester's email address.
    pub fn email(&self) -> (r: &str)
        ensures
            r@ == self@.email,
    {
        self.email.as_str()
    }

    /// The requester's justification.
    pub fn explanation(&self) -> (r: &str)
        ensures
            r@ == self@.explanation,
    {
        self.explanation.as_str()
    }

    /// A one-line rendering of the request: the justification and who sent
    /// it.
    pub fn describe(&self) -> (r: String)
        ensures
            r@ == "Request explanation: \""@ + self@.explanation + "\" by "@ + self@.email,
    {
        String::from_str("Request explanation: \"").concat(self.explanation.as_str()).concat(
            "\" by ",
        ).concat(self.email.as_str())
    }
}

} // verus!
