//! Composition of the two messages the workflow hands to the mail
//! collaborator: the confirmation link sent to a requester, and the
//! notification that tells the operator a request awaits evaluation.
//!
//! Only the composition lives here; the sending is the caller's business, and
//! a send failure after the registration was committed leaves the account
//! awaiting its confirmation mail.

use crate::client_id::ClientId;
use vstd::prelude::*;
use vstd::string::*;

verus! {

/// The confirmation link mailed to a requester: the validation endpoint under
/// `base_url`, carrying the email and the plain confirmation secret.
pub fn confirmation_link(base_url: &str, email: &str, token: &str) -> (r: String)
    ensures
        r@ == base_url@ + "/validate?email="@ + email@ + "&token="@ + token@,
{
    String::from_str(base_url).concat("/validate?email=").concat(email).concat("&token=").concat(
        token,
    )
}

/// Subject of the confirmation email.
pub fn confirmation_subject() -> (r: &'static str)
    ensures
        r@ == "Verify your email"@,
{
    "Verify your email"
}

/// Subject of the operator notification.
pub fn pending_request_subject() -> (r: &'static str)
    ensures
        r@ == "New client of the API validated"@,
{
    "New client of the API validated"
}

/// Body of the operator notification: names the client whose account was
/// validated and now awaits evaluation.
pub fn pending_request_body(id: &ClientId) -> (r: String)
    ensures
        r@ == "A new client ("@ + id@
            + ") has validated the account. Proceed to the evaluation of the request."@,
{
    String::from_str("A new client (").concat(id.as_str()).concat(
        ") has validated the account. Proceed to the evaluation of the request.",
    )
}

} // verus!
