//! The registration workflow: request, email confirmation, enablement.
//!
//! A registration request creates an account (not validated, not enabled)
//! together with a short-lived confirmation credential whose plain secret is
//! emailed to the requester by the caller. Following the confirmation link
//! consumes that credential: the presented secret is checked against the
//! stored hash, the credential is replaced by a long-lived access credential,
//! the account becomes validated, and the one-time-visible
//! `client:secret` bearer string is returned. Enabling the account is a
//! separate administrative act.
//!
//! The functions here only decide and mutate the store; sending mail and
//! reading the clock belong to the caller, which passes the current time in
//! seconds.

use crate::client_id::ClientId;
use crate::errors::{DataDomainError, ServerError};
use crate::ident::is_uuid_char;
use crate::secret::{
    generate_new_token_hash, generate_token, hash_matches, is_token_char, verify_token,
    TOKEN_LENGTH,
};
use crate::store::{
    cred_index, email_index, has_cred, has_email, has_id, id_index, store_wf, Account, AccountView,
    CredentialStore, CredentialView, StoreView,
};
use crate::token_request::TokenRequestData;
use vstd::prelude::*;
use vstd::string::*;

verus! {

/// Validity window of a confirmation credential: one day.
pub const CONFIRMATION_TTL_SECS: i64 = 86400;

/// Validity window of an access credential: one hundred days.
pub const ACCESS_TTL_SECS: i64 = 8640000;

/// Outcome of a registration request.
pub enum IssueOutcome {
    /// The request was registered; the plain confirmation secret must be
    /// mailed to the requester and is never recoverable afterwards.
    PendingConfirmation { client: ClientId, confirmation_secret: String },
    /// The email is already on file; nothing was created.
    AlreadyRegistered { client: ClientId },
}

/// Errors of the registration workflow: either an input was rejected or the
/// infrastructure failed.
#[derive(Clone, Copy, Debug, PartialEq, Eq, Structural)]
pub enum WorkflowError {
    /// The input was rejected.
    Domain(DataDomainError),
    /// A storage or hashing step failed.
    Server(ServerError),
}

/// The account and credential that an email confirmation addresses: the
/// account registered under the email, and that account's credential.
pub open spec fn confirm_target(sv: StoreView, email: Seq<char>) -> Option<
    (AccountView, CredentialView),
> {
    if has_email(sv.accounts, email) {
        let acc = sv.accounts[email_index(sv.accounts, email)];
        if has_cred(sv.credentials, acc.id) {
            Some((acc, sv.credentials[cred_index(sv.credentials, acc.id)]))
        } else {
            None
        }
    } else {
        None
    }
}

/// Entry point for "request a token".
///
/// If the email is already registered, reports the existing registration and
/// changes nothing. Otherwise creates a fresh identity, an account that is
/// neither validated nor enabled, and a confirmation credential valid for
/// [`CONFIRMATION_TTL_SECS`] from `now`, whose hash alone is stored; the
/// plain secret is returned for the caller to email. A storage or hashing
/// failure is reported with the store untouched.
pub fn issue_request(store: &mut CredentialStore, form: &TokenRequestData, now: i64) -> (r: Result<
    IssueOutcome,
    ServerError,
>)
    requires
        old(store).wf(),
        0 <= now,
        now + CONFIRMATION_TTL_SECS <= i64::MAX,
    ensures
        final(store).wf(),
        has_email(old(store)@.accounts, form@.email) ==> (r matches Ok(
            IssueOutcome::AlreadyRegistered { client },
        ) && client@ == old(store)@.accounts[email_index(old(store)@.accounts, form@.email)].id
            && final(store)@ == old(store)@),
        r matches Ok(IssueOutcome::AlreadyRegistered { .. }) ==> has_email(
            old(store)@.accounts,
            form@.email,
        ),
        r matches Ok(IssueOutcome::PendingConfirmation { client, confirmation_secret }) ==> {
            &&& !has_email(old(store)@.accounts, form@.email)
            &&& !has_id(old(store)@.accounts, client@)
            &&& client.wf()
            &&& forall|i: int| 0 <= i < client@.len() ==> is_uuid_char(#[trigger] client@[i])
            &&& confirmation_secret@.len() == TOKEN_LENGTH
            &&& forall|i: int|
                0 <= i < confirmation_secret@.len() ==> is_token_char(
                    #[trigger] confirmation_secret@[i],
                )
            &&& final(store)@.accounts == old(store)@.accounts.push(
                (AccountView {
                    id: client@,
                    name: form@.name,
                    email: form@.email,
                    explanation: form@.explanation,
                    validated: false,
                    enabled: false,
                }),
            )
            &&& final(store)@.credentials == old(store)@.credentials.push(
                (CredentialView {
                    client: client@,
                    token_hash: final(store)@.credentials.last().token_hash,
                    created: now as int,
                    valid_until: now + CONFIRMATION_TTL_SECS,
                }),
            )
            &&& hash_matches(final(store)@.credentials.last().token_hash, confirmation_secret@)
        },
        r is Err ==> final(store)@ == old(store)@,
        r matches Err(e) ==> e == ServerError::DbError,
    {
        match store.check_existing_user(form.email()) {
            Ok(client) => {
                return Ok(IssueOutcome::AlreadyRegistered { client });
            },
            Err(_) => {},
        }
        let client = ClientId::new();
        let secret = generate_token();
        let token_hash = match generate_new_token_hash(secret.as_str()) {
            Ok(h) => h,
            Err(e) => {
                return Err(e);
            },
        };
        let account = Account {
            id: client.clone(),
            name: match form.name() {
                Some(n) => Some(n.to_owned()),
                None => None,
            },
            email: form.email().to_owned(),
            explanation: form.explanation().to_owned(),
            validated: false,
            enabled: false,
        };
        match store.register_request(account, token_hash, now, CONFIRMATION_TTL_SECS) {
            Ok(()) => Ok(IssueOutcome::PendingConfirmation { client, confirmation_secret: secret }),
            Err(e) => Err(e),
        }
    }

/// Entry point for the confirmation link.
///
/// Resolves the email to its account and credential — failing with
/// `InvalidEmail` when either is missing, without telling which — then
/// checks the presented secret against the stored hash and the credential's
/// validity window; a mismatch and an elapsed window are rejected alike, as
/// `InvalidAccessCredentials`, before anything is written. On success, in one
/// indivisible step, the confirmation credential is replaced by a fresh
/// access credential valid for [`ACCESS_TTL_SECS`] and the account becomes
/// validated; the returned `client:secret` bearer string is shown once and
/// cannot be recovered later, since only the new secret's hash remains.
pub fn confirm_email(store: &mut CredentialStore, email: &str, presented_secret: &str, now: i64) -> (r:
    Result<String, WorkflowError>)
    requires
        old(store).wf(),
        0 <= now,
        now + ACCESS_TTL_SECS <= i64::MAX,
    ensures
        final(store).wf(),
        confirm_target(old(store)@, email@) is None ==> r == Err::<String, WorkflowError>(
            WorkflowError::Domain(DataDomainError::InvalidEmail),
        ),
        confirm_target(old(store)@, email@) matches Some((acc, cred)) ==> {
            &&& !hash_matches(cred.token_hash, presented_secret@) ==> r == Err::<
                String,
                WorkflowError,
            >(WorkflowError::Domain(DataDomainError::InvalidAccessCredentials))
            &&& hash_matches(cred.token_hash, presented_secret@) && cred.valid_until < now ==> r
                == Err::<String, WorkflowError>(
                WorkflowError::Domain(DataDomainError::InvalidAccessCredentials),
            )
            &&& hash_matches(cred.token_hash, presented_secret@) && now <= cred.valid_until ==> (
            r is Ok || r == Err::<String, WorkflowError>(
                WorkflowError::Server(ServerError::DbError),
            ))
            &&& r matches Ok(bearer) ==> {
                &&& hash_matches(cred.token_hash, presented_secret@)
                &&& now <= cred.valid_until
                &&& bearer@.len() == acc.id.len() + 1 + TOKEN_LENGTH
                &&& bearer@.take(acc.id.len() as int) == acc.id
                &&& bearer@[acc.id.len() as int] == ':'
                &&& final(store)@.accounts == old(store)@.accounts.update(
                    id_index(old(store)@.accounts, acc.id),
                    (AccountView { validated: true, ..acc }),
                )
                &&& final(store)@.credentials == old(store)@.credentials.update(
                    cred_index(old(store)@.credentials, acc.id),
                    (CredentialView {
                        client: acc.id,
                        token_hash: final(store)@.credentials[cred_index(
                            old(store)@.credentials,
                            acc.id,
                        )].token_hash,
                        created: now as int,
                        valid_until: now + ACCESS_TTL_SECS,
                    }),
                )
                &&& hash_matches(
                    final(store)@.credentials[cred_index(old(store)@.credentials, acc.id)].token_hash,
                    bearer@.skip(acc.id.len() as int + 1),
                )
            }
        },
        r is Err ==> final(store)@ == old(store)@,
    {
        let account = match store.account_by_email(email) {
            Some(a) => a,
            None => {
                return Err(WorkflowError::Domain(DataDomainError::InvalidEmail));
            },
        };
        let client = account.id.clone();
        let (stored_hash, valid_until) = match store.lookup_by_owner(&client) {
            Some(p) => p,
            None => {
                return Err(WorkflowError::Domain(DataDomainError::InvalidEmail));
            },
        };
        match verify_token(stored_hash.as_str(), presented_secret) {
            Ok(()) => {},
            Err(_) => {
                return Err(WorkflowError::Domain(DataDomainError::InvalidAccessCredentials));
            },
        }
        if valid_until < now {
            return Err(WorkflowError::Domain(DataDomainError::InvalidAccessCredentials));
        }
        let secret = generate_token();
        let bearer = client.to_string().concat(":").concat(secret.as_str());
        let token_hash = match generate_new_token_hash(secret.as_str()) {
            Ok(h) => h,
            Err(e) => {
                return Err(WorkflowError::Server(e));
            },
        };
        match store.replace_credential_and_validate(&client, token_hash, now, ACCESS_TTL_SECS) {
            Ok(()) => {
                proof {
                    reveal_strlit(":");
                    assert(bearer@.take(client@.len() as int) =~= client@);
                    assert(bearer@.skip(client@.len() as int + 1) =~= secret@);
                }
                Ok(bearer)
            },
            Err(e) => Err(WorkflowError::Server(e)),
        }
    }

/// The administrative approval: mark the client's account enabled. An unknown
/// identity leaves the store unchanged, as the underlying update would.
pub fn enable_client(store: &mut CredentialStore, client_id: &ClientId) -> (r: Result<
    (),
    ServerError,
>)
    requires
        old(store).wf(),
    ensures
        final(store).wf(),
        r is Ok,
        final(store)@.credentials == old(store)@.credentials,
        has_id(old(store)@.accounts, client_id@) ==> final(store)@.accounts == old(
            store,
        )@.accounts.update(
            id_index(old(store)@.accounts, client_id@),
            (AccountView {
                enabled: true,
                ..old(store)@.accounts[id_index(old(store)@.accounts, client_id@)]
            }),
        ),
        !has_id(old(store)@.accounts, client_id@) ==> final(store)@ == old(store)@,
    {
        store.enable_client(client_id)
    }

/// Law (workflow happy path, first step): right after a registration request
/// was accepted, the requester's email resolves to exactly the new account
/// and its confirmation credential, so the emailed secret passes the
/// confirmation checks while the credential is within its window.
pub proof fn lemma_issue_request_confirmable(
    pre: StoreView,
    post: StoreView,
    acc: AccountView,
    cred: CredentialView,
)
    requires
        store_wf(pre),
        store_wf(post),
        !has_email(pre.accounts, acc.email),
        !has_id(pre.accounts, acc.id),
        post.accounts == pre.accounts.push(acc),
        post.credentials == pre.credentials.push(cred),
        cred.client == acc.id,
    ensures
        confirm_target(post, acc.email) == Some((acc, cred)),
{
    let n = pre.accounts.len() as int;
    assert(post.accounts[n] == acc);
    assert(has_email(post.accounts, acc.email));
    let k = email_index(post.accounts, acc.email);
    assert(0 <= k < post.accounts.len() && post.accounts[k].email == acc.email);
    if k != n {
        assert(post.accounts[k] == pre.accounts[k]);
        assert(has_email(pre.accounts, acc.email));
    }
    assert(post.accounts[email_index(post.accounts, acc.email)] == acc);
    let m = pre.credentials.len() as int;
    assert(post.credentials[m] == cred);
    assert(has_cred(post.credentials, acc.id));
    let c = cred_index(post.credentials, acc.id);
    assert(0 <= c < post.credentials.len() && post.credentials[c].client == acc.id);
    if c != m {
        assert(post.credentials[c] == pre.credentials[c]);
        assert(has_id(pre.accounts, pre.credentials[c].client));
        assert(has_id(pre.accounts, acc.id));
    }
    assert(post.credentials[cred_index(post.credentials, acc.id)] == cred);
}

/// Law (duplicate registration): once an account with some email is on file,
/// a further request with that email finds it, so `issue_request` reports the
/// existing registration and creates nothing.
pub proof fn lemma_duplicate_registration(sv: StoreView, k: int)
    requires
        0 <= k < sv.accounts.len(),
    ensures
        has_email(sv.accounts, sv.accounts[k].email),
{
}

} // verus!
