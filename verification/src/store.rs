//! The credential store: accounts and hashed credentials, with expiry.
//!
//! This is the authoritative state of the token lifecycle. It holds one row
//! per registered account (email unique, identity unique) and at most one
//! live credential per client; a credential records only the salted hash of
//! its secret, never the plaintext. Multi-step mutations that must not be
//! observable half-done — registering an account together with its
//! confirmation credential, or replacing a consumed credential while marking
//! the account validated — are single operations here, so a failure leaves
//! the store untouched, as a transaction would.

use crate::client_id::ClientId;
use crate::errors::{DataDomainError, ServerError};
use crate::strutil::str_eq;
use vstd::pervasive::VecAdditionalExecFns;
use vstd::prelude::*;

verus! {

/// An API client's account.
pub struct Account {
    /// The client's opaque identity.
    pub id: ClientId,
    /// Display name, free-form.
    pub name: Option<String>,
    /// Contact email; unique across the store.
    pub email: String,
    /// The justification given with the registration request.
    pub explanation: String,
    /// Whether the email's ownership was confirmed.
    pub validated: bool,
    /// Whether an operator approved the account.
    pub enabled: bool,
}

/// Mathematical image of an [`Account`].
pub ghost struct AccountView {
    pub id: Seq<char>,
    pub name: Option<Seq<char>>,
    pub email: Seq<char>,
    pub explanation: Seq<char>,
    pub validated: bool,
    pub enabled: bool,
}

impl View for Account {
    type V = AccountView;

    open spec fn view(&self) -> AccountView {
        AccountView {
            id: self.id@,
            name: match self.name {
                Some(n) => Some(n@),
                None => None,
            },
            email: self.email@,
            explanation: self.explanation@,
            validated: self.validated,
            enabled: self.enabled,
        }
    }
}

/// A stored credential: the salted hash of a secret, its owner and its window
/// of validity, in seconds of some epoch.
pub struct Credential {
    /// The owning client's identity.
    pub client: ClientId,
    /// Salted hash of the secret; the plaintext is never stored.
    pub token_hash: String,
    /// When the credential was stored.
    pub created: i64,
    /// Last instant at which the credential is valid.
    pub valid_until: i64,
}

/// Mathematical image of a [`Credential`].
pub ghost struct CredentialView {
    pub client: Seq<char>,
    pub token_hash: Seq<char>,
    pub created: int,
    pub valid_until: int,
}

impl View for Credential {
    type V = CredentialView;

    open spec fn view(&self) -> CredentialView {
        CredentialView {
            client: self.client@,
            token_hash: self.token_hash@,
            created: self.created as int,
            valid_until: self.valid_until as int,
        }
    }
}

/// Mathematical image of a [`CredentialStore`].
pub ghost struct StoreView {
    pub accounts: Seq<AccountView>,
    pub credentials: Seq<CredentialView>,
}

/// There is an account with the given email.
pub open spec fn has_email(accs: Seq<AccountView>, email: Seq<char>) -> bool {
    exists|i: int| 0 <= i < accs.len() && (#[trigger] accs[i]).email == email
}

/// The index of the account with the given email (unique under [`store_wf`]).
pub open spec fn email_index(accs: Seq<AccountView>, email: Seq<char>) -> int {
    choose|i: int| 0 <= i < accs.len() && (#[trigger] accs[i]).email == email
}

/// There is an account with the given identity.
pub open spec fn has_id(accs: Seq<AccountView>, id: Seq<char>) -> bool {
    exists|i: int| 0 <= i < accs.len() && (#[trigger] accs[i]).id == id
}

/// The index of the account with the given identity (unique under
/// [`store_wf`]).
pub open spec fn id_index(accs: Seq<AccountView>, id: Seq<char>) -> int {
    choose|i: int| 0 <= i < accs.len() && (#[trigger] accs[i]).id == id
}

/// There is a credential owned by the given client.
pub open spec fn has_cred(creds: Seq<CredentialView>, client: Seq<char>) -> bool {
    exists|i: int| 0 <= i < creds.len() && (#[trigger] creds[i]).client == client
}

/// The index of the client's credential (unique under [`store_wf`]).
pub open spec fn cred_index(creds: Seq<CredentialView>, client: Seq<char>) -> int {
    choose|i: int| 0 <= i < creds.len() && (#[trigger] creds[i]).client == client
}

/// There is a credential with the given hash.
pub open spec fn has_hash(creds: Seq<CredentialView>, hash: Seq<char>) -> bool {
    exists|i: int| 0 <= i < creds.len() && (#[trigger] creds[i]).token_hash == hash
}

/// The index of the credential with the given hash (unique under
/// [`store_wf`]).
pub open spec fn hash_index(creds: Seq<CredentialView>, hash: Seq<char>) -> int {
    choose|i: int| 0 <= i < creds.len() && (#[trigger] creds[i]).token_hash == hash
}

/// Well-formedness of the store: emails and identities are unique across
/// accounts, each client owns at most one credential, stored hashes are
/// unique, and every credential belongs to a registered account.
pub open spec fn store_wf(sv: StoreView) -> bool {
    &&& forall|i: int, j: int|
        0 <= i < j < sv.accounts.len() ==> (#[trigger] sv.accounts[i]).email != (
        #[trigger] sv.accounts[j]).email
    &&& forall|i: int, j: int|
        0 <= i < j < sv.accounts.len() ==> (#[trigger] sv.accounts[i]).id != (
        #[trigger] sv.accounts[j]).id
    &&& forall|i: int, j: int|
        0 <= i < j < sv.credentials.len() ==> (#[trigger] sv.credentials[i]).client != (
        #[trigger] sv.credentials[j]).client
    &&& forall|i: int, j: int|
        0 <= i < j < sv.credentials.len() ==> (#[trigger] sv.credentials[i]).token_hash != (
        #[trigger] sv.credentials[j]).token_hash
    &&& forall|i: int|
        0 <= i < sv.credentials.len() ==> has_id(sv.accounts, (#[trigger] sv.credentials[i]).client)
}

/// In-memory store of accounts and credentials.
pub struct CredentialStore {
    accounts: Vec<Account>,
    credentials: Vec<Credential>,
}

impl View for CredentialStore {
    type V = StoreView;

    closed spec fn view(&self) -> StoreView {
        StoreView {
            accounts: self.accounts@.map_values(|a: Account| a@),
            credentials: self.credentials@.map_values(|c: Credential| c@),
        }
    }
}

impl CredentialStore {
    /// The store's invariant; every operation preserves it.
    pub open spec fn wf(&self) -> bool {
        store_wf(self@)
    }

    /// An empty store.
    pub fn new() -> (s: Self)
        ensures
            s@.accounts.len() == 0,
            s@.credentials.len() == 0,
            s.wf(),
    {
        CredentialStore { accounts: Vec::new(), credentials: Vec::new() }
    }

    /// Index of the account with the given email, if any.
    fn find_email_index(&self, email: &str) -> (r: Option<usize>)
        ensures
            r matches Some(i) ==> i < self@.accounts.len() && self@.accounts[i as int].email
                == email@,
            r is None ==> !has_email(self@.accounts, email@),
    {
        let mut i: usize = 0;
        let n = self.accounts.len();
        while i < n
            invariant
                i <= n,
                n == self@.accounts.len(),
                n == self.accounts.len(),
                forall|j: int| 0 <= j < i ==> (#[trigger] self@.accounts[j]).email != email@,
            decreases n - i,
        {
            if str_eq(self.accounts[i].email.as_str(), email) {
                return Some(i);
            }
            i += 1;
        }
        None
    }

    /// Index of the account with the given identity, if any.
    fn find_id_index(&self, id: &ClientId) -> (r: Option<usize>)
        ensures
            r matches Some(i) ==> i < self@.accounts.len() && self@.accounts[i as int].id == id@,
            r is None ==> !has_id(self@.accounts, id@),
    {
        let mut i: usize = 0;
        let n = self.accounts.len();
        while i < n
            invariant
                i <= n,
                n == self@.accounts.len(),
                n == self.accounts.len(),
                forall|j: int| 0 <= j < i ==> (#[trigger] self@.accounts[j]).id != id@,
            decreases n - i,
        {
            if str_eq(self.accounts[i].id.as_str(), id.as_str()) {
                return Some(i);
            }
            i += 1;
        }
        None
    }

    /// Index of the credential owned by the given client, if any.
    fn find_cred_index(&self, client: &ClientId) -> (r: Option<usize>)
        ensures
            r matches Some(i) ==> i < self@.credentials.len() && self@.credentials[i as int].client
                == client@,
            r is None ==> !has_cred(self@.credentials, client@),
    {
        let mut i: usize = 0;
        let n = self.credentials.len();
        while i < n
            invariant
                i <= n,
                n == self@.credentials.len(),
                n == self.credentials.len(),
                forall|j: int| 0 <= j < i ==> (#[trigger] self@.credentials[j]).client != client@,
            decreases n - i,
        {
            if str_eq(self.credentials[i].client.as_str(), client.as_str()) {
                return Some(i);
            }
            i += 1;
        }
        None
    }

    /// Index of the credential with the given hash, if any.
    fn find_hash_index(&self, hash: &str) -> (r: Option<usize>)
        ensures
            r matches Some(i) ==> i < self@.credentials.len()
                && self@.credentials[i as int].token_hash == hash@,
            r is None ==> !has_hash(self@.credentials, hash@),
    {
        let mut i: usize = 0;
        let n = self.credentials.len();
        while i < n
            invariant
                i <= n,
                n == self@.credentials.len(),
                n == self.credentials.len(),
                forall|j: int|
                    0 <= j < i ==> (#[trigger] self@.credentials[j]).token_hash != hash@,
            decreases n - i,
        {
            if str_eq(self.credentials[i].token_hash.as_str(), hash) {
                return Some(i);
            }
            i += 1;
        }
        None
    }

    /// Whether the given email belongs to a registered account, and to whom.
    ///
    /// Returns the owning client's identity when the email is on file, and
    /// `InvalidEmail` otherwise.
    pub fn check_existing_user(&self, email: &str) -> (r: Result<ClientId, DataDomainError>)
        requires
            self.wf(),
        ensures
            r is Ok <==> has_email(self@.accounts, email@),
            r matches Ok(id) ==> id@ == self@.accounts[email_index(self@.accounts, email@)].id,
            r matches Err(e) ==> e == DataDomainError::InvalidEmail,
    {
        match self.find_email_index(email) {
            Some(i) => {
                proof {
                    let k = email_index(self@.accounts, email@);
                    assert(0 <= k < self@.accounts.len() && self@.accounts[k].email == email@);
                    assert(k == i as int);
                }
                Ok(self.accounts[i].id.clone())
            },
            None => Err(DataDomainError::InvalidEmail),
        }
    }

    /// The account registered under the given identity, if any.
    pub fn account_by_id(&self, client: &ClientId) -> (r: Option<&Account>)
        requires
            self.wf(),
        ensures
            r is Some <==> has_id(self@.accounts, client@),
            r matches Some(a) ==> a@ == self@.accounts[id_index(self@.accounts, client@)],
    {
        match self.find_id_index(client) {
            Some(i) => {
                proof {
                    let k = id_index(self@.accounts, client@);
                    assert(0 <= k < self@.accounts.len() && self@.accounts[k].id == client@);
                    assert(k == i as int);
                }
                Some(&self.accounts[i])
            },
            None => None,
        }
    }

    /// The account registered under the given email, if any.
    pub fn account_by_email(&self, email: &str) -> (r: Option<&Account>)
        requires
            self.wf(),
        ensures
            r is Some <==> has_email(self@.accounts, email@),
            r matches Some(a) ==> a@ == self@.accounts[email_index(self@.accounts, email@)],
    {
        match self.find_email_index(email) {
            Some(i) => {
                proof {
                    let k = email_index(self@.accounts, email@);
                    assert(0 <= k < self@.accounts.len() && self@.accounts[k].email == email@);
                    assert(k == i as int);
                }
                Some(&self.accounts[i])
            },
            None => None,
        }
    }

    /// The client's live credential: its stored hash and its expiry instant.
    pub fn lookup_by_owner(&self, client: &ClientId) -> (r: Option<(String, i64)>)
        requires
            self.wf(),
        ensures
            r is Some <==> has_cred(self@.credentials, client@),
            r matches Some(p) ==> {
                let c = self@.credentials[cred_index(self@.credentials, client@)];
                p.0@ == c.token_hash && p.1 as int == c.valid_until
            },
    {
        match self.find_cred_index(client) {
            Some(i) => {
                proof {
                    let k = cred_index(self@.credentials, client@);
                    assert(0 <= k < self@.credentials.len() && self@.credentials[k].client
                        == client@);
                    assert(k == i as int);
                }
                Some((self.credentials[i].token_hash.clone(), self.credentials[i].valid_until))
            },
            None => None,
        }
    }

    /// Store a credential for a client: the hash of a secret, valid from
    /// `now` for `ttl_secs` seconds.
    ///
    /// Succeeds exactly when the client is registered, holds no credential
    /// yet, and the hash is not already on file; a failure leaves the store
    /// untouched.
    pub fn store_validation_token(
        &mut self,
        token_hash: &str,
        ttl_secs: i64,
        now: i64,
        client_id: &ClientId,
    ) -> (r: Result<(), ServerError>)
        requires
            old(self).wf(),
            0 <= now,
            0 <= ttl_secs,
            now + ttl_secs <= i64::MAX,
        ensures
            final(self).wf(),
            r is Ok <==> (has_id(old(self)@.accounts, client_id@) && !has_cred(
                old(self)@.credentials,
                client_id@,
            ) && !has_hash(old(self)@.credentials, token_hash@)),
            r is Ok ==> final(self)@.accounts == old(self)@.accounts && final(self)@.credentials
                =~= old(self)@.credentials.push(
                (CredentialView {
                    client: client_id@,
                    token_hash: token_hash@,
                    created: now as int,
                    valid_until: now + ttl_secs,
                }),
            ),
            r is Err ==> final(self)@ == old(self)@,
            r matches Err(e) ==> e == ServerError::DbError,
    {
        if self.find_id_index(client_id).is_none() {
            return Err(ServerError::DbError);
        }
        if self.find_cred_index(client_id).is_some() {
            return Err(ServerError::DbError);
        }
        if self.find_hash_index(token_hash).is_some() {
            return Err(ServerError::DbError);
        }
        let valid_until = now + ttl_secs;
        let ghost old_view = self@;
        self.credentials.push(
            Credential {
                client: client_id.clone(),
                token_hash: token_hash.to_owned(),
                created: now,
                valid_until,
            },
        );
        proof {
            assert(self@.credentials =~= old_view.credentials.push(
                (CredentialView {
                    client: client_id@,
                    token_hash: token_hash@,
                    created: now as int,
                    valid_until: now + ttl_secs,
                }),
            ));
            assert(self@.accounts =~= old_view.accounts);
            assert(store_wf(self@)) by {
                assert(forall|i: int|
                    0 <= i < old_view.credentials.len() ==> self@.credentials[i]
                        == old_view.credentials[i]);
                assert(forall|i: int|
                    0 <= i < self@.credentials.len() ==> has_id(
                        self@.accounts,
                        (#[trigger] self@.credentials[i]).client,
                    ));
            }
        }
        Ok(())
    }

    /// Delete the credential that stores the given hash, if any. Not finding
    /// it is not an error.
    pub fn delete_token(&mut self, token_hash: &str) -> (r: Result<(), ServerError>)
        requires
            old(self).wf(),
        ensures
            final(self).wf(),
            r is Ok,
            final(self)@.accounts == old(self)@.accounts,
            has_hash(old(self)@.credentials, token_hash@) ==> final(self)@.credentials =~= old(
                self,
            )@.credentials.remove(hash_index(old(self)@.credentials, token_hash@)),
            !has_hash(old(self)@.credentials, token_hash@) ==> final(self)@ == old(self)@,
    {
        match self.find_hash_index(token_hash) {
            Some(i) => {
                proof {
                    let k = hash_index(self@.credentials, token_hash@);
                    assert(0 <= k < self@.credentials.len() && self@.credentials[k].token_hash
                        == token_hash@);
                    assert(k == i as int);
                }
                let ghost old_view = self@;
                let _ = self.credentials.remove(i);
                proof {
                    assert(self@.credentials =~= old_view.credentials.remove(i as int));
                    lemma_store_wf_remove_credential(old_view, i as int);
                    assert(self@.accounts =~= old_view.accounts);
                }
                Ok(())
            },
            None => Ok(()),
        }
    }

    /// Mark the account's email as confirmed. An unknown identity leaves the
    /// store unchanged; like the underlying update, that is not an error.
    pub fn validate_client_account(&mut self, id: &ClientId) -> (r: Result<(), ServerError>)
        requires
            old(self).wf(),
        ensures
            final(self).wf(),
            r is Ok,
            final(self)@.credentials == old(self)@.credentials,
            has_id(old(self)@.accounts, id@) ==> final(self)@.accounts =~= old(
                self,
            )@.accounts.update(
                id_index(old(self)@.accounts, id@),
                (AccountView {
                    validated: true,
                    ..old(self)@.accounts[id_index(old(self)@.accounts, id@)]
                }),
            ),
            !has_id(old(self)@.accounts, id@) ==> final(self)@ == old(self)@,
    {
        self.set_account_flag(id, true, false)
    }

    /// Enable the account: the administrative approval. An unknown identity
    /// leaves the store unchanged; like the underlying update, that is not an
    /// error.
    pub fn enable_client(&mut self, id: &ClientId) -> (r: Result<(), ServerError>)
        requires
            old(self).wf(),
        ensures
            final(self).wf(),
            r is Ok,
            final(self)@.credentials == old(self)@.credentials,
            has_id(old(self)@.accounts, id@) ==> final(self)@.accounts =~= old(
                self,
            )@.accounts.update(
                id_index(old(self)@.accounts, id@),
                (AccountView {
                    enabled: true,
                    ..old(self)@.accounts[id_index(old(self)@.accounts, id@)]
                }),
            ),
            !has_id(old(self)@.accounts, id@) ==> final(self)@ == old(self)@,
    {
        self.set_account_flag(id, false, true)
    }

    /// Set the validated or the enabled flag of the account with the given
    /// identity, leaving every other field and row unchanged.
    fn set_account_flag(&mut self, id: &ClientId, set_validated: bool, set_enabled: bool) -> (r:
        Result<(), ServerError>)
        requires
            old(self).wf(),
        ensures
            final(self).wf(),
            r is Ok,
            final(self)@.credentials == old(self)@.credentials,
            has_id(old(self)@.accounts, id@) ==> final(self)@.accounts =~= old(
                self,
            )@.accounts.update(
                id_index(old(self)@.accounts, id@),
                (AccountView {
                    validated: old(self)@.accounts[id_index(old(self)@.accounts, id@)].validated
                        || set_validated,
                    enabled: old(self)@.accounts[id_index(old(self)@.accounts, id@)].enabled
                        || set_enabled,
                    ..old(self)@.accounts[id_index(old(self)@.accounts, id@)]
                }),
            ),
            !has_id(old(self)@.accounts, id@) ==> final(self)@ == old(self)@,
    {
        match self.find_id_index(id) {
            Some(i) => {
                proof {
                    let k = id_index(self@.accounts, id@);
                    assert(0 <= k < self@.accounts.len() && self@.accounts[k].id == id@);
                    assert(k == i as int);
                }
                let ghost old_view = self@;
                let a = &self.accounts[i];
                let updated = Account {
                    id: a.id.clone(),
                    name: a.name.clone(),
                    email: a.email.clone(),
                    explanation: a.explanation.clone(),
                    validated: a.validated || set_validated,
                    enabled: a.enabled || set_enabled,
                };
                self.accounts.set(i, updated);
                proof {
                    assert(self@.accounts =~= old_view.accounts.update(
                        i as int,
                        (AccountView {
                            validated: old_view.accounts[i as int].validated || set_validated,
                            enabled: old_view.accounts[i as int].enabled || set_enabled,
                            ..old_view.accounts[i as int]
                        }),
                    ));
                    lemma_store_wf_update_flags(old_view, i as int, self@);
                    assert(self@.credentials =~= old_view.credentials);
                }
                Ok(())
            },
            None => Ok(()),
        }
    }

    /// Register a new request: insert the account — not yet validated, not
    /// yet enabled — together with its confirmation credential, as one
    /// indivisible step.
    ///
    /// Succeeds exactly when the email, the identity and the hash are all new
    /// to the store; a failure leaves the store untouched.
    pub fn register_request(
        &mut self,
        account: Account,
        token_hash: String,
        now: i64,
        ttl_secs: i64,
    ) -> (r: Result<(), ServerError>)
        requires
            old(self).wf(),
            0 <= now,
            0 <= ttl_secs,
            now + ttl_secs <= i64::MAX,
        ensures
            final(self).wf(),
            r is Ok <==> (!has_email(old(self)@.accounts, account@.email) && !has_id(
                old(self)@.accounts,
                account@.id,
            ) && !has_hash(old(self)@.credentials, token_hash@)),
            r is Ok ==> final(self)@.accounts =~= old(self)@.accounts.push(
                (AccountView { validated: false, enabled: false, ..account@ }),
            ) && final(self)@.credentials =~= old(self)@.credentials.push(
                (CredentialView {
                    client: account@.id,
                    token_hash: token_hash@,
                    created: now as int,
                    valid_until: now + ttl_secs,
                }),
            ),
            r is Err ==> final(self)@ == old(self)@,
            r matches Err(e) ==> e == ServerError::DbError,
    {
        if self.find_email_index(account.email.as_str()).is_some() {
            return Err(ServerError::DbError);
        }
        if self.find_id_index(&account.id).is_some() {
            return Err(ServerError::DbError);
        }
        if self.find_hash_index(token_hash.as_str()).is_some() {
            return Err(ServerError::DbError);
        }
        let ghost old_view = self@;
        let client = account.id.clone();
        let valid_until = now + ttl_secs;
        self.accounts.push(
            Account {
                id: account.id,
                name: account.name,
                email: account.email,
                explanation: account.explanation,
                validated: false,
                enabled: false,
            },
        );
        self.credentials.push(
            Credential { client, token_hash, created: now, valid_until },
        );
        proof {
            assert(self@.accounts =~= old_view.accounts.push(
                (AccountView { validated: false, enabled: false, ..account@ }),
            ));
            assert(self@.credentials =~= old_view.credentials.push(
                (CredentialView {
                    client: account@.id,
                    token_hash: token_hash@,
                    created: now as int,
                    valid_until: now + ttl_secs,
                }),
            ));
            lemma_store_wf_register(old_view, account@, token_hash@, now as int, self@);
        }
        Ok(())
    }

    /// Replace the client's credential with a fresh one and mark the account
    /// validated, as one indivisible step: the consumed hash disappears, the
    /// new one becomes the only credential of the client.
    ///
    /// Succeeds exactly when the client is registered, owns a credential, and
    /// the new hash is not already on file; a failure leaves the store
    /// untouched.
    pub fn replace_credential_and_validate(
        &mut self,
        client: &ClientId,
        new_hash: String,
        now: i64,
        ttl_secs: i64,
    ) -> (r: Result<(), ServerError>)
        requires
            old(self).wf(),
            0 <= now,
            0 <= ttl_secs,
            now + ttl_secs <= i64::MAX,
        ensures
            final(self).wf(),
            r is Ok <==> (has_id(old(self)@.accounts, client@) && has_cred(
                old(self)@.credentials,
                client@,
            ) && !has_hash(old(self)@.credentials, new_hash@)),
            r is Ok ==> final(self)@.accounts =~= old(self)@.accounts.update(
                id_index(old(self)@.accounts, client@),
                (AccountView {
                    validated: true,
                    ..old(self)@.accounts[id_index(old(self)@.accounts, client@)]
                }),
            ) && final(self)@.credentials =~= old(self)@.credentials.update(
                cred_index(old(self)@.credentials, client@),
                (CredentialView {
                    client: client@,
                    token_hash: new_hash@,
                    created: now as int,
                    valid_until: now + ttl_secs,
                }),
            ),
            r is Err ==> final(self)@ == old(self)@,
            r matches Err(e) ==> e == ServerError::DbError,
    {
        let acc_idx = match self.find_id_index(client) {
            Some(i) => i,
            None => {
                return Err(ServerError::DbError);
            },
        };
        let cred_idx = match self.find_cred_index(client) {
            Some(i) => i,
            None => {
                return Err(ServerError::DbError);
            },
        };
        if self.find_hash_index(new_hash.as_str()).is_some() {
            return Err(ServerError::DbError);
        }
        proof {
            let ka = id_index(self@.accounts, client@);
            assert(0 <= ka < self@.accounts.len() && self@.accounts[ka].id == client@);
            assert(ka == acc_idx as int);
            let kc = cred_index(self@.credentials, client@);
            assert(0 <= kc < self@.credentials.len() && self@.credentials[kc].client == client@);
            assert(kc == cred_idx as int);
        }
        let ghost old_view = self@;
        let valid_until = now + ttl_secs;
        self.credentials.set(
            cred_idx,
            Credential { client: client.clone(), token_hash: new_hash, created: now, valid_until },
        );
        let a = &self.accounts[acc_idx];
        let updated = Account {
            id: a.id.clone(),
            name: a.name.clone(),
            email: a.email.clone(),
            explanation: a.explanation.clone(),
            validated: true,
            enabled: a.enabled,
        };
        self.accounts.set(acc_idx, updated);
        proof {
            assert(self@.accounts =~= old_view.accounts.update(
                acc_idx as int,
                (AccountView { validated: true, ..old_view.accounts[acc_idx as int] }),
            ));
            assert(self@.credentials =~= old_view.credentials.update(
                cred_idx as int,
                (CredentialView {
                    client: client@,
                    token_hash: new_hash@,
                    created: now as int,
                    valid_until: now + ttl_secs,
                }),
            ));
            lemma_store_wf_replace(old_view, acc_idx as int, cred_idx as int, new_hash@, self@);
        }
        Ok(())
    }
}

/// Removing a credential preserves the store invariant.
proof fn lemma_store_wf_remove_credential(sv: StoreView, k: int)
    requires
        store_wf(sv),
        0 <= k < sv.credentials.len(),
    ensures
        store_wf(StoreView { accounts: sv.accounts, credentials: sv.credentials.remove(k) }),
{
    let out = sv.credentials.remove(k);
    assert forall|i: int| 0 <= i < out.len() implies has_id(
        sv.accounts,
        (#[trigger] out[i]).client,
    ) by {
        if i < k {
            assert(out[i] == sv.credentials[i]);
        } else {
            assert(out[i] == sv.credentials[i + 1]);
        }
    }
    assert forall|i: int, j: int| 0 <= i < j < out.len() implies (#[trigger] out[i]).client != (
    #[trigger] out[j]).client && out[i].token_hash != out[j].token_hash by {
        let i0 = if i < k {
            i
        } else {
            i + 1
        };
        let j0 = if j < k {
            j
        } else {
            j + 1
        };
        assert(out[i] == sv.credentials[i0]);
        assert(out[j] == sv.credentials[j0]);
    }
}

/// Toggling account flags preserves the store invariant.
proof fn lemma_store_wf_update_flags(sv: StoreView, k: int, out: StoreView)
    requires
        store_wf(sv),
        0 <= k < sv.accounts.len(),
        out.credentials == sv.credentials,
        out.accounts.len() == sv.accounts.len(),
        forall|i: int|
            0 <= i < sv.accounts.len() ==> (#[trigger] out.accounts[i]).email
                == sv.accounts[i].email && out.accounts[i].id == sv.accounts[i].id,
    ensures
        store_wf(out),
{
    assert forall|i: int| 0 <= i < out.credentials.len() implies has_id(
        out.accounts,
        (#[trigger] out.credentials[i]).client,
    ) by {
        assert(has_id(sv.accounts, sv.credentials[i].client));
        let w = choose|w: int|
            0 <= w < sv.accounts.len() && (#[trigger] sv.accounts[w]).id == sv.credentials[i].client;
        assert(out.accounts[w].id == sv.credentials[i].client);
    }
}

/// Inserting a fresh account with its confirmation credential preserves the
/// store invariant.
proof fn lemma_store_wf_register(
    sv: StoreView,
    acc: AccountView,
    hash: Seq<char>,
    now: int,
    out: StoreView,
)
    requires
        store_wf(sv),
        !has_email(sv.accounts, acc.email),
        !has_id(sv.accounts, acc.id),
        !has_hash(sv.credentials, hash),
        out.accounts == sv.accounts.push((AccountView { validated: false, enabled: false, ..acc })),
        exists|vu: int|
            out.credentials == sv.credentials.push(
                (CredentialView { client: acc.id, token_hash: hash, created: now, valid_until: vu }),
            ),
    ensures
        store_wf(out),
{
    let vu = choose|vu: int|
        out.credentials == sv.credentials.push(
            (CredentialView { client: acc.id, token_hash: hash, created: now, valid_until: vu }),
        );
    let newcred = CredentialView { client: acc.id, token_hash: hash, created: now, valid_until: vu };
    assert forall|i: int, j: int| 0 <= i < j < out.credentials.len() implies (
    #[trigger] out.credentials[i]).client != (#[trigger] out.credentials[j]).client
        && out.credentials[i].token_hash != out.credentials[j].token_hash by {
        if j == out.credentials.len() - 1 {
            assert(out.credentials[i] == sv.credentials[i]);
            assert(out.credentials[j] == newcred);
            // The new client is fresh among accounts, and every old
            // credential's client is a registered account's id.
            assert(has_id(sv.accounts, sv.credentials[i].client));
            if sv.credentials[i].client == acc.id {
                let w = choose|w: int|
                    0 <= w < sv.accounts.len() && (#[trigger] sv.accounts[w]).id
                        == sv.credentials[i].client;
                assert(has_id(sv.accounts, acc.id));
            }
            if sv.credentials[i].token_hash == hash {
                assert(has_hash(sv.credentials, hash));
            }
        } else {
            assert(out.credentials[i] == sv.credentials[i]);
            assert(out.credentials[j] == sv.credentials[j]);
        }
    }
    assert forall|i: int, j: int| 0 <= i < j < out.accounts.len() implies (
    #[trigger] out.accounts[i]).email != (#[trigger] out.accounts[j]).email && out.accounts[i].id
        != out.accounts[j].id by {
        if j == out.accounts.len() - 1 {
            assert(out.accounts[i] == sv.accounts[i]);
            if sv.accounts[i].email == acc.email {
                assert(has_email(sv.accounts, acc.email));
            }
            if sv.accounts[i].id == acc.id {
                assert(has_id(sv.accounts, acc.id));
            }
        } else {
            assert(out.accounts[i] == sv.accounts[i]);
            assert(out.accounts[j] == sv.accounts[j]);
        }
    }
    assert forall|i: int| 0 <= i < out.credentials.len() implies has_id(
        out.accounts,
        (#[trigger] out.credentials[i]).client,
    ) by {
        if i == out.credentials.len() - 1 {
            let w = out.accounts.len() - 1;
            assert(out.accounts[w].id == acc.id);
        } else {
            assert(out.credentials[i] == sv.credentials[i]);
            let w = choose|w: int|
                0 <= w < sv.accounts.len() && (#[trigger] sv.accounts[w]).id
                    == sv.credentials[i].client;
            assert(out.accounts[w].id == sv.credentials[i].client);
        }
    }
}

/// Replacing a client's credential and marking its account validated
/// preserves the store invariant.
proof fn lemma_store_wf_replace(
    sv: StoreView,
    ka: int,
    kc: int,
    new_hash: Seq<char>,
    out: StoreView,
)
    requires
        store_wf(sv),
        0 <= ka < sv.accounts.len(),
        0 <= kc < sv.credentials.len(),
        !has_hash(sv.credentials, new_hash),
        out.accounts.len() == sv.accounts.len(),
        forall|i: int|
            0 <= i < sv.accounts.len() ==> (#[trigger] out.accounts[i]).email
                == sv.accounts[i].email && out.accounts[i].id == sv.accounts[i].id,
        out.credentials.len() == sv.credentials.len(),
        forall|i: int|
            0 <= i < sv.credentials.len() && i != kc ==> (#[trigger] out.credentials[i])
                == sv.credentials[i],
        out.credentials[kc].client == sv.credentials[kc].client,
        out.credentials[kc].token_hash == new_hash,
    ensures
        store_wf(out),
{
    assert forall|i: int, j: int| 0 <= i < j < out.credentials.len() implies (
    #[trigger] out.credentials[i]).client != (#[trigger] out.credentials[j]).client
        && out.credentials[i].token_hash != out.credentials[j].token_hash by {
        assert(out.credentials[i].client == sv.credentials[i].client);
        assert(out.credentials[j].client == sv.credentials[j].client);
        if i != kc && j != kc {
            assert(out.credentials[i] == sv.credentials[i]);
            assert(out.credentials[j] == sv.credentials[j]);
        } else {
            let other = if i == kc {
                j
            } else {
                i
            };
            assert(out.credentials[other] == sv.credentials[other]);
            if sv.credentials[other].token_hash == new_hash {
                assert(has_hash(sv.credentials, new_hash));
            }
        }
    }
    assert forall|i: int| 0 <= i < out.credentials.len() implies has_id(
        out.accounts,
        (#[trigger] out.credentials[i]).client,
    ) by {
        assert(out.credentials[i].client == sv.credentials[i].client);
        assert(has_id(sv.accounts, sv.credentials[i].client));
        let w = choose|w: int|
            0 <= w < sv.accounts.len() && (#[trigger] sv.accounts[w]).id == sv.credentials[i].client;
        assert(out.accounts[w].id == sv.credentials[i].client);
    }
}

} // verus!
