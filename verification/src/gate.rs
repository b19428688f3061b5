//! The request-time access check.
//!
//! Every restricted call carries a `client:secret` bearer string. It is
//! split at the first `:`, the client and its credential are resolved, the
//! secret is checked against the stored hash, and only then are the
//! account's enablement and the credential's expiry looked at — in that
//! order, so that whether an account is disabled or a credential expired is
//! never revealed to a caller that does not hold the correct secret. A
//! missing account and a missing credential are reported alike, to prevent
//! account enumeration.
//!
//! The whole decision is the spec function [`check_access_spec`];
//! [`check_access`] returns exactly its verdict.

use crate::client_id::{ClientId, ID_LENGTH};
use crate::errors::DataDomainError;
use crate::secret::{hash_matches, verify_token};
use crate::store::{
    cred_index, has_cred, has_id, id_index, store_wf, AccountView, CredentialStore, StoreView,
};
use vstd::prelude::*;
use vstd::string::*;
use vstd::utf8::encode_utf8;

verus! {

/// Index of the first `:` of the string, or `-1` if it holds none.
pub open spec fn spec_first_colon(s: Seq<char>) -> int
    decreases s.len(),
{
    if s.len() == 0 {
        -1
    } else if s[0] == ':' {
        0
    } else {
        let rest = spec_first_colon(s.drop_first());
        if rest == -1 {
            -1
        } else {
            rest + 1
        }
    }
}

/// The first-colon index is a colon position with no colon before it, and
/// `-1` exactly when the string holds no colon.
proof fn lemma_first_colon_charac(s: Seq<char>)
    ensures
        spec_first_colon(s) == -1 ==> forall|j: int| 0 <= j < s.len() ==> s[j] != ':',
        spec_first_colon(s) != -1 ==> 0 <= spec_first_colon(s) < s.len() && s[spec_first_colon(s)]
            == ':' && (forall|j: int| 0 <= j < spec_first_colon(s) ==> s[j] != ':'),
    decreases s.len(),
{
    if s.len() > 0 && s[0] != ':' {
        lemma_first_colon_charac(s.drop_first());
        let rest = spec_first_colon(s.drop_first());
        if rest != -1 {
            assert(s[rest + 1] == s.drop_first()[rest]);
            assert forall|j: int| 0 <= j < rest + 1 implies s[j] != ':' by {
                if j > 0 {
                    assert(s.drop_first()[j - 1] != ':');
                    assert(s.drop_first()[j - 1] == s[j]);
                }
            }
        } else {
            assert forall|j: int| 0 <= j < s.len() implies s[j] != ':' by {
                if j > 0 {
                    assert(s.drop_first()[j - 1] != ':');
                    assert(s.drop_first()[j - 1] == s[j]);
                }
            }
        }
    }
}

/// The verdict of the access gate on a store state, a bearer string and the
/// current time, step by step:
/// a bearer without `:`, an identity of the wrong length, an unknown
/// identity and an identity without credential are all `InvalidId`; a secret
/// that does not match the stored hash is `InvalidAccessCredentials`; only
/// then a non-enabled account is `AccountDisabled` and an elapsed credential
/// `ExpiredAccess`; otherwise access is granted.
pub open spec fn check_access_spec(sv: StoreView, bearer: Seq<char>, now: int) -> Result<
    (),
    DataDomainError,
> {
    let c = spec_first_colon(bearer);
    if c < 0 {
        Err(DataDomainError::InvalidId)
    } else {
        let id = bearer.take(c);
        let secret = bearer.skip(c + 1);
        if encode_utf8(id).len() != ID_LENGTH {
            Err(DataDomainError::InvalidId)
        } else if !has_id(sv.accounts, id) {
            Err(DataDomainError::InvalidId)
        } else if !has_cred(sv.credentials, id) {
            Err(DataDomainError::InvalidId)
        } else {
            let acc = sv.accounts[id_index(sv.accounts, id)];
            let cred = sv.credentials[cred_index(sv.credentials, id)];
            if !hash_matches(cred.token_hash, secret) {
                Err(DataDomainError::InvalidAccessCredentials)
            } else if !acc.enabled {
                Err(DataDomainError::AccountDisabled)
            } else if cred.valid_until < now {
                Err(DataDomainError::ExpiredAccess)
            } else {
                Ok(())
            }
        }
    }
}

/// Index of the first `:` of the string, if any.
fn find_first_colon(s: &str) -> (r: Option<usize>)
    ensures
        r matches Some(i) ==> i as int == spec_first_colon(s@),
        r is None ==> spec_first_colon(s@) == -1,
{
    let n = s.unicode_len();
    let mut i: usize = 0;
    while i < n
        invariant
            i <= n,
            n == s@.len(),
            forall|j: int| 0 <= j < i ==> s@[j] != ':',
        decreases n - i,
    {
        if s.get_char(i) == ':' {
            proof {
                lemma_first_colon_charac(s@);
                let fc = spec_first_colon(s@);
                if fc == -1 {
                    assert(s@[i as int] != ':');
                    assert(false);
                } else if fc < i as int {
                    assert(s@[fc] != ':');
                    assert(false);
                } else if fc > i as int {
                    assert(s@[i as int] != ':');
                    assert(false);
                }
            }
            return Some(i);
        }
        i += 1;
    }
    proof {
        lemma_first_colon_charac(s@);
        let fc = spec_first_colon(s@);
        if fc != -1 {
            assert(s@[fc] != ':');
            assert(false);
        }
    }
    None
}

/// Check whether the presented bearer string grants access right now.
///
/// Returns exactly the verdict of [`check_access_spec`] on the store's
/// current state. Reads only; safe to call repeatedly.
pub fn check_access(store: &CredentialStore, bearer: &str, now: i64) -> (r: Result<
    (),
    DataDomainError,
>)
    requires
        store.wf(),
    ensures
        r == check_access_spec(store@, bearer@, now as int),
{
    let colon = match find_first_colon(bearer) {
        Some(i) => i,
        None => {
            return Err(DataDomainError::InvalidId);
        },
    };
    proof {
        lemma_first_colon_charac(bearer@);
    }
    let bearer_len = bearer.unicode_len();
    let id_part = bearer.substring_char(0, colon);
    let secret_part = bearer.substring_char(colon + 1, bearer_len);
    proof {
        assert(id_part@ =~= bearer@.take(colon as int));
        assert(secret_part@ =~= bearer@.skip(colon as int + 1));
    }
    let client = match ClientId::parse(id_part) {
        Ok(c) => c,
        Err(e) => {
            return Err(e);
        },
    };
    let account = match store.account_by_id(&client) {
        Some(a) => a,
        None => {
            return Err(DataDomainError::InvalidId);
        },
    };
    let enabled = account.enabled;
    let (stored_hash, valid_until) = match store.lookup_by_owner(&client) {
        Some(p) => p,
        None => {
            return Err(DataDomainError::InvalidId);
        },
    };
    match verify_token(stored_hash.as_str(), secret_part) {
        Ok(()) => {},
        Err(e) => {
            return Err(e);
        },
    }
    if !enabled {
        return Err(DataDomainError::AccountDisabled);
    }
    if valid_until < now {
        return Err(DataDomainError::ExpiredAccess);
    }
    Ok(())
}

/// A bearer string addresses a client with a live, matching credential: the
/// bearer splits at its first `:` into the identity of a registered account
/// that owns a credential, and a secret that matches the stored hash.
pub open spec fn bearer_matches(sv: StoreView, bearer: Seq<char>) -> bool {
    let c = spec_first_colon(bearer);
    &&& c >= 0
    &&& encode_utf8(bearer.take(c)).len() == ID_LENGTH
    &&& has_id(sv.accounts, bearer.take(c))
    &&& has_cred(sv.credentials, bearer.take(c))
    &&& hash_matches(
        sv.credentials[cred_index(sv.credentials, bearer.take(c))].token_hash,
        bearer.skip(c + 1),
    )
}

/// Law (workflow happy path, gate side): a bearer string of the shape
/// `identity:secret` — the identity [`ID_LENGTH`] bytes long and free of
/// colons, as fresh identities are — addresses the identity's stored
/// credential whenever the identity is registered, owns a credential, and
/// the secret matches its hash. On such a bearer, [`check_access_spec`] is
/// decided by the account's enablement and the credential's expiry alone.
pub proof fn lemma_bearer_of_matching_secret(sv: StoreView, id: Seq<char>, bearer: Seq<char>)
    requires
        encode_utf8(id).len() == ID_LENGTH,
        forall|j: int| 0 <= j < id.len() ==> (#[trigger] id[j]) != ':',
        id.len() < bearer.len(),
        bearer.take(id.len() as int) == id,
        bearer[id.len() as int] == ':',
        has_id(sv.accounts, id),
        has_cred(sv.credentials, id),
        hash_matches(
            sv.credentials[cred_index(sv.credentials, id)].token_hash,
            bearer.skip(id.len() as int + 1),
        ),
    ensures
        bearer_matches(sv, bearer),
        spec_first_colon(bearer) == id.len() as int,
{
    let l = id.len() as int;
    assert forall|j: int| 0 <= j < l implies bearer[j] != ':' by {
        assert(bearer.take(l)[j] == bearer[j]);
        assert(id[j] != ':');
    }
    lemma_first_colon_charac(bearer);
    let fc = spec_first_colon(bearer);
    if fc == -1 {
        assert(bearer[l] != ':');
        assert(false);
    } else if fc < l {
        assert(bearer[fc] != ':');
        assert(false);
    } else if fc > l {
        assert(bearer[l] != ':');
        assert(false);
    }
    assert(bearer.take(fc) == id);
}

/// Law (disabled gate): a correct bearer for an account that is not yet
/// enabled is refused as `AccountDisabled`; after the account is enabled —
/// and nothing else changed — the very same bearer is accepted, provided the
/// credential has not expired.
pub proof fn lemma_disabled_gate(pre: StoreView, post: StoreView, bearer: Seq<char>, now: int)
    requires
        store_wf(pre),
        bearer_matches(pre, bearer),
        !pre.accounts[id_index(pre.accounts, bearer.take(spec_first_colon(bearer)))].enabled,
        now <= pre.credentials[cred_index(
            pre.credentials,
            bearer.take(spec_first_colon(bearer)),
        )].valid_until,
        post.credentials == pre.credentials,
        post.accounts == pre.accounts.update(
            id_index(pre.accounts, bearer.take(spec_first_colon(bearer))),
            (AccountView {
                enabled: true,
                ..pre.accounts[id_index(pre.accounts, bearer.take(spec_first_colon(bearer)))]
            }),
        ),
    ensures
        check_access_spec(pre, bearer, now) == Err::<(), DataDomainError>(
            DataDomainError::AccountDisabled,
        ),
        check_access_spec(post, bearer, now) == Ok::<(), DataDomainError>(()),
{
    let id = bearer.take(spec_first_colon(bearer));
    let k = id_index(pre.accounts, id);
    assert(0 <= k < pre.accounts.len() && pre.accounts[k].id == id);
    assert(post.accounts[k].id == id);
    assert(has_id(post.accounts, id));
    let k2 = id_index(post.accounts, id);
    assert(0 <= k2 < post.accounts.len() && post.accounts[k2].id == id);
    if k2 != k {
        assert(post.accounts[k2] == pre.accounts[k2]);
        assert(pre.accounts[k2].id == pre.accounts[k].id);
    }
    assert(post.accounts[id_index(post.accounts, id)].enabled);
}

/// Law (expiry gate): a correct bearer of an enabled account whose credential
/// has already expired is refused as `ExpiredAccess` — even though the secret
/// matches and the account is enabled.
pub proof fn lemma_expiry_gate(sv: StoreView, bearer: Seq<char>, now: int)
    requires
        bearer_matches(sv, bearer),
        sv.accounts[id_index(sv.accounts, bearer.take(spec_first_colon(bearer)))].enabled,
        sv.credentials[cred_index(
            sv.credentials,
            bearer.take(spec_first_colon(bearer)),
        )].valid_until < now,
    ensures
        check_access_spec(sv, bearer, now) == Err::<(), DataDomainError>(
            DataDomainError::ExpiredAccess,
        ),
{
}

/// Law (unknown client): a bearer whose identity is not registered is refused
/// as `InvalidId`, whatever stands after the colon.
pub proof fn lemma_unknown_client_gate(sv: StoreView, bearer: Seq<char>, now: int)
    requires
        !has_id(sv.accounts, bearer.take(spec_first_colon(bearer))),
    ensures
        check_access_spec(sv, bearer, now) == Err::<(), DataDomainError>(
            DataDomainError::InvalidId,
        ),
{
}

} // verus!
