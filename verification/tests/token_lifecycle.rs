//! End-to-end tests of the access-token lifecycle: identities, secrets,
//! hashing, the registration workflow and the access gate.

use lacoctelera::client_id::{ClientId, ID_LENGTH};
use lacoctelera::errors::{DataDomainError, ServerError};
use lacoctelera::gate::check_access;
use lacoctelera::mailing::{
    confirmation_link, confirmation_subject, pending_request_body, pending_request_subject,
};
use lacoctelera::secret::{generate_new_token_hash, generate_token, verify_token, TOKEN_LENGTH};
use lacoctelera::store::CredentialStore;
use lacoctelera::token_request::TokenRequestData;
use lacoctelera::workflow::{
    confirm_email, enable_client, issue_request, IssueOutcome, WorkflowError,
    ACCESS_TTL_SECS, CONFIRMATION_TTL_SECS,
};

fn sample_form(email: &str) -> TokenRequestData {
    TokenRequestData::new(Some("John Doe"), email, "I would like to publish my recipes")
        .expect("the sample form must validate")
}

/// Drive a registration to the point where a bearer string exists: request,
/// then confirm. Returns the client identity and the bearer string.
fn register(store: &mut CredentialStore, email: &str, now: i64) -> (ClientId, String) {
    let form = sample_form(email);
    let outcome = issue_request(store, &form, now).expect("issue_request must succeed");
    let (client, secret) = match outcome {
        IssueOutcome::PendingConfirmation { client, confirmation_secret } => {
            (client, confirmation_secret)
        }
        IssueOutcome::AlreadyRegistered { .. } => panic!("email was fresh"),
    };
    let bearer = confirm_email(store, email, &secret, now + 10).expect("confirm must succeed");
    (client, bearer)
}

#[test]
fn identity_round_trip() {
    let id = ClientId::new();
    let rendered = id.to_string();
    assert_eq!(rendered.len(), ID_LENGTH);
    let reparsed = ClientId::parse(&rendered).expect("a rendered identity must parse");
    assert_eq!(reparsed, id);
}

#[test]
fn identity_parse_checks_length_only() {
    assert!(ClientId::parse("0399ab0f").is_ok());
    // Eight characters but nine bytes: the length is measured in bytes.
    assert!(matches!(
        ClientId::parse("0399ab0\u{00d1}"),
        Err(DataDomainError::InvalidId)
    ));
    assert!(matches!(
        ClientId::parse("0399ab0f92"),
        Err(DataDomainError::InvalidId)
    ));
    assert!(matches!(ClientId::parse(""), Err(DataDomainError::InvalidId)));
}

#[test]
fn fresh_identities_differ() {
    let a = ClientId::default();
    let b = ClientId::default();
    assert_ne!(a.to_string(), b.to_string());
    assert_eq!(a.to_string().len(), ID_LENGTH);
    assert_eq!(b.to_string().len(), ID_LENGTH);
}

#[test]
fn generated_tokens_are_alphanumeric() {
    let token = generate_token();
    assert_eq!(token.len(), TOKEN_LENGTH);
    assert!(token.chars().all(|c| c.is_ascii_alphanumeric()));
}

#[test]
fn equal_token_hash_match() {
    let token = generate_token();
    let token_hash = generate_new_token_hash(&token).expect("Failed to generate token hash");
    assert!(verify_token(&token_hash, &token).is_ok());
}

#[test]
fn different_token_hash_does_not_match() {
    let token = generate_token();
    let token_hash = generate_new_token_hash(&token).expect("Failed to generate token hash");
    let token = generate_token();
    let token2_hash = generate_new_token_hash(&token).expect("Failed to generate token hash");
    assert!(verify_token(&token_hash, &token2_hash).is_err());
}

#[test]
fn hashing_is_salted_but_verification_is_stable() {
    let secret = generate_token();
    let h1 = generate_new_token_hash(&secret).expect("first hash");
    let h2 = generate_new_token_hash(&secret).expect("second hash");
    assert_ne!(h1, h2, "a fresh salt must make the hashes differ");
    assert!(verify_token(&h1, &secret).is_ok());
    assert!(verify_token(&h2, &secret).is_ok());
}

#[test]
fn cross_secret_rejection() {
    let s1 = generate_token();
    let s2 = generate_token();
    assert_ne!(s1, s2);
    let h2 = generate_new_token_hash(&s2).expect("hash");
    assert!(matches!(
        verify_token(&h2, &s1),
        Err(DataDomainError::InvalidAccessCredentials)
    ));
}

#[test]
fn workflow_happy_path() {
    let mut store = CredentialStore::new();
    let form = sample_form("a@b.com");
    let outcome = issue_request(&mut store, &form, 1_000).expect("issue_request");
    let (client, secret) = match outcome {
        IssueOutcome::PendingConfirmation { client, confirmation_secret } => {
            (client, confirmation_secret)
        }
        IssueOutcome::AlreadyRegistered { .. } => panic!("the email was fresh"),
    };
    assert_eq!(secret.len(), TOKEN_LENGTH);

    let bearer = confirm_email(&mut store, "a@b.com", &secret, 2_000).expect("confirm_email");
    let expected_prefix = format!("{}:", client.to_string());
    assert!(bearer.starts_with(&expected_prefix));
    assert_eq!(bearer.len(), ID_LENGTH + 1 + TOKEN_LENGTH);

    // The confirmation secret was consumed: a second confirmation fails.
    let again = confirm_email(&mut store, "a@b.com", &secret, 2_500);
    assert!(matches!(
        again,
        Err(WorkflowError::Domain(DataDomainError::InvalidAccessCredentials))
    ));
}

#[test]
fn confirm_rejects_unknown_email_and_wrong_secret() {
    let mut store = CredentialStore::new();
    let missing = confirm_email(&mut store, "nobody@b.com", "whatever", 100);
    assert!(matches!(
        missing,
        Err(WorkflowError::Domain(DataDomainError::InvalidEmail))
    ));

    let form = sample_form("a@b.com");
    issue_request(&mut store, &form, 1_000).expect("issue_request");
    let wrong = confirm_email(&mut store, "a@b.com", "not the secret", 1_100);
    assert!(matches!(
        wrong,
        Err(WorkflowError::Domain(DataDomainError::InvalidAccessCredentials))
    ));
}

#[test]
fn confirm_rejects_elapsed_window() {
    let mut store = CredentialStore::new();
    let form = sample_form("a@b.com");
    let outcome = issue_request(&mut store, &form, 1_000).expect("issue_request");
    let secret = match outcome {
        IssueOutcome::PendingConfirmation { confirmation_secret, .. } => confirmation_secret,
        IssueOutcome::AlreadyRegistered { .. } => panic!("the email was fresh"),
    };
    let too_late = 1_000 + CONFIRMATION_TTL_SECS + 1;
    let late = confirm_email(&mut store, "a@b.com", &secret, too_late);
    assert!(matches!(
        late,
        Err(WorkflowError::Domain(DataDomainError::InvalidAccessCredentials))
    ));
    // At the very edge of the window the confirmation still goes through.
    let on_time = confirm_email(&mut store, "a@b.com", &secret, 1_000 + CONFIRMATION_TTL_SECS);
    assert!(on_time.is_ok());
}

#[test]
fn disabled_account_fails_to_grant_access() {
    let mut store = CredentialStore::new();
    let (client, bearer) = register(&mut store, "a@b.com", 1_000);
    // The account is validated but not yet approved, so access is denied.
    assert!(matches!(
        check_access(&store, &bearer, 2_000),
        Err(DataDomainError::AccountDisabled)
    ));
    enable_client(&mut store, &client).expect("enable_client");
    assert!(check_access(&store, &bearer, 2_000).is_ok());
}

#[test]
fn expired_token_fails_to_grant_access() {
    let mut store = CredentialStore::new();
    let (client, bearer) = register(&mut store, "a@b.com", 1_000);
    enable_client(&mut store, &client).expect("enable_client");
    let expiry = 1_010 + ACCESS_TTL_SECS;
    assert!(check_access(&store, &bearer, expiry).is_ok());
    assert!(matches!(
        check_access(&store, &bearer, expiry + 1),
        Err(DataDomainError::ExpiredAccess)
    ));
}

#[test]
fn credential_with_past_ttl_is_expired() {
    let mut store = CredentialStore::new();
    let form = sample_form("a@b.com");
    let outcome = issue_request(&mut store, &form, 1_000).expect("issue_request");
    let client = match outcome {
        IssueOutcome::PendingConfirmation { client, .. } => client,
        IssueOutcome::AlreadyRegistered { .. } => panic!("the email was fresh"),
    };
    // Replace the confirmation credential with one whose window closes
    // immediately, then enable the account.
    let (old_hash, _) = store.lookup_by_owner(&client).expect("credential stored");
    store.delete_token(&old_hash).expect("delete");
    let secret = generate_token();
    let hash = generate_new_token_hash(&secret).expect("hash");
    store.store_validation_token(&hash, 0, 1_000, &client).expect("store");
    enable_client(&mut store, &client).expect("enable_client");

    let bearer = format!("{}:{}", client.to_string(), secret);
    assert!(check_access(&store, &bearer, 1_000).is_ok());
    assert!(matches!(
        check_access(&store, &bearer, 1_001),
        Err(DataDomainError::ExpiredAccess)
    ));
}

#[test]
fn accounts_can_be_validated_and_enabled() {
    let mut store = CredentialStore::new();
    let form = sample_form("a@b.com");
    let outcome = issue_request(&mut store, &form, 1_000).expect("issue_request");
    let client = match outcome {
        IssueOutcome::PendingConfirmation { client, .. } => client,
        IssueOutcome::AlreadyRegistered { .. } => panic!("the email was fresh"),
    };
    let account = store.account_by_id(&client).expect("account stored");
    assert!(!account.validated);
    assert!(!account.enabled);

    store.validate_client_account(&client).expect("validate");
    assert!(store.account_by_id(&client).expect("account").validated);
    assert!(!store.account_by_id(&client).expect("account").enabled);

    store.enable_client(&client).expect("enable");
    assert!(store.account_by_id(&client).expect("account").enabled);

    // Updating an unknown identity is not an error and changes nothing.
    let stranger = ClientId::new();
    store.validate_client_account(&stranger).expect("no-op update");
    assert!(store.account_by_id(&stranger).is_none());
}

#[test]
fn non_existing_client_has_no_access_to_the_api() {
    let mut store = CredentialStore::new();
    assert!(matches!(
        check_access(&store, "zzzzzzzz:anything", 100),
        Err(DataDomainError::InvalidId)
    ));
    // Even on a store with registered clients.
    let (client, _) = register(&mut store, "a@b.com", 1_000);
    enable_client(&mut store, &client).expect("enable_client");
    assert!(matches!(
        check_access(&store, "zzzzzzzz:anything", 2_000),
        Err(DataDomainError::InvalidId)
    ));
}

#[test]
fn malformed_bearer_strings_are_invalid() {
    let store = CredentialStore::new();
    assert!(matches!(
        check_access(&store, "nocolonhere", 100),
        Err(DataDomainError::InvalidId)
    ));
    assert!(matches!(
        check_access(&store, "short:secret", 100),
        Err(DataDomainError::InvalidId)
    ));
    assert!(matches!(
        check_access(&store, "", 100),
        Err(DataDomainError::InvalidId)
    ));
}

#[test]
fn wrong_secret_is_rejected_before_account_state() {
    let mut store = CredentialStore::new();
    let (client, _bearer) = register(&mut store, "a@b.com", 1_000);
    // The account is disabled, but a caller without the right secret only
    // ever learns that the credentials are wrong.
    let forged = format!("{}:AAAAAAAAAAAAAAAAAAAAAAAAA", client.to_string());
    assert!(matches!(
        check_access(&store, &forged, 2_000),
        Err(DataDomainError::InvalidAccessCredentials)
    ));
}

#[test]
fn duplicate_registration_is_reported() {
    let mut store = CredentialStore::new();
    let form = sample_form("a@b.com");
    let first = issue_request(&mut store, &form, 1_000).expect("first request");
    let first_client = match first {
        IssueOutcome::PendingConfirmation { client, .. } => client,
        IssueOutcome::AlreadyRegistered { .. } => panic!("the email was fresh"),
    };
    let second = issue_request(&mut store, &form, 1_500).expect("second request");
    match second {
        IssueOutcome::AlreadyRegistered { client } => assert_eq!(client, first_client),
        IssueOutcome::PendingConfirmation { .. } => panic!("the email was already on file"),
    }
    // No second account: the email still resolves to the first client.
    let found = store.check_existing_user("a@b.com").expect("email on file");
    assert_eq!(found, first_client);
}

#[test]
fn store_rejects_credentials_for_unknown_clients() {
    let mut store = CredentialStore::new();
    let stranger = ClientId::new();
    let hash = generate_new_token_hash("not really a secret but hashed").expect("hash");
    let refused = store.store_validation_token(&hash, 3_600, 100, &stranger);
    assert!(matches!(refused, Err(ServerError::DbError)));
}

#[test]
fn store_lookup_and_delete() {
    let mut store = CredentialStore::new();
    let form = sample_form("a@b.com");
    let outcome = issue_request(&mut store, &form, 1_000).expect("issue_request");
    let client = match outcome {
        IssueOutcome::PendingConfirmation { client, .. } => client,
        IssueOutcome::AlreadyRegistered { .. } => panic!("the email was fresh"),
    };
    let (hash, valid_until) = store.lookup_by_owner(&client).expect("credential stored");
    assert_eq!(valid_until, 1_000 + CONFIRMATION_TTL_SECS);
    store.delete_token(&hash).expect("delete never fails");
    assert!(store.lookup_by_owner(&client).is_none());
    // Deleting an unknown hash is not an error.
    store.delete_token(&hash).expect("idempotent in intent");
}

#[test]
fn unknown_email_is_reported() {
    let store = CredentialStore::new();
    assert!(matches!(
        store.check_existing_user("a@b.com"),
        Err(DataDomainError::InvalidEmail)
    ));
}

#[test]
fn mail_messages_are_composed() {
    let link = confirmation_link("https://api.example/token/request", "a@b.com", "SECRET");
    assert_eq!(
        link,
        "https://api.example/token/request/validate?email=a@b.com&token=SECRET"
    );
    assert_eq!(confirmation_subject(), "Verify your email");
    assert_eq!(pending_request_subject(), "New client of the API validated");
    let id = ClientId::parse("0399ab0f").expect("an eight-byte identity");
    assert_eq!(
        pending_request_body(&id),
        "A new client (0399ab0f) has validated the account. Proceed to the evaluation of the request."
    );
}

#[test]
fn error_descriptions_are_stable() {
    assert_eq!(DataDomainError::ExpiredAccess.describe(), "expired access token");
    assert_eq!(DataDomainError::InvalidAccessCredentials.describe(), "wrong access token");
    assert_eq!(DataDomainError::InvalidEmail.describe(), "email not registered");
    assert_eq!(DataDomainError::AccountDisabled.describe(), "account disabled");
    assert_eq!(ServerError::DbError.describe(), "error from a storage operation");
    assert_eq!(ServerError::EmailClientError.describe(), "error from the email client");
}
