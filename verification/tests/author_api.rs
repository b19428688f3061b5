//! Tests of the author domain objects and the token-request form data.

use lacoctelera::author::{Author, AuthorBuilder, SocialProfile};
use lacoctelera::errors::DataDomainError;
use lacoctelera::token_request::TokenRequestData;
use uuid::Uuid;

#[test]
fn build_author_using_builder() {
    let author = AuthorBuilder::default().build().unwrap();
    assert_eq!(author.id(), None);
    assert_eq!(author.name(), None);
    assert_eq!(author.surname(), None);
    assert_eq!(author.email(), None);
    assert_eq!(author.shareable, Some(false));
    assert_eq!(author.description(), None);
    assert_eq!(author.website(), None);
    assert!(author.social_profiles().is_none());

    let id = Uuid::now_v7().to_string();

    let social_profiles = [
        SocialProfile {
            provider_name: "Facebook".into(),
            website: "a web site".into(),
        },
        SocialProfile {
            provider_name: "Instragram".into(),
            website: "a web site".into(),
        },
    ];

    let author = AuthorBuilder::default()
        .set_id(&id)
        .set_name("Jane")
        .set_surname("Doe")
        .set_email("jane_doe@mail.com")
        .set_description("An unknown person.")
        .set_website("http://janedoe.com")
        .set_shareable(true)
        .set_social_profiles(&social_profiles)
        .build()
        .expect("Failed to build author");

    assert_eq!(author.id().unwrap(), id);
    assert_eq!(author.name().unwrap(), "Jane");
    assert_eq!(author.surname().unwrap(), "Doe");
    assert_eq!(author.email().unwrap(), "jane_doe@mail.com");
    assert_eq!(author.shareable(), true);
    assert_eq!(author.description().unwrap(), "An unknown person.");
    assert_eq!(author.website().unwrap(), "http://janedoe.com");
    assert_eq!(author.social_profiles().unwrap(), &social_profiles);
}

#[test]
fn build_author() {
    let mut author = Author::default();
    assert!(Uuid::parse_str(&author.id().unwrap()).is_ok());
    assert_eq!(author.name(), None);

    assert!(!author.shareable());
    author.enable_sharing();
    assert!(author.shareable());
    author.disable_sharing();
    assert!(!author.shareable());

    let id = Uuid::now_v7().to_string();
    let social_profiles = [
        SocialProfile {
            provider_name: "Facebook".into(),
            website: "a web site".into(),
        },
        SocialProfile {
            provider_name: "Instragram".into(),
            website: "a web site".into(),
        },
    ];

    let author = Author::new(
        Some(id.clone()),
        Some("Jane".to_string()),
        Some("Doe".to_string()),
        Some("jane_doe@mail.com".to_string()),
        Some(true),
        Some("An unknown person.".to_string()),
        Some("http://janedoe.com".to_string()),
        Some(&social_profiles),
    )
    .expect("Failed to create new instance of Author using new.");

    assert_eq!(author.id().unwrap(), id);
    assert_eq!(author.name().unwrap(), "Jane");
    assert_eq!(author.surname().unwrap(), "Doe");
    assert_eq!(author.email().unwrap(), "jane_doe@mail.com");
    assert_eq!(author.shareable(), true);
    assert_eq!(author.description().unwrap(), "An unknown person.");
    assert_eq!(author.website().unwrap(), "http://janedoe.com");
    assert_eq!(author.social_profiles().unwrap(), &social_profiles);
}

#[test]
fn author_id_is_stored_canonically() {
    // A well-formed identifier in the compact uppercase form is accepted and
    // rendered back in the canonical hyphenated lowercase form.
    let author = AuthorBuilder::default()
        .set_id("0191E13B5AB778F1BC06BE503A6C111B")
        .build()
        .expect("a compact identifier must parse");
    assert_eq!(author.id().unwrap(), "0191e13b-5ab7-78f1-bc06-be503a6c111b");
}

#[test]
fn build_author_using_wrong_id() {
    let author = AuthorBuilder::default().set_id("Wrong_ID").build();
    assert!(author.is_err());
    let author = AuthorBuilder::default().set_id("191919-010010-022").build();
    assert!(author.is_err());
}

#[test]
fn build_author_using_wrong_text_length() {
    let author = AuthorBuilder::default().set_name("J").build();
    assert!(author.is_err());

    let author = AuthorBuilder::default().set_surname("D").build();
    assert!(author.is_err());

    let author = AuthorBuilder::default().set_website("janedoe.com").build();
    assert!(author.is_err());

    let author = AuthorBuilder::default()
        .set_email("janedoe<at>mail.com")
        .build();
    assert!(author.is_err());

    let author = AuthorBuilder::default()
        .set_description(&"dummy string".repeat(300))
        .build();
    assert!(author.is_err());
}

#[test]
fn author_errors_tell_bad_id_from_bad_fields() {
    let bad_id = AuthorBuilder::default().set_id("nope").build();
    assert!(matches!(bad_id, Err(DataDomainError::InvalidId)));
    let bad_name = AuthorBuilder::default().set_name("J").build();
    assert!(matches!(bad_name, Err(DataDomainError::InvalidParams)));
    // A bad identifier is reported before any other field is looked at.
    let both = AuthorBuilder::default().set_id("nope").set_name("J").build();
    assert!(matches!(both, Err(DataDomainError::InvalidId)));
}

#[test]
fn mute_fields() {
    let id = Uuid::now_v7().to_string();
    let social_profiles = [
        SocialProfile {
            provider_name: "Facebook".into(),
            website: "a web site".into(),
        },
        SocialProfile {
            provider_name: "Instragram".into(),
            website: "a web site".into(),
        },
    ];
    let mut author = Author::new(
        Some(id.clone()),
        Some("Jane".to_string()),
        Some("Doe".to_string()),
        Some("jane_doe@mail.com".to_string()),
        Some(false),
        Some("An unknown person.".to_string()),
        Some("http://janedoe.com".to_string()),
        Some(&social_profiles),
    )
    .expect("Failed to create new instance of Author using new.");

    author.mute_private_data();

    assert_eq!(author.id().unwrap(), id);
    assert_eq!(author.name().unwrap(), "Jane");
    assert_eq!(author.surname().unwrap(), "Doe");
    assert_eq!(author.email(), None);
    assert_eq!(author.shareable(), false);
    assert_eq!(author.description(), None);
    assert_eq!(author.website().unwrap(), "http://janedoe.com");
    assert_eq!(author.social_profiles().unwrap(), &social_profiles);
}

#[test]
fn modify_from() {
    // Let's build the author under test
    let id = Uuid::now_v7().to_string();
    let name = "Jane";
    let surname = "Doe";
    let email = "jane@mail.com";
    let website = "https://jane.com";
    let description = "A dummy description";
    let profiles = &[SocialProfile {
        provider_name: "None".into(),
        website: "https://none.com/jane".into(),
    }];

    let mut author = AuthorBuilder::default()
        .set_id(&id)
        .set_name(name)
        .set_surname(surname)
        .set_email(email)
        .set_description(description)
        .set_shareable(true)
        .set_website(website)
        .set_social_profiles(profiles)
        .build()
        .expect("Failed to build an author");

    // First test case: modify only some of the attributes.
    let author_dummy = AuthorBuilder::default()
        .set_name("Stripped")
        .set_surname("Zebra")
        .build()
        .expect("Failed to build an author");
    author.update_from(&author_dummy);

    assert_eq!(author.name(), author_dummy.name());
    assert_eq!(author.surname(), author_dummy.surname());
    assert_ne!(author.id(), author_dummy.id());
    assert_ne!(author.email(), author_dummy.email());
    assert_ne!(author.website(), author_dummy.website());
    assert_ne!(author.description(), author_dummy.description());
    assert_ne!(
        author.social_profiles().is_some(),
        author_dummy.social_profiles().is_some()
    );

    // Second test case: modify all the attributes but the ID.
    let name = "Juana";
    let surname = "Cierva";
    let email = "juana@mail.com";
    let website = "https://juana.com";
    let description = "Una descripcion vana";
    let profiles = &[SocialProfile {
        provider_name: "None".into(),
        website: "https://none.com/juana".into(),
    }];

    let author_spa = AuthorBuilder::default()
        .set_id(&id)
        .set_name(name)
        .set_surname(surname)
        .set_email(email)
        .set_description(description)
        .set_shareable(true)
        .set_website(website)
        .set_social_profiles(profiles)
        .build()
        .expect("Failed to build an author");

    author.update_from(&author_spa);

    assert_eq!(author, author_spa);
}

#[test]
fn valid_data_builds() {
    let name = "John Doe";
    let email = "john_doe@mail.com";
    let explanation = "I need access to destroy your DB";

    let valid_token_request = TokenRequestData::new(Some(name), email, explanation);

    assert!(valid_token_request.is_ok());

    let valid = valid_token_request.unwrap();
    assert_eq!(valid.name(), Some(name));
    assert_eq!(valid.email(), email);
    assert_eq!(valid.explanation(), explanation);

    let name = None;

    let valid_token_request = TokenRequestData::new(name, email, explanation);

    assert!(valid_token_request.is_ok());

    let valid = valid_token_request.unwrap();
    assert_eq!(valid.name(), name);
    assert_eq!(valid.email(), email);
    assert_eq!(valid.explanation(), explanation);

    assert_eq!(
        &valid.describe(),
        "Request explanation: \"I need access to destroy your DB\" by john_doe@mail.com"
    );
}

#[test]
fn wrong_data_fails_to_build() {
    let email = "john doe";
    let explanation = "I need access to destroy your DB";

    let valid_token_request = TokenRequestData::new(None, email, explanation);

    assert!(valid_token_request.is_err());

    let email = "johndoe@mail.com";
    let explanation = "Give me";

    let valid_token_request = TokenRequestData::new(None, email, explanation);

    assert!(valid_token_request.is_err());
}
