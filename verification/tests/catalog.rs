//! Tests of the catalog's small domain types: categories, ratings, units,
//! tags, settings and query helpers.

use lacoctelera::config::{ApplicationSettings, LogSettings, VerbosityLevel};
use lacoctelera::errors::DataDomainError;
use lacoctelera::ingredient::{IngCategory, Ingredient};
use lacoctelera::query::{extract_profile_account, AuthorQueryParams, FormData, QueryData};
use lacoctelera::recipe::{
    multiple_choices, stepize, QuantityUnit, RecipeCategory, RecipeQuery, StarRate,
};
use lacoctelera::tag::Tag;

#[test]
fn ingredient_categories_render_and_parse() {
    assert_eq!(IngCategory::Bitter.to_str(), "bitter");
    assert_eq!(IngCategory::Garnish.to_str(), "garnish");
    assert_eq!(IngCategory::SoftDrink.to_str(), "soft_drink");
    assert_eq!(IngCategory::Spirit.to_str(), "spirit");
    assert_eq!(IngCategory::Other.to_str(), "other");

    assert_eq!(IngCategory::parse("spirit").unwrap(), IngCategory::Spirit);
    assert_eq!(IngCategory::parse("Spirit").unwrap(), IngCategory::Spirit);
    assert_eq!(IngCategory::parse("soft_drink").unwrap(), IngCategory::SoftDrink);
    assert!(matches!(
        IngCategory::parse("lemonade"),
        Err(DataDomainError::InvalidFormData)
    ));
}

#[test]
fn convert_names_to_ingredients() {
    let cases: [(&str, bool); 9] = [
        ("vodka", true),
        ("white rum", true),
        ("vodka 80", true),
        ("liquor 20%", true),
        ("liquor 40% coconut", true),
        ("my new fancy rum 100", true),
        ("<insert>", false),
        ("name;`another string`", false),
        ("very long text string should not be accepted", false),
    ];
    for (input, expected) in cases {
        assert_eq!(
            Ingredient::parse(None, input, "spirit", None).is_ok(),
            expected,
            "name: {input}"
        );
    }
}

#[test]
fn ingredient_parse_and_getters() {
    let mut ing = Ingredient::parse(None, "white rum", "spirit", Some("A light rum.")).unwrap();
    assert_eq!(ing.name(), "white rum");
    assert_eq!(ing.category(), IngCategory::Spirit);
    assert_eq!(ing.desc(), Some("A light rum."));
    assert!(ing.id().is_none());
    assert!(ing.set_id("0191E13B5AB778F1BC06BE503A6C111B").is_ok());
    assert_eq!(ing.id().unwrap(), "0191e13b-5ab7-78f1-bc06-be503a6c111b");

    assert!(matches!(
        Ingredient::parse(Some("nope"), "vodka", "spirit", None),
        Err(DataDomainError::InvalidId)
    ));
    assert!(matches!(
        Ingredient::parse(None, "vodka", "lemonade", None),
        Err(DataDomainError::InvalidFormData)
    ));
    let long_desc = "x".repeat(256);
    assert!(Ingredient::parse(None, "vodka", "spirit", Some(&long_desc)).is_err());

    // Equality ignores the identifier.
    let plain = Ingredient::parse(None, "vodka", "spirit", None).unwrap();
    let mut stored = Ingredient::parse(None, "vodka", "spirit", None).unwrap();
    stored.set_id("0191E13B5AB778F1BC06BE503A6C111B").unwrap();
    assert_eq!(plain, stored);
}

#[test]
fn star_rates_render() {
    assert_eq!(StarRate::Null.to_str(), "0");
    assert_eq!(StarRate::Five.to_str(), "5");
    assert_eq!(StarRate::Null.to_u8(), 0);
    assert_eq!(StarRate::One.to_u8(), 1);
    assert_eq!(StarRate::Five.to_u8(), 5);
}

#[test]
fn recipe_categories_render_and_parse() {
    assert_eq!(RecipeCategory::Easy.to_str(), "easy");
    assert_eq!(RecipeCategory::Pro.to_str(), "pro");
    assert_eq!(RecipeCategory::parse("medium").unwrap(), RecipeCategory::Medium);
    assert_eq!(RecipeCategory::parse("advanced").unwrap(), RecipeCategory::Advanced);
    assert!(matches!(
        RecipeCategory::parse("Medium"),
        Err(DataDomainError::InvalidRecipeCategory)
    ));
}

#[test]
fn quantity_units_render_and_parse() {
    assert_eq!(QuantityUnit::Grams.to_str(), "g");
    assert_eq!(QuantityUnit::Ounces.to_str(), "oz");
    assert_eq!(QuantityUnit::TeaSpoon.to_str(), "tsp");
    assert_eq!(QuantityUnit::parse("ml").unwrap(), QuantityUnit::MilliLiter);
    assert_eq!(QuantityUnit::parse("cup").unwrap(), QuantityUnit::Cups);
    assert!(matches!(
        QuantityUnit::parse("barrel"),
        Err(DataDomainError::InvalidFormData)
    ));
}

#[test]
fn search_combinations_are_detected() {
    let query = RecipeQuery { name: None, tags: None, rating: None, category: None };
    assert!(!multiple_choices(&query));

    let query = RecipeQuery {
        name: Some("daiquiri".to_string()),
        tags: None,
        rating: None,
        category: None,
    };
    assert!(!multiple_choices(&query));

    let query = RecipeQuery {
        name: Some("daiquiri".to_string()),
        tags: Some("rum".to_string()),
        rating: None,
        category: None,
    };
    assert!(multiple_choices(&query));

    let query = RecipeQuery {
        name: None,
        tags: None,
        rating: Some(StarRate::Three),
        category: Some(RecipeCategory::Easy),
    };
    assert!(multiple_choices(&query));
}

#[test]
fn steps_are_split_on_the_separator() {
    assert_eq!(stepize("ab/ncd/nef"), vec!["ab", "cd", "ef"]);
    assert_eq!(stepize("abc"), vec!["abc"]);
    assert_eq!(stepize(""), vec![""]);
    assert_eq!(stepize("shake/n"), vec!["shake", ""]);
    assert_eq!(stepize("a//nn"), vec!["a/", "n"]);
    assert_eq!(stepize("/n/n"), vec!["", "", ""]);
}

#[test]
fn wrong_string_fail_to_build_a_tag() {
    assert!(Tag::new("A(tag)").is_err());
    assert!(Tag::new("").is_err());
    assert!(Tag::new("Averylongtagnamethatshallprovokeanerror").is_err());
    assert!(Tag::new("end9").is_err());
}

#[test]
fn valid_string_succeed_to_build_a_tag() {
    assert!(Tag::new("A_tag").is_ok());
    assert!(Tag::new("Ta").is_ok());
    assert!(Tag::new("customTag").is_ok());
}

#[test]
fn tags_get_converted_to_lowercase() {
    assert_eq!(
        Tag::new("customTag").expect("Failed to build a tag").identifier,
        "customtag"
    );
    assert_eq!(
        Tag::new("ALLCAPITALLETTERSTAG").expect("Failed to build a tag").identifier,
        "allcapitalletterstag"
    );
}

#[test]
fn verbosity_levels_translate() {
    let settings = LogSettings {
        tracing_level: "debug".to_string(),
        log_output_file: "app.log".to_string(),
        enable_console_log: None,
        console_tracing_level: None,
    };
    assert_eq!(settings.get_verbosity_level(), VerbosityLevel::Debug);
    assert_eq!(settings.get_console_tracing_level(), VerbosityLevel::Warn);
    assert!(!settings.console_log_enabled());

    let settings = LogSettings {
        tracing_level: "err".to_string(),
        log_output_file: "app.log".to_string(),
        enable_console_log: Some(true),
        console_tracing_level: Some("trace".to_string()),
    };
    assert_eq!(settings.get_verbosity_level(), VerbosityLevel::Error);
    assert_eq!(settings.get_console_tracing_level(), VerbosityLevel::Trace);
    assert!(settings.console_log_enabled());

    let settings = LogSettings {
        tracing_level: "chatty".to_string(),
        log_output_file: "app.log".to_string(),
        enable_console_log: Some(false),
        console_tracing_level: Some("info".to_string()),
    };
    assert_eq!(settings.get_verbosity_level(), VerbosityLevel::Warn);
    assert_eq!(settings.get_console_tracing_level(), VerbosityLevel::Info);
    assert!(!settings.console_log_enabled());
}

#[test]
fn application_settings_hold_their_values() {
    let settings = ApplicationSettings {
        port: 9090,
        host: "127.0.0.1".to_string(),
        base_url: "http://127.0.0.1".to_string(),
        log_settings: LogSettings {
            tracing_level: "info".to_string(),
            log_output_file: "app.log".to_string(),
            enable_console_log: None,
            console_tracing_level: None,
        },
    };
    assert_eq!(settings.port, 9090);
    assert_eq!(settings.host, "127.0.0.1");
    assert_eq!(settings.log_settings.get_verbosity_level(), VerbosityLevel::Info);
}

#[test]
fn search_token_picks_the_highest_priority() {
    let params = AuthorQueryParams {
        name: Some("Jane".to_string()),
        surname: Some("Doe".to_string()),
        email: Some("jane@mail.com".to_string()),
    };
    assert_eq!(params.search_token().unwrap(), ("email", "jane@mail.com"));

    let params = AuthorQueryParams {
        name: Some("Jane".to_string()),
        surname: Some("Doe".to_string()),
        email: None,
    };
    assert_eq!(params.search_token().unwrap(), ("name", "Jane"));

    let params = AuthorQueryParams {
        name: None,
        surname: Some("Doe".to_string()),
        email: None,
    };
    assert_eq!(params.search_token().unwrap(), ("surname", "Doe"));

    let params = AuthorQueryParams { name: None, surname: None, email: None };
    assert!(matches!(
        params.search_token(),
        Err(DataDomainError::InvalidSearch)
    ));
}

#[test]
fn profile_accounts_are_extracted() {
    assert_eq!(extract_profile_account("https://none.com/jane"), "jane");
    assert_eq!(extract_profile_account("plainname"), "plainname");
    assert_eq!(extract_profile_account("a/b/"), "");
    assert_eq!(extract_profile_account(""), "");
}

#[test]
fn query_payloads_hold_their_values() {
    let query = QueryData { name: "vodka".to_string() };
    assert_eq!(query.name, "vodka");

    let form = FormData {
        name: "vodka".to_string(),
        category: "spirit".to_string(),
        desc: None,
    };
    assert_eq!(form.name, "vodka");
    assert_eq!(form.category, "spirit");
    assert!(form.desc.is_none());
}
