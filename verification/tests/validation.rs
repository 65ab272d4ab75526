use hablemos_backend::models::movie::{validate_audio_language, CreateMovieInput};
use hablemos_backend::models::podcast::{
    validate_language, validate_language_opt, validate_level, validate_level_opt, CreatePodcastInput,
    UpdatePodcastInput,
};
use hablemos_backend::validation::{Field, Violation};

fn s(x: &str) -> String {
    x.to_string()
}

fn valid_podcast() -> CreatePodcastInput {
    CreatePodcastInput {
        title: s("New Pod"),
        description: s("A brand new podcast"),
        image_url: s("https://img.example.com/new.jpg"),
        language: s("en"),
        level: s("advanced"),
        country: s("Spain"),
        topic: s("culture"),
        url: s("https://example.com/new"),
    }
}

fn empty_update() -> UpdatePodcastInput {
    UpdatePodcastInput {
        title: None,
        description: None,
        image_url: None,
        language: None,
        level: None,
        country: None,
        topic: None,
        url: None,
    }
}

#[test]
fn languages_are_en_es_both() {
    assert!(validate_language("en").is_ok());
    assert!(validate_language("es").is_ok());
    assert!(validate_language("both").is_ok());
    assert_eq!(validate_language("fr"), Err(Violation::InvalidLanguage));
    assert_eq!(validate_language("EN"), Err(Violation::InvalidLanguage));
    assert_eq!(validate_language(""), Err(Violation::InvalidLanguage));
    assert_eq!(validate_language_opt("both"), Ok(()));
    assert_eq!(validate_language_opt("invalid"), Err(Violation::InvalidLanguage));
}

#[test]
fn levels_are_the_three_named() {
    assert!(validate_level("beginner").is_ok());
    assert!(validate_level("intermediate").is_ok());
    assert!(validate_level("advanced").is_ok());
    assert_eq!(validate_level("expert"), Err(Violation::InvalidLevel));
    assert_eq!(validate_level_opt("advanced"), Ok(()));
    assert_eq!(validate_level_opt("beginners"), Err(Violation::InvalidLevel));
}

#[test]
fn audio_languages_are_en_es_both() {
    assert!(validate_audio_language("es").is_ok());
    assert_eq!(validate_audio_language("invalid"), Err(Violation::InvalidAudioLanguage));
}

#[test]
fn violation_codes() {
    assert_eq!(Violation::Length { min: 1, max: 255 }.code(), "length");
    assert_eq!(Violation::Url.code(), "url");
    assert_eq!(Violation::InvalidLanguage.code(), "invalid_language");
    assert_eq!(Violation::InvalidLevel.code(), "invalid_level");
    assert_eq!(Violation::InvalidAudioLanguage.code(), "invalid_audio_language");
    assert_eq!(Field::ImageUrl.name(), "image_url");
    assert_eq!(Field::AudioLanguage.name(), "audio_language");
}

#[test]
fn create_podcast_accepts_valid_body() {
    assert!(valid_podcast().validate().is_ok());
}

#[test]
fn create_podcast_reports_each_broken_rule_in_field_order() {
    let input = CreatePodcastInput {
        title: s(""),
        description: s("ok"),
        image_url: s("not-a-url"),
        language: s("invalid"),
        level: s("beginner"),
        country: s("Mexico"),
        topic: s("grammar"),
        url: s("https://example.com"),
    };
    let errors = input.validate().unwrap_err();
    assert_eq!(errors.len(), 3);
    assert_eq!(errors[0].field, Field::Title);
    assert_eq!(errors[0].violation, Violation::Length { min: 1, max: 255 });
    assert_eq!(errors[0].value, "");
    assert_eq!(errors[1].field, Field::ImageUrl);
    assert_eq!(errors[1].violation, Violation::Url);
    assert_eq!(errors[1].value, "not-a-url");
    assert_eq!(errors[2].field, Field::Language);
    assert_eq!(errors[2].violation, Violation::InvalidLanguage);
    assert_eq!(errors[2].value, "invalid");
}

#[test]
fn length_limits_count_characters() {
    let mut input = valid_podcast();
    input.title = "é".repeat(255);
    assert!(input.validate().is_ok());
    input.title = "é".repeat(256);
    let errors = input.validate().unwrap_err();
    assert_eq!(errors.len(), 1);
    assert_eq!(errors[0].violation, Violation::Length { min: 1, max: 255 });
    let mut input = valid_podcast();
    input.description = "d".repeat(1001);
    input.country = "c".repeat(101);
    input.topic = "t".repeat(100);
    let errors = input.validate().unwrap_err();
    assert_eq!(errors.len(), 2);
    assert_eq!(errors[0].field, Field::Description);
    assert_eq!(errors[0].violation, Violation::Length { min: 1, max: 1000 });
    assert_eq!(errors[1].field, Field::Country);
}

#[test]
fn update_checks_only_present_fields() {
    assert!(empty_update().validate().is_ok());
    let mut u = empty_update();
    u.title = Some(s("Updated Title"));
    assert!(u.validate().is_ok());
    let mut u = empty_update();
    u.level = Some(s("expert"));
    u.url = Some(s("nope"));
    u.title = Some(s(""));
    let errors = u.validate().unwrap_err();
    assert_eq!(errors.len(), 3);
    assert_eq!(errors[0].field, Field::Title);
    assert_eq!(errors[1].field, Field::Level);
    assert_eq!(errors[1].violation, Violation::InvalidLevel);
    assert_eq!(errors[1].value, "expert");
    assert_eq!(errors[2].field, Field::Url);
    assert_eq!(errors[2].violation, Violation::Url);
}

#[test]
fn update_rules_match_creation_rules() {
    let c = CreatePodcastInput {
        title: s(""),
        description: s("x"),
        image_url: s("bad"),
        language: s("de"),
        level: s("beginner"),
        country: s(""),
        topic: s("t"),
        url: s("https://example.com"),
    };
    let u = UpdatePodcastInput {
        title: Some(c.title.clone()),
        description: Some(c.description.clone()),
        image_url: Some(c.image_url.clone()),
        language: Some(c.language.clone()),
        level: Some(c.level.clone()),
        country: Some(c.country.clone()),
        topic: Some(c.topic.clone()),
        url: Some(c.url.clone()),
    };
    let a = c.validate().unwrap_err();
    let b = u.validate().unwrap_err();
    assert_eq!(a.len(), b.len());
    for (x, y) in a.iter().zip(b.iter()) {
        assert_eq!(x.field, y.field);
        assert_eq!(x.violation, y.violation);
        assert_eq!(x.value, y.value);
    }
}

#[test]
fn create_movie_accepts_valid_body() {
    let input = CreateMovieInput {
        title: s("New Movie"),
        description: s("A brand new movie"),
        poster_url: s("https://img.example.com/new.jpg"),
        audio_language: s("es"),
        country: s("Spain"),
        genre: s("Comedy"),
        release_year: 2023,
        url: s("https://example.com/new-movie"),
    };
    assert!(input.validate().is_ok());
}

#[test]
fn create_movie_reports_broken_rules() {
    let input = CreateMovieInput {
        title: s(""),
        description: s("ok"),
        poster_url: s("not-a-url"),
        audio_language: s("invalid"),
        country: s("Mexico"),
        genre: s("g".repeat(51).as_str()),
        release_year: 2020,
        url: s("https://example.com"),
    };
    let errors = input.validate().unwrap_err();
    assert_eq!(errors.len(), 4);
    assert_eq!(errors[0].field, Field::Title);
    assert_eq!(errors[1].field, Field::PosterUrl);
    assert_eq!(errors[2].field, Field::AudioLanguage);
    assert_eq!(errors[2].violation, Violation::InvalidAudioLanguage);
    assert_eq!(errors[3].field, Field::Genre);
    assert_eq!(errors[3].violation, Violation::Length { min: 1, max: 50 });
}
