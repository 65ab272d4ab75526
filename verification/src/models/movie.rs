//! Movie request bodies and list filters.

use crate::text::same_text;
use crate::validation::{
    flag, has_entry, lemma_errors_concat, lemma_rule_errors, parses_as_url, reports,
    check_errors, check_length, check_outcome, check_url, error_views, length_errors, url_errors, Field,
    FieldError, FieldErrorView, Violation,
};
use vstd::prelude::*;

verus! {

/// Body of a movie creation request; every field is required.
#[derive(Debug)]
pub struct CreateMovieInput {
    pub title: String,
    pub description: String,
    pub poster_url: String,
    pub audio_language: String,
    pub country: String,
    pub genre: String,
    pub release_year: i32,
    pub url: String,
}

/// Query parameters of the movie listing.
#[derive(Debug)]
pub struct MovieFilters {
    pub audio_language: Option<String>,
    pub genre: Option<String>,
    pub country: Option<String>,
    pub search: Option<String>,
    pub include_archived: bool,
    pub page: Option<u32>,
    pub page_size: Option<u32>,
}

/// Body of a bulk deletion: the ids of the movies to delete, each held as the
/// 128-bit value of its UUID.
#[derive(Debug)]
pub struct BulkDeleteInput {
    pub ids: Vec<u128>,
}

/// The accepted audio languages: `en`, `es` and `both`.
pub open spec fn is_valid_audio_language(s: Seq<char>) -> bool {
    s == "en"@ || s == "es"@ || s == "both"@
}

/// What the audio-language rule reports for `s`.
pub open spec fn audio_language_outcome(s: Seq<char>) -> Option<Violation> {
    if is_valid_audio_language(s) {
        None
    } else {
        Some(Violation::InvalidAudioLanguage)
    }
}

/// Accepts one of the audio languages.
pub fn validate_audio_language(val: &str) -> (r: Result<(), Violation>)
    ensures
        r is Ok <==> is_valid_audio_language(val@),
        r is Ok <==> (val@ == "en"@ || val@ == "es"@ || val@ == "both"@),
        r is Err ==> r == Err::<(), Violation>(Violation::InvalidAudioLanguage),
{
    if same_text(val, "en") || same_text(val, "es") || same_text(val, "both") {
        Ok(())
    } else {
        Err(Violation::InvalidAudioLanguage)
    }
}

/// Every rule that a movie creation body breaks, field by field in declaration
/// order; the release year has no rule.
pub open spec fn create_movie_errors(i: CreateMovieInput) -> Seq<FieldErrorView> {
    length_errors(Field::Title, i.title@, 1, 255) + length_errors(
        Field::Description,
        i.description@,
        1,
        2000,
    ) + url_errors(Field::PosterUrl, i.poster_url@) + check_errors(
        Field::AudioLanguage,
        i.audio_language@,
        audio_language_outcome(i.audio_language@),
    ) + length_errors(Field::Country, i.country@, 1, 100) + length_errors(
        Field::Genre,
        i.genre@,
        1,
        50,
    ) + url_errors(Field::Url, i.url@)
}

/// A movie creation body is refused for exactly the rules it breaks, each
/// once: a title of 1 to 255 characters, a description of 1 to 2000, a poster
/// URL that parses, an audio language among `en`, `es`, `both`, a country of 1
/// to 100 characters, a genre of 1 to 50, and a URL that parses (the release
/// year has no rule). A field has an error exactly when it breaks its rule,
/// that error names the rule and the field's value, and there are no others.
pub proof fn law_create_movie_reports_broken_rules(i: CreateMovieInput)
    ensures
        ({
            let e = create_movie_errors(i);
            let title_bad = !(1 <= i.title@.len() <= 255);
            let description_bad = !(1 <= i.description@.len() <= 2000);
            let poster_url_bad = !parses_as_url(i.poster_url@);
            let audio_language_bad = !(i.audio_language@ == "en"@ || i.audio_language@ == "es"@ || i.audio_language@ == "both"@);
            let country_bad = !(1 <= i.country@.len() <= 100);
            let genre_bad = !(1 <= i.genre@.len() <= 50);
            let url_bad = !parses_as_url(i.url@);
            &&& reports(e, Field::Title) <==> title_bad
            &&& reports(e, Field::Description) <==> description_bad
            &&& reports(e, Field::PosterUrl) <==> poster_url_bad
            &&& reports(e, Field::AudioLanguage) <==> audio_language_bad
            &&& reports(e, Field::Country) <==> country_bad
            &&& reports(e, Field::Genre) <==> genre_bad
            &&& reports(e, Field::Url) <==> url_bad
            &&& title_bad ==> has_entry(e, Field::Title, Violation::Length { min: 1, max: 255 }, i.title@)
            &&& description_bad ==> has_entry(e, Field::Description, Violation::Length { min: 1, max: 2000 }, i.description@)
            &&& poster_url_bad ==> has_entry(e, Field::PosterUrl, Violation::Url, i.poster_url@)
            &&& audio_language_bad ==> has_entry(e, Field::AudioLanguage, Violation::InvalidAudioLanguage, i.audio_language@)
            &&& country_bad ==> has_entry(e, Field::Country, Violation::Length { min: 1, max: 100 }, i.country@)
            &&& genre_bad ==> has_entry(e, Field::Genre, Violation::Length { min: 1, max: 50 }, i.genre@)
            &&& url_bad ==> has_entry(e, Field::Url, Violation::Url, i.url@)
            &&& e.len() == flag(title_bad) + flag(description_bad) + flag(poster_url_bad) + flag(audio_language_bad) + flag(country_bad) + flag(genre_bad) + flag(url_bad)
        }),
{
    let b0 = !(1 <= i.title@.len() <= 255);
    let x0 = i.title@;
    let p0 = length_errors(Field::Title, i.title@, 1, 255);
    lemma_rule_errors(p0, Field::Title, Violation::Length { min: 1, max: 255 }, x0, b0);
    let b1 = !(1 <= i.description@.len() <= 2000);
    let x1 = i.description@;
    let p1 = length_errors(Field::Description, i.description@, 1, 2000);
    lemma_rule_errors(p1, Field::Description, Violation::Length { min: 1, max: 2000 }, x1, b1);
    let b2 = !parses_as_url(i.poster_url@);
    let x2 = i.poster_url@;
    let p2 = url_errors(Field::PosterUrl, i.poster_url@);
    lemma_rule_errors(p2, Field::PosterUrl, Violation::Url, x2, b2);
    let b3 = !(i.audio_language@ == "en"@ || i.audio_language@ == "es"@ || i.audio_language@ == "both"@);
    let x3 = i.audio_language@;
    let p3 = check_errors(Field::AudioLanguage, i.audio_language@, audio_language_outcome(i.audio_language@));
    lemma_rule_errors(p3, Field::AudioLanguage, Violation::InvalidAudioLanguage, x3, b3);
    let b4 = !(1 <= i.country@.len() <= 100);
    let x4 = i.country@;
    let p4 = length_errors(Field::Country, i.country@, 1, 100);
    lemma_rule_errors(p4, Field::Country, Violation::Length { min: 1, max: 100 }, x4, b4);
    let b5 = !(1 <= i.genre@.len() <= 50);
    let x5 = i.genre@;
    let p5 = length_errors(Field::Genre, i.genre@, 1, 50);
    lemma_rule_errors(p5, Field::Genre, Violation::Length { min: 1, max: 50 }, x5, b5);
    let b6 = !parses_as_url(i.url@);
    let x6 = i.url@;
    let p6 = url_errors(Field::Url, i.url@);
    lemma_rule_errors(p6, Field::Url, Violation::Url, x6, b6);
    lemma_errors_concat(p0, p1, Field::Title, Violation::Length { min: 1, max: 255 }, x0);
    lemma_errors_concat(p0, p1, Field::Description, Violation::Length { min: 1, max: 2000 }, x1);
    lemma_errors_concat(p0, p1, Field::PosterUrl, Violation::Url, x2);
    lemma_errors_concat(p0, p1, Field::AudioLanguage, Violation::InvalidAudioLanguage, x3);
    lemma_errors_concat(p0, p1, Field::Country, Violation::Length { min: 1, max: 100 }, x4);
    lemma_errors_concat(p0, p1, Field::Genre, Violation::Length { min: 1, max: 50 }, x5);
    lemma_errors_concat(p0, p1, Field::Url, Violation::Url, x6);
    lemma_errors_concat(p0 + p1, p2, Field::Title, Violation::Length { min: 1, max: 255 }, x0);
    lemma_errors_concat(p0 + p1, p2, Field::Description, Violation::Length { min: 1, max: 2000 }, x1);
    lemma_errors_concat(p0 + p1, p2, Field::PosterUrl, Violation::Url, x2);
    lemma_errors_concat(p0 + p1, p2, Field::AudioLanguage, Violation::InvalidAudioLanguage, x3);
    lemma_errors_concat(p0 + p1, p2, Field::Country, Violation::Length { min: 1, max: 100 }, x4);
    lemma_errors_concat(p0 + p1, p2, Field::Genre, Violation::Length { min: 1, max: 50 }, x5);
    lemma_errors_concat(p0 + p1, p2, Field::Url, Violation::Url, x6);
    lemma_errors_concat(p0 + p1 + p2, p3, Field::Title, Violation::Length { min: 1, max: 255 }, x0);
    lemma_errors_concat(p0 + p1 + p2, p3, Field::Description, Violation::Length { min: 1, max: 2000 }, x1);
    lemma_errors_concat(p0 + p1 + p2, p3, Field::PosterUrl, Violation::Url, x2);
    lemma_errors_concat(p0 + p1 + p2, p3, Field::AudioLanguage, Violation::InvalidAudioLanguage, x3);
    lemma_errors_concat(p0 + p1 + p2, p3, Field::Country, Violation::Length { min: 1, max: 100 }, x4);
    lemma_errors_concat(p0 + p1 + p2, p3, Field::Genre, Violation::Length { min: 1, max: 50 }, x5);
    lemma_errors_concat(p0 + p1 + p2, p3, Field::Url, Violation::Url, x6);
    lemma_errors_concat(p0 + p1 + p2 + p3, p4, Field::Title, Violation::Length { min: 1, max: 255 }, x0);
    lemma_errors_concat(p0 + p1 + p2 + p3, p4, Field::Description, Violation::Length { min: 1, max: 2000 }, x1);
    lemma_errors_concat(p0 + p1 + p2 + p3, p4, Field::PosterUrl, Violation::Url, x2);
    lemma_errors_concat(p0 + p1 + p2 + p3, p4, Field::AudioLanguage, Violation::InvalidAudioLanguage, x3);
    lemma_errors_concat(p0 + p1 + p2 + p3, p4, Field::Country, Violation::Length { min: 1, max: 100 }, x4);
    lemma_errors_concat(p0 + p1 + p2 + p3, p4, Field::Genre, Violation::Length { min: 1, max: 50 }, x5);
    lemma_errors_concat(p0 + p1 + p2 + p3, p4, Field::Url, Violation::Url, x6);
    lemma_errors_concat(p0 + p1 + p2 + p3 + p4, p5, Field::Title, Violation::Length { min: 1, max: 255 }, x0);
    lemma_errors_concat(p0 + p1 + p2 + p3 + p4, p5, Field::Description, Violation::Length { min: 1, max: 2000 }, x1);
    lemma_errors_concat(p0 + p1 + p2 + p3 + p4, p5, Field::PosterUrl, Violation::Url, x2);
    lemma_errors_concat(p0 + p1 + p2 + p3 + p4, p5, Field::AudioLanguage, Violation::InvalidAudioLanguage, x3);
    lemma_errors_concat(p0 + p1 + p2 + p3 + p4, p5, Field::Country, Violation::Length { min: 1, max: 100 }, x4);
    lemma_errors_concat(p0 + p1 + p2 + p3 + p4, p5, Field::Genre, Violation::Length { min: 1, max: 50 }, x5);
    lemma_errors_concat(p0 + p1 + p2 + p3 + p4, p5, Field::Url, Violation::Url, x6);
    lemma_errors_concat(p0 + p1 + p2 + p3 + p4 + p5, p6, Field::Title, Violation::Length { min: 1, max: 255 }, x0);
    lemma_errors_concat(p0 + p1 + p2 + p3 + p4 + p5, p6, Field::Description, Violation::Length { min: 1, max: 2000 }, x1);
    lemma_errors_concat(p0 + p1 + p2 + p3 + p4 + p5, p6, Field::PosterUrl, Violation::Url, x2);
    lemma_errors_concat(p0 + p1 + p2 + p3 + p4 + p5, p6, Field::AudioLanguage, Violation::InvalidAudioLanguage, x3);
    lemma_errors_concat(p0 + p1 + p2 + p3 + p4 + p5, p6, Field::Country, Violation::Length { min: 1, max: 100 }, x4);
    lemma_errors_concat(p0 + p1 + p2 + p3 + p4 + p5, p6, Field::Genre, Violation::Length { min: 1, max: 50 }, x5);
    lemma_errors_concat(p0 + p1 + p2 + p3 + p4 + p5, p6, Field::Url, Violation::Url, x6);
    assert(create_movie_errors(i) == p0 + p1 + p2 + p3 + p4 + p5 + p6);
}

impl CreateMovieInput {
    /// Checks every field rule; on failure returns each broken rule, in field order.
    pub fn validate(&self) -> (r: Result<(), Vec<FieldError>>)
        ensures
            r is Ok <==> create_movie_errors(*self).len() == 0,
            r matches Err(es) ==> error_views(es@) == create_movie_errors(*self),
    {
        let mut errors: Vec<FieldError> = Vec::new();
        check_length(&mut errors, Field::Title, &self.title, 1, 255);
        check_length(&mut errors, Field::Description, &self.description, 1, 2000);
        check_url(&mut errors, Field::PosterUrl, &self.poster_url);
        check_outcome(
            &mut errors,
            Field::AudioLanguage,
            &self.audio_language,
            validate_audio_language(self.audio_language.as_str()),
        );
        check_length(&mut errors, Field::Country, &self.country, 1, 100);
        check_length(&mut errors, Field::Genre, &self.genre, 1, 50);
        check_url(&mut errors, Field::Url, &self.url);
        assert(error_views(Seq::<FieldError>::empty()) =~= Seq::<FieldErrorView>::empty());
        assert(error_views(errors@) =~= create_movie_errors(*self));
        if errors.len() == 0 {
            Ok(())
        } else {
            Err(errors)
        }
    }
}

} // verus!
