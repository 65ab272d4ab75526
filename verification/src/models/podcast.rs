//! Podcast request bodies, list filters and pagination metadata.

use crate::text::{opt_view, same_text};
use crate::validation::{
    flag, has_entry, lemma_errors_concat, lemma_rule_errors, parses_as_url, reports,
    check_errors, check_length, check_outcome, check_url, error_views, length_errors, url_errors, Field,
    FieldError, FieldErrorView, Violation,
};
use vstd::prelude::*;

verus! {

/// Body of a podcast creation request; every field is required.
#[derive(Debug)]
pub struct CreatePodcastInput {
    pub title: String,
    pub description: String,
    pub image_url: String,
    pub language: String,
    pub level: String,
    pub country: String,
    pub topic: String,
    pub url: String,
}

/// Body of a partial podcast update; a field left out stays as it is.
#[derive(Debug)]
pub struct UpdatePodcastInput {
    pub title: Option<String>,
    pub description: Option<String>,
    pub image_url: Option<String>,
    pub language: Option<String>,
    pub level: Option<String>,
    pub country: Option<String>,
    pub topic: Option<String>,
    pub url: Option<String>,
}

/// Query parameters of the podcast listing.
#[derive(Debug)]
pub struct PodcastFilters {
    pub language: Option<String>,
    pub level: Option<String>,
    pub country: Option<String>,
    pub topic: Option<String>,
    pub include_archived: bool,
    pub page: Option<u32>,
    pub page_size: Option<u32>,
}

/// The pagination block of a listing response.
#[derive(Debug, Clone, Copy, PartialEq, Eq, Structural)]
pub struct PaginationMeta {
    pub total_count: i64,
    pub total_pages: i64,
    pub current_page: i64,
}

/// The accepted podcast languages: `en`, `es` and `both`.
pub open spec fn is_valid_language(s: Seq<char>) -> bool {
    s == "en"@ || s == "es"@ || s == "both"@
}

/// The accepted podcast levels: `beginner`, `intermediate` and `advanced`.
pub open spec fn is_valid_level(s: Seq<char>) -> bool {
    s == "beginner"@ || s == "intermediate"@ || s == "advanced"@
}

/// What the language rule reports for `s`.
pub open spec fn language_outcome(s: Seq<char>) -> Option<Violation> {
    if is_valid_language(s) {
        None
    } else {
        Some(Violation::InvalidLanguage)
    }
}

/// What the level rule reports for `s`.
pub open spec fn level_outcome(s: Seq<char>) -> Option<Violation> {
    if is_valid_level(s) {
        None
    } else {
        Some(Violation::InvalidLevel)
    }
}

/// Accepts one of the podcast languages.
pub fn validate_language(val: &str) -> (r: Result<(), Violation>)
    ensures
        r is Ok <==> is_valid_language(val@),
        r is Ok <==> (val@ == "en"@ || val@ == "es"@ || val@ == "both"@),
        r is Err ==> r == Err::<(), Violation>(Violation::InvalidLanguage),
{
    if same_text(val, "en") || same_text(val, "es") || same_text(val, "both") {
        Ok(())
    } else {
        Err(Violation::InvalidLanguage)
    }
}

/// Accepts one of the podcast levels.
pub fn validate_level(val: &str) -> (r: Result<(), Violation>)
    ensures
        r is Ok <==> is_valid_level(val@),
        r is Ok <==> (val@ == "beginner"@ || val@ == "intermediate"@ || val@ == "advanced"@),
        r is Err ==> r == Err::<(), Violation>(Violation::InvalidLevel),
{
    if same_text(val, "beginner") || same_text(val, "intermediate") || same_text(val, "advanced") {
        Ok(())
    } else {
        Err(Violation::InvalidLevel)
    }
}

/// The language rule of an update, applied to a language that is present.
pub fn validate_language_opt(val: &str) -> (r: Result<(), Violation>)
    ensures
        r is Ok <==> is_valid_language(val@),
        r is Ok <==> (val@ == "en"@ || val@ == "es"@ || val@ == "both"@),
        r is Err ==> r == Err::<(), Violation>(Violation::InvalidLanguage),
{
    validate_language(val)
}

/// The level rule of an update, applied to a level that is present.
pub fn validate_level_opt(val: &str) -> (r: Result<(), Violation>)
    ensures
        r is Ok <==> is_valid_level(val@),
        r is Ok <==> (val@ == "beginner"@ || val@ == "intermediate"@ || val@ == "advanced"@),
        r is Err ==> r == Err::<(), Violation>(Violation::InvalidLevel),
{
    validate_level(val)
}

/// The errors of a length rule on an optional field (none when it is absent).
pub open spec fn opt_length_errors(field: Field, value: Option<Seq<char>>, min: u64, max: u64) -> Seq<
    FieldErrorView,
> {
    match value {
        Some(v) => length_errors(field, v, min, max),
        None => Seq::empty(),
    }
}

/// The errors of the URL rule on an optional field.
pub open spec fn opt_url_errors(field: Field, value: Option<Seq<char>>) -> Seq<FieldErrorView> {
    match value {
        Some(v) => url_errors(field, v),
        None => Seq::empty(),
    }
}

/// The errors of a choice rule on an optional field.
pub open spec fn opt_check_errors(
    field: Field,
    value: Option<Seq<char>>,
    outcome: spec_fn(Seq<char>) -> Option<Violation>,
) -> Seq<FieldErrorView> {
    match value {
        Some(v) => check_errors(field, v, outcome(v)),
        None => Seq::empty(),
    }
}

/// Every rule that a creation body breaks, field by field in declaration order.
pub open spec fn create_podcast_errors(i: CreatePodcastInput) -> Seq<FieldErrorView> {
    length_errors(Field::Title, i.title@, 1, 255) + length_errors(
        Field::Description,
        i.description@,
        1,
        1000,
    ) + url_errors(Field::ImageUrl, i.image_url@) + check_errors(
        Field::Language,
        i.language@,
        language_outcome(i.language@),
    ) + check_errors(Field::Level, i.level@, level_outcome(i.level@)) + length_errors(
        Field::Country,
        i.country@,
        1,
        100,
    ) + length_errors(Field::Topic, i.topic@, 1, 100) + url_errors(Field::Url, i.url@)
}

/// Every rule that an update body breaks; absent fields break none.
pub open spec fn update_podcast_errors(i: UpdatePodcastInput) -> Seq<FieldErrorView> {
    opt_length_errors(Field::Title, opt_view(i.title), 1, 255) + opt_length_errors(
        Field::Description,
        opt_view(i.description),
        1,
        1000,
    ) + opt_url_errors(Field::ImageUrl, opt_view(i.image_url)) + opt_check_errors(
        Field::Language,
        opt_view(i.language),
        |s: Seq<char>| language_outcome(s),
    ) + opt_check_errors(Field::Level, opt_view(i.level), |s: Seq<char>| level_outcome(s))
        + opt_length_errors(Field::Country, opt_view(i.country), 1, 100) + opt_length_errors(
        Field::Topic,
        opt_view(i.topic),
        1,
        100,
    ) + opt_url_errors(Field::Url, opt_view(i.url))
}

/// An update that gives every field is held to exactly the rules of creation:
/// it breaks the same rules, with the same values, in the same order.
pub proof fn law_full_update_has_creation_rules(c: CreatePodcastInput, u: UpdatePodcastInput)
    requires
        opt_view(u.title) == Some(c.title@),
        opt_view(u.description) == Some(c.description@),
        opt_view(u.image_url) == Some(c.image_url@),
        opt_view(u.language) == Some(c.language@),
        opt_view(u.level) == Some(c.level@),
        opt_view(u.country) == Some(c.country@),
        opt_view(u.topic) == Some(c.topic@),
        opt_view(u.url) == Some(c.url@),
    ensures
        update_podcast_errors(u) == create_podcast_errors(c),
{
}

/// A podcast creation body is refused for exactly the rules it breaks, each
/// once: a title of 1 to 255 characters, a description of 1 to 1000, an image
/// URL that parses, a language among `en`, `es`, `both`, a level among
/// `beginner`, `intermediate`, `advanced`, a country and a topic of 1 to 100
/// characters, and a URL that parses. A field has an error exactly when it
/// breaks its rule, that error names the rule and the field's value, and there
/// are no other errors.
pub proof fn law_create_podcast_reports_broken_rules(i: CreatePodcastInput)
    ensures
        ({
            let e = create_podcast_errors(i);
            let title_bad = !(1 <= i.title@.len() <= 255);
            let description_bad = !(1 <= i.description@.len() <= 1000);
            let image_url_bad = !parses_as_url(i.image_url@);
            let language_bad = !(i.language@ == "en"@ || i.language@ == "es"@ || i.language@ == "both"@);
            let level_bad = !(i.level@ == "beginner"@ || i.level@ == "intermediate"@ || i.level@ == "advanced"@);
            let country_bad = !(1 <= i.country@.len() <= 100);
            let topic_bad = !(1 <= i.topic@.len() <= 100);
            let url_bad = !parses_as_url(i.url@);
            &&& reports(e, Field::Title) <==> title_bad
            &&& reports(e, Field::Description) <==> description_bad
            &&& reports(e, Field::ImageUrl) <==> image_url_bad
            &&& reports(e, Field::Language) <==> language_bad
            &&& reports(e, Field::Level) <==> level_bad
            &&& reports(e, Field::Country) <==> country_bad
            &&& reports(e, Field::Topic) <==> topic_bad
            &&& reports(e, Field::Url) <==> url_bad
            &&& title_bad ==> has_entry(e, Field::Title, Violation::Length { min: 1, max: 255 }, i.title@)
            &&& description_bad ==> has_entry(e, Field::Description, Violation::Length { min: 1, max: 1000 }, i.description@)
            &&& image_url_bad ==> has_entry(e, Field::ImageUrl, Violation::Url, i.image_url@)
            &&& language_bad ==> has_entry(e, Field::Language, Violation::InvalidLanguage, i.language@)
            &&& level_bad ==> has_entry(e, Field::Level, Violation::InvalidLevel, i.level@)
            &&& country_bad ==> has_entry(e, Field::Country, Violation::Length { min: 1, max: 100 }, i.country@)
            &&& topic_bad ==> has_entry(e, Field::Topic, Violation::Length { min: 1, max: 100 }, i.topic@)
            &&& url_bad ==> has_entry(e, Field::Url, Violation::Url, i.url@)
            &&& e.len() == flag(title_bad) + flag(description_bad) + flag(image_url_bad) + flag(language_bad) + flag(level_bad) + flag(country_bad) + flag(topic_bad) + flag(url_bad)
        }),
{
    let b0 = !(1 <= i.title@.len() <= 255);
    let x0 = i.title@;
    let p0 = length_errors(Field::Title, i.title@, 1, 255);
    lemma_rule_errors(p0, Field::Title, Violation::Length { min: 1, max: 255 }, x0, b0);
    let b1 = !(1 <= i.description@.len() <= 1000);
    let x1 = i.description@;
    let p1 = length_errors(Field::Description, i.description@, 1, 1000);
    lemma_rule_errors(p1, Field::Description, Violation::Length { min: 1, max: 1000 }, x1, b1);
    let b2 = !parses_as_url(i.image_url@);
    let x2 = i.image_url@;
    let p2 = url_errors(Field::ImageUrl, i.image_url@);
    lemma_rule_errors(p2, Field::ImageUrl, Violation::Url, x2, b2);
    let b3 = !(i.language@ == "en"@ || i.language@ == "es"@ || i.language@ == "both"@);
    let x3 = i.language@;
    let p3 = check_errors(Field::Language, i.language@, language_outcome(i.language@));
    lemma_rule_errors(p3, Field::Language, Violation::InvalidLanguage, x3, b3);
    let b4 = !(i.level@ == "beginner"@ || i.level@ == "intermediate"@ || i.level@ == "advanced"@);
    let x4 = i.level@;
    let p4 = check_errors(Field::Level, i.level@, level_outcome(i.level@));
    lemma_rule_errors(p4, Field::Level, Violation::InvalidLevel, x4, b4);
    let b5 = !(1 <= i.country@.len() <= 100);
    let x5 = i.country@;
    let p5 = length_errors(Field::Country, i.country@, 1, 100);
    lemma_rule_errors(p5, Field::Country, Violation::Length { min: 1, max: 100 }, x5, b5);
    let b6 = !(1 <= i.topic@.len() <= 100);
    let x6 = i.topic@;
    let p6 = length_errors(Field::Topic, i.topic@, 1, 100);
    lemma_rule_errors(p6, Field::Topic, Violation::Length { min: 1, max: 100 }, x6, b6);
    let b7 = !parses_as_url(i.url@);
    let x7 = i.url@;
    let p7 = url_errors(Field::Url, i.url@);
    lemma_rule_errors(p7, Field::Url, Violation::Url, x7, b7);
    lemma_errors_concat(p0, p1, Field::Title, Violation::Length { min: 1, max: 255 }, x0);
    lemma_errors_concat(p0, p1, Field::Description, Violation::Length { min: 1, max: 1000 }, x1);
    lemma_errors_concat(p0, p1, Field::ImageUrl, Violation::Url, x2);
    lemma_errors_concat(p0, p1, Field::Language, Violation::InvalidLanguage, x3);
    lemma_errors_concat(p0, p1, Field::Level, Violation::InvalidLevel, x4);
    lemma_errors_concat(p0, p1, Field::Country, Violation::Length { min: 1, max: 100 }, x5);
    lemma_errors_concat(p0, p1, Field::Topic, Violation::Length { min: 1, max: 100 }, x6);
    lemma_errors_concat(p0, p1, Field::Url, Violation::Url, x7);
    lemma_errors_concat(p0 + p1, p2, Field::Title, Violation::Length { min: 1, max: 255 }, x0);
    lemma_errors_concat(p0 + p1, p2, Field::Description, Violation::Length { min: 1, max: 1000 }, x1);
    lemma_errors_concat(p0 + p1, p2, Field::ImageUrl, Violation::Url, x2);
    lemma_errors_concat(p0 + p1, p2, Field::Language, Violation::InvalidLanguage, x3);
    lemma_errors_concat(p0 + p1, p2, Field::Level, Violation::InvalidLevel, x4);
    lemma_errors_concat(p0 + p1, p2, Field::Country, Violation::Length { min: 1, max: 100 }, x5);
    lemma_errors_concat(p0 + p1, p2, Field::Topic, Violation::Length { min: 1, max: 100 }, x6);
    lemma_errors_concat(p0 + p1, p2, Field::Url, Violation::Url, x7);
    lemma_errors_concat(p0 + p1 + p2, p3, Field::Title, Violation::Length { min: 1, max: 255 }, x0);
    lemma_errors_concat(p0 + p1 + p2, p3, Field::Description, Violation::Length { min: 1, max: 1000 }, x1);
    lemma_errors_concat(p0 + p1 + p2, p3, Field::ImageUrl, Violation::Url, x2);
    lemma_errors_concat(p0 + p1 + p2, p3, Field::Language, Violation::InvalidLanguage, x3);
    lemma_errors_concat(p0 + p1 + p2, p3, Field::Level, Violation::InvalidLevel, x4);
    lemma_errors_concat(p0 + p1 + p2, p3, Field::Country, Violation::Length { min: 1, max: 100 }, x5);
    lemma_errors_concat(p0 + p1 + p2, p3, Field::Topic, Violation::Length { min: 1, max: 100 }, x6);
    lemma_errors_concat(p0 + p1 + p2, p3, Field::Url, Violation::Url, x7);
    lemma_errors_concat(p0 + p1 + p2 + p3, p4, Field::Title, Violation::Length { min: 1, max: 255 }, x0);
    lemma_errors_concat(p0 + p1 + p2 + p3, p4, Field::Description, Violation::Length { min: 1, max: 1000 }, x1);
    lemma_errors_concat(p0 + p1 + p2 + p3, p4, Field::ImageUrl, Violation::Url, x2);
    lemma_errors_concat(p0 + p1 + p2 + p3, p4, Field::Language, Violation::InvalidLanguage, x3);
    lemma_errors_concat(p0 + p1 + p2 + p3, p4, Field::Level, Violation::InvalidLevel, x4);
    lemma_errors_concat(p0 + p1 + p2 + p3, p4, Field::Country, Violation::Length { min: 1, max: 100 }, x5);
    lemma_errors_concat(p0 + p1 + p2 + p3, p4, Field::Topic, Violation::Length { min: 1, max: 100 }, x6);
    lemma_errors_concat(p0 + p1 + p2 + p3, p4, Field::Url, Violation::Url, x7);
    lemma_errors_concat(p0 + p1 + p2 + p3 + p4, p5, Field::Title, Violation::Length { min: 1, max: 255 }, x0);
    lemma_errors_concat(p0 + p1 + p2 + p3 + p4, p5, Field::Description, Violation::Length { min: 1, max: 1000 }, x1);
    lemma_errors_concat(p0 + p1 + p2 + p3 + p4, p5, Field::ImageUrl, Violation::Url, x2);
    lemma_errors_concat(p0 + p1 + p2 + p3 + p4, p5, Field::Language, Violation::InvalidLanguage, x3);
    lemma_errors_concat(p0 + p1 + p2 + p3 + p4, p5, Field::Level, Violation::InvalidLevel, x4);
    lemma_errors_concat(p0 + p1 + p2 + p3 + p4, p5, Field::Country, Violation::Length { min: 1, max: 100 }, x5);
    lemma_errors_concat(p0 + p1 + p2 + p3 + p4, p5, Field::Topic, Violation::Length { min: 1, max: 100 }, x6);
    lemma_errors_concat(p0 + p1 + p2 + p3 + p4, p5, Field::Url, Violation::Url, x7);
    lemma_errors_concat(p0 + p1 + p2 + p3 + p4 + p5, p6, Field::Title, Violation::Length { min: 1, max: 255 }, x0);
    lemma_errors_concat(p0 + p1 + p2 + p3 + p4 + p5, p6, Field::Description, Violation::Length { min: 1, max: 1000 }, x1);
    lemma_errors_concat(p0 + p1 + p2 + p3 + p4 + p5, p6, Field::ImageUrl, Violation::Url, x2);
    lemma_errors_concat(p0 + p1 + p2 + p3 + p4 + p5, p6, Field::Language, Violation::InvalidLanguage, x3);
    lemma_errors_concat(p0 + p1 + p2 + p3 + p4 + p5, p6, Field::Level, Violation::InvalidLevel, x4);
    lemma_errors_concat(p0 + p1 + p2 + p3 + p4 + p5, p6, Field::Country, Violation::Length { min: 1, max: 100 }, x5);
    lemma_errors_concat(p0 + p1 + p2 + p3 + p4 + p5, p6, Field::Topic, Violation::Length { min: 1, max: 100 }, x6);
    lemma_errors_concat(p0 + p1 + p2 + p3 + p4 + p5, p6, Field::Url, Violation::Url, x7);
    lemma_errors_concat(p0 + p1 + p2 + p3 + p4 + p5 + p6, p7, Field::Title, Violation::Length { min: 1, max: 255 }, x0);
    lemma_errors_concat(p0 + p1 + p2 + p3 + p4 + p5 + p6, p7, Field::Description, Violation::Length { min: 1, max: 1000 }, x1);
    lemma_errors_concat(p0 + p1 + p2 + p3 + p4 + p5 + p6, p7, Field::ImageUrl, Violation::Url, x2);
    lemma_errors_concat(p0 + p1 + p2 + p3 + p4 + p5 + p6, p7, Field::Language, Violation::InvalidLanguage, x3);
    lemma_errors_concat(p0 + p1 + p2 + p3 + p4 + p5 + p6, p7, Field::Level, Violation::InvalidLevel, x4);
    lemma_errors_concat(p0 + p1 + p2 + p3 + p4 + p5 + p6, p7, Field::Country, Violation::Length { min: 1, max: 100 }, x5);
    lemma_errors_concat(p0 + p1 + p2 + p3 + p4 + p5 + p6, p7, Field::Topic, Violation::Length { min: 1, max: 100 }, x6);
    lemma_errors_concat(p0 + p1 + p2 + p3 + p4 + p5 + p6, p7, Field::Url, Violation::Url, x7);
    assert(create_podcast_errors(i) == p0 + p1 + p2 + p3 + p4 + p5 + p6 + p7);
}

/// A partial update is held, field by field, to the creation rules of the
/// fields it gives, whatever else it gives or leaves out: a present field has
/// an error exactly when its value breaks its rule, that error names the rule
/// and the value, an absent field has none, and there are no other errors.
pub proof fn law_update_podcast_reports_broken_rules(i: UpdatePodcastInput)
    ensures
        ({
            let e = update_podcast_errors(i);
            let title_bad = match opt_view(i.title) { Some(v) => !(1 <= v.len() <= 255), None => false };
            let description_bad = match opt_view(i.description) { Some(v) => !(1 <= v.len() <= 1000), None => false };
            let image_url_bad = match opt_view(i.image_url) { Some(v) => !parses_as_url(v), None => false };
            let language_bad = match opt_view(i.language) { Some(v) => !(v == "en"@ || v == "es"@ || v == "both"@), None => false };
            let level_bad = match opt_view(i.level) { Some(v) => !(v == "beginner"@ || v == "intermediate"@ || v == "advanced"@), None => false };
            let country_bad = match opt_view(i.country) { Some(v) => !(1 <= v.len() <= 100), None => false };
            let topic_bad = match opt_view(i.topic) { Some(v) => !(1 <= v.len() <= 100), None => false };
            let url_bad = match opt_view(i.url) { Some(v) => !parses_as_url(v), None => false };
            &&& reports(e, Field::Title) <==> title_bad
            &&& reports(e, Field::Description) <==> description_bad
            &&& reports(e, Field::ImageUrl) <==> image_url_bad
            &&& reports(e, Field::Language) <==> language_bad
            &&& reports(e, Field::Level) <==> level_bad
            &&& reports(e, Field::Country) <==> country_bad
            &&& reports(e, Field::Topic) <==> topic_bad
            &&& reports(e, Field::Url) <==> url_bad
            &&& title_bad ==> has_entry(e, Field::Title, Violation::Length { min: 1, max: 255 }, opt_view(i.title).unwrap())
            &&& description_bad ==> has_entry(e, Field::Description, Violation::Length { min: 1, max: 1000 }, opt_view(i.description).unwrap())
            &&& image_url_bad ==> has_entry(e, Field::ImageUrl, Violation::Url, opt_view(i.image_url).unwrap())
            &&& language_bad ==> has_entry(e, Field::Language, Violation::InvalidLanguage, opt_view(i.language).unwrap())
            &&& level_bad ==> has_entry(e, Field::Level, Violation::InvalidLevel, opt_view(i.level).unwrap())
            &&& country_bad ==> has_entry(e, Field::Country, Violation::Length { min: 1, max: 100 }, opt_view(i.country).unwrap())
            &&& topic_bad ==> has_entry(e, Field::Topic, Violation::Length { min: 1, max: 100 }, opt_view(i.topic).unwrap())
            &&& url_bad ==> has_entry(e, Field::Url, Violation::Url, opt_view(i.url).unwrap())
            &&& e.len() == flag(title_bad) + flag(description_bad) + flag(image_url_bad) + flag(language_bad) + flag(level_bad) + flag(country_bad) + flag(topic_bad) + flag(url_bad)
        }),
{
    let b0 = match opt_view(i.title) { Some(v) => !(1 <= v.len() <= 255), None => false };
    let x0 = match opt_view(i.title) { Some(v) => v, None => Seq::empty() };
    let p0 = opt_length_errors(Field::Title, opt_view(i.title), 1, 255);
    lemma_rule_errors(p0, Field::Title, Violation::Length { min: 1, max: 255 }, x0, b0);
    let b1 = match opt_view(i.description) { Some(v) => !(1 <= v.len() <= 1000), None => false };
    let x1 = match opt_view(i.description) { Some(v) => v, None => Seq::empty() };
    let p1 = opt_length_errors(Field::Description, opt_view(i.description), 1, 1000);
    lemma_rule_errors(p1, Field::Description, Violation::Length { min: 1, max: 1000 }, x1, b1);
    let b2 = match opt_view(i.image_url) { Some(v) => !parses_as_url(v), None => false };
    let x2 = match opt_view(i.image_url) { Some(v) => v, None => Seq::empty() };
    let p2 = opt_url_errors(Field::ImageUrl, opt_view(i.image_url));
    lemma_rule_errors(p2, Field::ImageUrl, Violation::Url, x2, b2);
    let b3 = match opt_view(i.language) { Some(v) => !(v == "en"@ || v == "es"@ || v == "both"@), None => false };
    let x3 = match opt_view(i.language) { Some(v) => v, None => Seq::empty() };
    let p3 = opt_check_errors(Field::Language, opt_view(i.language), |s: Seq<char>| language_outcome(s));
    lemma_rule_errors(p3, Field::Language, Violation::InvalidLanguage, x3, b3);
    let b4 = match opt_view(i.level) { Some(v) => !(v == "beginner"@ || v == "intermediate"@ || v == "advanced"@), None => false };
    let x4 = match opt_view(i.level) { Some(v) => v, None => Seq::empty() };
    let p4 = opt_check_errors(Field::Level, opt_view(i.level), |s: Seq<char>| level_outcome(s));
    lemma_rule_errors(p4, Field::Level, Violation::InvalidLevel, x4, b4);
    let b5 = match opt_view(i.country) { Some(v) => !(1 <= v.len() <= 100), None => false };
    let x5 = match opt_view(i.country) { Some(v) => v, None => Seq::empty() };
    let p5 = opt_length_errors(Field::Country, opt_view(i.country), 1, 100);
    lemma_rule_errors(p5, Field::Country, Violation::Length { min: 1, max: 100 }, x5, b5);
    let b6 = match opt_view(i.topic) { Some(v) => !(1 <= v.len() <= 100), None => false };
    let x6 = match opt_view(i.topic) { Some(v) => v, None => Seq::empty() };
    let p6 = opt_length_errors(Field::Topic, opt_view(i.topic), 1, 100);
    lemma_rule_errors(p6, Field::Topic, Violation::Length { min: 1, max: 100 }, x6, b6);
    let b7 = match opt_view(i.url) { Some(v) => !parses_as_url(v), None => false };
    let x7 = match opt_view(i.url) { Some(v) => v, None => Seq::empty() };
    let p7 = opt_url_errors(Field::Url, opt_view(i.url));
    lemma_rule_errors(p7, Field::Url, Violation::Url, x7, b7);
    lemma_errors_concat(p0, p1, Field::Title, Violation::Length { min: 1, max: 255 }, x0);
    lemma_errors_concat(p0, p1, Field::Description, Violation::Length { min: 1, max: 1000 }, x1);
    lemma_errors_concat(p0, p1, Field::ImageUrl, Violation::Url, x2);
    lemma_errors_concat(p0, p1, Field::Language, Violation::InvalidLanguage, x3);
    lemma_errors_concat(p0, p1, Field::Level, Violation::InvalidLevel, x4);
    lemma_errors_concat(p0, p1, Field::Country, Violation::Length { min: 1, max: 100 }, x5);
    lemma_errors_concat(p0, p1, Field::Topic, Violation::Length { min: 1, max: 100 }, x6);
    lemma_errors_concat(p0, p1, Field::Url, Violation::Url, x7);
    lemma_errors_concat(p0 + p1, p2, Field::Title, Violation::Length { min: 1, max: 255 }, x0);
    lemma_errors_concat(p0 + p1, p2, Field::Description, Violation::Length { min: 1, max: 1000 }, x1);
    lemma_errors_concat(p0 + p1, p2, Field::ImageUrl, Violation::Url, x2);
    lemma_errors_concat(p0 + p1, p2, Field::Language, Violation::InvalidLanguage, x3);
    lemma_errors_concat(p0 + p1, p2, Field::Level, Violation::InvalidLevel, x4);
    lemma_errors_concat(p0 + p1, p2, Field::Country, Violation::Length { min: 1, max: 100 }, x5);
    lemma_errors_concat(p0 + p1, p2, Field::Topic, Violation::Length { min: 1, max: 100 }, x6);
    lemma_errors_concat(p0 + p1, p2, Field::Url, Violation::Url, x7);
    lemma_errors_concat(p0 + p1 + p2, p3, Field::Title, Violation::Length { min: 1, max: 255 }, x0);
    lemma_errors_concat(p0 + p1 + p2, p3, Field::Description, Violation::Length { min: 1, max: 1000 }, x1);
    lemma_errors_concat(p0 + p1 + p2, p3, Field::ImageUrl, Violation::Url, x2);
    lemma_errors_concat(p0 + p1 + p2, p3, Field::Language, Violation::InvalidLanguage, x3);
    lemma_errors_concat(p0 + p1 + p2, p3, Field::Level, Violation::InvalidLevel, x4);
    lemma_errors_concat(p0 + p1 + p2, p3, Field::Country, Violation::Length { min: 1, max: 100 }, x5);
    lemma_errors_concat(p0 + p1 + p2, p3, Field::Topic, Violation::Length { min: 1, max: 100 }, x6);
    lemma_errors_concat(p0 + p1 + p2, p3, Field::Url, Violation::Url, x7);
    lemma_errors_concat(p0 + p1 + p2 + p3, p4, Field::Title, Violation::Length { min: 1, max: 255 }, x0);
    lemma_errors_concat(p0 + p1 + p2 + p3, p4, Field::Description, Violation::Length { min: 1, max: 1000 }, x1);
    lemma_errors_concat(p0 + p1 + p2 + p3, p4, Field::ImageUrl, Violation::Url, x2);
    lemma_errors_concat(p0 + p1 + p2 + p3, p4, Field::Language, Violation::InvalidLanguage, x3);
    lemma_errors_concat(p0 + p1 + p2 + p3, p4, Field::Level, Violation::InvalidLevel, x4);
    lemma_errors_concat(p0 + p1 + p2 + p3, p4, Field::Country, Violation::Length { min: 1, max: 100 }, x5);
    lemma_errors_concat(p0 + p1 + p2 + p3, p4, Field::Topic, Violation::Length { min: 1, max: 100 }, x6);
    lemma_errors_concat(p0 + p1 + p2 + p3, p4, Field::Url, Violation::Url, x7);
    lemma_errors_concat(p0 + p1 + p2 + p3 + p4, p5, Field::Title, Violation::Length { min: 1, max: 255 }, x0);
    lemma_errors_concat(p0 + p1 + p2 + p3 + p4, p5, Field::Description, Violation::Length { min: 1, max: 1000 }, x1);
    lemma_errors_concat(p0 + p1 + p2 + p3 + p4, p5, Field::ImageUrl, Violation::Url, x2);
    lemma_errors_concat(p0 + p1 + p2 + p3 + p4, p5, Field::Language, Violation::InvalidLanguage, x3);
    lemma_errors_concat(p0 + p1 + p2 + p3 + p4, p5, Field::Level, Violation::InvalidLevel, x4);
    lemma_errors_concat(p0 + p1 + p2 + p3 + p4, p5, Field::Country, Violation::Length { min: 1, max: 100 }, x5);
    lemma_errors_concat(p0 + p1 + p2 + p3 + p4, p5, Field::Topic, Violation::Length { min: 1, max: 100 }, x6);
    lemma_errors_concat(p0 + p1 + p2 + p3 + p4, p5, Field::Url, Violation::Url, x7);
    lemma_errors_concat(p0 + p1 + p2 + p3 + p4 + p5, p6, Field::Title, Violation::Length { min: 1, max: 255 }, x0);
    lemma_errors_concat(p0 + p1 + p2 + p3 + p4 + p5, p6, Field::Description, Violation::Length { min: 1, max: 1000 }, x1);
    lemma_errors_concat(p0 + p1 + p2 + p3 + p4 + p5, p6, Field::ImageUrl, Violation::Url, x2);
    lemma_errors_concat(p0 + p1 + p2 + p3 + p4 + p5, p6, Field::Language, Violation::InvalidLanguage, x3);
    lemma_errors_concat(p0 + p1 + p2 + p3 + p4 + p5, p6, Field::Level, Violation::InvalidLevel, x4);
    lemma_errors_concat(p0 + p1 + p2 + p3 + p4 + p5, p6, Field::Country, Violation::Length { min: 1, max: 100 }, x5);
    lemma_errors_concat(p0 + p1 + p2 + p3 + p4 + p5, p6, Field::Topic, Violation::Length { min: 1, max: 100 }, x6);
    lemma_errors_concat(p0 + p1 + p2 + p3 + p4 + p5, p6, Field::Url, Violation::Url, x7);
    lemma_errors_concat(p0 + p1 + p2 + p3 + p4 + p5 + p6, p7, Field::Title, Violation::Length { min: 1, max: 255 }, x0);
    lemma_errors_concat(p0 + p1 + p2 + p3 + p4 + p5 + p6, p7, Field::Description, Violation::Length { min: 1, max: 1000 }, x1);
    lemma_errors_concat(p0 + p1 + p2 + p3 + p4 + p5 + p6, p7, Field::ImageUrl, Violation::Url, x2);
    lemma_errors_concat(p0 + p1 + p2 + p3 + p4 + p5 + p6, p7, Field::Language, Violation::InvalidLanguage, x3);
    lemma_errors_concat(p0 + p1 + p2 + p3 + p4 + p5 + p6, p7, Field::Level, Violation::InvalidLevel, x4);
    lemma_errors_concat(p0 + p1 + p2 + p3 + p4 + p5 + p6, p7, Field::Country, Violation::Length { min: 1, max: 100 }, x5);
    lemma_errors_concat(p0 + p1 + p2 + p3 + p4 + p5 + p6, p7, Field::Topic, Violation::Length { min: 1, max: 100 }, x6);
    lemma_errors_concat(p0 + p1 + p2 + p3 + p4 + p5 + p6, p7, Field::Url, Violation::Url, x7);
    assert(update_podcast_errors(i) == p0 + p1 + p2 + p3 + p4 + p5 + p6 + p7);
}

impl CreatePodcastInput {
    /// Checks every field rule; on failure returns each broken rule, in field order.
    pub fn validate(&self) -> (r: Result<(), Vec<FieldError>>)
        ensures
            r is Ok <==> create_podcast_errors(*self).len() == 0,
            r matches Err(es) ==> error_views(es@) == create_podcast_errors(*self),
    {
        let mut errors: Vec<FieldError> = Vec::new();
        check_length(&mut errors, Field::Title, &self.title, 1, 255);
        check_length(&mut errors, Field::Description, &self.description, 1, 1000);
        check_url(&mut errors, Field::ImageUrl, &self.image_url);
        check_outcome(&mut errors, Field::Language, &self.language, validate_language(self.language.as_str()));
        check_outcome(&mut errors, Field::Level, &self.level, validate_level(self.level.as_str()));
        check_length(&mut errors, Field::Country, &self.country, 1, 100);
        check_length(&mut errors, Field::Topic, &self.topic, 1, 100);
        check_url(&mut errors, Field::Url, &self.url);
        assert(error_views(Seq::<FieldError>::empty()) =~= Seq::<FieldErrorView>::empty());
        assert(error_views(errors@) =~= create_podcast_errors(*self));
        if errors.len() == 0 {
            Ok(())
        } else {
            Err(errors)
        }
    }
}


impl UpdatePodcastInput {
    /// Checks the rules of the fields that are present; on failure returns each
    /// broken rule, in field order.
    pub fn validate(&self) -> (r: Result<(), Vec<FieldError>>)
        ensures
            r is Ok <==> update_podcast_errors(*self).len() == 0,
            r matches Err(es) ==> error_views(es@) == update_podcast_errors(*self),
    {
        let mut errors: Vec<FieldError> = Vec::new();
        if let Some(v) = &self.title {
            check_length(&mut errors, Field::Title, v, 1, 255);
        }
        if let Some(v) = &self.description {
            check_length(&mut errors, Field::Description, v, 1, 1000);
        }
        if let Some(v) = &self.image_url {
            check_url(&mut errors, Field::ImageUrl, v);
        }
        if let Some(v) = &self.language {
            check_outcome(&mut errors, Field::Language, v, validate_language_opt(v.as_str()));
        }
        if let Some(v) = &self.level {
            check_outcome(&mut errors, Field::Level, v, validate_level_opt(v.as_str()));
        }
        if let Some(v) = &self.country {
            check_length(&mut errors, Field::Country, v, 1, 100);
        }
        if let Some(v) = &self.topic {
            check_length(&mut errors, Field::Topic, v, 1, 100);
        }
        if let Some(v) = &self.url {
            check_url(&mut errors, Field::Url, v);
        }
        assert(error_views(Seq::<FieldError>::empty()) =~= Seq::<FieldErrorView>::empty());
        assert(error_views(errors@) =~= update_podcast_errors(*self));
        if errors.len() == 0 {
            Ok(())
        } else {
            Err(errors)
        }
    }
}

} // verus!
