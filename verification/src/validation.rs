//! Field-level validation of request bodies: the rules that the inputs of
//! the create and update endpoints must meet, and the report of what failed.

use validator::{ValidateLength, ValidateUrl};
use vstd::prelude::*;

verus! {

/// A validated field of a request body.
#[derive(Clone, Copy, Debug, PartialEq, Eq, Structural)]
pub enum Field {
    Title,
    Description,
    ImageUrl,
    PosterUrl,
    Language,
    AudioLanguage,
    Level,
    Country,
    Topic,
    Genre,
    Url,
}

/// The name under which a field's errors are reported (its Rust field name).
pub open spec fn field_name(f: Field) -> Seq<char> {
    match f {
        Field::Title => "title"@,
        Field::Description => "description"@,
        Field::ImageUrl => "image_url"@,
        Field::PosterUrl => "poster_url"@,
        Field::Language => "language"@,
        Field::AudioLanguage => "audio_language"@,
        Field::Level => "level"@,
        Field::Country => "country"@,
        Field::Topic => "topic"@,
        Field::Genre => "genre"@,
        Field::Url => "url"@,
    }
}

impl Field {
    /// The name under which this field's errors are reported.
    pub fn name(&self) -> (n: &'static str)
        ensures
            n@ == field_name(*self),
    {
        match self {
            Field::Title => "title",
            Field::Description => "description",
            Field::ImageUrl => "image_url",
            Field::PosterUrl => "poster_url",
            Field::Language => "language",
            Field::AudioLanguage => "audio_language",
            Field::Level => "level",
            Field::Country => "country",
            Field::Topic => "topic",
            Field::Genre => "genre",
            Field::Url => "url",
        }
    }
}

/// The rule that a field broke.
#[derive(Clone, Copy, Debug, PartialEq, Eq, Structural)]
pub enum Violation {
    /// Its length in characters lies outside `min..=max`.
    Length { min: u64, max: u64 },
    /// It does not parse as a URL.
    Url,
    /// It is none of the accepted languages.
    InvalidLanguage,
    /// It is none of the accepted levels.
    InvalidLevel,
    /// It is none of the accepted audio languages.
    InvalidAudioLanguage,
}

/// The error code under which a violation is reported.
pub open spec fn violation_code(v: Violation) -> Seq<char> {
    match v {
        Violation::Length { .. } => "length"@,
        Violation::Url => "url"@,
        Violation::InvalidLanguage => "invalid_language"@,
        Violation::InvalidLevel => "invalid_level"@,
        Violation::InvalidAudioLanguage => "invalid_audio_language"@,
    }
}

impl Violation {
    /// The error code under which this violation is reported.
    pub fn code(&self) -> (c: &'static str)
        ensures
            c@ == violation_code(*self),
    {
        match self {
            Violation::Length { .. } => "length",
            Violation::Url => "url",
            Violation::InvalidLanguage => "invalid_language",
            Violation::InvalidLevel => "invalid_level",
            Violation::InvalidAudioLanguage => "invalid_audio_language",
        }
    }
}

/// One failed rule: the field, the rule, and the value that broke it.
#[derive(Debug)]
pub struct FieldError {
    pub field: Field,
    pub violation: Violation,
    pub value: String,
}

/// The mathematical content of a [`FieldError`].
pub struct FieldErrorView {
    pub field: Field,
    pub violation: Violation,
    pub value: Seq<char>,
}

impl View for FieldError {
    type V = FieldErrorView;

    open spec fn view(&self) -> FieldErrorView {
        FieldErrorView { field: self.field, violation: self.violation, value: self.value@ }
    }
}

/// The views of a sequence of field errors.
pub open spec fn error_views(es: Seq<FieldError>) -> Seq<FieldErrorView> {
    es.map_values(|e: FieldError| e@)
}

/// The single error that `field` with `value` gets for `violation`.
pub open spec fn one_error(field: Field, violation: Violation, value: Seq<char>) -> Seq<
    FieldErrorView,
> {
    seq![FieldErrorView { field, violation, value }]
}

/// The errors of a length rule `min..=max` (counted in characters).
pub open spec fn length_errors(field: Field, value: Seq<char>, min: u64, max: u64) -> Seq<
    FieldErrorView,
> {
    if min <= value.len() <= max {
        Seq::empty()
    } else {
        one_error(field, Violation::Length { min, max }, value)
    }
}

/// Whether `validator`'s URL rule accepts a text (whether `url::Url::parse` succeeds on it).
pub uninterp spec fn parses_as_url(s: Seq<char>) -> bool;

/// The errors of the URL rule.
pub open spec fn url_errors(field: Field, value: Seq<char>) -> Seq<FieldErrorView> {
    if parses_as_url(value) {
        Seq::empty()
    } else {
        one_error(field, Violation::Url, value)
    }
}

/// The errors of a rule given by a check function, which accepted (`None`) or
/// refused the value with a violation.
pub open spec fn check_errors(field: Field, value: Seq<char>, outcome: Option<Violation>) -> Seq<
    FieldErrorView,
> {
    match outcome {
        None => Seq::empty(),
        Some(v) => one_error(field, v, value),
    }
}

/// Some error of `es` is on field `f`.
pub open spec fn reports(es: Seq<FieldErrorView>, f: Field) -> bool {
    exists|i: int| 0 <= i < es.len() && (#[trigger] es[i]).field == f
}

/// `es` holds the error of field `f` breaking rule `v` with `value`.
pub open spec fn has_entry(es: Seq<FieldErrorView>, f: Field, v: Violation, value: Seq<char>) -> bool {
    es.contains(FieldErrorView { field: f, violation: v, value })
}

/// 1 when `b` holds, else 0.
pub open spec fn flag(b: bool) -> nat {
    if b {
        1
    } else {
        0
    }
}

/// A rule's errors: the one error of `f` breaking `v` with `value` when the
/// rule is broken, none otherwise.
pub proof fn lemma_rule_errors(
    p: Seq<FieldErrorView>,
    f: Field,
    v: Violation,
    value: Seq<char>,
    broken: bool,
)
    requires
        p == (if broken {
            one_error(f, v, value)
        } else {
            Seq::<FieldErrorView>::empty()
        }),
    ensures
        forall|g: Field| reports(p, g) <==> (g == f && broken),
        broken ==> has_entry(p, f, v, value),
        p.len() == flag(broken),
{
    if broken {
        assert(p[0] == FieldErrorView { field: f, violation: v, value });
        assert forall|g: Field| reports(p, g) <==> (g == f && broken) by {
            if g == f {
                assert(p[0].field == f);
            }
        }
    }
}

/// The errors of two groups of rules, one after the other: field `g` is
/// reported by the whole when it is by either group, and an error of either
/// group is an error of the whole.
pub proof fn lemma_errors_concat(
    a: Seq<FieldErrorView>,
    b: Seq<FieldErrorView>,
    g: Field,
    v: Violation,
    x: Seq<char>,
)
    ensures
        reports(a + b, g) <==> (reports(a, g) || reports(b, g)),
        has_entry(a, g, v, x) || has_entry(b, g, v, x) ==> has_entry(a + b, g, v, x),
        (a + b).len() == a.len() + b.len(),
{
    let c = a + b;
    if reports(c, g) {
        let i = choose|i: int| 0 <= i < c.len() && (#[trigger] c[i]).field == g;
        if i < a.len() {
            assert(a[i] == c[i]);
        } else {
            assert(b[i - a.len()] == c[i]);
        }
    }
    if reports(a, g) {
        let i = choose|i: int| 0 <= i < a.len() && (#[trigger] a[i]).field == g;
        assert(c[i] == a[i]);
    }
    if reports(b, g) {
        let i = choose|i: int| 0 <= i < b.len() && (#[trigger] b[i]).field == g;
        assert(c[i + a.len()] == b[i]);
    }
    let e = FieldErrorView { field: g, violation: v, value: x };
    if a.contains(e) {
        let i = choose|i: int| 0 <= i < a.len() && a[i] == e;
        assert(c[i] == e);
    } else if b.contains(e) {
        let i = choose|i: int| 0 <= i < b.len() && b[i] == e;
        assert(c[i + a.len()] == e);
    }
}

/// `validator::ValidateLength::validate_length` on a string with both bounds and
/// no exact length: true when the number of characters lies in `min..=max`.
#[verifier::external_body]
fn length_in_range(s: &str, min: u64, max: u64) -> (ok: bool)
    ensures
        ok == (min <= s@.len() <= max),
{
    s.validate_length(Some(min), Some(max), None)
}

/// `validator::ValidateUrl::validate_url` on a string: whether it parses as a URL.
#[verifier::external_body]
fn url_parses(s: &str) -> (ok: bool)
    ensures
        ok == parses_as_url(s@),
{
    s.validate_url()
}

/// Records a length violation of `value` in `errors`, if there is one.
pub fn check_length(errors: &mut Vec<FieldError>, field: Field, value: &String, min: u64, max: u64)
    ensures
        error_views(final(errors)@) == error_views(old(errors)@) + length_errors(
            field,
            value@,
            min,
            max,
        ),
{
    let ghost before = errors@;
    if !length_in_range(value.as_str(), min, max) {
        errors.push(FieldError { field, violation: Violation::Length { min, max }, value: value.clone() });
    }
    assert(error_views(errors@) =~= error_views(before) + length_errors(field, value@, min, max));
}

/// Records a URL violation of `value` in `errors`, if there is one.
pub fn check_url(errors: &mut Vec<FieldError>, field: Field, value: &String)
    ensures
        error_views(final(errors)@) == error_views(old(errors)@) + url_errors(field, value@),
{
    let ghost before = errors@;
    if !url_parses(value.as_str()) {
        errors.push(FieldError { field, violation: Violation::Url, value: value.clone() });
    }
    assert(error_views(errors@) =~= error_views(before) + url_errors(field, value@));
}

/// Records the violation that a check function reported for `value`, if any.
pub fn check_outcome(
    errors: &mut Vec<FieldError>,
    field: Field,
    value: &String,
    outcome: Result<(), Violation>,
)
    ensures
        error_views(final(errors)@) == error_views(old(errors)@) + check_errors(
            field,
            value@,
            match outcome {
                Ok(_) => None,
                Err(v) => Some(v),
            },
        ),
{
    let ghost before = errors@;
    if let Err(v) = outcome {
        errors.push(FieldError { field, violation: v, value: value.clone() });
    }
    assert(error_views(errors@) =~= error_views(before) + check_errors(
        field,
        value@,
        match outcome {
            Ok(_) => None,
            Err(v) => Some(v),
        },
    ));
}

} // verus!
