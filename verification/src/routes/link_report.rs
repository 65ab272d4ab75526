//! Decisions of the dead-link report handlers.

use crate::routes::AppError;
use crate::text::{
    before_first_comma, is_white_space, lemma_before_first_comma_has_no_comma, lemma_first_comma,
    lemma_trim_end, lemma_trim_end_drops_white_space, lemma_trim_start,
    lemma_trim_start_drops_white_space, trim_end, opt_str_view, opt_view, trim, trim_start, trimmed_first_field,
};
use vstd::prelude::*;

verus! {

/// A report may only be filed against a podcast that exists.
pub fn require_podcast(exists: bool) -> (r: Result<(), AppError>)
    ensures
        exists <==> r is Ok,
        !exists ==> (r matches Err(AppError::NotFound(m)) && m@ == "podcast not found"@),
{
    if exists {
        Ok(())
    } else {
        Err(AppError::NotFound(String::from_str("podcast not found")))
    }
}

/// The client address that a request carries in its proxy headers.
pub open spec fn client_ip(forwarded_for: Option<Seq<char>>, real_ip: Option<Seq<char>>) -> Option<
    Seq<char>,
> {
    match forwarded_for {
        Some(x) => Some(trim(before_first_comma(x))),
        None => match real_ip {
            Some(y) => Some(y),
            None => None,
        },
    }
}

/// The reporter's address: the first entry of `X-Forwarded-For` without
/// surrounding white space, else `X-Real-IP` as it is, else none. Each header
/// is given as its text, or `None` when it is missing or not visible ASCII.
pub fn extract_client_ip(forwarded_for: Option<&str>, real_ip: Option<&str>) -> (ip: Option<
    String,
>)
    ensures
        opt_view(ip) == client_ip(opt_str_view(forwarded_for), opt_str_view(real_ip)),
{
    if let Some(xff) = forwarded_for {
        return Some(trimmed_first_field(xff));
    }
    if let Some(xri) = real_ip {
        return Some(String::from_str(xri));
    }
    None
}


/// An address taken from `X-Forwarded-For` is a single entry: it holds no
/// comma, and it neither starts nor ends with white space.
pub proof fn law_forwarded_address_is_one_clean_entry(forwarded_for: Seq<char>, real_ip: Option<Seq<char>>)
    ensures
        client_ip(Some(forwarded_for), real_ip) matches Some(ip) ==> {
            &&& !ip.contains(',')
            &&& ip.len() > 0 ==> !is_white_space(ip[0]) && !is_white_space(ip.last())
        },
{
    let field = before_first_comma(forwarded_for);
    let start = trim_start(field);
    let ip = trim(field);
    lemma_before_first_comma_has_no_comma(forwarded_for);
    lemma_trim_start(field);
    lemma_trim_end(start);
    let a = choose|k: int| 0 <= k <= field.len() && #[trigger] field.subrange(k, field.len() as int) == start;
    let b = choose|k: int| 0 <= k <= start.len() && #[trigger] start.subrange(0, k) == ip;
    assert forall|i: int| 0 <= i < ip.len() implies ip[i] != ',' by {
        assert(ip[i] == start[i]);
        assert(start[i] == field[a + i]);
    }
    assert(!ip.contains(','));
    if ip.len() > 0 {
        assert(ip[0] == start[0]);
        assert(!is_white_space(ip[0]));
        assert(!is_white_space(ip.last()));
    }
}


/// The reporter's address is the first entry of `X-Forwarded-For` when that
/// header is there: the text up to its first comma (or all of it), less the
/// white space around it, and nothing else of the header. Without that header
/// it is `X-Real-IP` exactly as sent, and without either there is none.
pub proof fn law_client_ip_is_first_forwarded_entry(
    forwarded_for: Option<Seq<char>>,
    real_ip: Option<Seq<char>>,
)
    ensures
        forwarded_for is None ==> client_ip(forwarded_for, real_ip) == real_ip,
        forwarded_for is Some ==> client_ip(forwarded_for, real_ip) is Some,
        forwarded_for is Some ==> ({
            let x = forwarded_for.unwrap();
            let ip = client_ip(forwarded_for, real_ip).unwrap();
            exists|a: int, b: int, c: int|
                #![trigger x.subrange(a, b), x.take(c)]
                {
                    &&& 0 <= a <= b <= c <= x.len()
                    &&& x.subrange(a, b) == ip
                    &&& x.take(c) == before_first_comma(x)
                    &&& c < x.len() ==> x[c] == ','
                    &&& forall|j: int| 0 <= j < c ==> x[j] != ','
                    &&& forall|j: int| 0 <= j < a ==> is_white_space(x[j])
                    &&& forall|j: int| b <= j < c ==> is_white_space(x[j])
                    &&& a < b ==> !is_white_space(x[a]) && !is_white_space(x[b - 1])
                }
        }),
{
    if let Some(x) = forwarded_for {
        lemma_first_comma(x);
        let c = choose|c: int|
            0 <= c <= x.len() && (c < x.len() ==> x[c] == ',') && (forall|j: int|
                0 <= j < c ==> x[j] != ',') && #[trigger] x.take(c) == before_first_comma(x);
        let field = before_first_comma(x);
        let start = trim_start(field);
        let ip = trim(field);
        lemma_trim_start_drops_white_space(field);
        let a = choose|k: int|
            0 <= k <= field.len() && #[trigger] field.subrange(k, field.len() as int) == start && (
            forall|j: int| 0 <= j < k ==> is_white_space(field[j]));
        lemma_trim_end_drops_white_space(start);
        let e = choose|k: int|
            0 <= k <= start.len() && #[trigger] start.subrange(0, k) == trim_end(start) && (
            forall|j: int| k <= j < start.len() ==> is_white_space(start[j]));
        lemma_trim_start(field);
        lemma_trim_end(start);
        let b = a + e;
        assert(field.len() == c);
        assert(x.subrange(a, b) =~= ip) by {
            assert forall|j: int| 0 <= j < b - a implies x.subrange(a, b)[j] == ip[j] by {
                assert(ip[j] == start[j]);
                assert(start[j] == field[a + j]);
                assert(field[a + j] == x[a + j]);
            }
        }
        assert forall|j: int| 0 <= j < a implies is_white_space(x[j]) by {
            assert(field[j] == x[j]);
        }
        assert forall|j: int| b <= j < c implies is_white_space(x[j]) by {
            assert(start[j - a] == field[j]);
            assert(field[j] == x[j]);
        }
        if a < b {
            assert(ip[0] == x[a]);
            assert(ip.last() == x[b - 1]);
        }
        assert(x.subrange(a, b) == ip);
    }
}

} // verus!
