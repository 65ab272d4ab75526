//! Character-sequence helpers used to assemble SQL text and header values.

use vstd::prelude::*;

verus! {

/// The character view of an optional string.
pub open spec fn opt_view(o: Option<String>) -> Option<Seq<char>> {
    match o {
        Some(s) => Some(s@),
        None => None,
    }
}

/// The character view of an optional string slice.
pub open spec fn opt_str_view(o: Option<&str>) -> Option<Seq<char>> {
    match o {
        Some(s) => Some(s@),
        None => None,
    }
}

/// The character of a decimal digit `d < 10`.
pub open spec fn digit_char(d: nat) -> char {
    (48 + d) as char
}

/// Base-ten rendering of `n`, most significant digit first, without leading zeros.
pub open spec fn decimal(n: nat) -> Seq<char>
    decreases n,
{
    if n < 10 {
        seq![digit_char(n)]
    } else {
        decimal(n / 10).push(digit_char(n % 10))
    }
}

/// Whether `c` is one of the decimal digits `0` to `9`.
pub open spec fn is_decimal_digit(c: char) -> bool {
    48 <= (c as u32) <= 57
}

/// The number that a text of decimal digits denotes, read most significant
/// digit first (the empty text denotes 0).
pub open spec fn digits_value(s: Seq<char>) -> int
    decreases s.len(),
{
    if s.len() == 0 {
        0
    } else {
        digits_value(s.drop_last()) * 10 + ((s.last() as u32) - 48)
    }
}

/// The rendering of a number is its usual base-ten text: one or more decimal
/// digits, with no leading zero unless the number is 0, that denote the number.
pub proof fn law_decimal_denotes_its_value(n: nat)
    ensures
        decimal(n).len() >= 1,
        forall|i: int| 0 <= i < decimal(n).len() ==> is_decimal_digit(#[trigger] decimal(n)[i]),
        digits_value(decimal(n)) == n,
        n > 0 ==> decimal(n)[0] != '0',
        n == 0 ==> decimal(n) == seq!['0'],
    decreases n,
{
    let d = digit_char(n % 10);
    assert((n % 10) < 10);
    assert(d as u32 == 48 + n % 10);
    if n < 10 {
        assert(decimal(n) =~= seq![d]);
        assert(seq![d].drop_last() =~= Seq::<char>::empty());
        assert(digits_value(seq![d]) == digits_value(Seq::<char>::empty()) * 10 + ((d as u32) - 48));
        if n == 0 {
            assert(d == '0');
        }
    } else {
        law_decimal_denotes_its_value(n / 10);
        let prev = decimal(n / 10);
        assert(decimal(n) == prev.push(d));
        assert(prev.push(d).drop_last() =~= prev);
        assert(n == (n / 10) * 10 + n % 10);
        assert(digits_value(prev.push(d)) == digits_value(prev) * 10 + ((d as u32) - 48));
        assert(decimal(n)[0] == prev[0]);
        assert forall|i: int| 0 <= i < decimal(n).len() implies is_decimal_digit(#[trigger] decimal(n)[i]) by {
            if i < prev.len() {
                assert(decimal(n)[i] == prev[i]);
            }
        }
    }
}

/// Appends one character to a string (`String::push`).
#[verifier::external_body]
pub(crate) fn push_char(s: &mut String, c: char)
    ensures
        final(s)@ == old(s)@.push(c),
{
    s.push(c);
}

/// Appends the decimal rendering of `n` to `out`.
pub fn push_decimal(out: &mut String, n: u64)
    ensures
        final(out)@ == old(out)@ + decimal(n as nat),
    decreases n,
{
    if n >= 10 {
        push_decimal(out, n / 10);
    }
    let d: u8 = (n % 10) as u8;
    let c: char = (48u8 + d) as char;
    push_char(out, c);
    assert(n < 10 ==> decimal(n as nat) =~= seq![digit_char(n as nat)]);
}

/// Concatenation of `parts` with `sep` between consecutive parts.
pub open spec fn join(parts: Seq<Seq<char>>, sep: Seq<char>) -> Seq<char>
    decreases parts.len(),
{
    if parts.len() == 0 {
        Seq::empty()
    } else if parts.len() == 1 {
        parts[0]
    } else {
        join(parts.drop_last(), sep) + sep + parts.last()
    }
}

/// The character views of a sequence of strings.
pub open spec fn views(parts: Seq<String>) -> Seq<Seq<char>> {
    parts.map_values(|p: String| p@)
}

/// Appends the parts joined by `sep` to `out`.
pub fn push_joined(out: &mut String, parts: &Vec<String>, sep: &str)
    ensures
        final(out)@ == old(out)@ + join(views(parts@), sep@),
{
    let ghost start = out@;
    let n = parts.len();
    let mut i: usize = 0;
    while i < n
        invariant
            n == parts@.len(),
            i <= n,
            out@ == start + join(views(parts@).take(i as int), sep@),
        decreases n - i,
    {
        proof {
            let vs = views(parts@);
            assert(vs.take(i + 1).drop_last() =~= vs.take(i as int));
            assert(vs.take(i + 1).last() == parts@[i as int]@);
        }
        if i > 0 {
            out.append(sep);
        }
        out.append(parts[i].as_str());
        proof {
            let vs = views(parts@);
            if i == 0 {
                assert(vs.take(1) =~= seq![parts@[0]@]);
            }
        }
        i = i + 1;
    }
    proof {
        assert(views(parts@).take(n as int) =~= views(parts@));
    }
}

/// The characters of `s`, in order.
pub fn chars_of(s: &str) -> (cs: Vec<char>)
    ensures
        cs@ == s@,
{
    broadcast use vstd::string::group_string_axioms;

    let mut cs: Vec<char> = Vec::new();
    for c in it: s.chars()
        invariant
            it.seq() == s@,
            cs@ == s@.take(it.index() as int),
    {
        assert(s@.take(it.index() + 1) =~= s@.take(it.index() as int).push(c));
        cs.push(c);
    }
    assert(s@.take(s@.len() as int) =~= s@);
    cs
}

/// A string holding `cs[lo..hi]`.
pub fn string_of_range(cs: &Vec<char>, lo: usize, hi: usize) -> (r: String)
    requires
        lo <= hi <= cs@.len(),
    ensures
        r@ == cs@.subrange(lo as int, hi as int),
{
    let mut r = String::new();
    let mut i = lo;
    while i < hi
        invariant
            lo <= i <= hi,
            hi <= cs@.len(),
            r@ == cs@.subrange(lo as int, i as int),
        decreases hi - i,
    {
        push_char(&mut r, cs[i]);
        proof {
            assert(cs@.subrange(lo as int, i + 1) =~= cs@.subrange(lo as int, i as int).push(cs@[i as int]));
        }
        i = i + 1;
    }
    r
}


/// Unicode `White_Space` characters, the set that `char::is_whitespace` accepts.
pub open spec fn is_white_space(c: char) -> bool {
    let u = c as u32;
    ||| 9 <= u <= 13
    ||| u == 32
    ||| u == 0x85
    ||| u == 0xA0
    ||| u == 0x1680
    ||| 0x2000 <= u <= 0x200A
    ||| u == 0x2028
    ||| u == 0x2029
    ||| u == 0x202F
    ||| u == 0x205F
    ||| u == 0x3000
}

/// Whether `c` is Unicode white space.
pub fn is_whitespace(c: char) -> (b: bool)
    ensures
        b == is_white_space(c),
{
    let u = c as u32;
    (9 <= u && u <= 13) || u == 32 || u == 0x85 || u == 0xA0 || u == 0x1680 || (0x2000 <= u && u
        <= 0x200A) || u == 0x2028 || u == 0x2029 || u == 0x202F || u == 0x205F || u == 0x3000
}

/// `s` without its leading white space.
pub open spec fn trim_start(s: Seq<char>) -> Seq<char>
    decreases s.len(),
{
    if s.len() > 0 && is_white_space(s[0]) {
        trim_start(s.drop_first())
    } else {
        s
    }
}

/// `s` without its trailing white space.
pub open spec fn trim_end(s: Seq<char>) -> Seq<char>
    decreases s.len(),
{
    if s.len() > 0 && is_white_space(s.last()) {
        trim_end(s.drop_last())
    } else {
        s
    }
}

/// `s` without leading and trailing white space (what `str::trim` returns).
pub open spec fn trim(s: Seq<char>) -> Seq<char> {
    trim_end(trim_start(s))
}

/// The part of `s` before its first comma, or all of `s` when it has none
/// (the first item that `str::split(',')` yields).
pub open spec fn before_first_comma(s: Seq<char>) -> Seq<char>
    decreases s.len(),
{
    if s.len() == 0 {
        s
    } else if s[0] == ',' {
        Seq::empty()
    } else {
        seq![s[0]] + before_first_comma(s.drop_first())
    }
}

/// The field before the first comma holds no comma.
pub proof fn lemma_before_first_comma_has_no_comma(s: Seq<char>)
    ensures
        !before_first_comma(s).contains(','),
    decreases s.len(),
{
    if s.len() > 0 && s[0] != ',' {
        lemma_before_first_comma_has_no_comma(s.drop_first());
        let t = before_first_comma(s.drop_first());
        assert(before_first_comma(s) =~= seq![s[0]] + t);
        if before_first_comma(s).contains(',') {
            let i = choose|i: int| 0 <= i < before_first_comma(s).len() && before_first_comma(s)[i] == ',';
            assert(i > 0);
            assert(t[i - 1] == ',');
        }
    } else if s.len() > 0 {
        assert(before_first_comma(s) =~= Seq::<char>::empty());
    }
}

/// Removing leading white space keeps a suffix of `s`, which starts with
/// something other than white space when it is not empty.
pub proof fn lemma_trim_start(s: Seq<char>)
    ensures
        exists|k: int| 0 <= k <= s.len() && #[trigger] s.subrange(k, s.len() as int) == trim_start(s),
        trim_start(s).len() > 0 ==> !is_white_space(trim_start(s)[0]),
    decreases s.len(),
{
    if s.len() > 0 && is_white_space(s[0]) {
        lemma_trim_start(s.drop_first());
        let k = choose|k: int|
            0 <= k <= s.drop_first().len() && #[trigger] s.drop_first().subrange(
                k,
                s.drop_first().len() as int,
            ) == trim_start(s.drop_first());
        assert(s.subrange(k + 1, s.len() as int) =~= s.drop_first().subrange(k, s.drop_first().len() as int));
    } else {
        assert(s.subrange(0, s.len() as int) =~= s);
    }
}

/// Removing trailing white space keeps a prefix of `s`, which ends with
/// something other than white space when it is not empty.
pub proof fn lemma_trim_end(s: Seq<char>)
    ensures
        exists|k: int| 0 <= k <= s.len() && #[trigger] s.subrange(0, k) == trim_end(s),
        trim_end(s).len() > 0 ==> !is_white_space(trim_end(s).last()),
    decreases s.len(),
{
    if s.len() > 0 && is_white_space(s.last()) {
        lemma_trim_end(s.drop_last());
        let k = choose|k: int|
            0 <= k <= s.drop_last().len() && #[trigger] s.drop_last().subrange(0, k) == trim_end(
                s.drop_last(),
            );
        assert(s.subrange(0, k) =~= s.drop_last().subrange(0, k));
    } else {
        assert(s.subrange(0, s.len() as int) =~= s);
    }
}

/// What removing leading white space drops is white space: `trim_start(s)`
/// is `s` from some position on, and every character before it is white space.
pub proof fn lemma_trim_start_drops_white_space(s: Seq<char>)
    ensures
        exists|k: int|
            0 <= k <= s.len() && #[trigger] s.subrange(k, s.len() as int) == trim_start(s) && (
            forall|j: int| 0 <= j < k ==> is_white_space(s[j])),
    decreases s.len(),
{
    if s.len() > 0 && is_white_space(s[0]) {
        let t = s.drop_first();
        lemma_trim_start_drops_white_space(t);
        let k = choose|k: int|
            0 <= k <= t.len() && #[trigger] t.subrange(k, t.len() as int) == trim_start(t) && (
            forall|j: int| 0 <= j < k ==> is_white_space(t[j]));
        assert(s.subrange(k + 1, s.len() as int) =~= t.subrange(k, t.len() as int));
        assert forall|j: int| 0 <= j < k + 1 implies is_white_space(s[j]) by {
            if j > 0 {
                assert(s[j] == t[j - 1]);
            }
        }
    } else {
        assert(s.subrange(0, s.len() as int) =~= s);
    }
}

/// What removing trailing white space drops is white space: `trim_end(s)` is
/// `s` up to some position, and every character from there on is white space.
pub proof fn lemma_trim_end_drops_white_space(s: Seq<char>)
    ensures
        exists|k: int|
            0 <= k <= s.len() && #[trigger] s.subrange(0, k) == trim_end(s) && (forall|j: int|
                k <= j < s.len() ==> is_white_space(s[j])),
    decreases s.len(),
{
    if s.len() > 0 && is_white_space(s.last()) {
        let t = s.drop_last();
        lemma_trim_end_drops_white_space(t);
        let k = choose|k: int|
            0 <= k <= t.len() && #[trigger] t.subrange(0, k) == trim_end(t) && (forall|j: int|
                k <= j < t.len() ==> is_white_space(t[j]));
        assert(s.subrange(0, k) =~= t.subrange(0, k));
        assert forall|j: int| k <= j < s.len() implies is_white_space(s[j]) by {
            if j < t.len() {
                assert(s[j] == t[j]);
            }
        }
    } else {
        assert(s.subrange(0, s.len() as int) =~= s);
    }
}

/// The field before the first comma is `s` up to its first comma (or all of
/// `s` when it has none).
pub proof fn lemma_first_comma(s: Seq<char>)
    ensures
        exists|c: int|
            0 <= c <= s.len() && (c < s.len() ==> s[c] == ',') && (forall|j: int|
                0 <= j < c ==> s[j] != ',') && #[trigger] s.take(c) == before_first_comma(s),
    decreases s.len(),
{
    if s.len() == 0 {
        assert(s.take(0) =~= s);
    } else if s[0] == ',' {
        assert(s.take(0) =~= Seq::<char>::empty());
    } else {
        let t = s.drop_first();
        lemma_first_comma(t);
        let c = choose|c: int|
            0 <= c <= t.len() && (c < t.len() ==> t[c] == ',') && (forall|j: int|
                0 <= j < c ==> t[j] != ',') && #[trigger] t.take(c) == before_first_comma(t);
        assert(s.take(c + 1) =~= seq![s[0]] + t.take(c));
        assert forall|j: int| 0 <= j < c + 1 implies s[j] != ',' by {
            if j > 0 {
                assert(s[j] == t[j - 1]);
            }
        }
    }
}

proof fn lemma_before_first_comma(s: Seq<char>, k: int)
    requires
        0 <= k <= s.len(),
        k < s.len() ==> s[k] == ',',
        forall|j: int| 0 <= j < k ==> s[j] != ',',
    ensures
        before_first_comma(s) == s.take(k),
    decreases s.len(),
{
    if s.len() > 0 && k > 0 {
        lemma_before_first_comma(s.drop_first(), k - 1);
        assert(s.take(k) =~= seq![s[0]] + s.drop_first().take(k - 1));
    } else if s.len() > 0 {
        assert(s.take(k) =~= Seq::<char>::empty());
    }
}

/// The first comma-separated field of `s`, with surrounding white space removed.
pub fn trimmed_first_field(s: &str) -> (r: String)
    ensures
        r@ == trim(before_first_comma(s@)),
{
    let cs = chars_of(s);
    let n = cs.len();
    let mut k: usize = 0;
    while k < n && cs[k] != ','
        invariant
            n == cs@.len(),
            k <= n,
            forall|j: int| 0 <= j < k ==> cs@[j] != ',',
        decreases n - k,
    {
        k = k + 1;
    }
    proof {
        lemma_before_first_comma(cs@, k as int);
        assert(cs@.take(k as int) =~= cs@.subrange(0, k as int));
    }
    let ghost field = cs@.subrange(0, k as int);
    let mut lo: usize = 0;
    while lo < k && is_whitespace(cs[lo])
        invariant
            k <= n == cs@.len(),
            lo <= k,
            field == cs@.subrange(0, k as int),
            trim_start(field) == trim_start(cs@.subrange(lo as int, k as int)),
        decreases k - lo,
    {
        assert(cs@.subrange(lo as int, k as int).drop_first() =~= cs@.subrange(lo + 1, k as int));
        lo = lo + 1;
    }
    let ghost start = cs@.subrange(lo as int, k as int);
    assert(trim_start(field) == start);
    let mut hi: usize = k;
    while hi > lo && is_whitespace(cs[hi - 1])
        invariant
            k <= n == cs@.len(),
            lo <= hi <= k,
            start == cs@.subrange(lo as int, k as int),
            trim_end(start) == trim_end(cs@.subrange(lo as int, hi as int)),
        decreases hi - lo,
    {
        assert(cs@.subrange(lo as int, hi as int).drop_last() =~= cs@.subrange(lo as int, hi - 1));
        hi = hi - 1;
    }
    string_of_range(&cs, lo, hi)
}


/// Whether `a` and `b` hold the same characters.
pub fn same_text(a: &str, b: &str) -> (eq: bool)
    ensures
        eq == (a@ == b@),
{
    let x = chars_of(a);
    let y = chars_of(b);
    if x.len() != y.len() {
        return false;
    }
    let n = x.len();
    let mut i: usize = 0;
    while i < n
        invariant
            n == x@.len() == y@.len(),
            x@ == a@,
            y@ == b@,
            i <= n,
            x@.take(i as int) =~= y@.take(i as int),
        decreases n - i,
    {
        if x[i] != y[i] {
            assert(x@[i as int] != y@[i as int]);
            return false;
        }
        assert(x@.take(i + 1) =~= x@.take(i as int).push(x@[i as int]));
        assert(y@.take(i + 1) =~= y@.take(i as int).push(y@[i as int]));
        i = i + 1;
    }
    assert(x@ =~= x@.take(n as int));
    assert(y@ =~= y@.take(n as int));
    true
}

} // verus!
