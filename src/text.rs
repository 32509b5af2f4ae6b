//! Text operations the rule engine relies on, each stated over `Seq<char>`.
use vstd::prelude::*;
use vstd::string::StringExecFns;

verus! {

/// What `str::to_lowercase` returns for a string: full Unicode lowercase
/// mapping, which depends on the characters alone.
pub uninterp spec fn lower_of(s: Seq<char>) -> Seq<char>;

/// `needle` occurs as a contiguous run somewhere in `hay`.
pub open spec fn is_infix(needle: Seq<char>, hay: Seq<char>) -> bool {
    exists|i: int|
        0 <= i && i + needle.len() <= hay.len() && #[trigger] hay.subrange(i, i + needle.len())
            == needle
}

/// Relies on `str::to_lowercase`: the Unicode lowercase form of `s`.
#[verifier::external_body]
pub(crate) fn to_lower(s: &str) -> (r: String)
    ensures
        r@ == lower_of(s@),
{
    s.to_lowercase()
}

/// Relies on `str::contains` with a `&str` pattern: true iff `needle`
/// occurs in `hay`.
#[verifier::external_body]
pub(crate) fn contains_str(hay: &str, needle: &str) -> (r: bool)
    ensures
        r == is_infix(needle@, hay@),
{
    hay.contains(needle)
}

/// Relies on `str::starts_with` with a `&str` pattern.
#[verifier::external_body]
pub(crate) fn starts_with_str(hay: &str, prefix: &str) -> (r: bool)
    ensures
        r == prefix@.is_prefix_of(hay@),
{
    hay.starts_with(prefix)
}

/// Relies on `str::ends_with` with a `&str` pattern.
#[verifier::external_body]
pub(crate) fn ends_with_str(hay: &str, suffix: &str) -> (r: bool)
    ensures
        r == suffix@.is_suffix_of(hay@),
{
    hay.ends_with(suffix)
}

/// `c` is one of the ASCII capitals `'A'..='Z'`.
pub open spec fn is_ascii_upper(c: char) -> bool {
    'A' <= c && c <= 'Z'
}

/// The two characters agree once ASCII capitals are mapped to small letters
/// (every other character is left as it is).
pub open spec fn same_char_ignoring_ascii_case(a: char, b: char) -> bool {
    ||| a == b
    ||| is_ascii_upper(a) && (a as u32) + 32 == (b as u32)
    ||| is_ascii_upper(b) && (b as u32) + 32 == (a as u32)
}

/// The two strings agree character by character up to ASCII case.
pub open spec fn same_ignoring_ascii_case(a: Seq<char>, b: Seq<char>) -> bool {
    &&& a.len() == b.len()
    &&& forall|i: int| 0 <= i < a.len() ==> same_char_ignoring_ascii_case(#[trigger] a[i], b[i])
}

/// Relies on `str::eq_ignore_ascii_case`, documented as the same as comparing
/// `to_ascii_lowercase` of both sides.
#[verifier::external_body]
pub(crate) fn eq_ignore_ascii_case_str(a: &str, b: &str) -> (r: bool)
    ensures
        r == same_ignoring_ascii_case(a@, b@),
{
    a.eq_ignore_ascii_case(b)
}

/// What `str::trim` returns: `s` without leading and trailing Unicode white
/// space.
pub uninterp spec fn trim_of(s: Seq<char>) -> Seq<char>;

/// Relies on `str::trim`.
#[verifier::external_body]
pub(crate) fn trim_str(s: &str) -> (r: &str)
    ensures
        r@ == trim_of(s@),
{
    s.trim()
}

/// `s` holds nothing but white space (or nothing at all).
pub open spec fn is_blank(s: Seq<char>) -> bool {
    trim_of(s).len() == 0
}

/// The parts joined with a single space between neighbours.
pub open spec fn joined_with_spaces(parts: Seq<Seq<char>>) -> Seq<char>
    decreases parts.len(),
{
    if parts.len() == 0 {
        Seq::empty()
    } else if parts.len() == 1 {
        parts[0]
    } else {
        joined_with_spaces(parts.drop_last()) + seq![' '] + parts.last()
    }
}

/// The character views of a list of strings.
pub open spec fn views(v: Seq<String>) -> Seq<Seq<char>> {
    v.map_values(|s: String| s@)
}

/// Joins `parts` with a single space between neighbours.
pub fn join_with_spaces(parts: &Vec<String>) -> (r: String)
    ensures
        r@ == joined_with_spaces(views(parts@)),
{
    let mut out = String::new();
    let mut i: usize = 0;
    while i < parts.len()
        invariant
            i <= parts.len(),
            out@ == joined_with_spaces(views(parts@).take(i as int)),
        decreases parts.len() - i,
    {
        let ghost before = out@;
        if i > 0 {
            out.append(" ");
        }
        out.append(parts[i].as_str());
        proof {
            reveal_strlit(" ");
            let vs = views(parts@);
            let next = vs.take(i as int + 1);
            assert(next.drop_last() =~= vs.take(i as int));
            assert(next.last() == parts@[i as int]@);
            if i == 0 {
                assert(out@ =~= next[0]);
            } else {
                assert(out@ =~= before + seq![' '] + next.last());
            }
        }
        i = i + 1;
    }
    proof {
        assert(views(parts@).take(parts@.len() as int) =~= views(parts@));
    }
    out
}

/// `c` is one of `'0'..='9'`.
pub open spec fn is_digit(c: char) -> bool {
    '0' <= c && c <= '9'
}

/// The value of a string of decimal digits.
pub open spec fn digits_value(s: Seq<char>) -> nat
    decreases s.len(),
{
    if s.len() == 0 {
        0
    } else {
        digits_value(s.drop_last()) * 10 + ((s.last() as u32) - ('0' as u32)) as nat
    }
}

/// `s` without one leading `'+'`.
pub open spec fn unsigned_digits(s: Seq<char>) -> Seq<char> {
    if s.len() > 0 && s[0] == '+' {
        s.drop_first()
    } else {
        s
    }
}

/// The unsigned integer that `s` spells (decimal digits, optionally after
/// one `'+'`), when there is one and it is at most `max`.
pub open spec fn parse_unsigned(s: Seq<char>, max: nat) -> Option<nat> {
    let d = unsigned_digits(s);
    if d.len() > 0 && (forall|i: int| 0 <= i < d.len() ==> is_digit(#[trigger] d[i]))
        && digits_value(d) <= max {
        Some(digits_value(d))
    } else {
        None
    }
}

/// Relies on `str::parse::<u64>`: succeeds exactly on decimal digits,
/// optionally after one `'+'`, whose value fits in a `u64`.
#[verifier::external_body]
pub(crate) fn parse_u64(s: &str) -> (r: Option<u64>)
    ensures
        r is Some <==> parse_unsigned(s@, u64::MAX as nat) is Some,
        r matches Some(v) ==> v == parse_unsigned(s@, u64::MAX as nat)->0,
{
    s.parse::<u64>().ok()
}

/// Relies on `str::parse::<u16>`: succeeds exactly on decimal digits,
/// optionally after one `'+'`, whose value fits in a `u16`.
#[verifier::external_body]
pub(crate) fn parse_u16(s: &str) -> (r: Option<u16>)
    ensures
        r is Some <==> parse_unsigned(s@, u16::MAX as nat) is Some,
        r matches Some(v) ==> v == parse_unsigned(s@, u16::MAX as nat)->0,
{
    s.parse::<u16>().ok()
}

/// Relies on `str::parse::<bool>`: `"true"` and `"false"` and nothing else.
#[verifier::external_body]
pub(crate) fn parse_bool(s: &str) -> (r: Option<bool>)
    ensures
        r == (if s@ == "true"@ {
            Some(true)
        } else if s@ == "false"@ {
            Some(false)
        } else {
            None::<bool>
        }),
{
    s.parse::<bool>().ok()
}

/// `s` without the `'/'` characters at its end.
pub open spec fn without_trailing_slashes(s: Seq<char>) -> Seq<char>
    decreases s.len(),
{
    if s.len() > 0 && s.last() == '/' {
        without_trailing_slashes(s.drop_last())
    } else {
        s
    }
}

/// Relies on `str::trim_end_matches` with the pattern `'/'`.
#[verifier::external_body]
pub(crate) fn trim_trailing_slashes(s: &str) -> (r: String)
    ensures
        r@ == without_trailing_slashes(s@),
{
    s.trim_end_matches('/').to_string()
}

/// Relies on `str` equality: the same characters in the same order.
#[verifier::external_body]
pub(crate) fn same_str(a: &str, b: &str) -> (r: bool)
    ensures
        r == (a@ == b@),
{
    a == b
}

/// Relies on `str::strip_prefix` with a `char` pattern.
#[verifier::external_body]
pub(crate) fn strip_prefix_char(s: &str, c: char) -> (r: Option<&str>)
    ensures
        r is Some <==> (s@.len() > 0 && s@[0] == c),
        r matches Some(t) ==> t@ == s@.drop_first(),
{
    s.strip_prefix(c)
}

/// Relies on `str::strip_suffix` with a `char` pattern.
#[verifier::external_body]
pub(crate) fn strip_suffix_char(s: &str, c: char) -> (r: Option<&str>)
    ensures
        r is Some <==> (s@.len() > 0 && s@.last() == c),
        r matches Some(t) ==> t@ == s@.drop_last(),
{
    s.strip_suffix(c)
}

/// `s` without the double quotes around it, when it has them.
pub open spec fn unquoted(s: Seq<char>) -> Seq<char> {
    if s.len() >= 2 && s[0] == '"' && s.last() == '"' {
        s.subrange(1, s.len() - 1)
    } else {
        s
    }
}

/// Removes the double quotes around `s`, when it has them.
pub fn strip_quotes(s: &str) -> (r: String)
    ensures
        r@ == unquoted(s@),
{
    match strip_prefix_char(s, '"') {
        Some(inner) => match strip_suffix_char(inner, '"') {
            Some(core) => {
                proof {
                    assert(core@ =~= s@.subrange(1, s@.len() - 1));
                }
                core.to_string()
            },
            None => s.to_string(),
        },
        None => s.to_string(),
    }
}

} // verus!
