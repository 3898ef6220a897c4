//! Text helpers: ASCII case folding, Unicode trimming, UTF-8 decoding and
//! string concatenation, each stated over the character sequence (`@`).
use vstd::prelude::*;
use vstd::utf8::{decode_utf8, valid_utf8};

verus! {

/// The ASCII lowercase form of a character; every other character is unchanged.
pub open spec fn ascii_lower(c: char) -> char {
    if 'A' <= c && c <= 'Z' {
        ((c as u32) + 32) as char
    } else {
        c
    }
}

/// The string with every ASCII uppercase letter replaced by its lowercase form.
pub open spec fn ascii_fold(s: Seq<char>) -> Seq<char> {
    s.map_values(|c: char| ascii_lower(c))
}

/// Two strings are an ASCII case-insensitive match.
pub open spec fn ascii_case_eq(a: Seq<char>, b: Seq<char>) -> bool {
    ascii_fold(a) == ascii_fold(b)
}

/// The characters that carry the Unicode `White_Space` property.
pub open spec fn is_white_space(c: char) -> bool {
    let v = c as u32;
    ||| 0x09 <= v <= 0x0D
    ||| v == 0x20
    ||| v == 0x85
    ||| v == 0xA0
    ||| v == 0x1680
    ||| 0x2000 <= v <= 0x200A
    ||| v == 0x2028
    ||| v == 0x2029
    ||| v == 0x202F
    ||| v == 0x205F
    ||| v == 0x3000
}

/// The string without its leading white space.
pub open spec fn trim_start(s: Seq<char>) -> Seq<char>
    decreases s.len(),
{
    if s.len() > 0 && is_white_space(s[0]) {
        trim_start(s.drop_first())
    } else {
        s
    }
}

/// The string without its trailing white space.
pub open spec fn trim_end(s: Seq<char>) -> Seq<char>
    decreases s.len(),
{
    if s.len() > 0 && is_white_space(s.last()) {
        trim_end(s.drop_last())
    } else {
        s
    }
}

/// The string without leading and trailing white space.
pub open spec fn trim(s: Seq<char>) -> Seq<char> {
    trim_end(trim_start(s))
}

/// Trimming removes white space only, and all of it at both ends: the
/// result is a contiguous part of the string, everything before and after
/// it is white space, and it neither starts nor ends with white space.
pub proof fn lemma_trim_meaning(s: Seq<char>)
    ensures
        exists|i: int, j: int|
            0 <= i <= j <= s.len() && trim(s) == s.subrange(i, j) && (forall|k: int|
                0 <= k < i ==> is_white_space(#[trigger] s[k])) && (forall|k: int|
                j <= k < s.len() ==> is_white_space(#[trigger] s[k])),
        trim(s).len() > 0 ==> !is_white_space(trim(s)[0]) && !is_white_space(trim(s).last()),
{
    let i = lemma_trim_start_meaning(s);
    let t = trim_start(s);
    let j = lemma_trim_end_meaning(t);
    assert(trim(s) =~= s.subrange(i, i + j));
    assert forall|k: int| i + j <= k < s.len() implies is_white_space(#[trigger] s[k]) by {
        assert(s[k] == t[k - i]);
    }
}

/// `trim_start` drops a prefix of white space, up to a character that is
/// not white space.
proof fn lemma_trim_start_meaning(s: Seq<char>) -> (i: int)
    ensures
        0 <= i <= s.len(),
        trim_start(s) == s.subrange(i, s.len() as int),
        forall|k: int| 0 <= k < i ==> is_white_space(#[trigger] s[k]),
        i < s.len() ==> !is_white_space(s[i]),
    decreases s.len(),
{
    if s.len() > 0 && is_white_space(s[0]) {
        let i0 = lemma_trim_start_meaning(s.drop_first());
        assert(s.drop_first().subrange(i0, s.drop_first().len() as int) =~= s.subrange(
            i0 + 1,
            s.len() as int,
        ));
        assert forall|k: int| 0 <= k < i0 + 1 implies is_white_space(#[trigger] s[k]) by {
            if k > 0 {
                assert(s[k] == s.drop_first()[k - 1]);
            }
        }
        i0 + 1
    } else {
        assert(s.subrange(0, s.len() as int) =~= s);
        0
    }
}

/// `trim_end` drops a suffix of white space, after a character that is not
/// white space.
proof fn lemma_trim_end_meaning(s: Seq<char>) -> (j: int)
    ensures
        0 <= j <= s.len(),
        trim_end(s) == s.subrange(0, j),
        forall|k: int| j <= k < s.len() ==> is_white_space(#[trigger] s[k]),
        j > 0 ==> !is_white_space(s[j - 1]),
    decreases s.len(),
{
    if s.len() > 0 && is_white_space(s.last()) {
        let j0 = lemma_trim_end_meaning(s.drop_last());
        assert(s.drop_last().subrange(0, j0) =~= s.subrange(0, j0));
        assert forall|k: int| j0 <= k < s.len() implies is_white_space(#[trigger] s[k]) by {
            if k < s.len() - 1 {
                assert(s[k] == s.drop_last()[k]);
            }
        }
        j0
    } else {
        assert(s.subrange(0, s.len() as int) =~= s);
        s.len() as int
    }
}

/// Collects the characters of a string slice.
pub fn chars_of(s: &str) -> (out: Vec<char>)
    ensures
        out@ == s@,
{
    let mut out: Vec<char> = Vec::new();
    for c in it: s.chars()
        invariant
            out@ == it.seq().take(it.index() as int),
    {
        out.push(c);
    }
    out
}

/// The ASCII lowercase form of one character.
pub fn to_ascii_lower(c: char) -> (r: char)
    ensures
        r == ascii_lower(c),
{
    if 'A' <= c && c <= 'Z' {
        let b: u8 = c as u8;
        assert(b == c as u32);
        ((b + 32) as char)
    } else {
        c
    }
}

/// Checks that two strings are an ASCII case-insensitive match: they are
/// equal once every ASCII uppercase letter is replaced by its lowercase form.
pub fn eq_ignore_ascii_case(a: &str, b: &str) -> (r: bool)
    ensures
        r == ascii_case_eq(a@, b@),
        r == (a@.len() == b@.len() && forall|i: int|
            0 <= i < a@.len() ==> {
                ||| #[trigger] a@[i] == b@[i]
                ||| 'A' <= a@[i] && a@[i] <= 'Z' && b@[i] as u32 == a@[i] as u32 + 32
                ||| 'A' <= b@[i] && b@[i] <= 'Z' && a@[i] as u32 == b@[i] as u32 + 32
            }),
{
    proof {
        lemma_ascii_case_eq_meaning(a@, b@);
    }
    let ca = chars_of(a);
    let cb = chars_of(b);
    if ca.len() != cb.len() {
        proof {
            assert(ascii_fold(a@).len() != ascii_fold(b@).len());
        }
        return false;
    }
    let n = ca.len();
    let mut i: usize = 0;
    while i < n
        invariant
            n == ca@.len(),
            n == cb@.len(),
            ca@ == a@,
            cb@ == b@,
            i <= n,
            forall|j: int| 0 <= j < i ==> ascii_lower(#[trigger] ca@[j]) == ascii_lower(cb@[j]),
        decreases n - i,
    {
        let x = to_ascii_lower(ca[i]);
        let y = to_ascii_lower(cb[i]);
        if x != y {
            proof {
                assert(ascii_fold(a@)[i as int] != ascii_fold(b@)[i as int]);
            }
            return false;
        }
        i = i + 1;
    }
    proof {
        assert(ascii_fold(a@) =~= ascii_fold(b@));
    }
    true
}

/// ASCII case-insensitive matching is reflexive.
pub proof fn lemma_ascii_case_eq_reflexive(a: Seq<char>)
    ensures
        ascii_case_eq(a, a),
{
}

/// ASCII case-insensitive matching is symmetric.
pub proof fn lemma_ascii_case_eq_symmetric(a: Seq<char>, b: Seq<char>)
    ensures
        ascii_case_eq(a, b) == ascii_case_eq(b, a),
{
}

/// ASCII case-insensitive matching is transitive.
pub proof fn lemma_ascii_case_eq_transitive(a: Seq<char>, b: Seq<char>, c: Seq<char>)
    requires
        ascii_case_eq(a, b),
        ascii_case_eq(b, c),
    ensures
        ascii_case_eq(a, c),
{
}

/// What the fold computes: an ASCII uppercase letter becomes the letter 32
/// code points later (its lowercase form), and every other character is
/// left unchanged.
pub proof fn lemma_ascii_lower_meaning(c: char)
    ensures
        'A' <= c && c <= 'Z' ==> ascii_lower(c) as u32 == c as u32 + 32 && 'a' <= ascii_lower(c)
            && ascii_lower(c) <= 'z',
        !('A' <= c && c <= 'Z') ==> ascii_lower(c) == c,
{
}

/// Two strings are an ASCII case-insensitive match exactly when they have
/// the same length and, position by position, the characters are equal or
/// are the upper- and lowercase forms of the same ASCII letter.
pub proof fn lemma_ascii_case_eq_meaning(s: Seq<char>, t: Seq<char>)
    ensures
        ascii_case_eq(s, t) <==> (s.len() == t.len() && forall|i: int|
            0 <= i < s.len() ==> {
                ||| #[trigger] s[i] == t[i]
                ||| 'A' <= s[i] && s[i] <= 'Z' && t[i] as u32 == s[i] as u32 + 32
                ||| 'A' <= t[i] && t[i] <= 'Z' && s[i] as u32 == t[i] as u32 + 32
            }),
{
    let fs = ascii_fold(s);
    let ft = ascii_fold(t);
    assert forall|i: int| 0 <= i < s.len() && i < t.len() implies (fs[i] == ft[i] <==> {
        ||| #[trigger] s[i] == t[i]
        ||| 'A' <= s[i] && s[i] <= 'Z' && t[i] as u32 == s[i] as u32 + 32
        ||| 'A' <= t[i] && t[i] <= 'Z' && s[i] as u32 == t[i] as u32 + 32
    }) by {
        lemma_ascii_lower_meaning(s[i]);
        lemma_ascii_lower_meaning(t[i]);
        lemma_char_u32_injective(fs[i], ft[i]);
        lemma_char_u32_injective(s[i], t[i]);
    }
    if s.len() == t.len() && (forall|i: int|
        0 <= i < s.len() ==> {
            ||| #[trigger] s[i] == t[i]
            ||| 'A' <= s[i] && s[i] <= 'Z' && t[i] as u32 == s[i] as u32 + 32
            ||| 'A' <= t[i] && t[i] <= 'Z' && s[i] as u32 == t[i] as u32 + 32
        }) {
        assert(fs =~= ft);
    }
    if ascii_case_eq(s, t) {
        assert(fs.len() == s.len() && ft.len() == t.len());
        assert forall|i: int| 0 <= i < s.len() implies {
            ||| #[trigger] s[i] == t[i]
            ||| 'A' <= s[i] && s[i] <= 'Z' && t[i] as u32 == s[i] as u32 + 32
            ||| 'A' <= t[i] && t[i] <= 'Z' && s[i] as u32 == t[i] as u32 + 32
        } by {
            assert(fs[i] == ft[i]);
        }
    }
}

/// Characters with the same scalar value are the same character.
proof fn lemma_char_u32_injective(a: char, b: char)
    ensures
        (a as u32 == b as u32) == (a == b),
{
    if a as u32 == b as u32 {
        vstd::utf8::char_u32_cast(a, a as u32);
        vstd::utf8::char_u32_cast(b, b as u32);
    }
}

/// A string with the given prefix and rest.
pub fn concat_str(prefix: &str, rest: &str) -> (r: String)
    ensures
        r@ == prefix@ + rest@,
{
    let mut r = String::from_str(prefix);
    r.append(rest);
    r
}

/// Wraps `str::trim`: the slice without leading and trailing characters of
/// the Unicode `White_Space` property, copied into a new `String`.
#[verifier::external_body]
pub(crate) fn trim_whitespace(s: &str) -> (r: String)
    ensures
        r@ == trim(s@),
{
    s.trim().to_string()
}

/// Wraps `String::from_utf8`: the decoded text when the bytes are valid
/// UTF-8, and nothing otherwise.
#[verifier::external_body]
pub(crate) fn decode_utf8_bytes(bytes: Vec<u8>) -> (r: Option<String>)
    ensures
        r is Some <==> valid_utf8(bytes@),
        r matches Some(s) ==> s@ == decode_utf8(bytes@),
{
    String::from_utf8(bytes).ok()
}

} // verus!
