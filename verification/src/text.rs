//! Text primitives over `Seq<char>`: whitespace trimming, prefixes, suffixes and
//! the lexicographic order of strings.

use vstd::prelude::*;

verus! {

/// The characters of the Unicode `White_Space` property.
pub open spec fn is_white_space(c: char) -> bool {
    let n = c as u32;
    (0x09 <= n && n <= 0x0D) || n == 0x20 || n == 0x85 || n == 0xA0 || n == 0x1680 || (0x2000 <= n
        && n <= 0x200A) || n == 0x2028 || n == 0x2029 || n == 0x202F || n == 0x205F || n
        == 0x3000
}

/// `s` without its leading white space.
pub open spec fn trim_start(s: Seq<char>) -> Seq<char>
    decreases s.len(),
{
    if s.len() > 0 && is_white_space(s[0]) {
        trim_start(s.drop_first())
    } else {
        s
    }
}

/// `s` without its trailing white space.
pub open spec fn trim_end(s: Seq<char>) -> Seq<char>
    decreases s.len(),
{
    if s.len() > 0 && is_white_space(s.last()) {
        trim_end(s.drop_last())
    } else {
        s
    }
}

/// `s` without leading and trailing white space.
pub open spec fn trimmed(s: Seq<char>) -> Seq<char> {
    trim_end(trim_start(s))
}

/// `s` with every trailing occurrence of `c` removed.
pub open spec fn strip_trailing(s: Seq<char>, c: char) -> Seq<char>
    decreases s.len(),
{
    if s.len() > 0 && s.last() == c {
        strip_trailing(s.drop_last(), c)
    } else {
        s
    }
}

/// Whether `s` ends with `suffix`.
pub open spec fn has_suffix(s: Seq<char>, suffix: Seq<char>) -> bool {
    suffix.len() <= s.len() && s.subrange(s.len() - suffix.len(), s.len() as int) == suffix
}

/// `s` without its last `n` characters.
pub open spec fn drop_suffix(s: Seq<char>, n: nat) -> Seq<char>
    recommends
        n <= s.len(),
{
    s.subrange(0, s.len() - n)
}

/// Strict lexicographic order by code point, the order of `str`.
pub open spec fn lex_less(a: Seq<char>, b: Seq<char>) -> bool
    decreases a.len(),
{
    if b.len() == 0 {
        false
    } else if a.len() == 0 {
        true
    } else if a[0] != b[0] {
        (a[0] as u32) < (b[0] as u32)
    } else {
        lex_less(a.drop_first(), b.drop_first())
    }
}

/// Whether no element of `names` is lexicographically greater than a later one.
pub open spec fn is_sorted(names: Seq<Seq<char>>) -> bool {
    forall|i: int, j: int| 0 <= i < j < names.len() ==> !lex_less(names[j], names[i])
}

/// The character sequences held by a vector of strings.
pub open spec fn views(names: Seq<String>) -> Seq<Seq<char>> {
    names.map_values(|s: String| s@)
}

/// `str::trim`: the slice left after removing leading and trailing white space,
/// where white space is the Unicode `White_Space` property.
#[verifier::external_body]
pub(crate) fn trim<'a>(s: &'a str) -> (r: &'a str)
    ensures
        r@ == trimmed(s@),
{
    s.trim()
}

/// `str::starts_with` for a string pattern: whether `prefix` is a prefix of `s`.
#[verifier::external_body]
pub(crate) fn starts_with(s: &str, prefix: &str) -> (r: bool)
    ensures
        r == prefix@.is_prefix_of(s@),
{
    s.starts_with(prefix)
}

/// `str::strip_suffix` for a string pattern: the part of `s` before `suffix`
/// when `s` ends with it, and nothing otherwise.
#[verifier::external_body]
pub(crate) fn strip_suffix<'a>(s: &'a str, suffix: &str) -> (r: Option<&'a str>)
    ensures
        r is Some <==> has_suffix(s@, suffix@),
        r matches Some(rest) ==> rest@ == drop_suffix(s@, suffix@.len()),
{
    s.strip_suffix(suffix)
}

/// `slice::sort` on strings: the same strings, rearranged into ascending
/// lexicographic order.
#[verifier::external_body]
pub(crate) fn sort_strings(names: &mut Vec<String>)
    ensures
        views(final(names)@).to_multiset() == views(old(names)@).to_multiset(),
        is_sorted(views(final(names)@)),
{
    names.sort()
}

/// `s` with every trailing `/` removed.
pub fn trim_trailing_slashes<'a>(s: &'a str) -> (r: &'a str)
    ensures
        r@ == strip_trailing(s@, '/'),
{
    let mut rest: &'a str = s;
    loop
        invariant
            strip_trailing(rest@, '/') == strip_trailing(s@, '/'),
        decreases rest@.len(),
    {
        proof {
            reveal_strlit("/");
        }
        match strip_suffix(rest, "/") {
            Some(shorter) => {
                proof {
                    assert(has_suffix(rest@, "/"@));
                    assert(rest@.subrange(rest@.len() - 1, rest@.len() as int)[0] == '/');
                    assert(rest@.last() == '/');
                    assert(shorter@ == rest@.drop_last());
                }
                rest = shorter;
            },
            None => {
                proof {
                    if rest@.len() > 0 && rest@.last() == '/' {
                        assert(rest@.subrange(rest@.len() - 1, rest@.len() as int) =~= "/"@);
                    }
                }
                return rest;
            },
        }
    }
}

} // verus!
