//! Text primitives shared by the colour and settings logic: Unicode
//! whitespace trimming, upper-casing and appending single characters.
use vstd::prelude::*;
use vstd::utf8::*;

verus! {

/// The characters with the Unicode `White_Space` property, which is what
/// `char::is_whitespace` (and therefore `str::trim`) accepts.
pub open spec fn is_unicode_whitespace(c: char) -> bool {
    ||| '\u{9}' <= c <= '\u{d}'
    ||| c == ' '
    ||| c == '\u{85}'
    ||| c == '\u{a0}'
    ||| c == '\u{1680}'
    ||| '\u{2000}' <= c <= '\u{200a}'
    ||| c == '\u{2028}'
    ||| c == '\u{2029}'
    ||| c == '\u{202f}'
    ||| c == '\u{205f}'
    ||| c == '\u{3000}'
}

/// `s` without its leading whitespace.
pub open spec fn trim_start_whitespace(s: Seq<char>) -> Seq<char>
    decreases s.len(),
{
    if s.len() > 0 && is_unicode_whitespace(s[0]) {
        trim_start_whitespace(s.drop_first())
    } else {
        s
    }
}

/// `s` without its trailing whitespace.
pub open spec fn trim_end_whitespace(s: Seq<char>) -> Seq<char>
    decreases s.len(),
{
    if s.len() > 0 && is_unicode_whitespace(s.last()) {
        trim_end_whitespace(s.drop_last())
    } else {
        s
    }
}

/// `s` without leading and trailing whitespace, as `str::trim` returns it.
pub open spec fn trim_whitespace(s: Seq<char>) -> Seq<char> {
    trim_end_whitespace(trim_start_whitespace(s))
}

/// A sequence that neither starts nor ends with whitespace is its own trim.
pub proof fn lemma_trim_identity(s: Seq<char>)
    requires
        s.len() > 0,
        !is_unicode_whitespace(s[0]),
        !is_unicode_whitespace(s.last()),
    ensures
        trim_whitespace(s) == s,
{
}

proof fn lemma_trim_start_front(s: Seq<char>)
    ensures
        trim_start_whitespace(s).len() == 0 || !is_unicode_whitespace(trim_start_whitespace(s)[0]),
    decreases s.len(),
{
    if s.len() > 0 && is_unicode_whitespace(s[0]) {
        lemma_trim_start_front(s.drop_first());
    }
}

proof fn lemma_trim_end_prefix(s: Seq<char>)
    ensures
        trim_end_whitespace(s).len() <= s.len(),
        trim_end_whitespace(s) == s.subrange(0, trim_end_whitespace(s).len() as int),
        trim_end_whitespace(s).len() == 0 || !is_unicode_whitespace(trim_end_whitespace(s).last()),
    decreases s.len(),
{
    if s.len() > 0 && is_unicode_whitespace(s.last()) {
        lemma_trim_end_prefix(s.drop_last());
        let t = trim_end_whitespace(s.drop_last());
        assert(s.drop_last().subrange(0, t.len() as int) =~= s.subrange(0, t.len() as int));
    } else {
        assert(s.subrange(0, s.len() as int) =~= s);
    }
}

/// Trimmed text is empty or neither starts nor ends with whitespace.
pub proof fn lemma_trimmed_ends(s: Seq<char>)
    ensures
        trim_whitespace(s).len() == 0 || (!is_unicode_whitespace(trim_whitespace(s)[0])
            && !is_unicode_whitespace(trim_whitespace(s).last())),
{
    let a = trim_start_whitespace(s);
    lemma_trim_start_front(s);
    lemma_trim_end_prefix(a);
    let t = trim_end_whitespace(a);
    if t.len() > 0 {
        assert(t[0] == a[0]);
    }
}

/// ASCII upper-casing of one character: `a`..`z` become `A`..`Z`, every
/// other character stays.
pub open spec fn ascii_upper_char(c: char) -> char {
    if 'a' <= c <= 'z' {
        ((c as u32) - 32) as char
    } else {
        c
    }
}

/// ASCII upper-casing of every character of `s`.
pub open spec fn ascii_uppercase(s: Seq<char>) -> Seq<char> {
    Seq::new(s.len(), |i: int| ascii_upper_char(s[i]))
}

/// What `str::to_uppercase` returns for a string with the characters `s`:
/// the Unicode upper-case mapping of every character, which may change the
/// length. It depends on the characters alone (no locale is consulted).
pub uninterp spec fn spec_to_uppercase(s: Seq<char>) -> Seq<char>;

/// Upper-cased text: ASCII text letter by letter, other text as the
/// Unicode mapping named by `spec_to_uppercase` gives it.
pub open spec fn uppercase_text(s: Seq<char>) -> Seq<char> {
    if is_ascii_chars(s) {
        ascii_uppercase(s)
    } else {
        spec_to_uppercase(s)
    }
}

/// Calls `str::trim`, which returns the slice with leading and trailing
/// `White_Space` characters removed.
#[verifier::external_body]
pub(crate) fn trim_str(s: &str) -> (r: &str)
    ensures
        r@ == trim_whitespace(s@),
{
    s.trim()
}

/// Calls `str::to_uppercase`. Its result is named by `spec_to_uppercase`;
/// on ASCII text the Unicode upper-case mapping is the ASCII one, which the
/// second clause states. Nothing is said of how non-ASCII characters map.
#[verifier::external_body]
pub(crate) fn to_uppercase_str(s: &str) -> (r: String)
    ensures
        r@ == spec_to_uppercase(s@),
        is_ascii_chars(s@) ==> r@ == ascii_uppercase(s@),
{
    s.to_uppercase()
}

/// Calls `String::push`, which appends one character.
#[verifier::external_body]
pub(crate) fn push_char(s: &mut String, c: char)
    ensures
        final(s)@ == old(s)@.push(c),
{
    s.push(c)
}

} // verus!
