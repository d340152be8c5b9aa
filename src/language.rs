//! Maps caller language codes to the languages the backend recognises.

use vstd::prelude::*;
use vstd::string::*;

verus! {

/// A language of the resolution table.
#[derive(Clone, Copy, Debug, PartialEq, Eq, Structural, Hash)]
pub enum Language {
    English,
    Chinese,
    German,
    Spanish,
    Russian,
    Korean,
    French,
    Japanese,
    Portuguese,
    Turkish,
}

/// The lower-case two-letter code of each language of the table.
pub open spec fn code_of(l: Language) -> Seq<char> {
    match l {
        Language::English => seq!['e', 'n'],
        Language::Chinese => seq!['z', 'h'],
        Language::German => seq!['d', 'e'],
        Language::Spanish => seq!['e', 's'],
        Language::Russian => seq!['r', 'u'],
        Language::Korean => seq!['k', 'o'],
        Language::French => seq!['f', 'r'],
        Language::Japanese => seq!['j', 'a'],
        Language::Portuguese => seq!['p', 't'],
        Language::Turkish => seq!['t', 'r'],
    }
}

/// Whether `s` is the code of some language of the table.
pub open spec fn is_supported(s: Seq<char>) -> bool {
    exists|l: Language| code_of(l) == s
}

/// The language that a lower-cased code stands for; English for anything else.
pub open spec fn language_for(s: Seq<char>) -> Language {
    if s == code_of(Language::Chinese) {
        Language::Chinese
    } else if s == code_of(Language::German) {
        Language::German
    } else if s == code_of(Language::Spanish) {
        Language::Spanish
    } else if s == code_of(Language::Russian) {
        Language::Russian
    } else if s == code_of(Language::Korean) {
        Language::Korean
    } else if s == code_of(Language::French) {
        Language::French
    } else if s == code_of(Language::Japanese) {
        Language::Japanese
    } else if s == code_of(Language::Portuguese) {
        Language::Portuguese
    } else if s == code_of(Language::Turkish) {
        Language::Turkish
    } else {
        Language::English
    }
}

pub open spec fn is_ascii_chars(s: Seq<char>) -> bool {
    forall|i: int| 0 <= i < s.len() ==> (s[i] as u32) < 128
}

pub open spec fn ascii_lower_char(c: char) -> char {
    if 'A' <= c && c <= 'Z' {
        ((c as u32) + 32) as char
    } else {
        c
    }
}

/// `s` with each ASCII capital replaced by its small letter.
pub open spec fn ascii_lower(s: Seq<char>) -> Seq<char> {
    s.map_values(|c: char| ascii_lower_char(c))
}

/// What `str::to_lowercase` returns on `s`.
pub uninterp spec fn lower_of(s: Seq<char>) -> Seq<char>;

/// Relies on str::to_lowercase: the result is a function of the characters
/// alone. It lowers by the Unicode case tables, which map `A` to `Z` to `a` to
/// `z`, one for one, and leave every other ASCII character as it is.
#[verifier::external_body]
fn to_lowercase(s: &str) -> (r: String)
    ensures
        r@ == lower_of(s@),
        is_ascii_chars(s@) ==> r@ == ascii_lower(s@),
{
    s.to_lowercase()
}

/// Whether `s` is exactly the two characters `a`, `b`.
fn is_code(s: &str, a: char, b: char) -> (r: bool)
    ensures
        r == (s@ == seq![a, b]),
{
    if s.unicode_len() != 2 {
        return false;
    }
    let c0 = s.get_char(0);
    let c1 = s.get_char(1);
    if c0 == a && c1 == b {
        assert(s@ =~= seq![a, b]);
        true
    } else {
        false
    }
}

/// Resolves a caller's language code, ignoring case. A code outside the
/// table, the empty one included, resolves to English: this never fails.
pub fn from_language_code(code: &str) -> (r: Option<Language>)
    ensures
        r == Some(language_for(lower_of(code@))),
        is_ascii_chars(code@) ==> r == Some(language_for(ascii_lower(code@))),
{
    let lowered = to_lowercase(code);
    let s = lowered.as_str();
    let l = if is_code(s, 'z', 'h') {
        Language::Chinese
    } else if is_code(s, 'd', 'e') {
        Language::German
    } else if is_code(s, 'e', 's') {
        Language::Spanish
    } else if is_code(s, 'r', 'u') {
        Language::Russian
    } else if is_code(s, 'k', 'o') {
        Language::Korean
    } else if is_code(s, 'f', 'r') {
        Language::French
    } else if is_code(s, 'j', 'a') {
        Language::Japanese
    } else if is_code(s, 'p', 't') {
        Language::Portuguese
    } else if is_code(s, 't', 'r') {
        Language::Turkish
    } else {
        Language::English
    };
    Some(l)
}

/// Each code of the table resolves to its own language.
pub proof fn lemma_code_resolves_to_its_language(l: Language)
    ensures
        language_for(code_of(l)) == l,
{
    let c = code_of(l);
    assert(c.len() == 2);
    match l {
        Language::English => {
            assert(c[0] != code_of(Language::Chinese)[0]);
            assert(c[0] != code_of(Language::German)[0]);
            assert(c[1] != code_of(Language::Spanish)[1]);
            assert(c[0] != code_of(Language::Russian)[0]);
            assert(c[0] != code_of(Language::Korean)[0]);
            assert(c[0] != code_of(Language::French)[0]);
            assert(c[0] != code_of(Language::Japanese)[0]);
            assert(c[0] != code_of(Language::Portuguese)[0]);
            assert(c[0] != code_of(Language::Turkish)[0]);
        },
        _ => {},
    }
}

/// Any code outside the table, malformed or empty ones included, resolves
/// to English.
pub proof fn lemma_unsupported_code_is_english(s: Seq<char>)
    requires
        !is_supported(s),
    ensures
        language_for(s) == Language::English,
{
    assert(code_of(Language::Chinese) != s);
    assert(code_of(Language::German) != s);
    assert(code_of(Language::Spanish) != s);
    assert(code_of(Language::Russian) != s);
    assert(code_of(Language::Korean) != s);
    assert(code_of(Language::French) != s);
    assert(code_of(Language::Japanese) != s);
    assert(code_of(Language::Portuguese) != s);
    assert(code_of(Language::Turkish) != s);
}

/// Resolution ignores case: an ASCII code whose letters, lowered, spell the
/// code of a language of the table resolves to that language, whatever the
/// case of each letter.
pub proof fn lemma_resolution_ignores_case(s: Seq<char>, l: Language)
    requires
        is_ascii_chars(s),
        ascii_lower(s) == code_of(l),
    ensures
        language_for(ascii_lower(s)) == l,
{
    lemma_code_resolves_to_its_language(l);
}

} // verus!
