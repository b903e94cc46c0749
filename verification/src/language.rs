//! Validation of two-letter language codes.

use vstd::prelude::*;
use vstd::string::*;

verus! {

/// Whether `c` is one of the 52 ASCII letters.
pub open spec fn is_ascii_letter(c: char) -> bool {
    ('a' <= c && c <= 'z') || ('A' <= c && c <= 'Z')
}

/// The lowercase form of an ASCII uppercase letter; every other character
/// is kept.
pub open spec fn ascii_lower(c: char) -> char {
    if 'A' <= c && c <= 'Z' {
        ((c as u8) + 32) as char
    } else {
        c
    }
}

/// Whether `s` is a language code: exactly two characters, both ASCII
/// letters.
pub open spec fn is_lang_code(s: Seq<char>) -> bool {
    &&& s.len() == 2
    &&& is_ascii_letter(s[0])
    &&& is_ascii_letter(s[1])
}

/// Whether `s` is a language code in the form in which it is kept: two
/// lowercase ASCII letters.
pub open spec fn is_folded_lang_code(s: Seq<char>) -> bool {
    &&& s.len() == 2
    &&& 'a' <= s[0] <= 'z'
    &&& 'a' <= s[1] <= 'z'
}

/// `s` with each ASCII uppercase letter replaced by its lowercase form.
pub open spec fn folded(s: Seq<char>) -> Seq<char> {
    Seq::new(s.len(), |i: int| ascii_lower(s[i]))
}

/// What is said of an input that is no language code.
pub open spec fn invalid_lang_code_text(s: Seq<char>) -> Seq<char> {
    seq!['\''] + s + "' is not a valid ISO-639-1 language code (two ASCII letters)"@
}

fn is_letter(c: char) -> (r: bool)
    ensures
        r == is_ascii_letter(c),
{
    ('a' <= c && c <= 'z') || ('A' <= c && c <= 'Z')
}

fn lower_char(c: char) -> (r: char)
    ensures
        r == ascii_lower(c),
{
    if 'A' <= c && c <= 'Z' {
        let b: u8 = c as u8;
        (b + 32) as char
    } else {
        c
    }
}

/// The message that names `s` as an invalid language code.
pub fn invalid_lang_code_message(s: &str) -> (r: String)
    ensures
        r@ == invalid_lang_code_text(s@),
{
    let mut out = String::new();
    out.push('\'');
    out.append(s);
    out.append("' is not a valid ISO-639-1 language code (two ASCII letters)");
    assert(out@ =~= invalid_lang_code_text(s@));
    out
}

/// Validates an ISO 639-1 language code. An input of exactly two ASCII
/// letters is accepted and returned in lowercase; any other input is
/// rejected with a message that names it.
pub fn parse_lang_code(s: &str) -> (r: Result<String, String>)
    ensures
        r is Ok <==> is_lang_code(s@),
        r matches Ok(code) ==> code@ == folded(s@) && is_folded_lang_code(code@),
        r matches Err(message) ==> message@ == invalid_lang_code_text(s@),
{
    if s.unicode_len() == 2 {
        let first = s.get_char(0);
        let second = s.get_char(1);
        if is_letter(first) && is_letter(second) {
            let mut code = String::new();
            code.push(lower_char(first));
            code.push(lower_char(second));
            assert(code@ =~= folded(s@));
            return Ok(code);
        }
    }
    Err(invalid_lang_code_message(s))
}

/// Folding a language code gives a folded language code, and folding it
/// again changes nothing.
pub proof fn lemma_folded_lang_code(s: Seq<char>)
    requires
        is_lang_code(s),
    ensures
        is_folded_lang_code(folded(s)),
        is_lang_code(folded(s)),
        folded(folded(s)) == folded(s),
{
    assert(folded(folded(s)) =~= folded(s));
}

} // verus!
