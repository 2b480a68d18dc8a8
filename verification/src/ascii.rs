//! ASCII case mapping of text, and the standard library's functions for it.

use vstd::prelude::*;

verus! {

/// `c` with an ASCII lower-case letter replaced by its upper-case form.
pub open spec fn upper_char(c: char) -> char {
    if 'a' <= c && c <= 'z' {
        ((c as u8 - 32) as u8) as char
    } else {
        c
    }
}

/// `c` with an ASCII upper-case letter replaced by its lower-case form.
pub open spec fn lower_char(c: char) -> char {
    if 'A' <= c && c <= 'Z' {
        ((c as u8 + 32) as u8) as char
    } else {
        c
    }
}

/// `text` with every character mapped by [`upper_char`].
pub open spec fn ascii_upper(text: Seq<char>) -> Seq<char> {
    Seq::new(text.len(), |i: int| upper_char(text[i]))
}

/// `text` with every character mapped by [`lower_char`].
pub open spec fn ascii_lower(text: Seq<char>) -> Seq<char> {
    Seq::new(text.len(), |i: int| lower_char(text[i]))
}

/// `str::to_ascii_uppercase`: a copy of the text in which the letters `a` to `z`
/// are replaced by `A` to `Z` and every other character is kept.
pub assume_specification[ str::to_ascii_uppercase ](text: &str) -> (upper: String)
    ensures
        upper@ == ascii_upper(text@),
;

/// `str::to_ascii_lowercase`: a copy of the text in which the letters `A` to `Z`
/// are replaced by `a` to `z` and every other character is kept.
pub assume_specification[ str::to_ascii_lowercase ](text: &str) -> (lower: String)
    ensures
        lower@ == ascii_lower(text@),
;

/// Upper-casing does not depend on the case of the letters.
pub proof fn lemma_upper_of_lower(text: Seq<char>)
    ensures
        ascii_upper(ascii_lower(text)) == ascii_upper(text),
        ascii_upper(ascii_upper(text)) == ascii_upper(text),
{
    assert(ascii_upper(ascii_lower(text)) =~= ascii_upper(text));
    assert(ascii_upper(ascii_upper(text)) =~= ascii_upper(text));
}

} // verus!
