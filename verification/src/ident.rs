//! Identifiers derived from the keys of a mapping.

use vstd::prelude::*;
use crate::text::{chars_of, push_range};

verus! {

/// The uppercase mapping of `c`: the characters that `char::to_uppercase`
/// yields for it, in order.
pub uninterp spec fn uppercase_of(c: char) -> Seq<char>;

/// `char::to_uppercase` of the standard library, collected into a vector.
/// The mapping depends on the character alone; nothing more is claimed of it.
#[verifier::external_body]
fn uppercase(c: char) -> (upper: Vec<char>)
    ensures
        upper@ == uppercase_of(c),
{
    c.to_uppercase().collect()
}

/// What one character `c` of a key contributes to the identifier, where
/// `upper` is the uppercase mapping of `c`.
///
/// A space separates words and contributes nothing. The first character of
/// a word contributes its uppercase mapping, every other character itself.
pub open spec fn piece(c: char, first_of_word: bool, upper: Seq<char>) -> Seq<char> {
    if c == ' ' {
        Seq::empty()
    } else if first_of_word {
        upper
    } else {
        seq![c]
    }
}

/// Whether a word starts at position `i` of `key`, provided that `key[i]` is
/// no space: at the start of the key and behind every space.
pub open spec fn at_word_start(key: Seq<char>, i: int) -> bool {
    i == 0 || key[i - 1] == ' '
}

/// The identifier that the first `n` characters of `key` give.
pub open spec fn camel_prefix(key: Seq<char>, n: int) -> Seq<char>
    decreases n,
{
    if n <= 0 {
        Seq::empty()
    } else {
        camel_prefix(key, n - 1) + piece(
            key[n - 1],
            at_word_start(key, n - 1),
            uppercase_of(key[n - 1]),
        )
    }
}

/// The identifier derived from `key`: the words of the key, which single
/// spaces separate, each with its first character in uppercase and the rest
/// unchanged, joined without a separator. Empty words contribute nothing.
pub open spec fn camel_case(key: Seq<char>) -> Seq<char> {
    camel_prefix(key, key.len() as int)
}

/// Appends to `out` what the character `c` of a key contributes to the
/// identifier, where `upper` holds the uppercase mapping of `c`.
pub fn push_piece(out: &mut String, c: char, first_of_word: bool, upper: &Vec<char>)
    ensures
        final(out)@ == old(out)@ + piece(c, first_of_word, upper@),
{
    if c == ' ' {
    } else if first_of_word {
        push_range(out, upper, 0, upper.len());
        assert(upper@.subrange(0, upper.len() as int) == upper@);
    } else {
        out.push(c);
    }
}

/// Derives the identifier of a variant from a key of the mapping.
pub fn to_camel_case(s: &str) -> (identifier: String)
    ensures
        identifier@ == camel_case(s@),
{
    let key = chars_of(s);
    let mut identifier = String::new();
    let mut first_of_word = true;
    let mut i: usize = 0;
    while i < key.len()
        invariant
            i <= key.len(),
            key@ == s@,
            first_of_word == at_word_start(key@, i as int),
            identifier@ == camel_prefix(key@, i as int),
        decreases key.len() - i,
    {
        let c = key[i];
        let upper = if first_of_word && c != ' ' {
            uppercase(c)
        } else {
            Vec::new()
        };
        push_piece(&mut identifier, c, first_of_word, &upper);
        first_of_word = c == ' ';
        i += 1;
    }
    identifier
}

} // verus!
