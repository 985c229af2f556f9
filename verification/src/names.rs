//! Conversion of identifiers to snake case.

use crate::text::push_char;
use vstd::prelude::*;

verus! {

/// Whether `c` has the Unicode property `Uppercase`: what `char::is_uppercase`
/// of std returns for `c`.
pub uninterp spec fn uppercase_property(c: char) -> bool;

/// The lowercase mapping of `c`, of one or more characters: what the iterator
/// of `char::to_lowercase` of std yields for `c`.
pub uninterp spec fn lowercase_mapping(c: char) -> Seq<char>;

/// `char::is_uppercase` of std. The result is a function of the character
/// alone; nothing more is claimed of it.
#[verifier::external_body]
fn is_uppercase(c: char) -> (b: bool)
    ensures
        b == uppercase_property(c),
{
    c.is_uppercase()
}

/// `char::to_lowercase` of std, with the characters that its iterator yields
/// collected in order. std documents that there is at least one.
#[verifier::external_body]
fn to_lowercase(c: char) -> (v: Vec<char>)
    ensures
        v@ == lowercase_mapping(c),
        v@.len() >= 1,
{
    c.to_lowercase().collect()
}

/// What one character contributes to a snake-case name. An uppercase
/// character gives its lowered form, after an underscore if the character
/// before it was not uppercase; any other character gives itself.
pub open spec fn snake_case_piece(c: char, uppercase: bool, lowered: char, after_lowercase: bool) -> Seq<
    char,
> {
    if uppercase {
        if after_lowercase {
            seq!['_', lowered]
        } else {
            seq![lowered]
        }
    } else {
        seq![c]
    }
}

/// Whether a character that follows `s` follows a character that is not
/// uppercase. At the start of a name it does not.
pub open spec fn ends_lowercase(s: Seq<char>) -> bool {
    s.len() > 0 && !uppercase_property(s.last())
}

/// The snake-case form of `s`: the pieces of its characters, in order.
pub open spec fn snake_case(s: Seq<char>) -> Seq<char>
    decreases s.len(),
{
    if s.len() == 0 {
        Seq::empty()
    } else {
        snake_case(s.drop_last()) + snake_case_piece(
            s.last(),
            uppercase_property(s.last()),
            lowercase_mapping(s.last())[0],
            ends_lowercase(s.drop_last()),
        )
    }
}

/// Appends to `out` the piece of one character, given whether the character
/// is uppercase, its lowered form, and whether the character before it was
/// not uppercase. Returns whether this character is not uppercase.
pub fn push_snake_case_char(
    out: &mut String,
    c: char,
    uppercase: bool,
    lowered: char,
    after_lowercase: bool,
) -> (lowercase: bool)
    ensures
        final(out)@ == old(out)@ + snake_case_piece(c, uppercase, lowered, after_lowercase),
        lowercase == !uppercase,
{
    if uppercase {
        if after_lowercase {
            push_char(out, '_');
        }
        push_char(out, lowered);
        false
    } else {
        push_char(out, c);
        true
    }
}

/// Converts an identifier to snake case: `ConstantValue` gives
/// `constant_value`. Only an uppercase character that follows a character
/// that is not uppercase starts a new word: `I32` gives `i32`, and a run of
/// capitals stays one word, so `VARIANT` gives `variant`.
pub fn to_snake_case(s: &str) -> (out: String)
    ensures
        out@ == snake_case(s@),
{
    let mut out = String::new();
    let mut last_is_lowercase = false;
    for c in it: s.chars()
        invariant
            it.seq() == s@,
            out@ == snake_case(s@.take(it.index())),
            last_is_lowercase == ends_lowercase(s@.take(it.index())),
    {
        let uppercase = is_uppercase(c);
        let lowered = to_lowercase(c);
        proof {
            let k = it.index();
            assert(s@.take(k + 1).drop_last() == s@.take(k));
        }
        last_is_lowercase = push_snake_case_char(&mut out, c, uppercase, lowered[0], last_is_lowercase);
    }
    proof {
        assert(s@.take(s@.len() as int) == s@);
    }
    out
}

} // verus!
