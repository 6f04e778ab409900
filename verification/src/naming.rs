//! Name transformation: turning a snake_case project name into the
//! PascalCase-like symbol used inside generated source.

use vstd::prelude::*;
use crate::text::{chars_to_string, push_all, str_chars};

verus! {

/// The Unicode uppercase mapping of one character, as `char::to_uppercase`
/// yields it: a sequence of one or more characters determined by the
/// character alone.
pub uninterp spec fn upper_of(c: char) -> Seq<char>;

/// Relies on `char::to_uppercase`: its result depends on the character
/// alone, and it always yields at least one character (the character
/// itself when no mapping exists).
#[verifier::external_body]
fn uppercase_chars(c: char) -> (r: Vec<char>)
    ensures
        r@ == upper_of(c),
        r@.len() >= 1,
{
    c.to_uppercase().collect()
}

/// The symbol-cased form of the suffix `s`: underscores are dropped, the
/// first character after each run of underscores (and at the very start,
/// when `at_start` holds) is uppercased, and every other character passes
/// through unchanged.
pub open spec fn symbol_case_from(s: Seq<char>, at_start: bool) -> Seq<char>
    decreases s.len(),
{
    if s.len() == 0 {
        Seq::empty()
    } else if s[0] == '_' {
        symbol_case_from(s.skip(1), true)
    } else if at_start {
        upper_of(s[0]) + symbol_case_from(s.skip(1), false)
    } else {
        seq![s[0]] + symbol_case_from(s.skip(1), false)
    }
}

/// The symbol-cased form of a whole identifier: each underscore-separated
/// segment with its first character uppercased, the segments concatenated
/// with no separator.
pub open spec fn symbol_case(s: Seq<char>) -> Seq<char> {
    symbol_case_from(s, true)
}

/// Symbol-cases a character sequence.
pub fn camel_chars(cs: &Vec<char>) -> (r: Vec<char>)
    ensures
        r@ == symbol_case(cs@),
{
    let mut out: Vec<char> = Vec::new();
    let mut at_start: bool = true;
    let mut i: usize = 0;
    proof {
        assert(cs@.skip(0) =~= cs@);
        assert(Seq::<char>::empty() + symbol_case_from(cs@, true) =~= symbol_case_from(cs@, true));
    }
    while i < cs.len()
        invariant
            i <= cs@.len(),
            symbol_case(cs@) == out@ + symbol_case_from(cs@.skip(i as int), at_start),
        decreases cs@.len() - i,
    {
        let ghost tail = cs@.skip(i as int);
        let ghost prev = out@;
        let ghost was_start = at_start;
        let c = cs[i];
        if c == '_' {
            at_start = true;
        } else if at_start {
            let u = uppercase_chars(c);
            push_all(&mut out, &u);
            at_start = false;
        } else {
            out.push(c);
            at_start = false;
        }
        proof {
            assert(tail.skip(1) =~= cs@.skip(i as int + 1));
            assert(out@ + symbol_case_from(tail.skip(1), at_start) =~= prev + symbol_case_from(
                tail,
                was_start,
            ));
        }
        i = i + 1;
    }
    assert(cs@.skip(i as int) =~= Seq::<char>::empty());
    assert(out@ =~= out@ + Seq::<char>::empty());
    out
}

/// Converts an identifier to its symbol-cased (PascalCase-like) form:
/// splits on underscores, uppercases the first character of each non-empty
/// segment, and concatenates the segments directly.
pub fn convert_to_camel_case(input: &str) -> (r: String)
    ensures
        r@ == symbol_case(input@),
{
    let cs = str_chars(input);
    let out = camel_chars(&cs);
    chars_to_string(&out)
}

} // verus!
