//! Character-level access to request text.

use vstd::prelude::*;
use vstd::std_specs::iter::IteratorSpec;
use vstd::string::*;

verus! {

/// The characters of `text`, in order, as an indexable vector.
pub fn chars_of(text: &str) -> (chars: Vec<char>)
    ensures
        chars@ == text@,
{
    broadcast use group_string_axioms;

    let mut chars: Vec<char> = Vec::new();
    let mut rest = text.chars();
    loop
        invariant
            rest.obeys_prophetic_iter_laws(),
            rest.decrease() is Some,
            chars@ + rest.remaining() == text@,
        decreases rest.decrease()->0,
    {
        let ghost before = rest;
        match rest.next() {
            Some(c) => {
                proof {
                    next_postcondition(&before, &rest, Some(c));
                    assert(chars@.push(c) + rest.remaining() =~= chars@ + before.remaining());
                }
                chars.push(c);
            },
            None => {
                proof {
                    next_postcondition(&before, &rest, None);
                    assert(chars@ + rest.remaining() =~= chars@);
                }
                return chars;
            },
        }
    }
}

} // verus!
