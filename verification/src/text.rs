//! Building and reading text: thin trusted appenders around the two `String`
//! methods that `vstd` leaves unspecified, and a verified conversion from a
//! string slice to its characters.

use vstd::prelude::*;
use vstd::std_specs::iter::IteratorSpec;

verus! {

/// Relies on `String::push`: appends exactly the given character.
#[verifier::external_body]
pub(crate) fn push_char(s: &mut String, c: char)
    ensures
        final(s)@ == old(s)@.push(c),
{
    s.push(c);
}

/// Relies on `String::push_str`: appends exactly the given characters.
#[verifier::external_body]
pub(crate) fn push_string(s: &mut String, t: &str)
    ensures
        final(s)@ == old(s)@ + t@,
{
    s.push_str(t);
}

/// An owned copy of a string slice, built by appending.
pub(crate) fn text_of(s: &str) -> (r: String)
    ensures
        r@ == s@,
{
    let mut t = String::new();
    push_string(&mut t, s);
    proof {
        assert(t@ =~= s@);
    }
    t
}

/// The characters of a string slice, collected into a vector.
pub fn chars_of(s: &str) -> (r: Vec<char>)
    ensures
        r@ == s@,
{
    broadcast use vstd::string::axiom_spec_iter;
    broadcast use vstd::string::next_postcondition;

    let mut it = s.chars();
    let mut r: Vec<char> = Vec::new();
    loop
        invariant
            it.obeys_prophetic_iter_laws(),
            r@ + it.remaining() == s@,
            it.decrease() is Some,
        ensures
            r@ == s@,
        decreases it.decrease()->0,
    {
        match it.next() {
            Some(c) => {
                r.push(c);
                proof {
                    assert(r@ + it.remaining() =~= s@);
                }
            },
            None => {
                proof {
                    assert(r@ =~= s@);
                }
                break ;
            },
        }
    }
    r
}

} // verus!
