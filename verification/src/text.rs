//! Small text helpers for display.

use vstd::prelude::*;
use vstd::string::*;

verus! {

/// The first character of a character's uppercase form.
pub uninterp spec fn upper_of(c: char) -> char;

/// Relies on `char::to_uppercase`: the uppercase form is a function of the
/// character alone, and its iterator always yields at least one character,
/// so taking the first cannot fail.
#[verifier::external_body]
fn uppercase_char(c: char) -> (r: char)
    ensures
        r == upper_of(c),
{
    c.to_uppercase().next().unwrap()
}

/// Relies on `String::push`: appends exactly one character.
#[verifier::external_body]
fn push_char(s: &mut String, c: char)
    ensures
        final(s)@ == old(s)@.push(c),
{
    s.push(c);
}

/// Capitalizes a non-empty name for display: the first character replaced
/// by its uppercase form, everything after it unchanged.
pub fn capitalize(username: String) -> (r: String)
    requires
        username@.len() >= 1,
    ensures
        r@ == username@.update(0, upper_of(username@[0])),
{
    let first = username.as_str().get_char(0);
    let n = username.as_str().unicode_len();
    let rest = username.as_str().substring_char(1, n);
    let mut r = String::new();
    push_char(&mut r, uppercase_char(first));
    r.append(rest);
    proof {
        assert(r@ =~= username@.update(0, upper_of(username@[0])));
    }
    r
}

} // verus!
