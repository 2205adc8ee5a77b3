use vstd::prelude::*;

verus! {

/// Whether `char::is_alphanumeric` holds of a character (the Unicode
/// `Alphabetic` or `Numeric` properties).
pub uninterp spec fn alphanumeric(c: char) -> bool;

/// Relies on `char::is_alphanumeric`: the answer depends on the character alone.
#[verifier::external_body]
fn char_is_alphanumeric(c: char) -> (r: bool)
    ensures
        r == alphanumeric(c),
{
    c.is_alphanumeric()
}

/// A tenant or realm identifier: exactly ten characters, each alphanumeric.
pub open spec fn valid_identifier(s: Seq<char>) -> bool {
    &&& s.len() == 10
    &&& forall|i: int| 0 <= i < s.len() ==> alphanumeric(#[trigger] s[i])
}

/// Checks that `input` is a well-formed tenant or realm identifier.
pub fn is_valid_input(input: &str) -> (r: bool)
    ensures
        r == valid_identifier(input@),
{
    broadcast use vstd::string::axiom_spec_iter;

    let mut count: usize = 0;
    let mut all_alphanumeric = true;
    for c in it: input.chars()
        invariant
            count == it.index(),
            count <= 10,
            it.seq() == input@,
            all_alphanumeric == (forall|i: int|
                0 <= i < it.index() ==> alphanumeric(#[trigger] input@[i])),
    {
        if count == 10 {
            return false;
        }
        all_alphanumeric = all_alphanumeric && char_is_alphanumeric(c);
        count = count + 1;
    }
    count == 10 && all_alphanumeric
}

} // verus!
