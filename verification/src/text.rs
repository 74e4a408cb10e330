use vstd::prelude::*;

verus! {

/// The text of an optional name.
pub open spec fn opt_text(s: Option<String>) -> Option<Seq<char>> {
    match s {
        Some(t) => Some(t@),
        None => None,
    }
}

/// Whether `s` spells exactly the text `expected`.
pub fn text_is(s: &String, expected: &str) -> (b: bool)
    ensures
        b == (s@ == expected@),
{
    let e = String::from_str(expected);
    s.eq(&e)
}

} // verus!
