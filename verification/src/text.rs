//! Text measurement for the layout engine.
//!
//! A glyph can occupy zero, one, or more terminal columns, so the layout
//! engine sizes a box by the text's display width, not its character
//! count. The width itself comes from the Unicode width tables; the
//! layout only relies on it being a function of the characters alone.

use vstd::prelude::*;

verus! {

broadcast use vstd::string::axiom_spec_iter;

/// The number of terminal columns a piece of text occupies.
pub uninterp spec fn text_display_width(s: Seq<char>) -> nat;

/// Relies on `unicode_width::UnicodeWidthStr::width`: the display width
/// of a string in terminal columns, a function of its characters alone;
/// an empty string has width zero.
#[verifier::external_body]
pub fn display_width(s: &str) -> (w: usize)
    ensures
        w == text_display_width(s@),
        s@.len() == 0 ==> w == 0,
{
    unicode_width::UnicodeWidthStr::width(s)
}

/// The characters of a string, in order.
pub fn str_chars(s: &str) -> (v: Vec<char>)
    ensures
        v@ == s@,
{
    let mut v: Vec<char> = Vec::new();
    for c in it: s.chars()
        invariant
            it.seq() == s@,
            v@.len() == it.index(),
            forall|i: int| 0 <= i < v@.len() ==> v@[i] == it.seq()[i],
    {
        v.push(c);
    }
    proof {
        assert(v@ =~= s@);
    }
    v
}

} // verus!
