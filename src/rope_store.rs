use vstd::prelude::*;

verus! {

#[verifier::external_type_specification]
#[verifier::external_body]
pub struct ExRope(ropey::Rope);

/// The characters that a `ropey::Rope` holds, in order.
pub uninterp spec fn rope_chars(r: ropey::Rope) -> Seq<char>;

/// A character that ends a line on its own: LF, VT, FF, CR, NEL, LS and PS.
pub open spec fn is_line_break_char(c: char) -> bool {
    c == '\n' || c == '\u{0B}' || c == '\u{0C}' || c == '\r' || c == '\u{85}' || c == '\u{2028}'
        || c == '\u{2029}'
}

/// Position `i` of `s` ends a line: a break character, where a CR directly
/// followed by an LF does not count on its own (the pair is one break).
pub open spec fn ends_line_at(s: Seq<char>, i: int) -> bool {
    &&& is_line_break_char(s[i])
    &&& !(s[i] == '\r' && i + 1 < s.len() && s[i + 1] == '\n')
}

/// The number of line breaks among the first `n` characters of `s`.
pub open spec fn breaks_before(s: Seq<char>, n: int) -> nat
    decreases n,
{
    if n <= 0 {
        0
    } else {
        breaks_before(s, n - 1) + if ends_line_at(s, n - 1) {
            1nat
        } else {
            0nat
        }
    }
}

/// The number of lines of `s`: one more than its line breaks, so that an
/// empty text, or one that ends in a break, has a trailing empty line.
pub open spec fn line_count_of(s: Seq<char>) -> nat {
    breaks_before(s, s.len() as int) + 1
}

/// Relies on `ropey::Rope::from_str`: the rope holds exactly the characters of `s`.
#[verifier::external_body]
fn rope_from_str(s: &str) -> (r: ropey::Rope)
    ensures
        rope_chars(r) == s@,
{
    ropey::Rope::from_str(s)
}

/// Relies on `ropey::Rope`'s `Display` (through `to_string`): it writes the
/// rope's chunks in order, that is its characters.
#[verifier::external_body]
fn rope_to_string(r: &ropey::Rope) -> (s: String)
    ensures
        s@ == rope_chars(*r),
{
    r.to_string()
}

/// Relies on `ropey::Rope::len_lines`: the count of line breaks plus one, with
/// the default `unicode_lines` breaks (LF, CRLF, CR, VT, FF, NEL, LS, PS).
#[verifier::external_body]
fn rope_len_lines(r: &ropey::Rope) -> (n: usize)
    ensures
        n as nat == line_count_of(rope_chars(*r)),
{
    r.len_lines()
}

/// Relies on the `Clone` that `ropey::Rope` derives: the copy shares the same
/// tree of chunks, so it holds the same characters.
pub assume_specification[ <ropey::Rope as std::clone::Clone>::clone ](r: &ropey::Rope) -> (c: ropey::Rope)
    ensures
        rope_chars(c) == rope_chars(*r),
;

/// A text held as a rope, which the document rebuilds whole on each change.
pub struct TextRope {
    inner: ropey::Rope,
}

impl View for TextRope {
    type V = Seq<char>;

    closed spec fn view(&self) -> Seq<char> {
        rope_chars(self.inner)
    }
}

impl Clone for TextRope {
    fn clone(&self) -> (r: Self)
        ensures
            r@ == self@,
    {
        TextRope { inner: self.inner.clone() }
    }
}

impl TextRope {
    /// Builds a rope that holds exactly the characters of `s`.
    pub fn from_text(s: &str) -> (r: TextRope)
        ensures
            r@ == s@,
    {
        TextRope { inner: rope_from_str(s) }
    }

    /// The rope's characters as a flat string.
    pub fn to_text(&self) -> (r: String)
        ensures
            r@ == self@,
    {
        rope_to_string(&self.inner)
    }

    /// The number of lines, counting a trailing empty line after a final
    /// break and the single empty line of an empty text.
    pub fn line_count(&self) -> (r: usize)
        ensures
            r as nat == line_count_of(self@),
    {
        rope_len_lines(&self.inner)
    }
}

} // verus!
