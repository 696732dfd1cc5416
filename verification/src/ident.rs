//! Identifiers.

use vstd::prelude::*;
use vstd::string::StringExecFns;
use crate::chars::chars_of;
use crate::printer::Printer;
use crate::span::Span;

verus! {

/// Whether an identifier may begin with this character: a letter, an
/// underscore, or any character beyond ASCII.
pub open spec fn is_id_start(c: char) -> bool {
    ('a' <= c && c <= 'z') || ('A' <= c && c <= 'Z') || c == '_' || c as u32 >= 0x80
}

/// Whether an identifier may go on with this character: any character it
/// may begin with, a digit, or a hyphen.
pub open spec fn is_id_continue(c: char) -> bool {
    is_id_start(c) || ('0' <= c && c <= '9') || c == '-'
}

/// Whether a text is an identifier: it is not empty, begins with a
/// character an identifier may begin with, and goes on with characters an
/// identifier may go on with.
pub open spec fn is_ident(s: Seq<char>) -> bool {
    &&& s.len() > 0
    &&& is_id_start(s[0])
    &&& forall|i: int| 0 < i < s.len() ==> is_id_continue(#[trigger] s[i])
}

fn id_start(c: char) -> (b: bool)
    ensures
        b == is_id_start(c),
{
    ('a' <= c && c <= 'z') || ('A' <= c && c <= 'Z') || c == '_' || c as u32 >= 0x80
}

fn id_continue(c: char) -> (b: bool)
    ensures
        b == is_id_continue(c),
{
    id_start(c) || ('0' <= c && c <= '9') || c == '-'
}

/// An identifier: `left`, `x`, `font-size`.
#[derive(Debug, PartialEq)]
pub struct Ident {
    /// The source code location.
    pub span: Span,
    /// The identifier string.
    pub string: String,
}

impl Ident {
    /// Whether the characters kept here are an identifier.
    pub open spec fn wf(&self) -> bool {
        is_ident(self.string@)
    }

    /// The text of an identifier is the identifier itself.
    pub open spec fn text(&self) -> Seq<char> {
        self.string@
    }

    /// Create an identifier from a string, if the string is one.
    pub fn new(string: &str, span: Span) -> (ident: Option<Ident>)
        ensures
            ident is Some <==> is_ident(string@),
            ident matches Some(id) ==> id.string@ == string@ && id.span == span && id.wf(),
    {
        let chars = chars_of(string);
        if chars.len() == 0 || !id_start(chars[0]) {
            return None;
        }
        let mut i: usize = 1;
        while i < chars.len()
            invariant
                1 <= i <= chars.len(),
                chars@ == string@,
                forall|j: int| 0 < j < i ==> is_id_continue(#[trigger] chars@[j]),
            decreases chars.len() - i,
        {
            if !id_continue(chars[i]) {
                return None;
            }
            i += 1;
        }
        Some(Ident { span, string: String::from_str(string) })
    }

    /// The identifier as a string slice.
    pub fn as_str(&self) -> (s: &str)
        ensures
            s@ == self.string@,
    {
        self.string.as_str()
    }

    /// Write the identifier as it is.
    pub fn pretty(&self, p: &mut Printer)
        ensures
            final(p)@ == old(p)@ + self.text(),
    {
        p.push_str(self.string.as_str());
    }
}

} // verus!
