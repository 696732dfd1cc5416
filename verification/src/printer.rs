//! The text buffer that printing writes into, and the text of joined lists.

use vstd::prelude::*;
use vstd::string::StringExecFns;

verus! {

/// `String::push` appends the given character to the end of the string and
/// leaves the characters before it unchanged.
pub assume_specification[ String::push ](s: &mut String, ch: char)
    ensures
        final(s)@ == old(s)@.push(ch),
;

/// The texts `parts`, in order, with `sep` between each two neighbours.
pub open spec fn join(parts: Seq<Seq<char>>, sep: Seq<char>) -> Seq<char>
    decreases parts.len(),
{
    if parts.len() == 0 {
        Seq::empty()
    } else if parts.len() == 1 {
        parts[0]
    } else {
        join(parts.drop_last(), sep) + sep + parts.last()
    }
}

/// The texts `parts`, in order, with nothing between them.
pub open spec fn concat(parts: Seq<Seq<char>>) -> Seq<char>
    decreases parts.len(),
{
    if parts.len() == 0 {
        Seq::empty()
    } else {
        concat(parts.drop_last()) + parts.last()
    }
}

/// Joining one more part appends the separator and the part, except that
/// the first part is not preceded by a separator.
pub proof fn lemma_join_next(parts: Seq<Seq<char>>, sep: Seq<char>, i: int)
    requires
        0 <= i < parts.len(),
    ensures
        join(parts.take(i + 1), sep) == if i == 0 {
            parts[0]
        } else {
            join(parts.take(i), sep) + sep + parts[i]
        },
{
    let prefix = parts.take(i + 1);
    assert(prefix.last() == parts[i]);
    assert(prefix.drop_last() =~= parts.take(i));
}

/// Concatenating one more part appends it.
pub proof fn lemma_concat_next(parts: Seq<Seq<char>>, i: int)
    requires
        0 <= i < parts.len(),
    ensures
        concat(parts.take(i + 1)) == concat(parts.take(i)) + parts[i],
{
    let prefix = parts.take(i + 1);
    assert(prefix.last() == parts[i]);
    assert(prefix.drop_last() =~= parts.take(i));
}

/// A buffer that collects printed text.
pub struct Printer {
    buf: String,
}

impl View for Printer {
    type V = Seq<char>;

    /// The text written so far.
    closed spec fn view(&self) -> Seq<char> {
        self.buf@
    }
}

impl Printer {
    /// Create a printer that holds no text.
    pub fn new() -> (p: Printer)
        ensures
            p@ == Seq::<char>::empty(),
    {
        Printer { buf: String::new() }
    }

    /// Append a character.
    pub fn push(&mut self, c: char)
        ensures
            final(self)@ == old(self)@.push(c),
    {
        self.buf.push(c);
    }

    /// Append a string.
    pub fn push_str(&mut self, string: &str)
        ensures
            final(self)@ == old(self)@ + string@,
    {
        self.buf.append(string);
    }

    /// Finish printing and hand out the text written.
    pub fn finish(self) -> (text: String)
        ensures
            text@ == self@,
    {
        self.buf
    }
}

} // verus!
