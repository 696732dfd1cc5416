//! The text of raw blocks.
//!
//! A raw block is fenced by backticks. The fence has to be longer than any
//! run of backticks in the raw text, and the text is padded where it would
//! otherwise run into the fence.

use vstd::prelude::*;
use crate::chars::chars_of;
use crate::node::NodeRaw;
use crate::printer::{Printer, join, lemma_join_next};

verus! {

/// Whether a character is white space.
pub open spec fn is_whitespace(c: char) -> bool {
    let u = c as u32;
    (0x09 <= u && u <= 0x0d) || u == 0x20 || u == 0x85 || u == 0xa0 || u == 0x1680 || (0x2000 <= u
        && u <= 0x200a) || u == 0x2028 || u == 0x2029 || u == 0x202f || u == 0x205f || u == 0x3000
}

/// The number of backticks that a text ends with.
pub open spec fn trailing_ticks(s: Seq<char>) -> nat
    decreases s.len(),
{
    if s.len() > 0 && s.last() == '`' {
        1 + trailing_ticks(s.drop_last())
    } else {
        0
    }
}

/// The length of the longest run of backticks in a text.
pub open spec fn longest_ticks(s: Seq<char>) -> nat
    decreases s.len(),
{
    if s.len() == 0 {
        0
    } else if longest_ticks(s.drop_last()) >= trailing_ticks(s) {
        longest_ticks(s.drop_last())
    } else {
        trailing_ticks(s)
    }
}

/// The length of the longest run of backticks within any one of the lines.
pub open spec fn longest_ticks_in(lines: Seq<Seq<char>>) -> nat
    decreases lines.len(),
{
    if lines.len() == 0 {
        0
    } else if longest_ticks_in(lines.drop_last()) >= longest_ticks(lines.last()) {
        longest_ticks_in(lines.drop_last())
    } else {
        longest_ticks(lines.last())
    }
}

/// Whether the last character of a text that is not white space is a
/// backtick.
pub open spec fn ends_in_tick(s: Seq<char>) -> bool
    decreases s.len(),
{
    s.len() > 0 && (s.last() == '`' || (is_whitespace(s.last()) && ends_in_tick(s.drop_last())))
}

/// A run of `n` backticks.
pub open spec fn ticks(n: nat) -> Seq<char> {
    Seq::new(n, |i: int| '`')
}

impl NodeRaw {
    /// The lines of the raw text.
    pub open spec fn line_texts(&self) -> Seq<Seq<char>> {
        Seq::new(self.lines.len() as nat, |i: int| self.lines[i]@)
    }

    /// The number of backticks in the fence: one more than the longest run
    /// of backticks in the text and at least three, where the text holds
    /// a backtick; else three for a block and for raw text with a
    /// language, and one for anything else.
    pub open spec fn backticks(&self) -> nat {
        let longest = longest_ticks_in(self.line_texts());
        if longest >= 3 {
            longest + 1
        } else if longest > 0 || self.lang is Some || self.block {
            3
        } else {
            1
        }
    }

    /// What separates the opening fence, or the language, from the text: a
    /// newline in a block, else a space after a fence of three or more.
    pub open spec fn opening_pad(&self) -> Seq<char> {
        if self.block {
            seq!['\n']
        } else if self.backticks() >= 3 {
            seq![' ']
        } else {
            Seq::empty()
        }
    }

    /// What separates the text from the closing fence: a newline in a
    /// block, else a space where the text would run into the fence.
    pub open spec fn closing_pad(&self) -> Seq<char> {
        if self.block {
            seq!['\n']
        } else if self.lines.len() > 0 && ends_in_tick(self.lines[self.lines.len() - 1]@) {
            seq![' ']
        } else {
            Seq::empty()
        }
    }

    /// The text of the raw block: the fence, the language if there is one,
    /// the lines joined by newlines with padding on either side, and the
    /// fence again.
    pub open spec fn text(&self) -> Seq<char> {
        ticks(self.backticks()) + (match self.lang {
            Some(lang) => lang.text(),
            None => Seq::empty(),
        }) + self.opening_pad() + join(self.line_texts(), seq!['\n']) + self.closing_pad() + ticks(
            self.backticks(),
        )
    }

    /// The length of the longest run of backticks within any one line.
    fn longest_run(&self) -> (longest: usize)
        ensures
            longest == longest_ticks_in(self.line_texts()),
    {
        let ghost texts = self.line_texts();
        let mut longest: usize = 0;
        let mut k: usize = 0;
        while k < self.lines.len()
            invariant
                k <= self.lines.len(),
                texts == self.line_texts(),
                longest == longest_ticks_in(texts.take(k as int)),
            decreases self.lines.len() - k,
        {
            let line = chars_of(self.lines[k].as_str());
            let mut best: usize = 0;
            let mut run: usize = 0;
            let mut i: usize = 0;
            while i < line.len()
                invariant
                    i <= line.len(),
                    run <= i,
                    run == trailing_ticks(line@.take(i as int)),
                    best == longest_ticks(line@.take(i as int)),
                decreases line.len() - i,
            {
                assert(line@.take(i + 1).drop_last() == line@.take(i as int));
                if line[i] == '`' {
                    run += 1;
                } else {
                    run = 0;
                }
                if run > best {
                    best = run;
                }
                i += 1;
            }
            assert(line@.take(line.len() as int) == line@);
            assert(texts.take(k + 1).drop_last() == texts.take(k as int));
            if best > longest {
                longest = best;
            }
            k += 1;
        }
        assert(texts.take(self.lines.len() as int) == texts);
        longest
    }

    /// Write the fence.
    fn pretty_fence(&self, longest: usize, p: &mut Printer)
        requires
            longest == longest_ticks_in(self.line_texts()),
        ensures
            final(p)@ == old(p)@ + ticks(self.backticks()),
    {
        let (count, extra): (usize, bool) = if longest >= 3 {
            (longest, true)
        } else if longest > 0 || self.lang.is_some() || self.block {
            (3, false)
        } else {
            (1, false)
        };
        let mut i: usize = 0;
        while i < count
            invariant
                i <= count,
                p@ == old(p)@ + ticks(i as nat),
            decreases count - i,
        {
            p.push('`');
            i += 1;
        }
        if extra {
            p.push('`');
        }
    }

    /// Write the lines, joined by newlines.
    fn pretty_lines(&self, p: &mut Printer)
        ensures
            final(p)@ == old(p)@ + join(self.line_texts(), seq!['\n']),
    {
        let ghost texts = self.line_texts();
        let mut k: usize = 0;
        while k < self.lines.len()
            invariant
                k <= self.lines.len(),
                texts == self.line_texts(),
                p@ == old(p)@ + join(texts.take(k as int), seq!['\n']),
            decreases self.lines.len() - k,
        {
            proof {
                lemma_join_next(texts, seq!['\n'], k as int);
            }
            if k > 0 {
                p.push('\n');
            }
            p.push_str(self.lines[k].as_str());
            k += 1;
        }
        assert(texts.take(self.lines.len() as int) == texts);
    }

    /// Write what separates the opening fence, or the language, from the
    /// text.
    fn pretty_opening_pad(&self, longest: usize, p: &mut Printer)
        requires
            longest == longest_ticks_in(self.line_texts()),
        ensures
            final(p)@ == old(p)@ + self.opening_pad(),
    {
        if self.block {
            p.push('\n');
        } else if longest > 0 || self.lang.is_some() {
            p.push(' ');
        }
    }

    /// Write what separates the text from the closing fence.
    fn pretty_closing_pad(&self, p: &mut Printer)
        ensures
            final(p)@ == old(p)@ + self.closing_pad(),
    {
        if self.block {
            p.push('\n');
        } else if self.lines.len() > 0 && ends_with_tick(
            self.lines[self.lines.len() - 1].as_str(),
        ) {
            p.push(' ');
        }
    }

    /// Write the language, if there is one.
    fn pretty_lang(&self, p: &mut Printer)
        ensures
            final(p)@ == old(p)@ + (match self.lang {
                Some(lang) => lang.text(),
                None => Seq::empty(),
            }),
    {
        if let Some(lang) = &self.lang {
            lang.pretty(p);
        }
    }

    /// Write the raw block in its canonical text.
    pub fn pretty(&self, p: &mut Printer)
        ensures
            final(p)@ == old(p)@ + self.text(),
    {
        let longest = self.longest_run();
        self.pretty_fence(longest, p);
        self.pretty_lang(p);
        self.pretty_opening_pad(longest, p);
        self.pretty_lines(p);
        self.pretty_closing_pad(p);
        self.pretty_fence(longest, p);
    }
}

fn whitespace(c: char) -> (b: bool)
    ensures
        b == is_whitespace(c),
{
    let u = c as u32;
    (0x09 <= u && u <= 0x0d) || u == 0x20 || u == 0x85 || u == 0xa0 || u == 0x1680 || (0x2000 <= u
        && u <= 0x200a) || u == 0x2028 || u == 0x2029 || u == 0x202f || u == 0x205f || u == 0x3000
}

/// Whether the last character of a string that is not white space is a
/// backtick.
pub fn ends_with_tick(s: &str) -> (b: bool)
    ensures
        b == ends_in_tick(s@),
{
    let chars = chars_of(s);
    let mut i: usize = chars.len();
    assert(chars@.take(i as int) == chars@);
    while i > 0 && whitespace(chars[i - 1])
        invariant
            i <= chars.len(),
            ends_in_tick(chars@) == ends_in_tick(chars@.take(i as int)),
        decreases i,
    {
        assert(chars@.take(i as int).drop_last() == chars@.take(i - 1));
        assert(chars@.take(i as int).last() != '`');
        i -= 1;
    }
    if i > 0 {
        assert(chars@.take(i as int).last() == chars@[i - 1]);
    }
    i > 0 && chars[i - 1] == '`'
}

} // verus!
