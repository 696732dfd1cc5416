//! Reading literals back.
//!
//! The text of an integer and of a string determines the value it was
//! written from: reading the text back gives that value again, so no two
//! integers and no two strings are written alike.

use vstd::prelude::*;
use crate::lit::{decimal, escaped, escaped_char, int_text, is_digit, str_text};
use crate::printer::concat;

verus! {

/// The natural number that a text of digits denotes.
pub open spec fn decimal_value(s: Seq<char>) -> nat
    decreases s.len(),
{
    if s.len() == 0 {
        0
    } else {
        (decimal_value(s.drop_last()) * 10 + (s.last() as int - 48)) as nat
    }
}

/// The integer that a text of digits with a minus sign or none denotes.
pub open spec fn int_value(s: Seq<char>) -> int {
    if s.len() > 0 && s[0] == '-' {
        -(decimal_value(s.skip(1)) as int)
    } else {
        decimal_value(s) as int
    }
}

/// The text that a run of escaped characters stands for: a backslash
/// gives way to the character that follows it.
pub open spec fn unescaped(s: Seq<char>) -> Seq<char>
    decreases s.len(),
{
    if s.len() == 0 {
        Seq::empty()
    } else if s[0] == '\\' && s.len() >= 2 {
        seq![s[1]] + unescaped(s.skip(2))
    } else {
        seq![s[0]] + unescaped(s.skip(1))
    }
}

/// The digits of a natural number denote that number, and all of them are
/// digits.
pub proof fn lemma_decimal_value(n: nat)
    ensures
        decimal_value(decimal(n)) == n,
        forall|i: int| 0 <= i < decimal(n).len() ==> is_digit(#[trigger] decimal(n)[i]),
    decreases n,
{
    let d = decimal(n);
    assert(d.last() as int - 48 == n % 10);
    if n >= 10 {
        lemma_decimal_value(n / 10);
        assert(d.drop_last() == decimal(n / 10));
        assert(decimal_value(d) == decimal_value(decimal(n / 10)) * 10 + n % 10);
    } else {
        assert(d.drop_last() == Seq::<char>::empty());
        assert(decimal_value(d.drop_last()) == 0);
    }
}

/// The text of an integer denotes that integer: reading back what was
/// written gives the value that was written.
pub proof fn lemma_int_value(v: int)
    ensures
        int_value(int_text(v)) == v,
{
    if v < 0 {
        let d = decimal((-v) as nat);
        lemma_decimal_value((-v) as nat);
        assert(int_text(v).skip(1) == d);
    } else {
        lemma_decimal_value(v as nat);
        assert(is_digit(decimal(v as nat)[0]));
    }
}

/// No two integers are written alike.
pub proof fn lemma_int_text_injective(a: int, b: int)
    requires
        int_text(a) == int_text(b),
    ensures
        a == b,
{
    lemma_int_value(a);
    lemma_int_value(b);
}

/// A concatenation is its first part followed by the concatenation of the
/// other parts.
pub proof fn lemma_concat_first(parts: Seq<Seq<char>>)
    requires
        parts.len() > 0,
    ensures
        concat(parts) == parts[0] + concat(parts.skip(1)),
    decreases parts.len(),
{
    if parts.len() == 1 {
        assert(parts.drop_last() == Seq::<Seq<char>>::empty());
        assert(parts.skip(1) == Seq::<Seq<char>>::empty());
    } else {
        lemma_concat_first(parts.drop_last());
        assert(parts.drop_last().skip(1) == parts.skip(1).drop_last());
        assert(parts.skip(1).last() == parts.last());
        assert(parts.drop_last()[0] == parts[0]);
    }
}

/// Escaping a text and reading the escapes back gives the text again.
pub proof fn lemma_unescaped_escaped(s: Seq<char>)
    ensures
        unescaped(escaped(s)) == s,
    decreases s.len(),
{
    if s.len() > 0 {
        let parts = Seq::new(s.len(), |i: int| escaped_char(s[i]));
        let rest = Seq::new(s.skip(1).len(), |i: int| escaped_char(s.skip(1)[i]));
        lemma_concat_first(parts);
        assert(parts.skip(1) == rest);
        lemma_unescaped_escaped(s.skip(1));
        let e = escaped(s);
        assert(e == escaped_char(s[0]) + escaped(s.skip(1)));
        if s[0] == '"' || s[0] == '\\' {
            assert(e.skip(2) == escaped(s.skip(1)));
        } else {
            assert(e.skip(1) == escaped(s.skip(1)));
        }
        assert(s == seq![s[0]] + s.skip(1));
    } else {
        assert(Seq::new(s.len(), |i: int| escaped_char(s[i])) == Seq::<Seq<char>>::empty());
    }
}

/// No two strings are written alike as string literals.
pub proof fn lemma_str_text_injective(a: Seq<char>, b: Seq<char>)
    requires
        str_text(a) == str_text(b),
    ensures
        a == b,
{
    lemma_unescaped_escaped(a);
    lemma_unescaped_escaped(b);
    let ta = str_text(a);
    let tb = str_text(b);
    assert(ta.subrange(1, ta.len() - 1) == escaped(a));
    assert(tb.subrange(1, tb.len() - 1) == escaped(b));
}

} // verus!
