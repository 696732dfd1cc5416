//! Literals and their canonical text.

use vstd::prelude::*;
use vstd::string::StringExecFns;
use crate::chars::chars_of;
use crate::printer::{Printer, concat, lemma_concat_next};
use crate::span::Span;

verus! {

/// A unit of length.
#[derive(Debug, Copy, Clone, PartialEq, Eq, Structural)]
pub enum LengthUnit {
    /// Points.
    Pt,
    /// Millimeters.
    Mm,
    /// Centimeters.
    Cm,
    /// Inches.
    In,
}

impl LengthUnit {
    /// The suffix that marks a numeral as a length in this unit.
    pub open spec fn spelling(self) -> Seq<char> {
        match self {
            LengthUnit::Pt => "pt"@,
            LengthUnit::Mm => "mm"@,
            LengthUnit::Cm => "cm"@,
            LengthUnit::In => "in"@,
        }
    }

    /// The suffix that marks a numeral as a length in this unit.
    pub fn as_str(self) -> (s: &'static str)
        ensures
            s@ == self.spelling(),
    {
        match self {
            LengthUnit::Pt => "pt",
            LengthUnit::Mm => "mm",
            LengthUnit::Cm => "cm",
            LengthUnit::In => "in",
        }
    }
}

/// A unit of angle.
#[derive(Debug, Copy, Clone, PartialEq, Eq, Structural)]
pub enum AngularUnit {
    /// Degrees.
    Deg,
    /// Radians.
    Rad,
}

impl AngularUnit {
    /// The suffix that marks a numeral as an angle in this unit.
    pub open spec fn spelling(self) -> Seq<char> {
        match self {
            AngularUnit::Deg => "deg"@,
            AngularUnit::Rad => "rad"@,
        }
    }

    /// The suffix that marks a numeral as an angle in this unit.
    pub fn as_str(self) -> (s: &'static str)
        ensures
            s@ == self.spelling(),
    {
        match self {
            AngularUnit::Deg => "deg",
            AngularUnit::Rad => "rad",
        }
    }
}

/// The character for a decimal digit.
pub open spec fn digit(d: int) -> char
    recommends
        0 <= d < 10,
{
    (d + 48) as char
}

/// The character for a hexadecimal digit, in lower case.
pub open spec fn hex_digit(d: int) -> char
    recommends
        0 <= d < 16,
{
    if d < 10 {
        (d + 48) as char
    } else {
        (d + 87) as char
    }
}

/// The decimal digits of a natural number, most significant first, with no
/// leading zero except for zero itself.
pub open spec fn decimal(n: nat) -> Seq<char>
    decreases n,
{
    if n < 10 {
        seq![digit(n as int)]
    } else {
        decimal(n / 10).push(digit((n % 10) as int))
    }
}

/// The plain decimal text of an integer: a minus sign for a negative
/// number, followed by the digits of its magnitude.
pub open spec fn int_text(v: int) -> Seq<char> {
    if v < 0 {
        seq!['-'] + decimal((-v) as nat)
    } else {
        decimal(v as nat)
    }
}

/// The two lower-case hexadecimal digits of a byte.
pub open spec fn hex_byte(v: u8) -> Seq<char> {
    seq![hex_digit(v as int / 16), hex_digit(v as int % 16)]
}

/// What stands for one character inside a string literal: a double quote
/// and a backslash are preceded by a backslash, every other character
/// stands for itself.
pub open spec fn escaped_char(c: char) -> Seq<char> {
    if c == '"' || c == '\\' {
        seq!['\\', c]
    } else {
        seq![c]
    }
}

/// The characters of `s`, each escaped where it has to be.
pub open spec fn escaped(s: Seq<char>) -> Seq<char> {
    concat(Seq::new(s.len(), |i: int| escaped_char(s[i])))
}

/// The string literal that denotes `s`.
pub open spec fn str_text(s: Seq<char>) -> Seq<char> {
    seq!['"'] + escaped(s) + seq!['"']
}

fn digit_char(d: u8) -> (c: char)
    requires
        d < 10,
    ensures
        c == digit(d as int),
{
    (d + 48) as char
}

fn hex_digit_char(d: u8) -> (c: char)
    requires
        d < 16,
    ensures
        c == hex_digit(d as int),
{
    if d < 10 {
        (d + 48) as char
    } else {
        (d + 87) as char
    }
}

/// Write the decimal digits of a natural number.
pub fn pretty_decimal(n: u64, p: &mut Printer)
    ensures
        final(p)@ == old(p)@ + decimal(n as nat),
    decreases n,
{
    if n >= 10 {
        pretty_decimal(n / 10, p);
    }
    p.push(digit_char((n % 10) as u8));
}

/// Write an integer in plain decimal.
pub fn pretty_int(v: i64, p: &mut Printer)
    ensures
        final(p)@ == old(p)@ + int_text(v as int),
{
    if v < 0 {
        p.push('-');
        let magnitude: u64 = (-(v + 1)) as u64 + 1;
        pretty_decimal(magnitude, p);
    } else {
        pretty_decimal(v as u64, p);
    }
}

/// Write a boolean as `true` or `false`.
pub fn pretty_bool(v: bool, p: &mut Printer)
    ensures
        final(p)@ == old(p)@ + (if v {
            "true"@
        } else {
            "false"@
        }),
{
    if v {
        p.push_str("true");
    } else {
        p.push_str("false");
    }
}

/// Write a string as a string literal.
pub fn pretty_str(s: &str, p: &mut Printer)
    ensures
        final(p)@ == old(p)@ + str_text(s@),
{
    p.push('"');
    let ghost parts = Seq::new(s@.len(), |i: int| escaped_char(s@[i]));
    for c in it: s.chars()
        invariant
            it.seq() == s@,
            parts == Seq::new(s@.len(), |i: int| escaped_char(s@[i])),
            p@ == old(p)@.push('"') + concat(parts.take(it.index() as int)),
    {
        proof {
            lemma_concat_next(parts, it.index() as int);
        }
        if c == '"' || c == '\\' {
            p.push('\\');
        }
        p.push(c);
    }
    assert(parts.take(s@.len() as int) == parts);
    p.push('"');
}

/// An 8-bit RGBA color.
#[derive(Debug, Copy, Clone, PartialEq, Eq, Structural)]
pub struct RgbaColor {
    /// Red channel.
    pub r: u8,
    /// Green channel.
    pub g: u8,
    /// Blue channel.
    pub b: u8,
    /// Alpha channel.
    pub a: u8,
}

impl RgbaColor {
    /// The color literal for this color: a hash sign and the six lower-case
    /// hexadecimal digits of the red, green and blue channels. The alpha
    /// channel is not written.
    pub open spec fn text(&self) -> Seq<char> {
        seq!['#'] + hex_byte(self.r) + hex_byte(self.g) + hex_byte(self.b)
    }

    /// Create a color from its four channels.
    pub fn new(r: u8, g: u8, b: u8, a: u8) -> (color: RgbaColor)
        ensures
            color == (RgbaColor { r, g, b, a }),
    {
        RgbaColor { r, g, b, a }
    }

    /// Write this color as a color literal.
    pub fn pretty(&self, p: &mut Printer)
        ensures
            final(p)@ == old(p)@ + self.text(),
    {
        p.push('#');
        p.push(hex_digit_char(self.r / 16));
        p.push(hex_digit_char(self.r % 16));
        p.push(hex_digit_char(self.g / 16));
        p.push(hex_digit_char(self.g % 16));
        p.push(hex_digit_char(self.b / 16));
        p.push(hex_digit_char(self.b % 16));
    }
}

/// Whether a character is a decimal digit.
pub open spec fn is_digit(c: char) -> bool {
    '0' <= c && c <= '9'
}

/// Whether the characters of `s` from `from` up to `to` are digits, and
/// at least one of them.
pub open spec fn digits_in(s: Seq<char>, from: int, to: int) -> bool {
    &&& 0 <= from < to <= s.len()
    &&& forall|j: int| from <= j < to ==> is_digit(#[trigger] s[j])
}

/// Whether `s` is a numeral whose digits before the point start at `a`,
/// whose fraction starts at `b` and whose exponent starts at `c`:
///
/// - before `a` stands nothing or a minus sign;
/// - from `a` to `b` stand digits;
/// - from `b` to `c` stands nothing, or a point and digits;
/// - from `c` to the end stands nothing, or `e`, a minus sign or none, and
///   digits;
/// - there is a fraction, an exponent or both.
pub open spec fn numeral_split(s: Seq<char>, a: int, b: int, c: int) -> bool {
    &&& 0 <= a <= b <= c <= s.len()
    &&& (a == 0 || (a == 1 && s[0] == '-'))
    &&& digits_in(s, a, b)
    &&& (b == c || (s[b] == '.' && digits_in(s, b + 1, c)))
    &&& (c == s.len() || (s[c] == 'e' && (digits_in(s, c + 1, s.len() as int) || (s[c + 1] == '-'
        && digits_in(s, c + 2, s.len() as int)))))
    &&& (b < c || c < s.len())
}

/// Whether `s` is the decimal numeral of a finite floating-point number:
/// a minus sign or none, digits, and a fraction, an exponent or both.
/// So `3.14`, `10.0`, `-0.5`, `1e21` and `1.5e-7` are numerals, and `10`,
/// `.5`, `1e+5`, `inf` and `NaN` are not.
pub open spec fn is_numeral(s: Seq<char>) -> bool {
    exists|a: int, b: int, c: int| numeral_split(s, a, b, c)
}

/// The end of the longest run of digits of `s` that starts at `from`.
pub open spec fn digits_end(s: Seq<char>, from: int) -> int
    decreases s.len() - from,
{
    if 0 <= from < s.len() && is_digit(s[from]) {
        digits_end(s, from + 1)
    } else {
        from
    }
}

/// A run of digits that cannot be extended ends where the longest run
/// ends.
proof fn lemma_digits_end(s: Seq<char>, from: int, to: int)
    requires
        0 <= from <= to <= s.len(),
        forall|j: int| from <= j < to ==> is_digit(#[trigger] s[j]),
        to == s.len() || !is_digit(s[to]),
    ensures
        digits_end(s, from) == to,
    decreases to - from,
{
    if from < to {
        lemma_digits_end(s, from + 1, to);
    }
}

/// The three places at which a numeral splits are fixed by its
/// characters: each part ends where its digits end.
proof fn lemma_split_unique(s: Seq<char>, a: int, b: int, c: int)
    requires
        numeral_split(s, a, b, c),
    ensures
        a == (if s.len() > 0 && s[0] == '-' {
            1int
        } else {
            0int
        }),
        b == digits_end(s, a),
        b > a,
        b < c <==> (b < s.len() && s[b] == '.'),
        b < c ==> c == digits_end(s, b + 1) && c > b + 1,
        c < s.len() <==> (c < s.len() && s[c] == 'e'),
        c < s.len() ==> {
            let k = if c + 1 < s.len() && s[c + 1] == '-' {
                c + 2
            } else {
                c + 1
            };
            digits_end(s, k) == s.len() && k < s.len()
        },
{
    assert(is_digit(s[a]));
    if b < c {
        assert(is_digit(s[b + 1]));
        if c < s.len() {
            assert(s[c] == 'e');
        }
        lemma_digits_end(s, b + 1, c);
    }
    assert(b == s.len() || !is_digit(s[b]));
    lemma_digits_end(s, a, b);
    if c < s.len() {
        if digits_in(s, c + 1, s.len() as int) {
            assert(is_digit(s[c + 1]));
            lemma_digits_end(s, c + 1, s.len() as int);
        } else {
            assert(is_digit(s[c + 2]));
            lemma_digits_end(s, c + 2, s.len() as int);
        }
    }
}

/// The end of the longest run of digits that starts at `from`.
fn skip_digits(chars: &Vec<char>, from: usize) -> (to: usize)
    requires
        from <= chars.len(),
    ensures
        from <= to <= chars.len(),
        to == digits_end(chars@, from as int),
        forall|j: int| from <= j < to ==> is_digit(#[trigger] chars@[j]),
        to == chars.len() || !is_digit(chars@[to as int]),
{
    let mut to: usize = from;
    while to < chars.len() && '0' <= chars[to] && chars[to] <= '9'
        invariant
            from <= to <= chars.len(),
            forall|j: int| from <= j < to ==> is_digit(#[trigger] chars@[j]),
        decreases chars.len() - to,
    {
        to += 1;
    }
    proof {
        lemma_digits_end(chars@, from as int, to as int);
    }
    to
}

/// The decimal numeral of a finite floating-point number, such as `3.14`,
/// `10.0`, `-0.5` or `1.5e-7`.
///
/// A floating-point literal is kept as the shortest numeral that reads
/// back as the same number, so printing it reproduces it character for
/// character. Values that are not finite have no numeral.
#[derive(Debug, PartialEq, Eq)]
pub struct Numeral {
    text: String,
}

impl View for Numeral {
    type V = Seq<char>;

    /// The characters of the numeral.
    closed spec fn view(&self) -> Seq<char> {
        self.text@
    }
}

impl Numeral {
    /// Whether the characters kept here are a numeral.
    pub open spec fn wf(&self) -> bool {
        is_numeral(self@)
    }

    /// Create a numeral from its text, if the text is one.
    pub fn new(text: &str) -> (numeral: Option<Numeral>)
        ensures
            numeral is Some <==> is_numeral(text@),
            numeral matches Some(n) ==> n@ == text@ && n.wf(),
    {
        let chars = chars_of(text);
        let n = chars.len();
        let ghost s = chars@;
        proof {
            assert forall|a2: int, b2: int, c2: int| numeral_split(s, a2, b2, c2) implies {
                &&& a2 == (if s.len() > 0 && s[0] == '-' {
                    1int
                } else {
                    0int
                })
                &&& b2 == digits_end(s, a2)
                &&& b2 > a2
                &&& (b2 < c2 <==> (b2 < s.len() && s[b2] == '.'))
                &&& (b2 < c2 ==> c2 == digits_end(s, b2 + 1) && c2 > b2 + 1)
                &&& (c2 < s.len() <==> (c2 < s.len() && s[c2] == 'e'))
                &&& (c2 < s.len() ==> {
                    let k = if c2 + 1 < s.len() && s[c2 + 1] == '-' {
                        c2 + 2
                    } else {
                        c2 + 1
                    };
                    digits_end(s, k) == s.len() && k < s.len()
                })
            } by {
                lemma_split_unique(s, a2, b2, c2);
            }
        }
        let a: usize = if n > 0 && chars[0] == '-' {
            1
        } else {
            0
        };
        let b = skip_digits(&chars, a);
        if b == a {
            return None;
        }
        let mut c: usize = b;
        if b < n && chars[b] == '.' {
            c = skip_digits(&chars, b + 1);
            if c == b + 1 {
                return None;
            }
        }
        let mut d: usize = c;
        if c < n && chars[c] == 'e' {
            let k: usize = if c + 1 < n && chars[c + 1] == '-' {
                c + 2
            } else {
                c + 1
            };
            d = skip_digits(&chars, k);
            if d == k {
                return None;
            }
        }
        if d != n || b == d {
            return None;
        }
        assert(numeral_split(s, a as int, b as int, c as int));
        Some(Numeral { text: String::from_str(text) })
    }

    /// The characters of the numeral.
    pub fn as_str(&self) -> (s: &str)
        ensures
            s@ == self@,
    {
        self.text.as_str()
    }
}

impl Clone for Numeral {
    fn clone(&self) -> (res: Self)
        ensures
            res == *self,
    {
        Numeral { text: self.text.clone() }
    }
}

/// A kind of literal.
#[derive(Debug, PartialEq)]
pub enum LitKind {
    /// The none literal: `none`.
    NoneLit,
    /// A boolean literal: `true`, `false`.
    Bool(bool),
    /// An integer literal: `120`.
    Int(i64),
    /// A floating-point literal: `1.2`, `10e-4`.
    Float(Numeral),
    /// A length literal: `12pt`, `3cm`.
    Length(Numeral, LengthUnit),
    /// An angle literal:  `1.5rad`, `90deg`.
    Angle(Numeral, AngularUnit),
    /// A percent literal: `50%`.
    ///
    /// The numeral counts percent: `50%` is kept as `50.0`, not as `0.5`.
    Percent(Numeral),
    /// A color literal: `#ffccee`.
    Color(RgbaColor),
    /// A string literal: `"hello!"`.
    Str(String),
}

impl LitKind {
    /// The one canonical text of this literal.
    ///
    /// A unit or a percent sign follows its numeral without a space.
    pub open spec fn text(&self) -> Seq<char> {
        match self {
            LitKind::NoneLit => "none"@,
            LitKind::Bool(v) => if *v {
                "true"@
            } else {
                "false"@
            },
            LitKind::Int(v) => int_text(*v as int),
            LitKind::Float(v) => v@,
            LitKind::Length(v, unit) => v@ + unit.spelling(),
            LitKind::Angle(v, unit) => v@ + unit.spelling(),
            LitKind::Percent(v) => v@.push('%'),
            LitKind::Color(v) => v.text(),
            LitKind::Str(v) => str_text(v@),
        }
    }

    /// Write this literal in its canonical text.
    pub fn pretty(&self, p: &mut Printer)
        ensures
            final(p)@ == old(p)@ + self.text(),
    {
        match self {
            LitKind::NoneLit => p.push_str("none"),
            LitKind::Bool(v) => pretty_bool(*v, p),
            LitKind::Int(v) => pretty_int(*v, p),
            LitKind::Float(v) => p.push_str(v.as_str()),
            LitKind::Length(v, unit) => {
                p.push_str(v.as_str());
                p.push_str(unit.as_str());
            },
            LitKind::Angle(v, unit) => {
                p.push_str(v.as_str());
                p.push_str(unit.as_str());
            },
            LitKind::Percent(v) => {
                p.push_str(v.as_str());
                p.push('%');
            },
            LitKind::Color(v) => v.pretty(p),
            LitKind::Str(v) => pretty_str(v.as_str(), p),
        }
    }
}

/// A literal.
#[derive(Debug, PartialEq)]
pub struct Lit {
    /// The source code location.
    pub span: Span,
    /// The kind of literal.
    pub kind: LitKind,
}

impl Lit {
    /// The canonical text of this literal.
    pub open spec fn text(&self) -> Seq<char> {
        self.kind.text()
    }

    /// Write this literal in its canonical text.
    pub fn pretty(&self, p: &mut Printer)
        ensures
            final(p)@ == old(p)@ + self.text(),
    {
        self.kind.pretty(p);
    }
}

impl Clone for LitKind {
    fn clone(&self) -> (res: Self)
        ensures
            res == *self,
    {
        match self {
            LitKind::NoneLit => LitKind::NoneLit,
            LitKind::Bool(v) => LitKind::Bool(*v),
            LitKind::Int(v) => LitKind::Int(*v),
            LitKind::Float(v) => LitKind::Float(v.clone()),
            LitKind::Length(v, unit) => LitKind::Length(v.clone(), *unit),
            LitKind::Angle(v, unit) => LitKind::Angle(v.clone(), *unit),
            LitKind::Percent(v) => LitKind::Percent(v.clone()),
            LitKind::Color(v) => LitKind::Color(*v),
            LitKind::Str(v) => LitKind::Str(v.clone()),
        }
    }
}

} // verus!
