//! Values exchanged with the host runtime.
//!
//! The host runtime's own values are dynamically typed. What the binding
//! layer ever reads out of such a value is one of a handful of plain shapes:
//! nothing at all, a boolean, an integer, or a piece of text. A
//! [`BoundaryValue`] holds exactly that, so every function that inspects one
//! can be verified over ordinary data.

use vstd::prelude::*;

verus! {

/// The abstract shape of a [`BoundaryValue`], used in contracts.
pub enum BoundaryVal {
    /// The host runtime's "no value here" value.
    Undefined,
    /// The host runtime's explicit null value.
    Null,
    /// A boolean.
    Bool(bool),
    /// An integral number.
    Int(int),
    /// A piece of text.
    Text(Seq<char>),
}

/// A value handed across the language boundary, reduced to the plain shapes
/// the binding layer ever inspects.
#[derive(Clone, PartialEq, Eq, Debug)]
pub enum BoundaryValue {
    /// The host runtime's "no value here" value.
    Undefined,
    /// The host runtime's explicit null value.
    Null,
    /// A boolean.
    Bool(bool),
    /// An integral number.
    Int(i64),
    /// A piece of text.
    Text(String),
}

impl View for BoundaryValue {
    type V = BoundaryVal;

    open spec fn view(&self) -> BoundaryVal {
        match self {
            BoundaryValue::Undefined => BoundaryVal::Undefined,
            BoundaryValue::Null => BoundaryVal::Null,
            BoundaryValue::Bool(b) => BoundaryVal::Bool(*b),
            BoundaryValue::Int(n) => BoundaryVal::Int(*n as int),
            BoundaryValue::Text(s) => BoundaryVal::Text(s@),
        }
    }
}

/// What reading a boundary value back as a boolean yields.
pub open spec fn spec_as_bool(v: BoundaryVal) -> Option<bool> {
    match v {
        BoundaryVal::Bool(b) => Some(b),
        _ => None,
    }
}

/// What reading a boundary value back as an integer yields.
pub open spec fn spec_as_int(v: BoundaryVal) -> Option<int> {
    match v {
        BoundaryVal::Int(n) => Some(n),
        _ => None,
    }
}

/// What reading a boundary value back as text yields.
pub open spec fn spec_as_text(v: BoundaryVal) -> Option<Seq<char>> {
    match v {
        BoundaryVal::Text(s) => Some(s),
        _ => None,
    }
}

impl BoundaryValue {
    /// Wraps a boolean for the host runtime.
    pub fn from_bool(b: bool) -> (r: BoundaryValue)
        ensures
            r@ == BoundaryVal::Bool(b),
    {
        BoundaryValue::Bool(b)
    }

    /// Wraps an integer for the host runtime.
    pub fn from_int(n: i64) -> (r: BoundaryValue)
        ensures
            r@ == BoundaryVal::Int(n as int),
    {
        BoundaryValue::Int(n)
    }

    /// Wraps text for the host runtime.
    pub fn from_text(s: String) -> (r: BoundaryValue)
        ensures
            r@ == BoundaryVal::Text(s@),
    {
        BoundaryValue::Text(s)
    }

    /// Reads the value back as a boolean; `None` for every other shape.
    pub fn as_bool(&self) -> (r: Option<bool>)
        ensures
            match r {
                Some(b) => spec_as_bool(self@) == Some(b),
                None => spec_as_bool(self@) is None,
            },
    {
        match self {
            BoundaryValue::Bool(b) => Some(*b),
            _ => None,
        }
    }

    /// Reads the value back as an integer; `None` for every other shape.
    pub fn as_int(&self) -> (r: Option<i64>)
        ensures
            match r {
                Some(n) => spec_as_int(self@) == Some(n as int),
                None => spec_as_int(self@) is None,
            },
    {
        match self {
            BoundaryValue::Int(n) => Some(*n),
            _ => None,
        }
    }

    /// Reads the value back as text; `None` for every other shape.
    pub fn as_text(&self) -> (r: Option<&String>)
        ensures
            match r {
                Some(s) => spec_as_text(self@) == Some(s@),
                None => spec_as_text(self@) is None,
            },
    {
        match self {
            BoundaryValue::Text(s) => Some(s),
            _ => None,
        }
    }

    /// True for the host runtime's null and undefined values, which both
    /// stand for "nothing".
    pub fn is_nothing(&self) -> (r: bool)
        ensures
            r == (self@ == BoundaryVal::Null || self@ == BoundaryVal::Undefined),
    {
        match self {
            BoundaryValue::Null => true,
            BoundaryValue::Undefined => true,
            _ => false,
        }
    }
}

/// Relies on String::push: it appends the given character to the end of the
/// string and changes nothing else.
pub assume_specification[ String::push ](s: &mut String, c: char)
    ensures
        final(s)@ == old(s)@.push(c),
;

/// The character for a single decimal digit.
pub open spec fn digit_char(d: nat) -> char {
    ((d + 48) as u8) as char
}

/// The decimal digits of `n`, most significant first.
pub open spec fn dec_digits(n: nat) -> Seq<char>
    decreases n,
{
    if n < 10 {
        seq![digit_char(n)]
    } else {
        dec_digits(n / 10).push(digit_char(n % 10))
    }
}

/// The decimal rendering of `n`, with a leading minus sign when negative.
pub open spec fn dec_text(n: int) -> Seq<char> {
    if n < 0 {
        seq!['-'] + dec_digits((-n) as nat)
    } else {
        dec_digits(n as nat)
    }
}

/// Appends the decimal digits of `n` to `out`, most significant first.
fn push_dec_digits(n: u64, out: &mut String)
    ensures
        final(out)@ == old(out)@ + dec_digits(n as nat),
    decreases n,
{
    if n < 10 {
        out.push((48 + n as u8) as char);
    } else {
        proof {
            assert(n / 10 < n) by (nonlinear_arith)
                requires n >= 10;
        }
        push_dec_digits(n / 10, out);
        out.push((48 + (n % 10) as u8) as char);
    }
}

/// Renders an integer as decimal text, exactly as the host runtime would
/// display it.
pub fn int_to_text(n: i64) -> (r: String)
    ensures
        r@ == dec_text(n as int),
{
    let mut out = String::new();
    if n < 0 {
        out.push('-');
        let wide: i128 = n as i128;
        proof {
            assert(i64::MIN as int == -(0x8000_0000_0000_0000 as int));
            assert(0 - wide as int <= u64::MAX as int);
        }
        let magnitude: u64 = (0 - wide) as u64;
        push_dec_digits(magnitude, &mut out);
    } else {
        push_dec_digits(n as u64, &mut out);
    }
    out
}

/// Round trip: a boundary value built from a typed value reads back as
/// exactly that value — the same boolean, the same integer, the same text,
/// never a different shape.
pub proof fn lemma_round_trip(b: bool, n: int, s: Seq<char>)
    ensures
        spec_as_bool(BoundaryVal::Bool(b)) == Some(b),
        spec_as_int(BoundaryVal::Int(n)) == Some(n),
        spec_as_text(BoundaryVal::Text(s)) == Some(s),
{
}

} // verus!
