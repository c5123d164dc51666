//! The tagged scalar carried by parameters and result cells, with the
//! conversions used when a column is read out.
use vstd::prelude::*;
use vstd::utf8::encode_utf8;
use vstd::string::StringSliceAdditionalSpecFns;
use crate::codes::{SQLITE_FLOAT, SQLITE_INTEGER, SQLITE_NULL, SQLITE_TEXT};

verus! {

/// A scalar value. A real is held as the bit pattern of an IEEE-754 double.
pub enum Value {
    Text(String),
    Integer(i64),
    Real(u64),
    Null,
}

pub open spec fn digit_char(d: int) -> char {
    if d == 0 {
        '0'
    } else if d == 1 {
        '1'
    } else if d == 2 {
        '2'
    } else if d == 3 {
        '3'
    } else if d == 4 {
        '4'
    } else if d == 5 {
        '5'
    } else if d == 6 {
        '6'
    } else if d == 7 {
        '7'
    } else if d == 8 {
        '8'
    } else {
        '9'
    }
}

/// The decimal digits of a natural number, most significant first.
pub open spec fn digits(n: nat) -> Seq<char>
    decreases n,
{
    if n < 10 {
        seq![digit_char(n as int)]
    } else {
        digits(n / 10).push(digit_char((n % 10) as int))
    }
}

/// The decimal form of an integer, with a leading `-` when negative.
pub open spec fn decimal(v: int) -> Seq<char> {
    if v < 0 {
        seq!['-'] + digits((-v) as nat)
    } else {
        digits(v as nat)
    }
}

pub open spec fn is_digit(c: char) -> bool {
    48 <= c as u32 <= 57
}

/// The value of a string of decimal digits.
pub open spec fn digits_value(s: Seq<char>) -> int
    decreases s.len(),
{
    if s.len() == 0 {
        0
    } else {
        digits_value(s.drop_last()) * 10 + (s.last() as u32 - 48)
    }
}

/// An optional `+` or `-` followed by at least one decimal digit, whose
/// value fits in an `i64`.
pub open spec fn parsed_i64(s: Seq<char>) -> Option<i64> {
    let signed = s.len() > 0 && (s[0] == '-' || s[0] == '+');
    let body = if signed {
        s.drop_first()
    } else {
        s
    };
    let v = if s.len() > 0 && s[0] == '-' {
        -digits_value(body)
    } else {
        digits_value(body)
    };
    if body.len() > 0 && (forall|i: int| 0 <= i < body.len() ==> is_digit(body[i])) && i64::MIN
        <= v <= i64::MAX {
        Some(v as i64)
    } else {
        None
    }
}

/// Relies on std's `ToString` for `i64`: the decimal form.
#[verifier::external_body]
pub(crate) fn i64_text(v: i64) -> (r: String)
    ensures
        r@ == decimal(v as int),
{
    v.to_string()
}

/// Relies on std's `str::parse::<i64>`: an optional sign and decimal digits,
/// rejected when out of range.
#[verifier::external_body]
pub(crate) fn parse_i64(s: &str) -> (r: Option<i64>)
    ensures
        r == parsed_i64(s@),
{
    s.parse::<i64>().ok()
}

/// The column type code of a value.
pub open spec fn type_code_of(v: Value) -> i32 {
    match v {
        Value::Integer(_) => SQLITE_INTEGER,
        Value::Real(_) => SQLITE_FLOAT,
        Value::Text(_) => SQLITE_TEXT,
        Value::Null => SQLITE_NULL,
    }
}

/// The byte length of a value: UTF-8 bytes of a text, 8 for a number, 0 for null.
pub open spec fn byte_len_of(v: Value) -> usize {
    match v {
        Value::Text(s) => encode_utf8(s@).len() as usize,
        Value::Integer(_) => 8,
        Value::Real(_) => 8,
        Value::Null => 0,
    }
}

/// The integer readout of a value other than a real: text and null read as 0.
pub open spec fn int64_of(v: Value) -> Option<i64> {
    match v {
        Value::Integer(i) => Some(i),
        Value::Real(_) => None,
        Value::Text(_) => Some(0),
        Value::Null => Some(0),
    }
}

/// The text readout of a value other than a real: an integer in decimal,
/// null as `NULL`.
pub open spec fn text_of(v: Value) -> Option<Seq<char>> {
    match v {
        Value::Text(s) => Some(s@),
        Value::Integer(i) => Some(decimal(i as int)),
        Value::Real(_) => None,
        Value::Null => Some("NULL"@),
    }
}

impl Value {
    pub fn type_code(&self) -> (r: i32)
        ensures
            r == type_code_of(*self),
    {
        match self {
            Value::Integer(_) => SQLITE_INTEGER,
            Value::Real(_) => SQLITE_FLOAT,
            Value::Text(_) => SQLITE_TEXT,
            Value::Null => SQLITE_NULL,
        }
    }

    pub fn byte_len(&self) -> (r: usize)
        ensures
            r == byte_len_of(*self),
    {
        match self {
            Value::Text(s) => {
                let t = s.as_str();
                proof {
                    assert(t.spec_bytes() == encode_utf8(s@));
                }
                t.len()
            },
            Value::Integer(_) => 8,
            Value::Real(_) => 8,
            Value::Null => 0,
        }
    }

    /// The integer readout; `None` for a real, whose truncation is done on
    /// the double itself by the caller.
    pub fn int64_value(&self) -> (r: Option<i64>)
        ensures
            r == int64_of(*self),
    {
        match self {
            Value::Integer(i) => Some(*i),
            Value::Real(_) => None,
            Value::Text(_) => Some(0),
            Value::Null => Some(0),
        }
    }

    /// The text readout; `None` for a real, whose decimal form is made from
    /// the double itself by the caller.
    pub fn text_value(&self) -> (r: Option<String>)
        ensures
            match r {
                Some(t) => text_of(*self) == Some(t@),
                None => text_of(*self) is None,
            },
    {
        match self {
            Value::Text(s) => Some(s.clone()),
            Value::Integer(i) => Some(i64_text(*i)),
            Value::Real(_) => None,
            Value::Null => Some(String::from_str("NULL")),
        }
    }
}

} // verus!
