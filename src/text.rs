use crate::error::Error;
use crate::NodeKind;
use vstd::prelude::*;

verus! {

pub open spec fn is_decimal_digit(c: char) -> bool {
    '0' <= c <= '9'
}

/// The value of a run of decimal digits.
pub open spec fn digits_value(s: Seq<char>) -> int
    decreases s.len(),
{
    if s.len() == 0 {
        0
    } else {
        10 * digits_value(s.drop_last()) + (s.last() as int - '0' as int)
    }
}

/// The value of a decimal integer literal: an optional sign (`-` only where
/// `signed`), then one or more decimal digits and nothing else.
pub open spec fn decimal_literal(s: Seq<char>, signed: bool) -> Option<int> {
    let negative = signed && s.len() > 0 && s[0] == '-';
    let digits = if s.len() > 0 && (s[0] == '+' || negative) {
        s.drop_first()
    } else {
        s
    };
    if digits.len() > 0 && (forall|i: int| 0 <= i < digits.len() ==> is_decimal_digit(#[trigger] digits[i])) {
        Some(
            if negative {
                -digits_value(digits)
            } else {
                digits_value(digits)
            },
        )
    } else {
        None
    }
}

/// The value of a decimal literal that lies in `lo ..= hi`.
pub open spec fn ranged_literal(s: Seq<char>, signed: bool, lo: int, hi: int) -> Option<int> {
    match decimal_literal(s, signed) {
        Some(v) => if lo <= v <= hi {
            Some(v)
        } else {
            None
        },
        None => None,
    }
}

/// The value of a boolean literal: exactly `true` or `false`.
pub open spec fn bool_literal(s: Seq<char>) -> Option<bool> {
    if s == "true"@ {
        Some(true)
    } else if s == "false"@ {
        Some(false)
    } else {
        None
    }
}

/// The value of a character literal: exactly one character.
pub open spec fn char_literal(s: Seq<char>) -> Option<char> {
    if s.len() == 1 {
        Some(s[0])
    } else {
        None
    }
}

/// Relies on `<u8 as FromStr>::from_str`: an optional `+`, then decimal digits
/// and nothing else, whose value fits in `u8`; otherwise an error, of which
/// only the message is kept.
#[verifier::external_body]
fn parse_u8(s: &str) -> (r: Result<u8, String>)
    ensures
        match ranged_literal(s@, false, 0, u8::MAX as int) {
            Some(v) => r == Ok::<u8, String>(v as u8),
            None => r is Err,
        },
{
    match s.parse::<u8>() {
        Ok(v) => Ok(v),
        Err(e) => Err(e.to_string()),
    }
}

/// Relies on `<u16 as FromStr>::from_str`: an optional `+`, then decimal digits
/// and nothing else, whose value fits in `u16`; otherwise an error, of which
/// only the message is kept.
#[verifier::external_body]
fn parse_u16(s: &str) -> (r: Result<u16, String>)
    ensures
        match ranged_literal(s@, false, 0, u16::MAX as int) {
            Some(v) => r == Ok::<u16, String>(v as u16),
            None => r is Err,
        },
{
    match s.parse::<u16>() {
        Ok(v) => Ok(v),
        Err(e) => Err(e.to_string()),
    }
}

/// Relies on `<u32 as FromStr>::from_str`: an optional `+`, then decimal digits
/// and nothing else, whose value fits in `u32`; otherwise an error, of which
/// only the message is kept.
#[verifier::external_body]
fn parse_u32(s: &str) -> (r: Result<u32, String>)
    ensures
        match ranged_literal(s@, false, 0, u32::MAX as int) {
            Some(v) => r == Ok::<u32, String>(v as u32),
            None => r is Err,
        },
{
    match s.parse::<u32>() {
        Ok(v) => Ok(v),
        Err(e) => Err(e.to_string()),
    }
}

/// Relies on `<u64 as FromStr>::from_str`: an optional `+`, then decimal digits
/// and nothing else, whose value fits in `u64`; otherwise an error, of which
/// only the message is kept.
#[verifier::external_body]
fn parse_u64(s: &str) -> (r: Result<u64, String>)
    ensures
        match ranged_literal(s@, false, 0, u64::MAX as int) {
            Some(v) => r == Ok::<u64, String>(v as u64),
            None => r is Err,
        },
{
    match s.parse::<u64>() {
        Ok(v) => Ok(v),
        Err(e) => Err(e.to_string()),
    }
}

/// Relies on `<i8 as FromStr>::from_str`: an optional `+` or `-`, then decimal digits
/// and nothing else, whose value fits in `i8`; otherwise an error, of which
/// only the message is kept.
#[verifier::external_body]
fn parse_i8(s: &str) -> (r: Result<i8, String>)
    ensures
        match ranged_literal(s@, true, i8::MIN as int, i8::MAX as int) {
            Some(v) => r == Ok::<i8, String>(v as i8),
            None => r is Err,
        },
{
    match s.parse::<i8>() {
        Ok(v) => Ok(v),
        Err(e) => Err(e.to_string()),
    }
}

/// Relies on `<i16 as FromStr>::from_str`: an optional `+` or `-`, then decimal digits
/// and nothing else, whose value fits in `i16`; otherwise an error, of which
/// only the message is kept.
#[verifier::external_body]
fn parse_i16(s: &str) -> (r: Result<i16, String>)
    ensures
        match ranged_literal(s@, true, i16::MIN as int, i16::MAX as int) {
            Some(v) => r == Ok::<i16, String>(v as i16),
            None => r is Err,
        },
{
    match s.parse::<i16>() {
        Ok(v) => Ok(v),
        Err(e) => Err(e.to_string()),
    }
}

/// Relies on `<i32 as FromStr>::from_str`: an optional `+` or `-`, then decimal digits
/// and nothing else, whose value fits in `i32`; otherwise an error, of which
/// only the message is kept.
#[verifier::external_body]
fn parse_i32(s: &str) -> (r: Result<i32, String>)
    ensures
        match ranged_literal(s@, true, i32::MIN as int, i32::MAX as int) {
            Some(v) => r == Ok::<i32, String>(v as i32),
            None => r is Err,
        },
{
    match s.parse::<i32>() {
        Ok(v) => Ok(v),
        Err(e) => Err(e.to_string()),
    }
}

/// Relies on `<i64 as FromStr>::from_str`: an optional `+` or `-`, then decimal digits
/// and nothing else, whose value fits in `i64`; otherwise an error, of which
/// only the message is kept.
#[verifier::external_body]
fn parse_i64(s: &str) -> (r: Result<i64, String>)
    ensures
        match ranged_literal(s@, true, i64::MIN as int, i64::MAX as int) {
            Some(v) => r == Ok::<i64, String>(v as i64),
            None => r is Err,
        },
{
    match s.parse::<i64>() {
        Ok(v) => Ok(v),
        Err(e) => Err(e.to_string()),
    }
}

/// Relies on `<bool as FromStr>::from_str`: `true` or `false` exactly.
#[verifier::external_body]
fn parse_bool(s: &str) -> (r: Result<bool, String>)
    ensures
        match bool_literal(s@) {
            Some(v) => r == Ok::<bool, String>(v),
            None => r is Err,
        },
{
    match s.parse::<bool>() {
        Ok(v) => Ok(v),
        Err(e) => Err(e.to_string()),
    }
}

/// Relies on `<char as FromStr>::from_str`: exactly one character.
#[verifier::external_body]
fn parse_char(s: &str) -> (r: Result<char, String>)
    ensures
        match char_literal(s@) {
            Some(v) => r == Ok::<char, String>(v),
            None => r is Err,
        },
{
    match s.parse::<char>() {
        Ok(v) => Ok(v),
        Err(e) => Err(e.to_string()),
    }
}

/// A single text span, read as a leaf value. A leaf has no children, so
/// every composite request of it fails.
pub struct TextDeserializer<'a> {
    text: &'a str,
}

impl<'a> TextDeserializer<'a> {
    /// The text the leaf holds.
    pub closed spec fn spec_text(&self) -> Seq<char> {
        self.text@
    }

    /// A leaf over the given text.
    pub fn new(text: &'a str) -> (r: TextDeserializer<'a>)
        ensures
            r.spec_text() == text@,
    {
        TextDeserializer { text }
    }

    /// The text, as a view into the input; this never fails.
    pub fn deserialize_str(&self) -> (r: &'a str)
        ensures
            r@ == self.spec_text(),
    {
        self.text
    }

    /// The text, copied into a string of its own; this never fails.
    pub fn deserialize_string(&self) -> (r: String)
        ensures
            r@ == self.spec_text(),
    {
        self.text.to_owned()
    }

    /// An empty text is absent; any other is present, as the same leaf.
    pub fn deserialize_option(self) -> (r: Option<TextDeserializer<'a>>)
        ensures
            self.spec_text().len() == 0 ==> r is None,
            self.spec_text().len() > 0 ==> r is Some && r->Some_0.spec_text() == self.spec_text(),
    {
        if self.text.is_empty() {
            None
        } else {
            Some(self)
        }
    }

    /// A unit is an empty text.
    pub fn deserialize_unit(&self) -> (r: Result<(), Error>)
        ensures
            self.spec_text().len() == 0 ==> r is Ok,
            self.spec_text().len() > 0 ==> r == Err::<(), Error>(Error::ExpectedUnit(NodeKind::Text)),
    {
        if self.text.is_empty() {
            Ok(())
        } else {
            Err(Error::ExpectedUnit(NodeKind::Text))
        }
    }

    /// A sequence or tuple cannot be read from a leaf.
    pub fn deserialize_seq(&self) -> (r: Error)
        ensures
            r == Error::ExpectedArray(NodeKind::Text),
    {
        Error::ExpectedArray(NodeKind::Text)
    }

    /// A map or struct cannot be read from a leaf.
    pub fn deserialize_map(&self) -> (r: Error)
        ensures
            r == Error::ExpectedMap(NodeKind::Text),
    {
        Error::ExpectedMap(NodeKind::Text)
    }

    /// An enum cannot be read from a leaf.
    pub fn deserialize_enum(&self) -> (r: Error)
        ensures
            r == Error::ExpectedEnum(NodeKind::Text),
    {
        Error::ExpectedEnum(NodeKind::Text)
    }

    /// The text as a boolean literal.
    pub fn deserialize_bool(&self) -> (r: Result<bool, Error>)
        ensures
            match bool_literal(self.spec_text()) {
                Some(v) => r == Ok::<bool, Error>(v),
                None => r matches Err(Error::ParseError(_)),
            },
    {
        match parse_bool(self.text) {
            Ok(v) => Ok(v),
            Err(m) => Err(Error::ParseError(m)),
        }
    }

    /// The text as a character literal.
    pub fn deserialize_char(&self) -> (r: Result<char, Error>)
        ensures
            match char_literal(self.spec_text()) {
                Some(v) => r == Ok::<char, Error>(v),
                None => r matches Err(Error::ParseError(_)),
            },
    {
        match parse_char(self.text) {
            Ok(v) => Ok(v),
            Err(m) => Err(Error::ParseError(m)),
        }
    }

    /// The text as a decimal `u8` literal.
    pub fn deserialize_u8(&self) -> (r: Result<u8, Error>)
        ensures
            match ranged_literal(self.spec_text(), false, 0, u8::MAX as int) {
                Some(v) => r == Ok::<u8, Error>(v as u8),
                None => r matches Err(Error::ParseError(_)),
            },
    {
        match parse_u8(self.text) {
            Ok(v) => Ok(v),
            Err(m) => Err(Error::ParseError(m)),
        }
    }

    /// The text as a decimal `u16` literal.
    pub fn deserialize_u16(&self) -> (r: Result<u16, Error>)
        ensures
            match ranged_literal(self.spec_text(), false, 0, u16::MAX as int) {
                Some(v) => r == Ok::<u16, Error>(v as u16),
                None => r matches Err(Error::ParseError(_)),
            },
    {
        match parse_u16(self.text) {
            Ok(v) => Ok(v),
            Err(m) => Err(Error::ParseError(m)),
        }
    }

    /// The text as a decimal `u32` literal.
    pub fn deserialize_u32(&self) -> (r: Result<u32, Error>)
        ensures
            match ranged_literal(self.spec_text(), false, 0, u32::MAX as int) {
                Some(v) => r == Ok::<u32, Error>(v as u32),
                None => r matches Err(Error::ParseError(_)),
            },
    {
        match parse_u32(self.text) {
            Ok(v) => Ok(v),
            Err(m) => Err(Error::ParseError(m)),
        }
    }

    /// The text as a decimal `u64` literal.
    pub fn deserialize_u64(&self) -> (r: Result<u64, Error>)
        ensures
            match ranged_literal(self.spec_text(), false, 0, u64::MAX as int) {
                Some(v) => r == Ok::<u64, Error>(v as u64),
                None => r matches Err(Error::ParseError(_)),
            },
    {
        match parse_u64(self.text) {
            Ok(v) => Ok(v),
            Err(m) => Err(Error::ParseError(m)),
        }
    }

    /// The text as a decimal `i8` literal.
    pub fn deserialize_i8(&self) -> (r: Result<i8, Error>)
        ensures
            match ranged_literal(self.spec_text(), true, i8::MIN as int, i8::MAX as int) {
                Some(v) => r == Ok::<i8, Error>(v as i8),
                None => r matches Err(Error::ParseError(_)),
            },
    {
        match parse_i8(self.text) {
            Ok(v) => Ok(v),
            Err(m) => Err(Error::ParseError(m)),
        }
    }

    /// The text as a decimal `i16` literal.
    pub fn deserialize_i16(&self) -> (r: Result<i16, Error>)
        ensures
            match ranged_literal(self.spec_text(), true, i16::MIN as int, i16::MAX as int) {
                Some(v) => r == Ok::<i16, Error>(v as i16),
                None => r matches Err(Error::ParseError(_)),
            },
    {
        match parse_i16(self.text) {
            Ok(v) => Ok(v),
            Err(m) => Err(Error::ParseError(m)),
        }
    }

    /// The text as a decimal `i32` literal.
    pub fn deserialize_i32(&self) -> (r: Result<i32, Error>)
        ensures
            match ranged_literal(self.spec_text(), true, i32::MIN as int, i32::MAX as int) {
                Some(v) => r == Ok::<i32, Error>(v as i32),
                None => r matches Err(Error::ParseError(_)),
            },
    {
        match parse_i32(self.text) {
            Ok(v) => Ok(v),
            Err(m) => Err(Error::ParseError(m)),
        }
    }

    /// The text as a decimal `i64` literal.
    pub fn deserialize_i64(&self) -> (r: Result<i64, Error>)
        ensures
            match ranged_literal(self.spec_text(), true, i64::MIN as int, i64::MAX as int) {
                Some(v) => r == Ok::<i64, Error>(v as i64),
                None => r matches Err(Error::ParseError(_)),
            },
    {
        match parse_i64(self.text) {
            Ok(v) => Ok(v),
            Err(m) => Err(Error::ParseError(m)),
        }
    }
}

} // verus!
