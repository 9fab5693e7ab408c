//! Decimal numbers as plain parts.
//!
//! A value holds a sign, a 96-bit coefficient and a scale and nothing else; the
//! type sees to it that the scale is one that a decimal can carry. Writing a
//! value as text and reading it back is the work of `rust_decimal`, which is
//! called with the parts and asked for the parts.

use vstd::prelude::*;
use crate::error::EncodingError;

verus! {

/// What `rust_decimal` gives back when it cannot read a text. Nothing is known
/// of what it holds.
#[verifier::external_type_specification]
#[verifier::external_body]
pub struct ExDecimalError(rust_decimal::Error);

/// The largest scale a decimal can carry.
pub const MAX_SCALE: u32 = 28;

/// The parts of a decimal as plain numbers, whether or not they make one up:
/// the low, middle and high 32 bits of the coefficient, the sign, and the
/// scale, which is the number of digits after the decimal point.
#[derive(Clone, Copy, Debug, PartialEq, Eq, Structural)]
pub struct DecimalParts {
    pub lo: u32,
    pub mid: u32,
    pub hi: u32,
    pub negative: bool,
    pub scale: u32,
}

/// A decimal number: `coefficient / 10^scale`, negated when the sign is set.
/// Zero has no sign. Two decimals are equal when their parts are: 2.5 and 2.50
/// are not.
#[derive(Clone, Copy, Debug, PartialEq, Eq, Structural)]
pub struct Decimal {
    parts: DecimalParts,
}

/// The text that `rust_decimal` prints for the decimal with these parts.
pub uninterp spec fn decimal_text(parts: DecimalParts) -> Seq<char>;

/// The parts of the decimal that `rust_decimal` reads from `text`, or `None`
/// where it rejects the text.
pub uninterp spec fn decimal_parsed(text: Seq<char>) -> Option<DecimalParts>;

impl DecimalParts {
    /// The 96-bit coefficient.
    pub open spec fn coefficient(self) -> nat {
        (self.lo + self.mid * 0x1_0000_0000 + self.hi * 0x1_0000_0000_0000_0000) as nat
    }

    /// Whether the parts make up a decimal: the scale is one that a decimal
    /// can carry, and the sign is not set on zero.
    pub open spec fn is_valid(self) -> bool {
        &&& self.scale <= MAX_SCALE
        &&& self.negative ==> self.coefficient() > 0
    }

    /// The parts with the sign taken off zero.
    pub open spec fn normalized(self) -> DecimalParts {
        DecimalParts { negative: self.negative && self.coefficient() > 0, ..self }
    }
}

impl Decimal {
    #[verifier::type_invariant]
    spec fn parts_make_a_decimal(self) -> bool {
        self.parts.is_valid()
    }

    /// The parts of the decimal.
    pub closed spec fn parts(self) -> DecimalParts {
        self.parts
    }

    /// The decimal with the parts `parts`.
    pub closed spec fn with_parts(parts: DecimalParts) -> Decimal {
        Decimal { parts }
    }

    /// Whether the number is greater than zero.
    pub open spec fn is_greater_than_zero(self) -> bool {
        !self.parts().negative && self.parts().coefficient() > 0
    }

    /// The text that is written for the decimal.
    pub open spec fn text(self) -> Seq<char> {
        decimal_text(self.parts())
    }

    /// What the parts read from a text amount to: the decimal they make up
    /// once the sign is taken off zero, or `InvalidDecimal` where nothing was
    /// read or the scale is none that a decimal can carry.
    pub open spec fn of_parsed(parsed: Option<DecimalParts>) -> Result<Decimal, EncodingError> {
        match parsed {
            Some(parts) if parts.scale <= MAX_SCALE => Ok(Self::with_parts(parts.normalized())),
            _ => Err(EncodingError::InvalidDecimal),
        }
    }

    /// The decimal that is read from `text`, or `InvalidDecimal`.
    pub open spec fn read(text: Seq<char>) -> Result<Decimal, EncodingError> {
        Self::of_parsed(decimal_parsed(text))
    }

    /// A decimal is the one that its parts make up, and the decimal that parts
    /// make up has those parts.
    pub proof fn lemma_parts_make_up(self)
        ensures
            Self::with_parts(self.parts()) == self,
            forall|parts: DecimalParts| (#[trigger] Self::with_parts(parts)).parts() == parts,
    {
    }

    /// The decimal with these parts, where the scale is one that a decimal
    /// can carry. The sign is taken off zero.
    pub fn from_parts_opt(lo: u32, mid: u32, hi: u32, negative: bool, scale: u32) -> (r: Option<
        Decimal,
    >)
        ensures
            r is Some <==> scale <= MAX_SCALE,
            r is Some ==> r->Some_0.parts() == (DecimalParts {
                lo,
                mid,
                hi,
                negative,
                scale,
            }).normalized(),
    {
        if scale <= MAX_SCALE {
            let is_zero = lo == 0 && mid == 0 && hi == 0;
            Some(
                Decimal {
                    parts: DecimalParts { lo, mid, hi, negative: negative && !is_zero, scale },
                },
            )
        } else {
            None
        }
    }

    /// Whether the number is greater than zero.
    pub fn is_positive(&self) -> (b: bool)
        ensures
            b == self.is_greater_than_zero(),
    {
        !self.parts.negative && (self.parts.lo != 0 || self.parts.mid != 0 || self.parts.hi != 0)
    }

    /// The low 32 bits of the coefficient.
    pub fn lo(&self) -> (n: u32)
        ensures
            n == self.parts().lo,
    {
        self.parts.lo
    }

    /// The middle 32 bits of the coefficient.
    pub fn mid(&self) -> (n: u32)
        ensures
            n == self.parts().mid,
    {
        self.parts.mid
    }

    /// The high 32 bits of the coefficient.
    pub fn hi(&self) -> (n: u32)
        ensures
            n == self.parts().hi,
    {
        self.parts.hi
    }

    /// Whether the sign is set.
    pub fn is_sign_negative(&self) -> (b: bool)
        ensures
            b == self.parts().negative,
    {
        self.parts.negative
    }

    /// The number of digits after the decimal point.
    pub fn scale(&self) -> (n: u32)
        ensures
            n == self.parts().scale,
            n <= MAX_SCALE,
    {
        proof {
            use_type_invariant(self);
        }
        self.parts.scale
    }

    /// The decimal as text.
    pub fn to_text(&self) -> (s: String)
        ensures
            s@ == self.text(),
    {
        proof {
            use_type_invariant(self);
        }
        format_decimal(self.parts)
    }

    /// The decimal that the parts read from a text make up.
    pub fn from_parsed(parsed: Option<DecimalParts>) -> (r: Result<Decimal, EncodingError>)
        ensures
            r == Self::of_parsed(parsed),
    {
        match parsed {
            Some(p) => match Self::from_parts_opt(p.lo, p.mid, p.hi, p.negative, p.scale) {
                Some(d) => Ok(d),
                None => Err(EncodingError::InvalidDecimal),
            },
            None => Err(EncodingError::InvalidDecimal),
        }
    }

    /// Reads a decimal from text; `InvalidDecimal` where the text is none.
    pub fn from_text(text: &str) -> (r: Result<Decimal, EncodingError>)
        ensures
            r == Self::read(text@),
    {
        match parse_decimal(text) {
            Ok(parts) => Self::from_parsed(Some(parts)),
            Err(_) => Self::from_parsed(None),
        }
    }
}

/// Calls `rust_decimal::Decimal::from_parts`, which takes every scale up to
/// `MAX_SCALE`, and the `to_string` of the decimal that it makes. What is claimed
/// is that the text depends on the parts alone.
#[verifier::external_body]
fn format_decimal(parts: DecimalParts) -> (s: String)
    requires
        parts.scale <= MAX_SCALE,
    ensures
        s@ == decimal_text(parts),
{
    rust_decimal::Decimal::from_parts(parts.lo, parts.mid, parts.hi, parts.negative, parts.scale)
        .to_string()
}

/// Calls `rust_decimal::Decimal::from_str` and hands out the parts of the
/// decimal it read, as `unpack` gives them. What is claimed is that whether a
/// decimal is read, and which, depends on the text alone.
#[verifier::external_body]
fn parse_decimal(text: &str) -> (r: Result<DecimalParts, rust_decimal::Error>)
    ensures
        r is Ok <==> decimal_parsed(text@) is Some,
        r is Ok ==> Some(r->Ok_0) == decimal_parsed(text@),
{
    match text.parse::<rust_decimal::Decimal>() {
        Ok(d) => {
            let p = d.unpack();
            Ok(
                DecimalParts {
                    lo: p.lo,
                    mid: p.mid,
                    hi: p.hi,
                    negative: p.negative,
                    scale: p.scale,
                },
            )
        },
        Err(e) => Err(e),
    }
}

} // verus!
