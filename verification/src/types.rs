//! Identifiers and amounts.
//!
//! Amounts are `fixnum` fixed-point numbers with four decimal places
//! (`FixedPoint<i64, U4>`). The engine works on their raw representation:
//! the integer `1` stands for `0.0001`.
use fixnum::ops::{CheckedAdd, CheckedSub};
use vstd::prelude::*;

verus! {

/// The identifier of a client account.
#[derive(Debug, Clone, Copy, PartialEq, Eq, Structural, PartialOrd, Ord, Hash)]
pub struct ClientId(pub u16);

/// The globally unique identifier of a transaction.
#[derive(Debug, Clone, Copy, PartialEq, Eq, Structural, PartialOrd, Ord, Hash)]
pub struct TxId(pub u32);

/// `fixnum`'s error for an arithmetic result that cannot be represented.
#[verifier::external_type_specification]
#[verifier::external_body]
pub struct ExArithmeticError(fixnum::ArithmeticError);

/// `fixnum`'s error for a string that does not hold a representable amount.
#[verifier::external_type_specification]
#[verifier::external_body]
pub struct ExConvertError(fixnum::ConvertError);

/// Adds two amounts, given by their raw representation, with
/// `fixnum`'s `CheckedAdd::cadd` on `FixedPoint<i64, U4>`.
/// Claimed of it: the sum when it fits in `i64`, an error otherwise
/// (its source adds the raw values with `i64::checked_add`).
#[verifier::external_body]
pub(crate) fn checked_add_amounts(a: i64, b: i64) -> (r: Result<i64, fixnum::ArithmeticError>)
    ensures
        match r {
            Ok(sum) => sum == a + b,
            Err(_) => a + b < i64::MIN || i64::MAX < a + b,
        },
{
    fixnum::FixedPoint::<i64, fixnum::typenum::U4>::from_bits(a)
        .cadd(fixnum::FixedPoint::from_bits(b))
        .map(fixnum::FixedPoint::into_bits)
}

/// Subtracts two amounts, given by their raw representation, with
/// `fixnum`'s `CheckedSub::csub` on `FixedPoint<i64, U4>`.
/// Claimed of it: the difference when it fits in `i64`, an error otherwise
/// (its source subtracts the raw values with `i64::checked_sub`).
#[verifier::external_body]
pub(crate) fn checked_sub_amounts(a: i64, b: i64) -> (r: Result<i64, fixnum::ArithmeticError>)
    ensures
        match r {
            Ok(difference) => difference == a - b,
            Err(_) => a - b < i64::MIN || i64::MAX < a - b,
        },
{
    fixnum::FixedPoint::<i64, fixnum::typenum::U4>::from_bits(a)
        .csub(fixnum::FixedPoint::from_bits(b))
        .map(fixnum::FixedPoint::into_bits)
}

/// The raw representation of the amount that `fixnum`'s
/// `FixedPoint::<i64, U4>::from_str_exact` reads from a text, or `None`
/// where it refuses the text.
pub uninterp spec fn exact_amount_bits(text: Seq<char>) -> Option<i64>;

/// Whether a character is a decimal digit.
pub open spec fn is_decimal_digit(ch: char) -> bool {
    '0' <= ch && ch <= '9'
}

/// The number of decimal digits in a text.
pub open spec fn digit_count(text: Seq<char>) -> nat
    decreases text.len(),
{
    if text.len() == 0 {
        0
    } else {
        digit_count(text.drop_last()) + if is_decimal_digit(text.last()) {
            1nat
        } else {
            0nat
        }
    }
}

/// Whether the text has a '.' and at least five decimal digits after the first
/// one: more decimal places than the amount type has.
pub open spec fn too_precise(text: Seq<char>) -> bool {
    exists|i: int|
        0 <= i < text.len() && #[trigger] text[i] == '.' && (forall|j: int| 0 <= j < i ==> text[j] != '.')
            && digit_count(text.subrange(i + 1, text.len() as int)) >= 5
}

/// Reads an amount from a decimal text with `fixnum`'s
/// `FixedPoint::<i64, U4>::from_str_exact`, which refuses texts with more than
/// four decimal places rather than rounding them. Claimed of it: its result
/// depends on the text alone, and is named by `exact_amount_bits`; and a text
/// with at least five digits after its first '.' is refused (its source trims the
/// text, splits it at the first '.', and refuses a fractional part that is not
/// all digits or is longer than four).
#[verifier::external_body]
fn parse_exact_amount(text: &str) -> (r: Result<i64, fixnum::ConvertError>)
    ensures
        too_precise(text@) ==> r is Err,
        match r {
            Ok(bits) => exact_amount_bits(text@) == Some(bits),
            Err(_) => exact_amount_bits(text@) is None,
        },
{
    fixnum::FixedPoint::<i64, fixnum::typenum::U4>::from_str_exact(text)
        .map(fixnum::FixedPoint::into_bits)
}

/// Why a text is not a transaction amount.
#[derive(Debug)]
pub enum AmountError {
    /// The text is not a decimal number with at most four decimal places that
    /// fits the amount type.
    Unparsable(fixnum::ConvertError),
    /// The text holds an amount, given here by its raw representation, that is
    /// zero or negative.
    NotPositive(i64),
}

/// A strictly positive amount.
#[derive(Debug, Clone, Copy, PartialEq, Eq, PartialOrd, Ord, Hash)]
pub struct PositiveAmount {
    bits: i64,
}

impl View for PositiveAmount {
    type V = i64;

    /// The raw representation of the amount.
    closed spec fn view(&self) -> i64 {
        self.bits
    }
}

impl PositiveAmount {
    #[verifier::type_invariant]
    spec fn is_positive(self) -> bool {
        self.bits > 0
    }

    /// The amount with the given raw representation, if it is positive.
    pub fn new(bits: i64) -> (r: Option<PositiveAmount>)
        ensures
            r is Some <==> bits > 0,
            r matches Some(amount) ==> amount@ == bits,
    {
        if bits > 0 {
            Some(PositiveAmount { bits })
        } else {
            None
        }
    }

    /// The raw representation of the amount.
    pub fn bits(&self) -> (r: i64)
        ensures
            r == self@,
            r > 0,
    {
        proof {
            use_type_invariant(self);
        }
        self.bits
    }

    /// Turns the outcome of reading an amount into a positive amount.
    pub fn from_parsed(parsed: Result<i64, fixnum::ConvertError>) -> (r: Result<
        PositiveAmount,
        AmountError,
    >)
        ensures
            match parsed {
                Ok(bits) => if bits > 0 {
                    r matches Ok(amount) && amount@ == bits
                } else {
                    r == Err::<PositiveAmount, AmountError>(AmountError::NotPositive(bits))
                },
                Err(_) => r matches Err(AmountError::Unparsable(_)),
            },
    {
        match parsed {
            Ok(bits) => match PositiveAmount::new(bits) {
                Some(amount) => Ok(amount),
                None => Err(AmountError::NotPositive(bits)),
            },
            Err(e) => Err(AmountError::Unparsable(e)),
        }
    }

    /// Reads a positive amount from a decimal text; more than four decimal
    /// places are refused, not rounded.
    pub fn from_str_exact(text: &str) -> (r: Result<PositiveAmount, AmountError>)
        ensures
            too_precise(text@) ==> r matches Err(AmountError::Unparsable(_)),
            match exact_amount_bits(text@) {
                Some(bits) => if bits > 0 {
                    r matches Ok(amount) && amount@ == bits
                } else {
                    r == Err::<PositiveAmount, AmountError>(AmountError::NotPositive(bits))
                },
                None => r matches Err(AmountError::Unparsable(_)),
            },
    {
        PositiveAmount::from_parsed(parse_exact_amount(text))
    }
}

} // verus!
