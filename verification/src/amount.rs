//! Income amounts: signed 64-bit fixed-point numbers with 56 fractional bits.

use fixed::types::I8F56;
use vstd::prelude::*;

verus! {

/// The bits that `fixed::types::I8F56::from_str` gives for a decimal text,
/// or `None` where it rejects the text.
pub uninterp spec fn decimal_bits(text: Seq<char>) -> Option<i64>;

/// The decimal text that the `Display` impl of `fixed::types::I8F56` writes
/// for the number with the given bits.
pub uninterp spec fn decimal_text(bits: i64) -> Seq<char>;

/// An amount of a currency. Its value is `bits / 2^56`.
#[derive(Clone, Copy, Debug, PartialEq, Eq, Structural)]
pub struct Amount {
    pub bits: i64,
}

/// Calls `fixed::types::I8F56::from_str` and hands out the bits of the number
/// it parsed. The text alone decides the result, which `decimal_bits` names.
#[verifier::external_body]
fn fixed_from_str(text: &str) -> (r: Option<i64>)
    ensures
        r == decimal_bits(text@),
{
    match I8F56::from_str(text) {
        Ok(value) => Some(value.to_bits()),
        Err(_) => None,
    }
}

/// Calls `fixed::types::I8F56::checked_add`, which adds the underlying bits
/// and gives `None` exactly when their sum leaves the range of `i64`.
#[verifier::external_body]
fn fixed_checked_add(a: i64, b: i64) -> (r: Option<i64>)
    ensures
        r == (if i64::MIN <= a + b <= i64::MAX {
            Some((a + b) as i64)
        } else {
            None
        }),
{
    match I8F56::from_bits(a).checked_add(I8F56::from_bits(b)) {
        Some(sum) => Some(sum.to_bits()),
        None => None,
    }
}

/// Calls `to_string` on a `fixed::types::I8F56`, which runs its `Display`
/// impl. The bits alone decide the text, which `decimal_text` names.
#[verifier::external_body]
fn fixed_to_string(bits: i64) -> (r: String)
    ensures
        r@ == decimal_text(bits),
{
    I8F56::from_bits(bits).to_string()
}

impl Amount {
    /// The amount in units of `2^-56`.
    pub open spec fn raw(self) -> int {
        self.bits as int
    }

    /// What `parse` gives for a text.
    pub open spec fn parsed(text: Seq<char>) -> Option<Amount> {
        match decimal_bits(text) {
            Some(bits) => Some(Amount { bits }),
            None => None,
        }
    }

    /// What `checked_add` gives: the exact sum, where it can be represented.
    pub open spec fn sum(self, other: Amount) -> Option<Amount> {
        if i64::MIN <= self.raw() + other.raw() <= i64::MAX {
            Some(Amount { bits: (self.raw() + other.raw()) as i64 })
        } else {
            None
        }
    }

    pub fn from_bits(bits: i64) -> (r: Amount)
        ensures
            r.bits == bits,
    {
        Amount { bits }
    }

    pub fn to_bits(self) -> (r: i64)
        ensures
            r == self.bits,
    {
        self.bits
    }

    /// Reads a decimal text; `None` where the text is no number in range.
    pub fn parse(text: &str) -> (r: Option<Amount>)
        ensures
            r == Amount::parsed(text@),
    {
        match fixed_from_str(text) {
            Some(bits) => Some(Amount { bits }),
            None => None,
        }
    }

    /// Adds two amounts without rounding; `None` where the sum overflows.
    pub fn checked_add(self, other: Amount) -> (r: Option<Amount>)
        ensures
            r == self.sum(other),
            r matches Some(total) ==> total.raw() == self.raw() + other.raw(),
    {
        match fixed_checked_add(self.bits, other.bits) {
            Some(bits) => Some(Amount { bits }),
            None => None,
        }
    }

    /// Writes the amount as decimal text.
    pub fn to_text(self) -> (r: String)
        ensures
            r@ == decimal_text(self.bits),
    {
        fixed_to_string(self.bits)
    }
}

} // verus!
