//! Fixed-point amounts backed by `rust_decimal`.
//!
//! An [`Amount`] holds the mantissa and scale of a `rust_decimal::Decimal`:
//! its value is `mantissa / 10^scale`. Arithmetic, parsing and formatting are
//! done by `rust_decimal` itself; comparisons are stated exactly.

use vstd::prelude::*;
use std::str::FromStr;

verus! {

/// Largest magnitude of a `rust_decimal` mantissa: 96 bits.
pub const MAX_MANTISSA: i128 = 0xFFFF_FFFF_FFFF_FFFF_FFFF_FFFFi128;

/// Largest scale of a `rust_decimal` value.
pub const MAX_SCALE: u32 = 28u32;

/// A decimal amount: `mantissa / 10^scale`.
#[derive(Clone, Copy, Debug, PartialEq, Eq, Structural)]
pub struct Amount {
    pub mantissa: i128,
    pub scale: u32,
}

/// `10^n`.
pub open spec fn pow10(n: nat) -> int
    decreases n,
{
    if n == 0 { 1 } else { 10 * pow10((n - 1) as nat) }
}

/// The mathematical number `v.0 / 10^v.1` compared with another, without division.
pub open spec fn value_lt(a: (int, nat), b: (int, nat)) -> bool {
    a.0 * pow10(b.1) < b.0 * pow10(a.1)
}

/// A mantissa and scale that `rust_decimal` can represent.
pub open spec fn repr_ok(v: (int, nat)) -> bool {
    &&& -MAX_MANTISSA <= v.0 <= MAX_MANTISSA
    &&& v.1 <= MAX_SCALE
}

/// The amount with the given mantissa and scale.
pub open spec fn amount_of(v: (int, nat)) -> Amount {
    Amount { mantissa: v.0 as i128, scale: v.1 as u32 }
}

impl View for Amount {
    type V = (int, nat);

    open spec fn view(&self) -> (int, nat) {
        (self.mantissa as int, self.scale as nat)
    }
}

impl Amount {
    /// The amount is within what `rust_decimal` represents.
    pub open spec fn wf(self) -> bool {
        repr_ok(self@)
    }

    /// Zero.
    pub fn zero() -> (r: Amount)
        ensures
            r@ == (0int, 0nat),
            r.wf(),
    {
        Amount { mantissa: 0, scale: 0 }
    }

    /// Builds an amount from a mantissa and a scale, if `rust_decimal` can hold it.
    pub fn new(mantissa: i128, scale: u32) -> (r: Option<Amount>)
        ensures
            r is Some <==> repr_ok((mantissa as int, scale as nat)),
            r is Some ==> r->0@ == (mantissa as int, scale as nat),
    {
        if scale <= MAX_SCALE && -MAX_MANTISSA <= mantissa && mantissa <= MAX_MANTISSA {
            Some(Amount { mantissa, scale })
        } else {
            None
        }
    }
}

/// An amount is rebuilt from its view.
pub proof fn lemma_amount_of_view(a: Amount)
    ensures
        amount_of(a@) == a,
{
}

/// What `Decimal::from_str` gives on a string: the parsed mantissa and scale,
/// or the text of the parse error.
pub uninterp spec fn decimal_parse(s: Seq<char>) -> Result<(int, nat), Seq<char>>;

/// What `Decimal::checked_add` gives on two amounts.
pub uninterp spec fn decimal_add(a: (int, nat), b: (int, nat)) -> Option<(int, nat)>;

/// What `Decimal::checked_sub` gives on two amounts.
pub uninterp spec fn decimal_sub(a: (int, nat), b: (int, nat)) -> Option<(int, nat)>;

/// What `Decimal::checked_mul` gives on two amounts.
pub uninterp spec fn decimal_mul(a: (int, nat), b: (int, nat)) -> Option<(int, nat)>;

/// The decimal digits of `m`, most significant first; none for zero.
pub open spec fn decimal_digits(m: nat) -> Seq<char>
    decreases m,
{
    if m == 0 {
        Seq::empty()
    } else {
        decimal_digits(m / 10).push(((m % 10) + 48) as char)
    }
}

/// The text that `Decimal`'s `Display` writes for an amount: the digits of
/// the mantissa, padded with leading zeros to at least `scale` digits, with a
/// point before the last `scale` of them (and a `0` before a leading point),
/// `0` for zero at scale 0, and a `-` in front of a negative value.
pub open spec fn decimal_text(a: (int, nat)) -> Seq<char> {
    let m: nat = if a.0 < 0 { (-a.0) as nat } else { a.0 as nat };
    let d = decimal_digits(m);
    let p = if d.len() < a.1 { Seq::new((a.1 - d.len()) as nat, |i: int| '0') + d } else { d };
    let w = p.len() - a.1;
    let body = if a.1 == 0 {
        if p.len() == 0 { seq!['0'] } else { p }
    } else {
        (if w == 0 { seq!['0'] } else { p.take(w) }) + seq!['.'] + p.skip(w)
    };
    if a.0 < 0 { seq!['-'] + body } else { body }
}

/// Parses a decimal number with `Decimal::from_str` (`rust_decimal`).
/// Trusted: the result is `decimal_parse` of the text, and a parsed value is
/// one that `rust_decimal` represents (its mantissa and scale come from a `Decimal`).
#[verifier::external_body]
pub(crate) fn parse(s: &str) -> (r: Result<Amount, String>)
    ensures
        match r {
            Ok(a) => decimal_parse(s@) == Ok::<(int, nat), Seq<char>>(a@) && a.wf(),
            Err(e) => decimal_parse(s@) == Err::<(int, nat), Seq<char>>(e@),
        },
{
    match rust_decimal::Decimal::from_str(s) {
        Ok(d) => Ok(Amount { mantissa: d.mantissa(), scale: d.scale() }),
        Err(e) => Err(e.to_string()),
    }
}

impl Amount {
    /// `Decimal::checked_add` (`rust_decimal`). Trusted: the result is
    /// `decimal_add` of the two amounts, a `Some` result is representable, and
    /// the sum of two non-negative amounts is non-negative (`add_impl` keeps
    /// the sign of the operands when both have the same sign, and returns the
    /// other operand when one is zero).
    #[verifier::external_body]
    pub(crate) fn checked_add(self, other: Amount) -> (r: Option<Amount>)
        requires
            self.wf(),
            other.wf(),
        ensures
            match r {
                Some(x) => decimal_add(self@, other@) == Some(x@) && x.wf() && (self@.0 >= 0 && other@.0 >= 0
                    ==> x@.0 >= 0),
                None => decimal_add(self@, other@) is None,
            },
    {
        let a = rust_decimal::Decimal::from_i128_with_scale(self.mantissa, self.scale);
        let b = rust_decimal::Decimal::from_i128_with_scale(other.mantissa, other.scale);
        match a.checked_add(b) {
            Some(d) => Some(Amount { mantissa: d.mantissa(), scale: d.scale() }),
            None => None,
        }
    }

    /// `Decimal::checked_sub` (`rust_decimal`). Trusted: the result is
    /// `decimal_sub` of the two amounts, a `Some` result is representable, and
    /// subtracting a non-negative amount from one at least as large succeeds
    /// with a non-negative amount (`sub_impl` computes the magnitude of the
    /// difference and gives it the sign of the larger operand; it overflows
    /// only where no scale fits the difference, and a difference no larger
    /// than the minuend fits at the minuend's scale; rounding keeps the sign).
    #[verifier::external_body]
    pub(crate) fn checked_sub(self, other: Amount) -> (r: Option<Amount>)
        requires
            self.wf(),
            other.wf(),
        ensures
            match r {
                Some(x) => decimal_sub(self@, other@) == Some(x@) && x.wf() && (!value_lt(self@, other@)
                    ==> x@.0 >= 0),
                None => decimal_sub(self@, other@) is None,
            },
            self@.0 >= 0 && other@.0 >= 0 && !value_lt(self@, other@) ==> r is Some,
    {
        let a = rust_decimal::Decimal::from_i128_with_scale(self.mantissa, self.scale);
        let b = rust_decimal::Decimal::from_i128_with_scale(other.mantissa, other.scale);
        match a.checked_sub(b) {
            Some(d) => Some(Amount { mantissa: d.mantissa(), scale: d.scale() }),
            None => None,
        }
    }

    /// `Decimal::checked_mul` (`rust_decimal`). Trusted: the result is
    /// `decimal_mul` of the two amounts, a `Some` result is representable, and
    /// the product of two non-negative amounts is non-negative (`mul_impl`
    /// gives zero for a zero operand, and otherwise the exclusive-or of the
    /// operands' signs).
    #[verifier::external_body]
    pub(crate) fn checked_mul(self, other: Amount) -> (r: Option<Amount>)
        requires
            self.wf(),
            other.wf(),
        ensures
            match r {
                Some(x) => decimal_mul(self@, other@) == Some(x@) && x.wf() && (self@.0 >= 0 && other@.0 >= 0
                    ==> x@.0 >= 0),
                None => decimal_mul(self@, other@) is None,
            },
    {
        let a = rust_decimal::Decimal::from_i128_with_scale(self.mantissa, self.scale);
        let b = rust_decimal::Decimal::from_i128_with_scale(other.mantissa, other.scale);
        match a.checked_mul(b) {
            Some(d) => Some(Amount { mantissa: d.mantissa(), scale: d.scale() }),
            None => None,
        }
    }

    /// `<` on `Decimal` (`rust_decimal`'s `Ord`, which compares numerically).
    /// Trusted: the result is the numeric comparison of the two values.
    #[verifier::external_body]
    pub(crate) fn less_than(self, other: Amount) -> (r: bool)
        requires
            self.wf(),
            other.wf(),
        ensures
            r == value_lt(self@, other@),
    {
        let a = rust_decimal::Decimal::from_i128_with_scale(self.mantissa, self.scale);
        let b = rust_decimal::Decimal::from_i128_with_scale(other.mantissa, other.scale);
        a < b
    }

    /// `Decimal::to_string` (`rust_decimal`'s `Display`, `str::to_str_internal`
    /// with no precision). Trusted: the text is [`decimal_text`] of the amount.
    #[verifier::external_body]
    pub(crate) fn to_text(self) -> (r: String)
        requires
            self.wf(),
        ensures
            r@ == decimal_text(self@),
    {
        rust_decimal::Decimal::from_i128_with_scale(self.mantissa, self.scale).to_string()
    }
}

} // verus!
