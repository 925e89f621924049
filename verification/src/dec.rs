//! Fixed-point decimal numbers as used for prices and amounts.
//!
//! A [`Dec`] holds the two parts that `rust_decimal` uses to describe a number:
//! a signed integer mantissa and a base-ten scale, so that the value is
//! `mantissa / 10^scale`. Arithmetic and text conversion are delegated to
//! `rust_decimal`.

use rust_decimal::Decimal;
use std::str::FromStr;
use vstd::prelude::*;

verus! {

/// Largest magnitude a mantissa can have (96 bits).
pub const MAX_MANTISSA: i128 = 0xFFFF_FFFF_FFFF_FFFF_FFFF_FFFF_i128;

/// Largest scale a decimal can have.
pub const MAX_SCALE: u32 = 28;

/// A decimal number `mantissa / 10^scale`.
#[derive(Clone, Copy, Debug, PartialEq, Eq, Structural)]
pub struct Dec {
    pub mantissa: i128,
    pub scale: u32,
}

impl Dec {
    /// The parts lie within the range that `rust_decimal` can represent.
    pub open spec fn wf(self) -> bool {
        &&& -MAX_MANTISSA <= self.mantissa <= MAX_MANTISSA
        &&& self.scale <= MAX_SCALE
    }

    /// Whether the parts lie within the representable range.
    pub fn is_wf(&self) -> (r: bool)
        ensures
            r == self.wf(),
    {
        -MAX_MANTISSA <= self.mantissa && self.mantissa <= MAX_MANTISSA && self.scale <= MAX_SCALE
    }

    /// The pair of parts as mathematical integers.
    pub open spec fn parts(self) -> (int, int) {
        (self.mantissa as int, self.scale as int)
    }

    /// The number zero.
    pub open spec fn spec_zero() -> Dec {
        Dec { mantissa: 0, scale: 0 }
    }

    /// The number zero.
    #[verifier::when_used_as_spec(spec_zero)]
    pub fn zero() -> (r: Dec)
        ensures
            r == (Dec { mantissa: 0, scale: 0 }),
            r.wf(),
    {
        Dec { mantissa: 0, scale: 0 }
    }

    /// `mantissa / 10^scale`, built from literal parts.
    pub fn new(mantissa: i64, scale: u32) -> (r: Dec)
        requires
            scale <= MAX_SCALE,
        ensures
            r == (Dec { mantissa: mantissa as i128, scale }),
            r.wf(),
    {
        Dec { mantissa: mantissa as i128, scale }
    }

    /// The integer `n` as a decimal of scale zero.
    pub fn from_i64(n: i64) -> (r: Dec)
        ensures
            r == (Dec { mantissa: n as i128, scale: 0 }),
            r.wf(),
    {
        Dec { mantissa: n as i128, scale: 0 }
    }

    /// Whether the number is strictly greater than zero.
    pub fn is_positive(&self) -> (r: bool)
        ensures
            r == (self.mantissa > 0),
    {
        self.mantissa > 0
    }

    /// Parses decimal text; see [`dec_parse`].
    pub fn parse(s: &str) -> (r: Option<Dec>)
        ensures
            opt_parts(r) == spec_dec_parse(s@),
            r matches Some(d) ==> d.wf(),
    {
        dec_parse(s)
    }

    /// Decimal text of the number; see [`dec_to_string`].
    pub fn to_text(&self) -> (r: String)
        ensures
            self.wf() ==> r@ == spec_dec_to_string(self.parts()),
    {
        dec_to_string(*self)
    }
}

/// The parts of an optional decimal.
pub open spec fn opt_parts(o: Option<Dec>) -> Option<(int, int)> {
    match o {
        Some(d) => Some(d.parts()),
        None => None,
    }
}

/// What `Decimal::from_str` yields on a text, as mantissa and scale.
pub uninterp spec fn spec_dec_parse(s: Seq<char>) -> Option<(int, int)>;

/// What `Decimal::checked_add` yields on two numbers given by their parts.
pub uninterp spec fn spec_dec_add(a: (int, int), b: (int, int)) -> Option<(int, int)>;

/// What `Decimal::checked_sub` yields on two numbers given by their parts.
pub uninterp spec fn spec_dec_sub(a: (int, int), b: (int, int)) -> Option<(int, int)>;

/// What `Decimal::checked_mul` yields on two numbers given by their parts.
pub uninterp spec fn spec_dec_mul(a: (int, int), b: (int, int)) -> Option<(int, int)>;

/// What `Decimal::checked_div` yields on two numbers given by their parts.
pub uninterp spec fn spec_dec_div(a: (int, int), b: (int, int)) -> Option<(int, int)>;

/// The text that `Decimal`'s `Display` writes for a number given by its parts.
pub uninterp spec fn spec_dec_to_string(a: (int, int)) -> Seq<char>;

/// The result of a binary operation when both operands are representable.
pub open spec fn checked_op(
    a: Dec,
    b: Dec,
    op: spec_fn((int, int), (int, int)) -> Option<(int, int)>,
) -> Option<(int, int)> {
    if a.wf() && b.wf() {
        op(a.parts(), b.parts())
    } else {
        None
    }
}

/// `Decimal::from_str`: the text read as a decimal number, when it is one.
/// Its result is given the name `spec_dec_parse`; the mantissa and scale of
/// any `Decimal` lie within the representable range.
#[verifier::external_body]
pub(crate) fn dec_parse(s: &str) -> (r: Option<Dec>)
    ensures
        opt_parts(r) == spec_dec_parse(s@),
        r matches Some(d) ==> d.wf(),
{
    Decimal::from_str(s).ok().map(|x| Dec { mantissa: x.mantissa(), scale: x.scale() })
}

/// `Decimal::checked_add` on the two numbers; `None` when either is not
/// representable (`try_from_i128_with_scale` fails) or the sum overflows.
#[verifier::external_body]
pub(crate) fn dec_add(a: Dec, b: Dec) -> (r: Option<Dec>)
    ensures
        opt_parts(r) == checked_op(a, b, |x: (int, int), y: (int, int)| spec_dec_add(x, y)),
        r matches Some(d) ==> d.wf(),
{
    match (
        Decimal::try_from_i128_with_scale(a.mantissa, a.scale),
        Decimal::try_from_i128_with_scale(b.mantissa, b.scale),
    ) {
        (Ok(x), Ok(y)) => x.checked_add(y).map(|z| Dec { mantissa: z.mantissa(), scale: z.scale() }),
        _ => None,
    }
}

/// `Decimal::checked_sub` on the two numbers; `None` when either is not
/// representable or the difference overflows.
#[verifier::external_body]
pub(crate) fn dec_sub(a: Dec, b: Dec) -> (r: Option<Dec>)
    ensures
        opt_parts(r) == checked_op(a, b, |x: (int, int), y: (int, int)| spec_dec_sub(x, y)),
        r matches Some(d) ==> d.wf(),
{
    match (
        Decimal::try_from_i128_with_scale(a.mantissa, a.scale),
        Decimal::try_from_i128_with_scale(b.mantissa, b.scale),
    ) {
        (Ok(x), Ok(y)) => x.checked_sub(y).map(|z| Dec { mantissa: z.mantissa(), scale: z.scale() }),
        _ => None,
    }
}

/// `Decimal::checked_mul` on the two numbers; `None` when either is not
/// representable or the product overflows.
#[verifier::external_body]
pub(crate) fn dec_mul(a: Dec, b: Dec) -> (r: Option<Dec>)
    ensures
        opt_parts(r) == checked_op(a, b, |x: (int, int), y: (int, int)| spec_dec_mul(x, y)),
        r matches Some(d) ==> d.wf(),
{
    match (
        Decimal::try_from_i128_with_scale(a.mantissa, a.scale),
        Decimal::try_from_i128_with_scale(b.mantissa, b.scale),
    ) {
        (Ok(x), Ok(y)) => x.checked_mul(y).map(|z| Dec { mantissa: z.mantissa(), scale: z.scale() }),
        _ => None,
    }
}

/// `Decimal::checked_div` on the two numbers; `None` when either is not
/// representable, the divisor is zero, or the quotient overflows.
#[verifier::external_body]
pub(crate) fn dec_div(a: Dec, b: Dec) -> (r: Option<Dec>)
    ensures
        opt_parts(r) == checked_op(a, b, |x: (int, int), y: (int, int)| spec_dec_div(x, y)),
        r matches Some(d) ==> d.wf(),
        b.mantissa == 0 ==> r is None,
{
    match (
        Decimal::try_from_i128_with_scale(a.mantissa, a.scale),
        Decimal::try_from_i128_with_scale(b.mantissa, b.scale),
    ) {
        (Ok(x), Ok(y)) => x.checked_div(y).map(|z| Dec { mantissa: z.mantissa(), scale: z.scale() }),
        _ => None,
    }
}

/// `Decimal`'s `Display` for a representable number; the text is named
/// `spec_dec_to_string`. A number outside the range is written as zero.
#[verifier::external_body]
pub(crate) fn dec_to_string(a: Dec) -> (r: String)
    ensures
        a.wf() ==> r@ == spec_dec_to_string(a.parts()),
{
    Decimal::try_from_i128_with_scale(a.mantissa, a.scale).unwrap_or_default().to_string()
}

/// `10^k`.
pub open spec fn pow10(k: int) -> int {
    vstd::arithmetic::power::pow(10, k as nat)
}

/// Whether `a` is numerically smaller than `b`: `a.m / 10^a.s < b.m / 10^b.s`,
/// compared by cross-multiplying with the (positive) powers of ten.
pub open spec fn spec_dec_lt(a: Dec, b: Dec) -> bool {
    a.mantissa * pow10(b.scale as int) < b.mantissa * pow10(a.scale as int)
}

/// `Decimal`'s `<`, which orders numbers by value. Both operands must be
/// representable; on others the result is `false`.
#[verifier::external_body]
pub(crate) fn dec_lt(a: Dec, b: Dec) -> (r: bool)
    ensures
        a.wf() && b.wf() ==> r == spec_dec_lt(a, b),
{
    match (
        Decimal::try_from_i128_with_scale(a.mantissa, a.scale),
        Decimal::try_from_i128_with_scale(b.mantissa, b.scale),
    ) {
        (Ok(x), Ok(y)) => x < y,
        _ => false,
    }
}

/// `<` on decimals is asymmetric.
pub proof fn lemma_dec_lt_asym(a: Dec, b: Dec)
    ensures
        spec_dec_lt(a, b) ==> !spec_dec_lt(b, a),
{
}

/// "Not greater" on decimals is transitive.
pub proof fn lemma_dec_le_trans(a: Dec, b: Dec, c: Dec)
    requires
        !spec_dec_lt(b, a),
        !spec_dec_lt(c, b),
    ensures
        !spec_dec_lt(c, a),
{
    let x = pow10(a.scale as int);
    let y = pow10(b.scale as int);
    let z = pow10(c.scale as int);
    vstd::arithmetic::power::lemma_pow_positive(10, a.scale as nat);
    vstd::arithmetic::power::lemma_pow_positive(10, b.scale as nat);
    vstd::arithmetic::power::lemma_pow_positive(10, c.scale as nat);
    lemma_cross_trans(a.mantissa as int, b.mantissa as int, c.mantissa as int, x, y, z);
}

/// `am/x <= bm/y <= cm/z` in cross-multiplied form.
proof fn lemma_cross_trans(am: int, bm: int, cm: int, x: int, y: int, z: int)
    by (nonlinear_arith)
    requires
        x > 0,
        y > 0,
        z > 0,
        am * y <= bm * x,
        bm * z <= cm * y,
    ensures
        am * z <= cm * x,
{
    assert(am * y * z <= bm * x * z);
    assert(bm * z * x <= cm * y * x);
}

/// Parts of an optional decimal text, when it reads as a number.
pub open spec fn opt_text_dec(o: Option<String>) -> Option<(int, int)> {
    match o {
        Some(t) => spec_dec_parse(t@),
        None => None,
    }
}

/// Parts of a decimal text, or of zero when it is no number.
pub open spec fn text_dec_or_zero(s: Seq<char>) -> (int, int) {
    match spec_dec_parse(s) {
        Some(p) => p,
        None => (0, 0),
    }
}

/// Parts of an optional decimal text, or of zero.
pub open spec fn opt_text_dec_or_zero(o: Option<String>) -> (int, int) {
    match opt_text_dec(o) {
        Some(p) => p,
        None => (0, 0),
    }
}

/// Parses optional decimal text, falling back to zero.
pub fn parse_opt_or_zero(s: &Option<String>) -> (r: Dec)
    ensures
        r.parts() == opt_text_dec_or_zero(*s),
        r.wf(),
{
    match parse_opt(s) {
        Some(d) => d,
        None => Dec::zero(),
    }
}

/// Parses optional decimal text: `None` stays `None`, text that is no number
/// becomes `None`.
pub fn parse_opt(s: &Option<String>) -> (r: Option<Dec>)
    ensures
        opt_parts(r) == (match s {
            Some(t) => spec_dec_parse(t@),
            None => None,
        }),
        r matches Some(d) ==> d.wf(),
{
    match s {
        Some(t) => dec_parse(t.as_str()),
        None => None,
    }
}

/// Parses decimal text, falling back to zero when it is no number.
pub fn parse_or_zero(s: &str) -> (r: Dec)
    ensures
        r.parts() == (match spec_dec_parse(s@) {
            Some(p) => p,
            None => (0int, 0int),
        }),
        r.wf(),
{
    match dec_parse(s) {
        Some(d) => d,
        None => Dec::zero(),
    }
}

} // verus!
