//! Fixed-point numbers: a signed 64-bit count of thousandths.

use vstd::prelude::*;
use std::cmp::Ordering;
use std::ops::Add;
use std::ops::Div;
use std::ops::Mul;
use std::ops::Not;
use std::ops::Rem;
use std::ops::Sub;
use crate::value::arc_raw;
use crate::value::sqrt_raw;
use crate::value::ValueModel;
use crate::value::ValueTrait;
use crate::value::YololValue;

verus! {

/// Raw units per whole unit: three decimal digits after the point.
pub const SCALE: i64 = 1000;

/// The raw magnitude reserved for results that cannot be represented.
pub const SENTINEL: i64 = i64::MIN;

/// `x` clamped to the range of a raw magnitude.
pub open spec fn saturate(x: int) -> int {
    if x > i64::MAX {
        i64::MAX as int
    } else if x < i64::MIN {
        i64::MIN as int
    } else {
        x
    }
}

/// A number with three fractional digits, held as the number times one thousand.
#[derive(Clone, Copy, Debug)]
pub struct YololInt(i64);

impl View for YololInt {
    type V = int;

    /// The raw magnitude: the represented number times one thousand.
    closed spec fn view(&self) -> int {
        self.0 as int
    }
}

impl YololInt {
    /// Wraps a raw magnitude without rescaling it.
    pub fn new_raw(v: i64) -> (r: Self)
        ensures
            r@ == v,
    {
        Self(v)
    }

    /// The raw magnitude.
    pub fn raw(&self) -> (r: i64)
        ensures
            r == self@,
    {
        self.0
    }

    /// Two numbers with the same raw magnitude are the same number.
    pub proof fn lemma_view_injective(a: Self, b: Self)
        requires
            a@ == b@,
        ensures
            a == b,
    {
    }
}

impl YololInt {
    /// The number whose raw magnitude is `x`, for `x` in range.
    pub closed spec fn of_raw(x: int) -> Self {
        YololInt(x as i64)
    }

    /// `of_raw` is the inverse of the view on raw magnitudes in range.
    pub proof fn lemma_of_raw(x: int)
        requires
            i64::MIN <= x <= i64::MAX,
        ensures
            Self::of_raw(x)@ == x,
    {
    }
}

impl Add for &YololInt {
    type Output = YololInt;

    /// Saturating addition of raw magnitudes.
    fn add(self, rhs: Self) -> (r: YololInt)
        ensures
            r@ == saturate(self@ + rhs@),
    {
        match self.0.checked_add(rhs.0) {
            Some(v) => YololInt(v),
            None => if rhs.0 > 0 {
                YololInt(i64::MAX)
            } else {
                YololInt(i64::MIN)
            },
        }
    }
}

impl vstd::std_specs::ops::AddSpecImpl for &YololInt {
    open spec fn obeys_add_spec() -> bool {
        true
    }

    open spec fn add_req(self, rhs: Self) -> bool {
        true
    }

    open spec fn add_spec(self, rhs: Self) -> YololInt {
        YololInt::of_raw(saturate(self@ + rhs@))
    }
}

impl Sub for &YololInt {
    type Output = YololInt;

    /// Saturating subtraction of raw magnitudes.
    fn sub(self, rhs: Self) -> (r: YololInt)
        ensures
            r@ == saturate(self@ - rhs@),
    {
        match self.0.checked_sub(rhs.0) {
            Some(v) => YololInt(v),
            None => if rhs.0 < 0 {
                YololInt(i64::MAX)
            } else {
                YololInt(i64::MIN)
            },
        }
    }
}

impl vstd::std_specs::ops::SubSpecImpl for &YololInt {
    open spec fn obeys_sub_spec() -> bool {
        true
    }

    open spec fn sub_req(self, rhs: Self) -> bool {
        true
    }

    open spec fn sub_spec(self, rhs: Self) -> YololInt {
        YololInt::of_raw(saturate(self@ - rhs@))
    }
}

/// The distance of `x` from zero.
pub open spec fn magnitude(x: int) -> int {
    if x < 0 {
        -x
    } else {
        x
    }
}

/// The quotient of `x` by `d` rounded toward zero, for `d` other than zero.
pub open spec fn trunc_div(x: int, d: int) -> int {
    let q = magnitude(x) / magnitude(d);
    if (x < 0) != (d < 0) {
        -q
    } else {
        q
    }
}

/// The remainder that goes with `trunc_div`: it has the sign of `x`.
pub open spec fn trunc_rem(x: int, d: int) -> int {
    let r = magnitude(x) % magnitude(d);
    if x < 0 {
        -r
    } else {
        r
    }
}

/// `x` reduced into the range of a raw magnitude, as two's complement does.
pub open spec fn wrap(x: int) -> int {
    let m = x % 0x1_0000_0000_0000_0000;
    if m > i64::MAX {
        m - 0x1_0000_0000_0000_0000
    } else {
        m
    }
}

/// The quotient of `x` by `d` rounded to the nearest integer, a tie going away
/// from zero, for `d` other than zero.
pub open spec fn round_div(x: int, d: int) -> int {
    let q = (2 * magnitude(x) + magnitude(d)) / (2 * magnitude(d));
    if (x < 0) != (d < 0) {
        -q
    } else {
        q
    }
}

/// The raw magnitude of a product: the wrapped product of the raw magnitudes,
/// rescaled toward zero.
pub open spec fn mul_raw(a: int, b: int) -> int {
    trunc_div(wrap(a * b), SCALE as int)
}

/// The raw magnitude of a quotient, for a divisor other than zero: the exact
/// quotient rounded to the nearest thousandth, then clamped.
pub open spec fn div_raw(a: int, b: int) -> int {
    saturate(round_div(a * SCALE, b))
}

impl Mul for &YololInt {
    type Output = YololInt;

    /// Multiplies the raw magnitudes with wraparound, then divides by the scale.
    fn mul(self, rhs: Self) -> (r: YololInt)
        ensures
            r@ == mul_raw(self@, rhs@),
    {
        let wide: i64 = self.0.wrapping_mul(rhs.0);
        YololInt(wide / SCALE)
    }
}

impl vstd::std_specs::ops::MulSpecImpl for &YololInt {
    open spec fn obeys_mul_spec() -> bool {
        true
    }

    open spec fn mul_req(self, rhs: Self) -> bool {
        true
    }

    open spec fn mul_spec(self, rhs: Self) -> YololInt {
        YololInt::of_raw(mul_raw(self@, rhs@))
    }
}

/// The distance of `x` from zero, which always fits the wider unsigned type.
fn unsigned_magnitude(x: i64) -> (r: u128)
    ensures
        r == magnitude(x as int),
{
    if x < 0 {
        let wide: i128 = -(x as i128);
        wide as u128
    } else {
        x as u128
    }
}

impl Div for &YololInt {
    type Output = Option<YololInt>;

    /// Fails on a zero divisor; otherwise the quotient to the nearest thousandth.
    fn div(self, rhs: Self) -> (r: Option<YololInt>)
        ensures
            match r {
                Some(q) => rhs@ != 0 && q@ == div_raw(self@, rhs@),
                None => rhs@ == 0,
            },
    {
        if rhs.0 == 0 {
            return None;
        }
        let negative = (self.0 < 0) != (rhs.0 < 0);
        let num: u128 = unsigned_magnitude(self.0) * 1000;
        let den: u128 = unsigned_magnitude(rhs.0);
        let q: u128 = (2 * num + den) / (2 * den);
        assert(magnitude(self@ * SCALE) == num) by (nonlinear_arith)
            requires
                num == magnitude(self@) * 1000,
                SCALE == 1000,
        ;
        assert((self@ * SCALE < 0) == (self@ < 0)) by (nonlinear_arith)
            requires
                SCALE == 1000,
        ;
        let raw: i64 = if negative {
            if q > 0x7fff_ffff_ffff_ffff {
                i64::MIN
            } else {
                -(q as i64)
            }
        } else {
            if q > 0x7fff_ffff_ffff_ffff {
                i64::MAX
            } else {
                q as i64
            }
        };
        Some(YololInt(raw))
    }
}

impl vstd::std_specs::ops::DivSpecImpl for &YololInt {
    open spec fn obeys_div_spec() -> bool {
        true
    }

    open spec fn div_req(self, rhs: Self) -> bool {
        true
    }

    open spec fn div_spec(self, rhs: Self) -> Option<YololInt> {
        if rhs@ == 0 {
            None
        } else {
            Some(YololInt::of_raw(div_raw(self@, rhs@)))
        }
    }
}

/// What `checked_rem` yields is the truncating remainder; where it declines,
/// the remainder is zero.
proof fn lemma_checked_rem(a: i64, b: i64)
    requires
        b != 0,
    ensures
        match a.checked_rem(b) {
            Some(m) => m == trunc_rem(a as int, b as int),
            None => trunc_rem(a as int, b as int) == 0,
        },
{
    let x = a as int;
    let d = b as int;
    if a == i64::MIN && b == -1 {
        assert(magnitude(x) % 1 == 0);
    } else if x == 0 {
        assert(0int % magnitude(d) == 0);
    } else if x < 0 && d < 0 {
        assert(x * -1 == magnitude(x));
        assert(d * -1 == magnitude(d));
    } else if x < 0 {
        assert(x * -1 == magnitude(x));
    } else if d < 0 {
        assert(d * -1 == magnitude(d));
    }
}

impl Rem for &YololInt {
    type Output = Option<YololInt>;

    /// Fails on a zero divisor; otherwise the remainder of the raw magnitudes,
    /// with the sign of the dividend.
    fn rem(self, rhs: Self) -> (r: Option<YololInt>)
        ensures
            match r {
                Some(m) => rhs@ != 0 && m@ == trunc_rem(self@, rhs@),
                None => rhs@ == 0,
            },
    {
        if rhs.0 == 0 {
            return None;
        }
        let m: i64 = match self.0.checked_rem(rhs.0) {
            Some(m) => m,
            None => 0,
        };
        proof {
            lemma_checked_rem(self.0, rhs.0);
        }
        Some(YololInt(m))
    }
}

impl vstd::std_specs::ops::RemSpecImpl for &YololInt {
    open spec fn obeys_rem_spec() -> bool {
        true
    }

    open spec fn rem_req(self, rhs: Self) -> bool {
        true
    }

    open spec fn rem_spec(self, rhs: Self) -> Option<YololInt> {
        if rhs@ == 0 {
            None
        } else {
            Some(YololInt::of_raw(trunc_rem(self@, rhs@)))
        }
    }
}

impl Not for &YololInt {
    type Output = YololInt;

    /// One for zero, zero for everything else.
    fn not(self) -> (r: YololInt)
        ensures
            r@ == (if self@ == 0 { SCALE as int } else { 0int }),
    {
        if self.0 == 0 {
            YololInt(SCALE)
        } else {
            YololInt(0)
        }
    }
}

impl vstd::std_specs::ops::NotSpecImpl for &YololInt {
    open spec fn obeys_not_spec() -> bool {
        true
    }

    open spec fn not_req(self) -> bool {
        true
    }

    open spec fn not_spec(self) -> YololInt {
        YololInt::of_raw(if self@ == 0 { SCALE as int } else { 0int })
    }
}

impl PartialEq for YololInt {
    /// Numbers are equal when their raw magnitudes are.
    fn eq(&self, other: &Self) -> (r: bool) {
        self.0 == other.0
    }
}

impl vstd::std_specs::cmp::PartialEqSpecImpl for YololInt {
    open spec fn obeys_eq_spec() -> bool {
        true
    }

    open spec fn eq_spec(&self, other: &Self) -> bool {
        self@ == other@
    }
}

impl PartialOrd for YololInt {
    /// Numbers are ordered as their raw magnitudes are.
    fn partial_cmp(&self, other: &Self) -> (r: Option<Ordering>) {
        self.0.partial_cmp(&other.0)
    }
}

impl vstd::std_specs::cmp::PartialOrdSpecImpl for YololInt {
    open spec fn obeys_partial_cmp_spec() -> bool {
        true
    }

    open spec fn partial_cmp_spec(&self, other: &Self) -> Option<Ordering> {
        if self@ < other@ {
            Some(Ordering::Less)
        } else if self@ > other@ {
            Some(Ordering::Greater)
        } else {
            Some(Ordering::Equal)
        }
    }
}

impl Default for YololInt {
    /// Zero.
    fn default() -> (r: Self)
        ensures
            r@ == 0,
    {
        YololInt(0)
    }
}

impl From<bool> for YololInt {
    /// One for `true`, zero for `false`.
    fn from(v: bool) -> (r: Self)
        ensures
            r@ == (if v { SCALE as int } else { 0int }),
    {
        if v {
            YololInt(SCALE)
        } else {
            YololInt(0)
        }
    }
}

impl vstd::std_specs::convert::FromSpecImpl<bool> for YololInt {
    open spec fn obeys_from_spec() -> bool {
        true
    }

    open spec fn from_spec(v: bool) -> Self {
        YololInt::of_raw(if v { SCALE as int } else { 0int })
    }
}

impl From<i64> for YololInt {
    /// The whole number `v`; one too large to scale is clamped.
    fn from(v: i64) -> (r: Self)
        ensures
            r@ == saturate(v * SCALE),
    {
        match v.checked_mul(SCALE) {
            Some(raw) => YololInt(raw),
            None => if v > 0 {
                YololInt(i64::MAX)
            } else {
                YololInt(i64::MIN)
            },
        }
    }
}

impl vstd::std_specs::convert::FromSpecImpl<i64> for YololInt {
    open spec fn obeys_from_spec() -> bool {
        true
    }

    open spec fn from_spec(v: i64) -> Self {
        YololInt::of_raw(saturate(v * SCALE))
    }
}

impl From<&YololInt> for bool {
    /// A number is true when it is not zero.
    fn from(v: &YololInt) -> (r: bool)
        ensures
            r == (v@ != 0),
    {
        v.0 != 0
    }
}

impl vstd::std_specs::convert::FromSpecImpl<&YololInt> for bool {
    open spec fn obeys_from_spec() -> bool {
        true
    }

    open spec fn from_spec(v: &YololInt) -> bool {
        v@ != 0
    }
}

impl From<&YololInt> for i64 {
    /// The whole part, the fraction cut off.
    fn from(v: &YololInt) -> (r: i64)
        ensures
            r == trunc_div(v@, SCALE as int),
    {
        v.0 / SCALE
    }
}

impl vstd::std_specs::convert::FromSpecImpl<&YololInt> for i64 {
    open spec fn obeys_from_spec() -> bool {
        true
    }

    open spec fn from_spec(v: &YololInt) -> i64 {
        trunc_div(v@, SCALE as int) as i64
    }
}

/// The character that writes the decimal digit `d`.
pub open spec fn digit_char(d: int) -> char {
    if d == 0 {
        '0'
    } else if d == 1 {
        '1'
    } else if d == 2 {
        '2'
    } else if d == 3 {
        '3'
    } else if d == 4 {
        '4'
    } else if d == 5 {
        '5'
    } else if d == 6 {
        '6'
    } else if d == 7 {
        '7'
    } else if d == 8 {
        '8'
    } else {
        '9'
    }
}

/// The decimal digits of `n`, most significant first, without leading zeros.
pub open spec fn nat_text(n: nat) -> Seq<char>
    decreases n,
{
    if n < 10 {
        seq![digit_char(n as int)]
    } else {
        nat_text(n / 10).push(digit_char((n % 10) as int))
    }
}

/// The digits after the point for `f` thousandths, `0 < f < 1000`: three
/// digits with the trailing zeros cut off.
pub open spec fn fraction_text(f: int) -> Seq<char> {
    let digits = seq![digit_char(f / 100), digit_char(f / 10 % 10), digit_char(f % 10)];
    if f % 10 != 0 {
        digits
    } else if f % 100 != 0 {
        digits.subrange(0, 2)
    } else {
        digits.subrange(0, 1)
    }
}

/// How a raw magnitude is written: a minus sign if it is negative, the whole
/// part, and, unless the fraction is zero, a point and the fraction.
pub open spec fn number_text(raw: int) -> Seq<char> {
    let whole = magnitude(raw) / (SCALE as int);
    let fraction = magnitude(raw) % (SCALE as int);
    let sign = if raw < 0 {
        seq!['-']
    } else {
        Seq::<char>::empty()
    };
    if fraction == 0 {
        sign + nat_text(whole as nat)
    } else {
        sign + nat_text(whole as nat) + seq!['.'] + fraction_text(fraction)
    }
}

/// The one-character string that writes the digit `d`.
fn digit_str(d: u64) -> (r: &'static str)
    requires
        d < 10,
    ensures
        r@ == seq![digit_char(d as int)],
{
    proof {
        reveal_strlit("0");
        reveal_strlit("1");
        reveal_strlit("2");
        reveal_strlit("3");
        reveal_strlit("4");
        reveal_strlit("5");
        reveal_strlit("6");
        reveal_strlit("7");
        reveal_strlit("8");
        reveal_strlit("9");
    }
    if d == 0 {
        "0"
    } else if d == 1 {
        "1"
    } else if d == 2 {
        "2"
    } else if d == 3 {
        "3"
    } else if d == 4 {
        "4"
    } else if d == 5 {
        "5"
    } else if d == 6 {
        "6"
    } else if d == 7 {
        "7"
    } else if d == 8 {
        "8"
    } else {
        "9"
    }
}

/// Appends the decimal digits of `n` to `out`.
fn append_nat(out: &mut String, n: u64)
    ensures
        final(out)@ == old(out)@ + nat_text(n as nat),
    decreases n,
{
    if n >= 10 {
        append_nat(out, n / 10);
    }
    out.append(digit_str(n % 10));
}

impl YololInt {
    /// The number in decimal: the whole part, then the fraction with at most
    /// three digits, its trailing zeros and an empty fraction left out.
    pub fn to_string(&self) -> (r: String)
        ensures
            r@ == number_text(self@),
    {
        let m: u64 = unsigned_magnitude(self.0) as u64;
        let whole: u64 = m / 1000;
        let fraction: u64 = m % 1000;
        let mut out = String::new();
        if self.0 < 0 {
            proof {
                reveal_strlit("-");
            }
            out.append("-");
        }
        append_nat(&mut out, whole);
        if fraction != 0 {
            proof {
                reveal_strlit(".");
            }
            out.append(".");
            out.append(digit_str(fraction / 100));
            if fraction % 100 != 0 {
                out.append(digit_str(fraction / 10 % 10));
                if fraction % 10 != 0 {
                    out.append(digit_str(fraction % 10));
                }
            }
        }
        out
    }
}

/// The product of the whole numbers from one to `n`.
pub open spec fn factorial(n: nat) -> nat
    decreases n,
{
    if n == 0 {
        1
    } else {
        n * factorial((n - 1) as nat)
    }
}

/// The raw magnitude of a factorial: that of the factorial of the whole part,
/// or the sentinel where the whole part is negative or the result too large.
pub open spec fn fac_raw(raw: int) -> int {
    let whole = trunc_div(raw, SCALE as int);
    if whole < 0 || factorial(whole as nat) * SCALE > i64::MAX {
        SENTINEL as int
    } else {
        factorial(whole as nat) * SCALE
    }
}

/// The raw magnitude of an absolute value; the sentinel has none but itself.
pub open spec fn abs_raw(raw: int) -> int {
    if raw == SENTINEL {
        SENTINEL as int
    } else {
        magnitude(raw)
    }
}

/// The raw magnitudes that have a square root.
pub open spec fn sqrt_defined(raw: int) -> bool {
    0 <= raw < 9223372036854775000
}

/// The raw magnitudes that have an arc sine and an arc cosine: minus one to one.
pub open spec fn arc_defined(raw: int) -> bool {
    -SCALE <= raw <= SCALE
}

/// Factorials are at least one and do not shrink as the argument grows.
pub proof fn lemma_factorial_monotone(a: nat, b: nat)
    requires
        a <= b,
    ensures
        1 <= factorial(a) <= factorial(b),
    decreases b,
{
    if b > 0 && a == b {
        lemma_factorial_monotone((a - 1) as nat, (b - 1) as nat);
        assert(b * factorial((b - 1) as nat) >= 1) by (nonlinear_arith)
            requires
                b >= 1,
                factorial((b - 1) as nat) >= 1,
        ;
    } else if b > 0 {
        lemma_factorial_monotone(a, (b - 1) as nat);
        assert(b * factorial((b - 1) as nat) >= factorial((b - 1) as nat)) by (nonlinear_arith)
            requires
                b >= 1,
                factorial((b - 1) as nat) >= 1,
        ;
    }
}

impl ValueTrait for YololInt {
    open spec fn model(&self) -> ValueModel {
        ValueModel::Number(self@)
    }

    fn post_inc(&mut self) -> (r: YololValue) {
        let before = *self;
        *self = (&before).add(&YololInt(SCALE));
        YololValue::Int(before)
    }

    fn pre_inc(&mut self) -> (r: YololValue) {
        let before = *self;
        *self = (&before).add(&YololInt(SCALE));
        YololValue::Int(*self)
    }

    fn post_dec(&mut self) -> (r: Option<YololValue>) {
        let before = *self;
        *self = (&before).sub(&YololInt(SCALE));
        Some(YololValue::Int(before))
    }

    fn pre_dec(&mut self) -> (r: Option<YololValue>) {
        let before = *self;
        *self = (&before).sub(&YololInt(SCALE));
        Some(YololValue::Int(*self))
    }

    fn fac(&self) -> (r: Option<YololValue>) {
        let whole: i64 = self.0 / SCALE;
        if whole < 0 {
            return Some(YololValue::Int(YololInt(SENTINEL)));
        }
        let limit: i64 = i64::MAX / SCALE;
        let mut product: i64 = 1;
        let mut i: i64 = 0;
        while i < whole
            invariant
                0 <= i <= whole,
                product == factorial(i as nat),
                1 <= product <= limit,
                limit == i64::MAX / 1000,
                whole == trunc_div(self@, SCALE as int),
            decreases whole - i,
        {
            i = i + 1;
            let next: Option<i64> = product.checked_mul(i);
            let grown: i64 = match next {
                Some(p) => p,
                None => i64::MAX,
            };
            if next.is_none() || grown > limit {
                proof {
                    assert(factorial(i as nat) == i * product);
                    lemma_factorial_monotone(i as nat, whole as nat);
                }
                return Some(YololValue::Int(YololInt(SENTINEL)));
            }
            assert(product * i >= 1) by (nonlinear_arith)
                requires
                    product >= 1,
                    i >= 1,
            ;
            product = grown;
        }
        Some(YololValue::Int(YololInt(product * SCALE)))
    }

    fn abs(&self) -> (r: Option<YololValue>) {
        if self.0 == SENTINEL {
            Some(YololValue::Int(YololInt(SENTINEL)))
        } else if self.0 < 0 {
            Some(YololValue::Int(YololInt(-self.0)))
        } else {
            Some(YololValue::Int(*self))
        }
    }

    fn sqrt(&self, root: YololInt) -> (r: Option<YololValue>) {
        if 0 <= self.0 && self.0 < 9223372036854775000 {
            Some(YololValue::Int(root))
        } else {
            Some(YololValue::Int(YololInt(SENTINEL)))
        }
    }

    fn sin(&self, sine: YololInt) -> (r: Option<YololValue>) {
        Some(YololValue::Int(sine))
    }

    fn asin(&self, angle: YololInt) -> (r: Option<YololValue>) {
        if -SCALE <= self.0 && self.0 <= SCALE {
            Some(YololValue::Int(angle))
        } else {
            Some(YololValue::Int(YololInt(SENTINEL)))
        }
    }

    fn cos(&self, cosine: YololInt) -> (r: Option<YololValue>) {
        Some(YololValue::Int(cosine))
    }

    fn acos(&self, angle: YololInt) -> (r: Option<YololValue>) {
        if -SCALE <= self.0 && self.0 <= SCALE {
            Some(YololValue::Int(angle))
        } else {
            Some(YololValue::Int(YololInt(SENTINEL)))
        }
    }

    fn tan(&self, sine: YololInt, cosine: YololInt) -> (r: Option<YololValue>) {
        match (&sine).div(&cosine) {
            Some(q) => Some(YololValue::Int(q)),
            None => Some(YololValue::Int(YololInt(SENTINEL))),
        }
    }

    fn atan(&self, angle: YololInt) -> (r: Option<YololValue>) {
        Some(YololValue::Int(angle))
    }

    fn pow(&self, e: &YololValue, power: Option<YololInt>) -> (r: Option<YololValue>) {
        match e {
            YololValue::String(_) => None,
            YololValue::Int(_) => match power {
                Some(p) => Some(YololValue::Int(p)),
                None => Some(YololValue::Int(YololInt(SENTINEL))),
            },
        }
    }
}

/// A sum is exact where it can be represented: adding the numbers gives the
/// number of the added values.
pub proof fn lemma_sum_exact(a: YololInt, b: YololInt)
    requires
        i64::MIN <= a@ + b@ <= i64::MAX,
    ensures
        saturate(a@ + b@) == a@ + b@,
{
}

/// A difference is exact where it can be represented.
pub proof fn lemma_difference_exact(a: YololInt, b: YololInt)
    requires
        i64::MIN <= a@ - b@ <= i64::MAX,
    ensures
        saturate(a@ - b@) == a@ - b@,
{
}

/// A product is exact where the product of the values has no more than three
/// fractional digits and the product of the raw magnitudes does not wrap.
pub proof fn lemma_product_exact(a: YololInt, b: YololInt)
    requires
        i64::MIN <= a@ * b@ <= i64::MAX,
        (a@ * b@) % (SCALE as int) == 0,
    ensures
        mul_raw(a@, b@) * SCALE == a@ * b@,
{
    let p = a@ * b@;
    assert(wrap(p) == p) by {
        if p < 0 {
            vstd::arithmetic::div_mod::lemma_fundamental_div_mod_converse(
                p,
                0x1_0000_0000_0000_0000,
                -1,
                p + 0x1_0000_0000_0000_0000,
            );
        }
    }
    lemma_exact_division(p, 1000);
}

/// Where `d` divides `x`, the quotient rounded toward zero times `d` is `x`.
proof fn lemma_exact_division(x: int, d: int)
    requires
        d > 0,
        x % d == 0,
    ensures
        trunc_div(x, d) * d == x,
{
    vstd::arithmetic::div_mod::lemma_fundamental_div_mod(x, d);
    if x < 0 {
        let k = x / d;
        assert(-x == (-k) * d + 0) by (nonlinear_arith)
            requires
                x == d * k,
        ;
        vstd::arithmetic::div_mod::lemma_fundamental_div_mod_converse(-x, d, -k, 0);
        assert(k * d == x) by (nonlinear_arith)
            requires
                x == d * k,
        ;
    } else {
        assert((x / d) * d == x) by (nonlinear_arith)
            requires
                x == d * (x / d),
        ;
    }
}

/// A quotient is exact where the quotient of the values is a number `q` with
/// no more than three fractional digits that can be represented.
pub proof fn lemma_quotient_exact(a: YololInt, b: YololInt, q: YololInt)
    requires
        b@ != 0,
        q@ * b@ == a@ * SCALE,
    ensures
        div_raw(a@, b@) == q@,
{
    let x = a@ * SCALE;
    let d = b@;
    let k = q@;
    assert(magnitude(x) == magnitude(k) * magnitude(d)) by (nonlinear_arith)
        requires
            k * d == x,
    ;
    assert(2 * magnitude(x) + magnitude(d) == magnitude(k) * (2 * magnitude(d)) + magnitude(d))
        by (nonlinear_arith)
        requires
            magnitude(x) == magnitude(k) * magnitude(d),
    ;
    vstd::arithmetic::div_mod::lemma_fundamental_div_mod_converse(
        2 * magnitude(x) + magnitude(d),
        2 * magnitude(d),
        magnitude(k),
        magnitude(d),
    );
    assert(((x < 0) != (d < 0)) == (k < 0) || k == 0) by (nonlinear_arith)
        requires
            k * d == x,
            d != 0,
    ;
}

/// No integer is nearer to the exact quotient than the rounded one: twice the
/// distance between `x` and the rounded quotient times `d` is at most `d`.
pub proof fn lemma_round_div_nearest(x: int, d: int)
    requires
        d != 0,
    ensures
        magnitude(2 * (x - round_div(x, d) * d)) <= magnitude(d),
{
    let big = magnitude(x);
    let den = magnitude(d);
    let q = (2 * big + den) / (2 * den);
    let r = (2 * big + den) % (2 * den);
    vstd::arithmetic::div_mod::lemma_fundamental_div_mod(2 * big + den, 2 * den);
    vstd::arithmetic::div_mod::lemma_mod_pos_bound(2 * big + den, 2 * den);
    assert(2 * (big - q * den) == r - den) by (nonlinear_arith)
        requires
            2 * big + den == (2 * den) * q + r,
    ;
    assert(x - round_div(x, d) * d == big - q * den || x - round_div(x, d) * d == -(big - q * den))
        by (nonlinear_arith)
        requires
            big == magnitude(x),
            den == magnitude(d),
            round_div(x, d) == (if (x < 0) != (d < 0) {
                -q
            } else {
                q
            }),
    ;
}

/// A remainder is what the quotient rounded toward zero leaves over: it is
/// nearer to zero than the divisor and has the sign of the dividend.
pub proof fn lemma_remainder_exact(a: YololInt, b: YololInt)
    requires
        b@ != 0,
    ensures
        a@ == b@ * trunc_div(a@, b@) + trunc_rem(a@, b@),
        magnitude(trunc_rem(a@, b@)) < magnitude(b@),
        a@ >= 0 ==> trunc_rem(a@, b@) >= 0,
        a@ <= 0 ==> trunc_rem(a@, b@) <= 0,
{
    let x = magnitude(a@);
    let d = magnitude(b@);
    vstd::arithmetic::div_mod::lemma_fundamental_div_mod(x, d);
    assert(0 <= x % d < d) by {
        vstd::arithmetic::div_mod::lemma_mod_pos_bound(x, d);
    }
    let q = x / d;
    let r = x % d;
    assert(a@ == b@ * trunc_div(a@, b@) + trunc_rem(a@, b@)) by (nonlinear_arith)
        requires
            x == d * q + r,
            x == magnitude(a@),
            d == magnitude(b@),
            trunc_div(a@, b@) == (if (a@ < 0) != (b@ < 0) {
                -q
            } else {
                q
            }),
            trunc_rem(a@, b@) == (if a@ < 0 {
                -r
            } else {
                r
            }),
    ;
}

/// A square root of a negative number is the sentinel, and so is an arc sine
/// or arc cosine of a number outside the range from minus one to one,
/// whatever the host evaluated.
pub proof fn lemma_outside_domain(n: YololInt, evaluated: YololInt)
    ensures
        n@ < 0 ==> sqrt_raw(n@, evaluated@) == SENTINEL,
        n@ < -SCALE || n@ > SCALE ==> arc_raw(n@, evaluated@) == SENTINEL,
{
}

} // verus!
