//! Values of the scripting language: fixed-point numbers and text.

pub mod number;
pub mod string;

pub use self::number::YololInt;
pub use self::string::YololString;

use vstd::prelude::*;
use std::cmp::Ordering;
use std::ops::Add;
use std::ops::Deref;
use std::ops::Div;
use std::ops::Mul;
use std::ops::Rem;
use std::ops::Sub;
use crate::text::lex_lt;
use crate::text::without_suffix;
use crate::value::number::abs_raw;
use crate::value::number::arc_defined;
use crate::value::number::div_raw;
use crate::value::number::fac_raw;
use crate::value::number::mul_raw;
use crate::value::number::number_text;
use crate::value::number::saturate;
use crate::value::number::SCALE;
use crate::value::number::SENTINEL;
use crate::value::number::sqrt_defined;
use crate::value::number::trunc_rem;

verus! {

/// What a value is: a text, or the raw magnitude of a number.
pub enum ValueModel {
    Text(Seq<char>),
    Number(int),
}

/// A value of the language: a text or a fixed-point number.
#[derive(Debug)]
pub enum YololValue {
    String(YololString),
    Int(YololInt),
}

impl View for YololValue {
    type V = ValueModel;

    open spec fn view(&self) -> ValueModel {
        match self {
            YololValue::String(s) => ValueModel::Text(s@),
            YololValue::Int(n) => ValueModel::Number(n@),
        }
    }
}

/// The model of a value that may be absent.
pub open spec fn view_opt(v: Option<YololValue>) -> Option<ValueModel> {
    match v {
        Some(v) => Some(v@),
        None => None,
    }
}

/// A value as text: a text is itself, a number is written in decimal.
pub open spec fn text_of(v: ValueModel) -> Seq<char> {
    match v {
        ValueModel::Text(s) => s,
        ValueModel::Number(n) => number_text(n),
    }
}

/// A value counts as true only if it is a number other than zero.
pub open spec fn truthy(v: ValueModel) -> bool {
    v matches ValueModel::Number(n) && n != 0
}

/// The number that stands for a truth value.
pub open spec fn truth(b: bool) -> ValueModel {
    ValueModel::Number(if b { SCALE as int } else { 0int })
}

/// `a + b`: numbers add with saturation; with a text on either side both
/// sides become text and are joined.
pub open spec fn add_model(a: ValueModel, b: ValueModel) -> ValueModel {
    match (a, b) {
        (ValueModel::Number(x), ValueModel::Number(y)) => ValueModel::Number(saturate(x + y)),
        _ => ValueModel::Text(text_of(a) + text_of(b)),
    }
}

/// `a - b`: numbers subtract with saturation; with a text on either side both
/// sides become text and `b` is taken off the end of `a` if `a` ends with it.
pub open spec fn sub_model(a: ValueModel, b: ValueModel) -> ValueModel {
    match (a, b) {
        (ValueModel::Number(x), ValueModel::Number(y)) => ValueModel::Number(saturate(x - y)),
        _ => ValueModel::Text(without_suffix(text_of(a), text_of(b))),
    }
}

/// `a * b`, defined on numbers only.
pub open spec fn mul_model(a: ValueModel, b: ValueModel) -> Option<ValueModel> {
    match (a, b) {
        (ValueModel::Number(x), ValueModel::Number(y)) => Some(ValueModel::Number(mul_raw(x, y))),
        _ => None,
    }
}

/// `a / b`, defined on numbers with `b` other than zero.
pub open spec fn div_model(a: ValueModel, b: ValueModel) -> Option<ValueModel> {
    match (a, b) {
        (ValueModel::Number(x), ValueModel::Number(y)) => if y == 0 {
            None
        } else {
            Some(ValueModel::Number(div_raw(x, y)))
        },
        _ => None,
    }
}

/// `a % b`, defined on numbers with `b` other than zero.
pub open spec fn rem_model(a: ValueModel, b: ValueModel) -> Option<ValueModel> {
    match (a, b) {
        (ValueModel::Number(x), ValueModel::Number(y)) => if y == 0 {
            None
        } else {
            Some(ValueModel::Number(trunc_rem(x, y)))
        },
        _ => None,
    }
}

impl Clone for YololValue {
    fn clone(&self) -> (r: Self)
        ensures
            r@ == self@,
    {
        match self {
            YololValue::String(s) => YololValue::String(s.clone()),
            YololValue::Int(n) => YololValue::Int(*n),
        }
    }
}

impl Default for YololValue {
    /// The number zero.
    fn default() -> (r: Self)
        ensures
            r@ == ValueModel::Number(0),
    {
        YololValue::Int(YololInt::default())
    }
}

impl YololValue {
    /// Whether the value is a text.
    pub fn is_string(&self) -> (r: bool)
        ensures
            r == (self@ is Text),
    {
        match self {
            YololValue::String(_) => true,
            YololValue::Int(_) => false,
        }
    }

    /// Whether the value counts as true.
    pub fn is_truthy(&self) -> (r: bool)
        ensures
            r == truthy(self@),
    {
        match self {
            YololValue::String(_) => false,
            YololValue::Int(n) => n.raw() != 0,
        }
    }

    /// The value as text.
    pub fn into_text(self) -> (r: YololString)
        ensures
            r@ == text_of(self@),
    {
        match self {
            YololValue::String(s) => s,
            YololValue::Int(n) => YololString::from(&n),
        }
    }

    /// The value as text, in a string of its own.
    pub fn to_string(&self) -> (r: String)
        ensures
            r@ == text_of(self@),
    {
        match self {
            YololValue::String(s) => s.deref().clone(),
            YololValue::Int(n) => n.to_string(),
        }
    }

    /// Logical or: one if either side counts as true, else zero.
    pub fn or(&self, rhs: &Self) -> (r: Self)
        ensures
            r@ == truth(truthy(self@) || truthy(rhs@)),
    {
        YololValue::Int(YololInt::from(self.is_truthy() || rhs.is_truthy()))
    }

    /// Logical and: one if both sides count as true, else zero.
    pub fn and(&self, rhs: &Self) -> (r: Self)
        ensures
            r@ == truth(truthy(self@) && truthy(rhs@)),
    {
        YololValue::Int(YololInt::from(self.is_truthy() && rhs.is_truthy()))
    }
}

impl Add for YololValue {
    type Output = YololValue;

    /// Sum of two numbers; with a text on either side, the two texts joined.
    fn add(self, rhs: Self) -> (r: YololValue)
        ensures
            r@ == add_model(self@, rhs@),
    {
        match (self, rhs) {
            (YololValue::Int(a), YololValue::Int(b)) => YololValue::Int((&a).add(&b)),
            (a, b) => YololValue::String(a.into_text().add(b.into_text())),
        }
    }
}

impl vstd::std_specs::ops::AddSpecImpl for YololValue {
    open spec fn obeys_add_spec() -> bool {
        false
    }

    open spec fn add_req(self, rhs: Self) -> bool {
        true
    }

    open spec fn add_spec(self, rhs: Self) -> YololValue {
        arbitrary()
    }
}

impl Sub for YololValue {
    type Output = Option<YololValue>;

    /// Difference of two numbers; with a text on either side, the left text
    /// without the right one at its end. Always a value.
    fn sub(self, rhs: Self) -> (r: Option<YololValue>)
        ensures
            view_opt(r) == Some(sub_model(self@, rhs@)),
    {
        match (self, rhs) {
            (YololValue::Int(a), YololValue::Int(b)) => Some(YololValue::Int((&a).sub(&b))),
            (a, b) => match a.into_text().sub(b.into_text()) {
                Some(t) => Some(YololValue::String(t)),
                None => None,
            },
        }
    }
}

impl vstd::std_specs::ops::SubSpecImpl for YololValue {
    open spec fn obeys_sub_spec() -> bool {
        false
    }

    open spec fn sub_req(self, rhs: Self) -> bool {
        true
    }

    open spec fn sub_spec(self, rhs: Self) -> Option<YololValue> {
        arbitrary()
    }
}

impl Mul for YololValue {
    type Output = Option<YololValue>;

    /// Product of two numbers; no value if either side is a text.
    fn mul(self, rhs: Self) -> (r: Option<YololValue>)
        ensures
            view_opt(r) == mul_model(self@, rhs@),
    {
        match (self, rhs) {
            (YololValue::Int(a), YololValue::Int(b)) => Some(YololValue::Int((&a).mul(&b))),
            _ => None,
        }
    }
}

impl vstd::std_specs::ops::MulSpecImpl for YololValue {
    open spec fn obeys_mul_spec() -> bool {
        false
    }

    open spec fn mul_req(self, rhs: Self) -> bool {
        true
    }

    open spec fn mul_spec(self, rhs: Self) -> Option<YololValue> {
        arbitrary()
    }
}

impl Div for YololValue {
    type Output = Option<YololValue>;

    /// Quotient of two numbers; no value if either side is a text or the
    /// divisor is zero.
    fn div(self, rhs: Self) -> (r: Option<YololValue>)
        ensures
            view_opt(r) == div_model(self@, rhs@),
    {
        match (self, rhs) {
            (YololValue::Int(a), YololValue::Int(b)) => match (&a).div(&b) {
                Some(q) => Some(YololValue::Int(q)),
                None => None,
            },
            _ => None,
        }
    }
}

impl vstd::std_specs::ops::DivSpecImpl for YololValue {
    open spec fn obeys_div_spec() -> bool {
        false
    }

    open spec fn div_req(self, rhs: Self) -> bool {
        true
    }

    open spec fn div_spec(self, rhs: Self) -> Option<YololValue> {
        arbitrary()
    }
}

impl Rem for YololValue {
    type Output = Option<YololValue>;

    /// Remainder of two numbers; no value if either side is a text or the
    /// divisor is zero.
    fn rem(self, rhs: Self) -> (r: Option<YololValue>)
        ensures
            view_opt(r) == rem_model(self@, rhs@),
    {
        match (self, rhs) {
            (YololValue::Int(a), YololValue::Int(b)) => match (&a).rem(&b) {
                Some(m) => Some(YololValue::Int(m)),
                None => None,
            },
            _ => None,
        }
    }
}

impl vstd::std_specs::ops::RemSpecImpl for YololValue {
    open spec fn obeys_rem_spec() -> bool {
        false
    }

    open spec fn rem_req(self, rhs: Self) -> bool {
        true
    }

    open spec fn rem_spec(self, rhs: Self) -> Option<YololValue> {
        arbitrary()
    }
}

impl PartialEq for YololValue {
    /// Two texts or two numbers are equal when they hold the same; a text
    /// never equals a number.
    fn eq(&self, rhs: &Self) -> (r: bool) {
        match (self, rhs) {
            (YololValue::String(a), YololValue::String(b)) => a == b,
            (YololValue::Int(a), YololValue::Int(b)) => a == b,
            _ => false,
        }
    }
}

impl vstd::std_specs::cmp::PartialEqSpecImpl for YololValue {
    open spec fn obeys_eq_spec() -> bool {
        true
    }

    open spec fn eq_spec(&self, rhs: &Self) -> bool {
        self@ == rhs@
    }
}

impl PartialOrd for YololValue {
    /// Two numbers are ordered by magnitude, two texts lexicographically; a
    /// text and a number are not ordered.
    fn partial_cmp(&self, rhs: &Self) -> (r: Option<Ordering>) {
        match (self, rhs) {
            (YololValue::String(a), YololValue::String(b)) => a.partial_cmp(b),
            (YololValue::Int(a), YololValue::Int(b)) => a.partial_cmp(b),
            _ => None,
        }
    }
}

impl vstd::std_specs::cmp::PartialOrdSpecImpl for YololValue {
    open spec fn obeys_partial_cmp_spec() -> bool {
        true
    }

    open spec fn partial_cmp_spec(&self, rhs: &Self) -> Option<Ordering> {
        match (self@, rhs@) {
            (ValueModel::Text(a), ValueModel::Text(b)) => if a == b {
                Some(Ordering::Equal)
            } else if lex_lt(a, b) {
                Some(Ordering::Less)
            } else {
                Some(Ordering::Greater)
            },
            (ValueModel::Number(a), ValueModel::Number(b)) => if a < b {
                Some(Ordering::Less)
            } else if a > b {
                Some(Ordering::Greater)
            } else {
                Some(Ordering::Equal)
            },
            _ => None,
        }
    }
}

impl From<&YololValue> for bool {
    /// Whether the value counts as true.
    fn from(v: &YololValue) -> (r: bool)
        ensures
            r == truthy(v@),
    {
        v.is_truthy()
    }
}

impl vstd::std_specs::convert::FromSpecImpl<&YololValue> for bool {
    open spec fn obeys_from_spec() -> bool {
        true
    }

    open spec fn from_spec(v: &YololValue) -> bool {
        truthy(v@)
    }
}

impl From<&str> for YololValue {
    fn from(v: &str) -> (r: Self)
        ensures
            r@ == ValueModel::Text(v@),
    {
        YololValue::String(YololString::from(v))
    }
}

impl vstd::std_specs::convert::FromSpecImpl<&str> for YololValue {
    open spec fn obeys_from_spec() -> bool {
        false
    }

    open spec fn from_spec(v: &str) -> Self {
        arbitrary()
    }
}

impl From<i64> for YololValue {
    fn from(v: i64) -> (r: Self)
        ensures
            r@ == ValueModel::Number(saturate(v * SCALE)),
    {
        YololValue::Int(YololInt::from(v))
    }
}

impl vstd::std_specs::convert::FromSpecImpl<i64> for YololValue {
    open spec fn obeys_from_spec() -> bool {
        false
    }

    open spec fn from_spec(v: i64) -> Self {
        arbitrary()
    }
}

impl From<bool> for YololValue {
    fn from(v: bool) -> (r: Self)
        ensures
            r@ == truth(v),
    {
        YololValue::Int(YololInt::from(v))
    }
}

impl vstd::std_specs::convert::FromSpecImpl<bool> for YololValue {
    open spec fn obeys_from_spec() -> bool {
        false
    }

    open spec fn from_spec(v: bool) -> Self {
        arbitrary()
    }
}

impl From<YololInt> for YololValue {
    fn from(v: YololInt) -> (r: Self)
        ensures
            r == YololValue::Int(v),
    {
        YololValue::Int(v)
    }
}

impl vstd::std_specs::convert::FromSpecImpl<YololInt> for YololValue {
    open spec fn obeys_from_spec() -> bool {
        true
    }

    open spec fn from_spec(v: YololInt) -> Self {
        YololValue::Int(v)
    }
}

impl From<YololString> for YololValue {
    fn from(v: YololString) -> (r: Self)
        ensures
            r == YololValue::String(v),
    {
        YololValue::String(v)
    }
}

impl vstd::std_specs::convert::FromSpecImpl<YololString> for YololValue {
    open spec fn obeys_from_spec() -> bool {
        true
    }

    open spec fn from_spec(v: YololString) -> Self {
        YololValue::String(v)
    }
}

impl TryFrom<&YololValue> for YololInt {
    type Error = ();

    /// The number that the value holds; fails on a text.
    fn try_from(value: &YololValue) -> (r: Result<Self, ()>)
        ensures
            match r {
                Ok(n) => value@ == ValueModel::Number(n@),
                Err(_) => value@ is Text,
            },
    {
        match value {
            YololValue::Int(n) => Ok(*n),
            YololValue::String(_) => Err(()),
        }
    }
}

impl vstd::std_specs::convert::TryFromSpecImpl<&YololValue> for YololInt {
    open spec fn obeys_try_from_spec() -> bool {
        false
    }

    open spec fn try_from_spec(value: &YololValue) -> Result<Self, ()> {
        arbitrary()
    }
}

impl TryFrom<&YololValue> for YololString {
    type Error = ();

    /// The text that the value holds; fails on a number.
    fn try_from(value: &YololValue) -> (r: Result<Self, ()>)
        ensures
            match r {
                Ok(s) => value@ == ValueModel::Text(s@),
                Err(_) => value@ is Number,
            },
    {
        match value {
            YololValue::String(s) => Ok(s.clone()),
            YololValue::Int(_) => Err(()),
        }
    }
}

impl vstd::std_specs::convert::TryFromSpecImpl<&YololValue> for YololString {
    open spec fn obeys_try_from_spec() -> bool {
        false
    }

    open spec fn try_from_spec(value: &YololValue) -> Result<Self, ()> {
        arbitrary()
    }
}

/// A value after it was incremented: a number grows by one, saturating; a
/// text gets a space at its end.
pub open spec fn inc_model(v: ValueModel) -> ValueModel {
    match v {
        ValueModel::Text(s) => ValueModel::Text(s.push(' ')),
        ValueModel::Number(n) => ValueModel::Number(saturate(n + SCALE)),
    }
}

/// A value after it was decremented: a number shrinks by one, saturating; a
/// text loses its last character, and the empty text cannot be decremented.
pub open spec fn dec_model(v: ValueModel) -> Option<ValueModel> {
    match v {
        ValueModel::Text(s) => if s.len() == 0 {
            None
        } else {
            Some(ValueModel::Text(s.drop_last()))
        },
        ValueModel::Number(n) => Some(ValueModel::Number(saturate(n - SCALE))),
    }
}

/// The result of a function that only numbers have, where `f` gives the raw
/// magnitude of the result from that of the operand.
pub open spec fn on_number(v: ValueModel, f: spec_fn(int) -> int) -> Option<ValueModel> {
    match v {
        ValueModel::Text(_) => None,
        ValueModel::Number(n) => Some(ValueModel::Number(f(n))),
    }
}

/// The raw magnitude of a square root, given the root `root` that the host
/// evaluated: the sentinel outside the domain.
pub open spec fn sqrt_raw(n: int, root: int) -> int {
    if sqrt_defined(n) {
        root
    } else {
        SENTINEL as int
    }
}

/// The raw magnitude of an arc sine or arc cosine, given the angle that the
/// host evaluated: the sentinel outside the domain.
pub open spec fn arc_raw(n: int, angle: int) -> int {
    if arc_defined(n) {
        angle
    } else {
        SENTINEL as int
    }
}

/// The raw magnitude of a tangent, from the sine and cosine that the host
/// evaluated: the sentinel where the cosine is zero.
pub open spec fn tan_raw(sine: int, cosine: int) -> int {
    if cosine == 0 {
        SENTINEL as int
    } else {
        div_raw(sine, cosine)
    }
}

/// The result of a power, given what the host evaluated: no value with a text
/// on either side, the sentinel where the host found no representable power.
pub open spec fn pow_model(base: ValueModel, exponent: ValueModel, power: Option<int>) -> Option<
    ValueModel,
> {
    match (base, exponent) {
        (ValueModel::Number(_), ValueModel::Number(_)) => Some(
            ValueModel::Number(
                match power {
                    Some(p) => p,
                    None => SENTINEL as int,
                },
            ),
        ),
        _ => None,
    }
}

/// The raw magnitude that a host evaluation stands for.
pub open spec fn raw_opt(v: Option<YololInt>) -> Option<int> {
    match v {
        Some(n) => Some(n@),
        None => None,
    }
}

/// The unary operations of the language. Those that need real arithmetic
/// (roots, trigonometry, powers) take the host's evaluation of the function
/// as an argument and decide what becomes of it.
pub trait ValueTrait: Sized {
    /// What the value is.
    spec fn model(&self) -> ValueModel;

    /// Increments in place and returns the value as it was before.
    fn post_inc(&mut self) -> (r: YololValue)
        ensures
            final(self).model() == inc_model(old(self).model()),
            r@ == old(self).model(),
    ;

    /// Increments in place and returns the new value.
    fn pre_inc(&mut self) -> (r: YololValue)
        ensures
            final(self).model() == inc_model(old(self).model()),
            r@ == final(self).model(),
    ;

    /// Decrements in place and returns the value as it was before; where the
    /// value cannot be decremented it stays as it is and nothing is returned.
    fn post_dec(&mut self) -> (r: Option<YololValue>)
        ensures
            match dec_model(old(self).model()) {
                Some(m) => final(self).model() == m && view_opt(r) == Some(old(self).model()),
                None => final(self).model() == old(self).model() && r is None,
            },
    ;

    /// Decrements in place and returns the new value; where the value cannot
    /// be decremented it stays as it is and nothing is returned.
    fn pre_dec(&mut self) -> (r: Option<YololValue>)
        ensures
            match dec_model(old(self).model()) {
                Some(m) => final(self).model() == m && view_opt(r) == Some(m),
                None => final(self).model() == old(self).model() && r is None,
            },
    ;

    /// Factorial of the whole part; the sentinel for a negative whole part and
    /// for a factorial too large to represent.
    fn fac(&self) -> (r: Option<YololValue>)
        ensures
            view_opt(r) == on_number(self.model(), |n: int| fac_raw(n)),
    ;

    /// Absolute value; the sentinel stays the sentinel.
    fn abs(&self) -> (r: Option<YololValue>)
        ensures
            view_opt(r) == on_number(self.model(), |n: int| abs_raw(n)),
    ;

    /// Square root, `root` being the host's evaluation of it.
    fn sqrt(&self, root: YololInt) -> (r: Option<YololValue>)
        ensures
            view_opt(r) == on_number(self.model(), |n: int| sqrt_raw(n, root@)),
    ;

    /// Sine of an angle in degrees, `sine` being the host's evaluation of it.
    fn sin(&self, sine: YololInt) -> (r: Option<YololValue>)
        ensures
            view_opt(r) == on_number(self.model(), |n: int| sine@),
    ;

    /// Arc sine in degrees, `angle` being the host's evaluation of it.
    fn asin(&self, angle: YololInt) -> (r: Option<YololValue>)
        ensures
            view_opt(r) == on_number(self.model(), |n: int| arc_raw(n, angle@)),
    ;

    /// Cosine of an angle in degrees, `cosine` being the host's evaluation of it.
    fn cos(&self, cosine: YololInt) -> (r: Option<YololValue>)
        ensures
            view_opt(r) == on_number(self.model(), |n: int| cosine@),
    ;

    /// Arc cosine in degrees, `angle` being the host's evaluation of it.
    fn acos(&self, angle: YololInt) -> (r: Option<YololValue>)
        ensures
            view_opt(r) == on_number(self.model(), |n: int| arc_raw(n, angle@)),
    ;

    /// Tangent of an angle in degrees, from the host's evaluation of its sine
    /// and cosine.
    fn tan(&self, sine: YololInt, cosine: YololInt) -> (r: Option<YololValue>)
        ensures
            view_opt(r) == on_number(self.model(), |n: int| tan_raw(sine@, cosine@)),
    ;

    /// Arc tangent in degrees, `angle` being the host's evaluation of it.
    fn atan(&self, angle: YololInt) -> (r: Option<YololValue>)
        ensures
            view_opt(r) == on_number(self.model(), |n: int| angle@),
    ;

    /// This value raised to `e`, `power` being the host's evaluation of it,
    /// absent where the host found it not representable.
    fn pow(&self, e: &YololValue, power: Option<YololInt>) -> (r: Option<YololValue>)
        ensures
            view_opt(r) == pow_model(self.model(), e@, raw_opt(power)),
    ;
}

impl ValueTrait for YololValue {
    open spec fn model(&self) -> ValueModel {
        self@
    }

    fn post_inc(&mut self) -> (r: YololValue) {
        match self {
            YololValue::String(s) => s.post_inc(),
            YololValue::Int(n) => n.post_inc(),
        }
    }

    fn pre_inc(&mut self) -> (r: YololValue) {
        match self {
            YololValue::String(s) => s.pre_inc(),
            YololValue::Int(n) => n.pre_inc(),
        }
    }

    fn post_dec(&mut self) -> (r: Option<YololValue>) {
        match self {
            YololValue::String(s) => s.post_dec(),
            YololValue::Int(n) => n.post_dec(),
        }
    }

    fn pre_dec(&mut self) -> (r: Option<YololValue>) {
        match self {
            YololValue::String(s) => s.pre_dec(),
            YololValue::Int(n) => n.pre_dec(),
        }
    }

    fn fac(&self) -> (r: Option<YololValue>) {
        match self {
            YololValue::String(s) => s.fac(),
            YololValue::Int(n) => n.fac(),
        }
    }

    fn abs(&self) -> (r: Option<YololValue>) {
        match self {
            YololValue::String(s) => s.abs(),
            YololValue::Int(n) => n.abs(),
        }
    }

    fn sqrt(&self, root: YololInt) -> (r: Option<YololValue>) {
        match self {
            YololValue::String(s) => s.sqrt(root),
            YololValue::Int(n) => n.sqrt(root),
        }
    }

    fn sin(&self, sine: YololInt) -> (r: Option<YololValue>) {
        match self {
            YololValue::String(s) => s.sin(sine),
            YololValue::Int(n) => n.sin(sine),
        }
    }

    fn asin(&self, angle: YololInt) -> (r: Option<YololValue>) {
        match self {
            YololValue::String(s) => s.asin(angle),
            YololValue::Int(n) => n.asin(angle),
        }
    }

    fn cos(&self, cosine: YololInt) -> (r: Option<YololValue>) {
        match self {
            YololValue::String(s) => s.cos(cosine),
            YololValue::Int(n) => n.cos(cosine),
        }
    }

    fn acos(&self, angle: YololInt) -> (r: Option<YololValue>) {
        match self {
            YololValue::String(s) => s.acos(angle),
            YololValue::Int(n) => n.acos(angle),
        }
    }

    fn tan(&self, sine: YololInt, cosine: YololInt) -> (r: Option<YololValue>) {
        match self {
            YololValue::String(s) => s.tan(sine, cosine),
            YololValue::Int(n) => n.tan(sine, cosine),
        }
    }

    fn atan(&self, angle: YololInt) -> (r: Option<YololValue>) {
        match self {
            YololValue::String(s) => s.atan(angle),
            YololValue::Int(n) => n.atan(angle),
        }
    }

    fn pow(&self, e: &YololValue, power: Option<YololInt>) -> (r: Option<YololValue>) {
        match self {
            YololValue::String(s) => s.pow(e, power),
            YololValue::Int(n) => n.pow(e, power),
        }
    }
}

} // verus!
