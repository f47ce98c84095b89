//! Text values.

use vstd::prelude::*;
use std::cmp::Ordering;
use std::ops::Add;
use std::ops::Deref;
use std::ops::DerefMut;
use std::ops::Sub;
use crate::text::lex_lt;
use crate::text::str_equal;
use crate::text::str_less;
use crate::text::without_suffix;
use crate::value::number::number_text;
use crate::value::number::YololInt;
use crate::value::ValueModel;
use crate::value::ValueTrait;
use crate::value::YololValue;

verus! {

/// A text value.
#[derive(Debug)]
pub struct YololString(String);

impl View for YololString {
    type V = Seq<char>;

    /// The characters of the text.
    closed spec fn view(&self) -> Seq<char> {
        self.0@
    }
}

impl Clone for YololString {
    fn clone(&self) -> (r: Self)
        ensures
            r@ == self@,
    {
        YololString(self.0.clone())
    }
}

impl Default for YololString {
    /// The empty text.
    fn default() -> (r: Self)
        ensures
            r@ == Seq::<char>::empty(),
    {
        YololString(String::new())
    }
}

impl PartialEq for YololString {
    /// Texts are equal when they hold the same characters.
    fn eq(&self, other: &Self) -> (r: bool) {
        self.0 == other.0
    }
}

impl vstd::std_specs::cmp::PartialEqSpecImpl for YololString {
    open spec fn obeys_eq_spec() -> bool {
        true
    }

    open spec fn eq_spec(&self, other: &Self) -> bool {
        self@ == other@
    }
}

impl PartialOrd for YololString {
    /// Texts are ordered lexicographically, character by character.
    fn partial_cmp(&self, other: &Self) -> (r: Option<Ordering>) {
        if self.0 == other.0 {
            Some(Ordering::Equal)
        } else if str_less(self.0.as_str(), other.0.as_str()) {
            Some(Ordering::Less)
        } else {
            Some(Ordering::Greater)
        }
    }
}

impl vstd::std_specs::cmp::PartialOrdSpecImpl for YololString {
    open spec fn obeys_partial_cmp_spec() -> bool {
        true
    }

    open spec fn partial_cmp_spec(&self, other: &Self) -> Option<Ordering> {
        if self@ == other@ {
            Some(Ordering::Equal)
        } else if lex_lt(self@, other@) {
            Some(Ordering::Less)
        } else {
            Some(Ordering::Greater)
        }
    }
}

impl From<&YololString> for bool {
    /// A text is never true.
    fn from(v: &YololString) -> (r: bool)
        ensures
            !r,
    {
        false
    }
}

impl vstd::std_specs::convert::FromSpecImpl<&YololString> for bool {
    open spec fn obeys_from_spec() -> bool {
        true
    }

    open spec fn from_spec(v: &YololString) -> bool {
        false
    }
}

impl Deref for YololString {
    type Target = String;

    fn deref(&self) -> (r: &String)
        ensures
            r@ == self@,
    {
        &self.0
    }
}

impl DerefMut for YololString {
    fn deref_mut(&mut self) -> (r: &mut String)
        ensures
            r@ == old(self)@,
            final(self)@ == final(r)@,
    {
        &mut self.0
    }
}

impl From<&str> for YololString {
    /// The text that holds the characters of `v`.
    fn from(v: &str) -> (r: Self)
        ensures
            r@ == v@,
    {
        YololString(v.to_string())
    }
}

impl vstd::std_specs::convert::FromSpecImpl<&str> for YololString {
    open spec fn obeys_from_spec() -> bool {
        false
    }

    open spec fn from_spec(v: &str) -> Self {
        arbitrary()
    }
}

impl From<&YololInt> for YololString {
    /// The number written in decimal.
    fn from(v: &YololInt) -> (r: Self)
        ensures
            r@ == number_text(v@),
    {
        YololString(v.to_string())
    }
}

impl vstd::std_specs::convert::FromSpecImpl<&YololInt> for YololString {
    open spec fn obeys_from_spec() -> bool {
        false
    }

    open spec fn from_spec(v: &YololInt) -> Self {
        arbitrary()
    }
}

impl Add for YololString {
    type Output = YololString;

    /// Concatenation.
    fn add(self, rhs: Self) -> (r: YololString)
        ensures
            r@ == self@ + rhs@,
    {
        let mut out = self.0;
        out.append(rhs.0.as_str());
        YololString(out)
    }
}

impl vstd::std_specs::ops::AddSpecImpl for YololString {
    open spec fn obeys_add_spec() -> bool {
        false
    }

    open spec fn add_req(self, rhs: Self) -> bool {
        true
    }

    open spec fn add_spec(self, rhs: Self) -> YololString {
        arbitrary()
    }
}

impl Sub for YololString {
    type Output = Option<YololString>;

    /// Removes `rhs` from the end of the text; a text that does not end with
    /// `rhs` comes back as it is.
    fn sub(self, rhs: Self) -> (r: Option<YololString>)
        ensures
            match r {
                Some(t) => t@ == without_suffix(self@, rhs@),
                None => false,
            },
    {
        let whole = self.0.as_str();
        let len: usize = whole.unicode_len();
        let cut: usize = rhs.0.as_str().unicode_len();
        if cut > len {
            return Some(self);
        }
        let tail = whole.substring_char(len - cut, len);
        if str_equal(tail, rhs.0.as_str()) {
            let head = whole.substring_char(0, len - cut);
            Some(YololString(head.to_string()))
        } else {
            Some(self)
        }
    }
}

impl vstd::std_specs::ops::SubSpecImpl for YololString {
    open spec fn obeys_sub_spec() -> bool {
        false
    }

    open spec fn sub_req(self, rhs: Self) -> bool {
        true
    }

    open spec fn sub_spec(self, rhs: Self) -> Option<YololString> {
        arbitrary()
    }
}

impl YololString {
    /// Puts a space at the end of the text.
    fn grow(&mut self)
        ensures
            final(self)@ == old(self)@.push(' '),
    {
        proof {
            reveal_strlit(" ");
        }
        self.0.append(" ");
    }

    /// Takes the last character off the text; tells whether there was one.
    fn shrink(&mut self) -> (r: bool)
        ensures
            r == (old(self)@.len() > 0),
            r ==> final(self)@ == old(self)@.drop_last(),
            !r ==> final(self)@ == old(self)@,
    {
        let len: usize = self.0.as_str().unicode_len();
        if len == 0 {
            return false;
        }
        let kept = self.0.as_str().substring_char(0, len - 1).to_string();
        self.0 = kept;
        true
    }
}

impl ValueTrait for YololString {
    open spec fn model(&self) -> ValueModel {
        ValueModel::Text(self@)
    }

    fn post_inc(&mut self) -> (r: YololValue) {
        let before = self.clone();
        self.grow();
        YololValue::String(before)
    }

    fn pre_inc(&mut self) -> (r: YololValue) {
        self.grow();
        YololValue::String(self.clone())
    }

    fn post_dec(&mut self) -> (r: Option<YololValue>) {
        let before = self.clone();
        if self.shrink() {
            Some(YololValue::String(before))
        } else {
            None
        }
    }

    fn pre_dec(&mut self) -> (r: Option<YololValue>) {
        if self.shrink() {
            Some(YololValue::String(self.clone()))
        } else {
            None
        }
    }

    fn fac(&self) -> (r: Option<YololValue>) {
        None
    }

    fn abs(&self) -> (r: Option<YololValue>) {
        None
    }

    fn sqrt(&self, root: YololInt) -> (r: Option<YololValue>) {
        None
    }

    fn sin(&self, sine: YololInt) -> (r: Option<YololValue>) {
        None
    }

    fn asin(&self, angle: YololInt) -> (r: Option<YololValue>) {
        None
    }

    fn cos(&self, cosine: YololInt) -> (r: Option<YololValue>) {
        None
    }

    fn acos(&self, angle: YololInt) -> (r: Option<YololValue>) {
        None
    }

    fn tan(&self, sine: YololInt, cosine: YololInt) -> (r: Option<YololValue>) {
        None
    }

    fn atan(&self, angle: YololInt) -> (r: Option<YololValue>) {
        None
    }

    fn pow(&self, e: &YololValue, power: Option<YololInt>) -> (r: Option<YololValue>) {
        None
    }
}

} // verus!
