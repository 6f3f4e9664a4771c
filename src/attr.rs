use std::borrow::Cow;
use vstd::prelude::*;

use crate::hyper::{
    char_text, decimal, decimal_text, signed_decimal, signed_decimal_text, HyperText,
    IntoHyperText,
};

verus! {

/// The attribute `key="value"`.
pub open spec fn keyed_value(key: Seq<char>, value: Seq<char>) -> Seq<char> {
    key + "=\""@ + value + "\""@
}

fn keyed_text<'a>(key: HyperText<'a>, value: &str) -> (r: HyperText<'a>)
    ensures
        r@ == keyed_value(key@, value@),
{
    let mut s = key.into_string();
    s.append("=\"");
    s.append(value);
    s.append("\"");
    HyperText::owned(s)
}

/// Attribute conversion: turns a value and the text of its key into the attribute,
/// or into nothing where the attribute is to be left out.
pub trait IntoAttrText<'a>: Sized {
    /// The attribute text of the value under the key `key`.
    spec fn attr_text(&self, key: Seq<char>) -> Seq<char>;

    fn into_attr_text<K: IntoHyperText<'a>>(self, attr: K) -> (r: HyperText<'a>)
        ensures
            r@ == self.attr_text(attr.hyper_text()),
    ;
}

impl<'a> IntoAttrText<'a> for bool {
    /// `true` gives the bare key; `false` leaves the attribute out.
    open spec fn attr_text(&self, key: Seq<char>) -> Seq<char> {
        if *self {
            key
        } else {
            Seq::empty()
        }
    }

    fn into_attr_text<K: IntoHyperText<'a>>(self, attr: K) -> (r: HyperText<'a>) {
        if self {
            attr.into_hyper_text()
        } else {
            HyperText::empty()
        }
    }
}

impl<'a, T: IntoAttrText<'a>> IntoAttrText<'a> for Option<T> {
    /// `None` leaves the attribute out; `Some(v)` is the attribute of `v`.
    open spec fn attr_text(&self, key: Seq<char>) -> Seq<char> {
        match self {
            Some(v) => v.attr_text(key),
            None => Seq::empty(),
        }
    }

    fn into_attr_text<K: IntoHyperText<'a>>(self, attr: K) -> (r: HyperText<'a>) {
        match self {
            Some(v) => v.into_attr_text(attr),
            None => HyperText::empty(),
        }
    }
}

impl<'a, 'b> IntoAttrText<'a> for &'b str {
    open spec fn attr_text(&self, key: Seq<char>) -> Seq<char> {
        keyed_value(key, self@)
    }

    fn into_attr_text<K: IntoHyperText<'a>>(self, attr: K) -> (r: HyperText<'a>) {
        keyed_text(attr.into_hyper_text(), self)
    }
}

impl<'a> IntoAttrText<'a> for String {
    open spec fn attr_text(&self, key: Seq<char>) -> Seq<char> {
        keyed_value(key, self@)
    }

    fn into_attr_text<K: IntoHyperText<'a>>(self, attr: K) -> (r: HyperText<'a>) {
        keyed_text(attr.into_hyper_text(), self.as_str())
    }
}

impl<'a, 'b> IntoAttrText<'a> for Cow<'b, str> {
    open spec fn attr_text(&self, key: Seq<char>) -> Seq<char> {
        keyed_value(key, self@)
    }

    fn into_attr_text<K: IntoHyperText<'a>>(self, attr: K) -> (r: HyperText<'a>) {
        let value: &str = match &self {
            Cow::Borrowed(s) => s,
            Cow::Owned(s) => s.as_str(),
        };
        keyed_text(attr.into_hyper_text(), value)
    }
}

impl<'a> IntoAttrText<'a> for char {
    open spec fn attr_text(&self, key: Seq<char>) -> Seq<char> {
        keyed_value(key, seq![*self])
    }

    fn into_attr_text<K: IntoHyperText<'a>>(self, attr: K) -> (r: HyperText<'a>) {
        let value = char_text(self);
        keyed_text(attr.into_hyper_text(), value.as_str())
    }
}

impl<'a> IntoAttrText<'a> for u8 {
    open spec fn attr_text(&self, key: Seq<char>) -> Seq<char> {
        keyed_value(key, decimal(*self as nat))
    }

    fn into_attr_text<K: IntoHyperText<'a>>(self, attr: K) -> (r: HyperText<'a>) {
        let value = decimal_text(self as u128);
        keyed_text(attr.into_hyper_text(), value.as_str())
    }
}

impl<'a> IntoAttrText<'a> for u16 {
    open spec fn attr_text(&self, key: Seq<char>) -> Seq<char> {
        keyed_value(key, decimal(*self as nat))
    }

    fn into_attr_text<K: IntoHyperText<'a>>(self, attr: K) -> (r: HyperText<'a>) {
        let value = decimal_text(self as u128);
        keyed_text(attr.into_hyper_text(), value.as_str())
    }
}

impl<'a> IntoAttrText<'a> for u32 {
    open spec fn attr_text(&self, key: Seq<char>) -> Seq<char> {
        keyed_value(key, decimal(*self as nat))
    }

    fn into_attr_text<K: IntoHyperText<'a>>(self, attr: K) -> (r: HyperText<'a>) {
        let value = decimal_text(self as u128);
        keyed_text(attr.into_hyper_text(), value.as_str())
    }
}

impl<'a> IntoAttrText<'a> for u64 {
    open spec fn attr_text(&self, key: Seq<char>) -> Seq<char> {
        keyed_value(key, decimal(*self as nat))
    }

    fn into_attr_text<K: IntoHyperText<'a>>(self, attr: K) -> (r: HyperText<'a>) {
        let value = decimal_text(self as u128);
        keyed_text(attr.into_hyper_text(), value.as_str())
    }
}

impl<'a> IntoAttrText<'a> for u128 {
    open spec fn attr_text(&self, key: Seq<char>) -> Seq<char> {
        keyed_value(key, decimal(*self as nat))
    }

    fn into_attr_text<K: IntoHyperText<'a>>(self, attr: K) -> (r: HyperText<'a>) {
        let value = decimal_text(self as u128);
        keyed_text(attr.into_hyper_text(), value.as_str())
    }
}

impl<'a> IntoAttrText<'a> for usize {
    open spec fn attr_text(&self, key: Seq<char>) -> Seq<char> {
        keyed_value(key, decimal(*self as nat))
    }

    fn into_attr_text<K: IntoHyperText<'a>>(self, attr: K) -> (r: HyperText<'a>) {
        let value = decimal_text(self as u128);
        keyed_text(attr.into_hyper_text(), value.as_str())
    }
}

impl<'a> IntoAttrText<'a> for i8 {
    open spec fn attr_text(&self, key: Seq<char>) -> Seq<char> {
        keyed_value(key, signed_decimal(*self as int))
    }

    fn into_attr_text<K: IntoHyperText<'a>>(self, attr: K) -> (r: HyperText<'a>) {
        let value = signed_decimal_text(self as i128);
        keyed_text(attr.into_hyper_text(), value.as_str())
    }
}

impl<'a> IntoAttrText<'a> for i16 {
    open spec fn attr_text(&self, key: Seq<char>) -> Seq<char> {
        keyed_value(key, signed_decimal(*self as int))
    }

    fn into_attr_text<K: IntoHyperText<'a>>(self, attr: K) -> (r: HyperText<'a>) {
        let value = signed_decimal_text(self as i128);
        keyed_text(attr.into_hyper_text(), value.as_str())
    }
}

impl<'a> IntoAttrText<'a> for i32 {
    open spec fn attr_text(&self, key: Seq<char>) -> Seq<char> {
        keyed_value(key, signed_decimal(*self as int))
    }

    fn into_attr_text<K: IntoHyperText<'a>>(self, attr: K) -> (r: HyperText<'a>) {
        let value = signed_decimal_text(self as i128);
        keyed_text(attr.into_hyper_text(), value.as_str())
    }
}

impl<'a> IntoAttrText<'a> for i64 {
    open spec fn attr_text(&self, key: Seq<char>) -> Seq<char> {
        keyed_value(key, signed_decimal(*self as int))
    }

    fn into_attr_text<K: IntoHyperText<'a>>(self, attr: K) -> (r: HyperText<'a>) {
        let value = signed_decimal_text(self as i128);
        keyed_text(attr.into_hyper_text(), value.as_str())
    }
}

impl<'a> IntoAttrText<'a> for i128 {
    open spec fn attr_text(&self, key: Seq<char>) -> Seq<char> {
        keyed_value(key, signed_decimal(*self as int))
    }

    fn into_attr_text<K: IntoHyperText<'a>>(self, attr: K) -> (r: HyperText<'a>) {
        let value = signed_decimal_text(self as i128);
        keyed_text(attr.into_hyper_text(), value.as_str())
    }
}

impl<'a> IntoAttrText<'a> for isize {
    open spec fn attr_text(&self, key: Seq<char>) -> Seq<char> {
        keyed_value(key, signed_decimal(*self as int))
    }

    fn into_attr_text<K: IntoHyperText<'a>>(self, attr: K) -> (r: HyperText<'a>) {
        let value = signed_decimal_text(self as i128);
        keyed_text(attr.into_hyper_text(), value.as_str())
    }
}

} // verus!
