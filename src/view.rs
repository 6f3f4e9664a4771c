use std::borrow::Cow;
use vstd::prelude::*;

use crate::hyper::{char_text, decimal, decimal_text, signed_decimal, signed_decimal_text};

verus! {

/// A character as HTML text: `&`, `<` and `>` become entities.
pub open spec fn escaped_char(c: char) -> Seq<char> {
    if c == '&' {
        "&amp;"@
    } else if c == '<' {
        "&lt;"@
    } else if c == '>' {
        "&gt;"@
    } else {
        seq![c]
    }
}

/// Text as HTML text, each character escaped.
pub open spec fn escaped(s: Seq<char>) -> Seq<char>
    decreases s.len(),
{
    if s.len() == 0 {
        Seq::empty()
    } else {
        escaped(s.drop_last()) + escaped_char(s.last())
    }
}

/// Escapes text for an HTML body. Relies on `html_escape::encode_text`: replaces `&`,
/// `<` and `>` by `&amp;`, `&lt;` and `&gt;` and keeps every other character.
#[verifier::external_body]
pub fn encode_text(s: &str) -> (r: String)
    ensures
        r@ == escaped(s@),
{
    html_escape::encode_text(s).into_owned()
}

/// Conversion to a string for a view. Values are written as they are displayed, text
/// without HTML escaping, as in `IntoHyperText`: escape text from users with
/// `encode_text` where it is written.
pub trait IntoView: Sized {
    /// The text that the value converts to.
    spec fn view_text(&self) -> Seq<char>;

    fn into_view(self) -> (r: String)
        ensures
            r@ == self.view_text(),
    ;
}

impl<'b> IntoView for &'b str {
    open spec fn view_text(&self) -> Seq<char> {
        self@
    }

    fn into_view(self) -> (r: String) {
        self.to_owned()
    }
}

impl IntoView for String {
    open spec fn view_text(&self) -> Seq<char> {
        self@
    }

    fn into_view(self) -> (r: String) {
        self
    }
}

impl<'b> IntoView for Cow<'b, str> {
    open spec fn view_text(&self) -> Seq<char> {
        self@
    }

    fn into_view(self) -> (r: String) {
        match self {
            Cow::Borrowed(s) => s.to_owned(),
            Cow::Owned(s) => s,
        }
    }
}

impl IntoView for bool {
    open spec fn view_text(&self) -> Seq<char> {
        if *self {
            "true"@
        } else {
            "false"@
        }
    }

    fn into_view(self) -> (r: String) {
        if self {
            "true".to_owned()
        } else {
            "false".to_owned()
        }
    }
}

impl IntoView for char {
    open spec fn view_text(&self) -> Seq<char> {
        seq![*self]
    }

    fn into_view(self) -> (r: String) {
        char_text(self)
    }
}

impl IntoView for u8 {
    open spec fn view_text(&self) -> Seq<char> {
        decimal(*self as nat)
    }

    fn into_view(self) -> (r: String) {
        decimal_text(self as u128)
    }
}

impl IntoView for u16 {
    open spec fn view_text(&self) -> Seq<char> {
        decimal(*self as nat)
    }

    fn into_view(self) -> (r: String) {
        decimal_text(self as u128)
    }
}

impl IntoView for u32 {
    open spec fn view_text(&self) -> Seq<char> {
        decimal(*self as nat)
    }

    fn into_view(self) -> (r: String) {
        decimal_text(self as u128)
    }
}

impl IntoView for u64 {
    open spec fn view_text(&self) -> Seq<char> {
        decimal(*self as nat)
    }

    fn into_view(self) -> (r: String) {
        decimal_text(self as u128)
    }
}

impl IntoView for u128 {
    open spec fn view_text(&self) -> Seq<char> {
        decimal(*self as nat)
    }

    fn into_view(self) -> (r: String) {
        decimal_text(self as u128)
    }
}

impl IntoView for usize {
    open spec fn view_text(&self) -> Seq<char> {
        decimal(*self as nat)
    }

    fn into_view(self) -> (r: String) {
        decimal_text(self as u128)
    }
}

impl IntoView for i8 {
    open spec fn view_text(&self) -> Seq<char> {
        signed_decimal(*self as int)
    }

    fn into_view(self) -> (r: String) {
        signed_decimal_text(self as i128)
    }
}

impl IntoView for i16 {
    open spec fn view_text(&self) -> Seq<char> {
        signed_decimal(*self as int)
    }

    fn into_view(self) -> (r: String) {
        signed_decimal_text(self as i128)
    }
}

impl IntoView for i32 {
    open spec fn view_text(&self) -> Seq<char> {
        signed_decimal(*self as int)
    }

    fn into_view(self) -> (r: String) {
        signed_decimal_text(self as i128)
    }
}

impl IntoView for i64 {
    open spec fn view_text(&self) -> Seq<char> {
        signed_decimal(*self as int)
    }

    fn into_view(self) -> (r: String) {
        signed_decimal_text(self as i128)
    }
}

impl IntoView for i128 {
    open spec fn view_text(&self) -> Seq<char> {
        signed_decimal(*self as int)
    }

    fn into_view(self) -> (r: String) {
        signed_decimal_text(self as i128)
    }
}

impl IntoView for isize {
    open spec fn view_text(&self) -> Seq<char> {
        signed_decimal(*self as int)
    }

    fn into_view(self) -> (r: String) {
        signed_decimal_text(self as i128)
    }
}

impl<T: IntoView> IntoView for Option<T> {
    open spec fn view_text(&self) -> Seq<char> {
        match self {
            Some(v) => v.view_text(),
            None => Seq::empty(),
        }
    }

    fn into_view(self) -> (r: String) {
        match self {
            Some(v) => v.into_view(),
            None => String::new(),
        }
    }
}

} // verus!
