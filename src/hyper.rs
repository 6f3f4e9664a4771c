use std::borrow::Cow;
use vstd::prelude::*;

verus! {

/// A fragment of HTML text, borrowed where possible.
pub struct HyperText<'a> {
    inner: Cow<'a, str>,
}

impl<'a> View for HyperText<'a> {
    type V = Seq<char>;

    closed spec fn view(&self) -> Seq<char> {
        self.inner@
    }
}

impl<'a> HyperText<'a> {
    /// The text as a string slice.
    pub fn as_str(&self) -> (r: &str)
        ensures
            r@ == self@,
    {
        match &self.inner {
            Cow::Borrowed(s) => s,
            Cow::Owned(s) => s.as_str(),
        }
    }

    /// The empty fragment.
    pub fn empty() -> (r: HyperText<'a>)
        ensures
            r@ == Seq::<char>::empty(),
    {
        proof {
            reveal_strlit("");
        }
        HyperText { inner: Cow::Borrowed("") }
    }

    /// Wraps a borrowed slice.
    pub fn borrowed(s: &'a str) -> (r: HyperText<'a>)
        ensures
            r@ == s@,
    {
        HyperText { inner: Cow::Borrowed(s) }
    }

    /// Wraps an owned string.
    pub fn owned(s: String) -> (r: HyperText<'a>)
        ensures
            r@ == s@,
    {
        HyperText { inner: Cow::Owned(s) }
    }

    /// A copy that owns its text.
    pub fn to_owned_text<'b>(&self) -> (r: HyperText<'b>)
        ensures
            r@ == self@,
    {
        HyperText { inner: Cow::Owned(self.as_str().to_owned()) }
    }

    /// The text as an owned string.
    pub fn into_string(self) -> (r: String)
        ensures
            r@ == self@,
    {
        self.as_str().to_owned()
    }
}

impl<'a> From<&'a str> for HyperText<'a> {
    fn from(value: &'a str) -> (r: HyperText<'a>) {
        HyperText { inner: Cow::Borrowed(value) }
    }
}

impl<'a> vstd::std_specs::convert::FromSpecImpl<&'a str> for HyperText<'a> {
    open spec fn obeys_from_spec() -> bool {
        true
    }

    closed spec fn from_spec(v: &'a str) -> HyperText<'a> {
        HyperText { inner: Cow::Borrowed(v) }
    }
}

impl<'a> From<String> for HyperText<'a> {
    fn from(value: String) -> (r: HyperText<'a>) {
        HyperText { inner: Cow::Owned(value) }
    }
}

impl<'a> vstd::std_specs::convert::FromSpecImpl<String> for HyperText<'a> {
    open spec fn obeys_from_spec() -> bool {
        true
    }

    closed spec fn from_spec(v: String) -> HyperText<'a> {
        HyperText { inner: Cow::Owned(v) }
    }
}

/// A `HyperText` made `from` a string slice holds its text.
pub proof fn lemma_from_str_text<'a>(s: &'a str)
    ensures
        <HyperText<'a> as vstd::std_specs::convert::FromSpec<&'a str>>::from_spec(s)@ == s@,
{
}

/// A `HyperText` made `from` a `String` holds its text.
pub proof fn lemma_from_string_text<'a>(t: String)
    ensures
        <HyperText<'a> as vstd::std_specs::convert::FromSpec<String>>::from_spec(t)@ == t@,
{
}

impl<'a> Default for HyperText<'a> {
    fn default() -> (r: HyperText<'a>)
        ensures
            r@ == Seq::<char>::empty(),
    {
        HyperText::empty()
    }
}

/// The decimal digit `d`.
pub open spec fn digit_char(d: nat) -> char {
    if d == 0 {
        '0'
    } else if d == 1 {
        '1'
    } else if d == 2 {
        '2'
    } else if d == 3 {
        '3'
    } else if d == 4 {
        '4'
    } else if d == 5 {
        '5'
    } else if d == 6 {
        '6'
    } else if d == 7 {
        '7'
    } else if d == 8 {
        '8'
    } else {
        '9'
    }
}

/// The decimal digits of `n`, without leading zeros.
pub open spec fn decimal(n: nat) -> Seq<char>
    decreases n,
{
    if n < 10 {
        seq![digit_char(n)]
    } else {
        decimal(n / 10) + seq![digit_char(n % 10)]
    }
}

/// The decimal text of `n`, with `-` before a negative number.
pub open spec fn signed_decimal(n: int) -> Seq<char> {
    if n < 0 {
        seq!['-'] + decimal((-n) as nat)
    } else {
        decimal(n as nat)
    }
}

fn digit_text(d: u128) -> (r: &'static str)
    requires
        d < 10,
    ensures
        r@ == seq![digit_char(d as nat)],
{
    if d == 0 {
        proof {
            reveal_strlit("0");
        }
        "0"
    } else if d == 1 {
        proof {
            reveal_strlit("1");
        }
        "1"
    } else if d == 2 {
        proof {
            reveal_strlit("2");
        }
        "2"
    } else if d == 3 {
        proof {
            reveal_strlit("3");
        }
        "3"
    } else if d == 4 {
        proof {
            reveal_strlit("4");
        }
        "4"
    } else if d == 5 {
        proof {
            reveal_strlit("5");
        }
        "5"
    } else if d == 6 {
        proof {
            reveal_strlit("6");
        }
        "6"
    } else if d == 7 {
        proof {
            reveal_strlit("7");
        }
        "7"
    } else if d == 8 {
        proof {
            reveal_strlit("8");
        }
        "8"
    } else {
        proof {
            reveal_strlit("9");
        }
        "9"
    }
}

/// The decimal text of an unsigned number.
pub fn decimal_text(n: u128) -> (r: String)
    ensures
        r@ == decimal(n as nat),
    decreases n,
{
    if n < 10 {
        digit_text(n).to_owned()
    } else {
        let mut r = decimal_text(n / 10);
        r.append(digit_text(n % 10));
        r
    }
}

/// The decimal text of a signed number.
pub fn signed_decimal_text(n: i128) -> (r: String)
    ensures
        r@ == signed_decimal(n as int),
{
    if n < 0 {
        let m: u128 = ((-(n + 1)) as u128) + 1;
        let mut r = "-".to_owned();
        proof {
            reveal_strlit("-");
        }
        r.append(decimal_text(m).as_str());
        r
    } else {
        decimal_text(n as u128)
    }
}

/// Relies on `ToString` for `char`: a string of that one character.
#[verifier::external_body]
pub(crate) fn char_text(c: char) -> (r: String)
    ensures
        r@ == seq![c],
{
    c.to_string()
}

/// Body conversion: turns a value into text for an HTML body.
///
/// Text passes through as it is, without HTML escaping: templates embed the `String`s
/// that other templates render, and raw-text elements take script and style source
/// verbatim. No conversion of this library escapes: text from users is escaped where it
/// is written, with `encode_text`.
pub trait IntoHyperText<'a>: Sized {
    /// The text that the value converts to.
    spec fn hyper_text(&self) -> Seq<char>;

    fn into_hyper_text(self) -> (r: HyperText<'a>)
        ensures
            r@ == self.hyper_text(),
    ;
}

impl<'a> IntoHyperText<'a> for HyperText<'a> {
    open spec fn hyper_text(&self) -> Seq<char> {
        self@
    }

    fn into_hyper_text(self) -> (r: HyperText<'a>) {
        self
    }
}

impl<'a> IntoHyperText<'a> for &'a str {
    open spec fn hyper_text(&self) -> Seq<char> {
        self@
    }

    fn into_hyper_text(self) -> (r: HyperText<'a>) {
        HyperText::borrowed(self)
    }
}

impl<'a> IntoHyperText<'a> for String {
    open spec fn hyper_text(&self) -> Seq<char> {
        self@
    }

    fn into_hyper_text(self) -> (r: HyperText<'a>) {
        HyperText::owned(self)
    }
}

impl<'a> IntoHyperText<'a> for Cow<'a, str> {
    open spec fn hyper_text(&self) -> Seq<char> {
        self@
    }

    fn into_hyper_text(self) -> (r: HyperText<'a>) {
        HyperText { inner: self }
    }
}

impl<'a> IntoHyperText<'a> for bool {
    open spec fn hyper_text(&self) -> Seq<char> {
        if *self {
            "true"@
        } else {
            "false"@
        }
    }

    fn into_hyper_text(self) -> (r: HyperText<'a>) {
        if self {
            HyperText::borrowed("true")
        } else {
            HyperText::borrowed("false")
        }
    }
}

impl<'a> IntoHyperText<'a> for char {
    open spec fn hyper_text(&self) -> Seq<char> {
        seq![*self]
    }

    fn into_hyper_text(self) -> (r: HyperText<'a>) {
        HyperText::owned(char_text(self))
    }
}

impl<'a> IntoHyperText<'a> for u8 {
    open spec fn hyper_text(&self) -> Seq<char> {
        decimal(*self as nat)
    }

    fn into_hyper_text(self) -> (r: HyperText<'a>) {
        HyperText::owned(decimal_text(self as u128))
    }
}

impl<'a> IntoHyperText<'a> for u16 {
    open spec fn hyper_text(&self) -> Seq<char> {
        decimal(*self as nat)
    }

    fn into_hyper_text(self) -> (r: HyperText<'a>) {
        HyperText::owned(decimal_text(self as u128))
    }
}

impl<'a> IntoHyperText<'a> for u32 {
    open spec fn hyper_text(&self) -> Seq<char> {
        decimal(*self as nat)
    }

    fn into_hyper_text(self) -> (r: HyperText<'a>) {
        HyperText::owned(decimal_text(self as u128))
    }
}

impl<'a> IntoHyperText<'a> for u64 {
    open spec fn hyper_text(&self) -> Seq<char> {
        decimal(*self as nat)
    }

    fn into_hyper_text(self) -> (r: HyperText<'a>) {
        HyperText::owned(decimal_text(self as u128))
    }
}

impl<'a> IntoHyperText<'a> for u128 {
    open spec fn hyper_text(&self) -> Seq<char> {
        decimal(*self as nat)
    }

    fn into_hyper_text(self) -> (r: HyperText<'a>) {
        HyperText::owned(decimal_text(self as u128))
    }
}

impl<'a> IntoHyperText<'a> for usize {
    open spec fn hyper_text(&self) -> Seq<char> {
        decimal(*self as nat)
    }

    fn into_hyper_text(self) -> (r: HyperText<'a>) {
        HyperText::owned(decimal_text(self as u128))
    }
}

impl<'a> IntoHyperText<'a> for i8 {
    open spec fn hyper_text(&self) -> Seq<char> {
        signed_decimal(*self as int)
    }

    fn into_hyper_text(self) -> (r: HyperText<'a>) {
        HyperText::owned(signed_decimal_text(self as i128))
    }
}

impl<'a> IntoHyperText<'a> for i16 {
    open spec fn hyper_text(&self) -> Seq<char> {
        signed_decimal(*self as int)
    }

    fn into_hyper_text(self) -> (r: HyperText<'a>) {
        HyperText::owned(signed_decimal_text(self as i128))
    }
}

impl<'a> IntoHyperText<'a> for i32 {
    open spec fn hyper_text(&self) -> Seq<char> {
        signed_decimal(*self as int)
    }

    fn into_hyper_text(self) -> (r: HyperText<'a>) {
        HyperText::owned(signed_decimal_text(self as i128))
    }
}

impl<'a> IntoHyperText<'a> for i64 {
    open spec fn hyper_text(&self) -> Seq<char> {
        signed_decimal(*self as int)
    }

    fn into_hyper_text(self) -> (r: HyperText<'a>) {
        HyperText::owned(signed_decimal_text(self as i128))
    }
}

impl<'a> IntoHyperText<'a> for i128 {
    open spec fn hyper_text(&self) -> Seq<char> {
        signed_decimal(*self as int)
    }

    fn into_hyper_text(self) -> (r: HyperText<'a>) {
        HyperText::owned(signed_decimal_text(self as i128))
    }
}

impl<'a> IntoHyperText<'a> for isize {
    open spec fn hyper_text(&self) -> Seq<char> {
        signed_decimal(*self as int)
    }

    fn into_hyper_text(self) -> (r: HyperText<'a>) {
        HyperText::owned(signed_decimal_text(self as i128))
    }
}

impl<'a, T: IntoHyperText<'a>> IntoHyperText<'a> for Option<T> {
    open spec fn hyper_text(&self) -> Seq<char> {
        match self {
            Some(v) => v.hyper_text(),
            None => Seq::empty(),
        }
    }

    fn into_hyper_text(self) -> (r: HyperText<'a>) {
        match self {
            Some(v) => v.into_hyper_text(),
            None => HyperText::empty(),
        }
    }
}

} // verus!
