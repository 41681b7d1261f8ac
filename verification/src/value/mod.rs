//! The dynamically typed value of one column, as the wire protocol delivers it.

use vstd::prelude::*;

pub mod convert;
pub mod datetime;
pub mod digits;
pub mod roundtrip;
pub mod temporal;

verus! {

/// One column value.
///
/// `Float` holds the IEEE 754 binary64 bit pattern of the number, which is
/// carried along and never computed with. `Date` holds year, month, day,
/// hour, minute, second and microsecond; `Time` holds the sign (`true` for a
/// negative duration), days, hours, minutes, seconds and microseconds.
/// Neither is checked against a calendar here.
#[derive(Debug, PartialEq, Eq)]
pub enum Value {
    NULL,
    Int(i64),
    UInt(u64),
    Float(u64),
    Bytes(Vec<u8>),
    Date(u16, u8, u8, u8, u8, u8, u32),
    Time(bool, u32, u8, u8, u8, u32),
}

/// The mathematical content of a [`Value`].
#[verifier::ext_equal]
pub enum ValueView {
    Null,
    Int(i64),
    UInt(u64),
    Float(u64),
    Bytes(Seq<u8>),
    Date(u16, u8, u8, u8, u8, u8, u32),
    Time(bool, u32, u8, u8, u8, u32),
}

impl View for Value {
    type V = ValueView;

    open spec fn view(&self) -> ValueView {
        match *self {
            Value::NULL => ValueView::Null,
            Value::Int(x) => ValueView::Int(x),
            Value::UInt(x) => ValueView::UInt(x),
            Value::Float(bits) => ValueView::Float(bits),
            Value::Bytes(bytes) => ValueView::Bytes(bytes@),
            Value::Date(y, m, d, h, i, s, u) => ValueView::Date(y, m, d, h, i, s, u),
            Value::Time(neg, d, h, i, s, u) => ValueView::Time(neg, d, h, i, s, u),
        }
    }
}

impl Clone for Value {
    fn clone(&self) -> (r: Value)
        ensures
            r@ == self@,
    {
        match self {
            Value::NULL => Value::NULL,
            Value::Int(x) => Value::Int(*x),
            Value::UInt(x) => Value::UInt(*x),
            Value::Float(bits) => Value::Float(*bits),
            Value::Bytes(bytes) => Value::Bytes(bytes.clone()),
            Value::Date(y, m, d, h, i, s, u) => Value::Date(*y, *m, *d, *h, *i, *s, *u),
            Value::Time(neg, d, h, i, s, u) => Value::Time(*neg, *d, *h, *i, *s, *u),
        }
    }
}

/// What the `Debug` formatting of a value writes.
pub uninterp spec fn debug_text(v: ValueView) -> Seq<char>;

/// Formats a value with `{:?}`, in the form that `derive(Debug)` gives it.
/// The contract gives the text the name [`debug_text`] and claims nothing
/// else of it.
#[verifier::external_body]
pub(crate) fn debug_string(v: &Value) -> (r: String)
    ensures
        r@ == debug_text(v@),
{
    format!("{:?}", v)
}

/// `String::push_str`: the piece is added at the end of the text.
#[verifier::external_body]
pub(crate) fn push_str(text: &mut String, piece: &str)
    ensures
        final(text)@ == old(text)@ + piece@,
{
    text.push_str(piece)
}

} // verus!
