//! Conversion of a [`Value`] to a host type in two steps: an intermediate
//! result is made first, which is then either committed to the target or
//! rolled back to the value it was made from.

use crate::value::{debug_string, debug_text, push_str, Value, ValueView};
use vstd::prelude::*;
use vstd::utf8::{decode_utf8, encode_utf8, valid_utf8};

pub mod laws;
pub mod numeric;
pub mod temporal;
pub mod timespec;
pub mod to_value;
pub mod uuid;

pub use crate::value::convert::to_value::ToValue;
pub use crate::value::convert::uuid::{Uuid, UuidIr};

verus! {

/// The failure of a conversion. It carries the value that could not be converted.
#[derive(Debug)]
pub struct FromValueError(pub Value);

impl FromValueError {
    /// The message of the failure, which shows the value.
    pub fn to_string(&self) -> (r: String)
        ensures
            r@ == "Couldn't convert the value `"@ + debug_text(self.0@)
                + "` to a desired type"@,
    {
        let mut text = String::new();
        push_str(&mut text, "Couldn't convert the value `");
        let shown = debug_string(&self.0);
        push_str(&mut text, shown.as_str());
        push_str(&mut text, "` to a desired type");
        text
    }

    /// What the failure is, in general.
    pub fn description(&self) -> (r: &'static str)
        ensures
            r@ == "Couldn't convert the value to a desired type"@,
    {
        "Couldn't convert the value to a desired type"
    }
}

/// The intermediate result of converting a value to `T`.
pub trait ConvIr<T>: Sized {
    /// Whether a value converts to `T`.
    spec fn accepts(v: ValueView) -> bool;

    /// Whether `t` is what `v` converts to.
    spec fn yields(v: ValueView, t: T) -> bool;

    /// The value that this intermediate result was made from.
    spec fn source(&self) -> ValueView;

    /// What holds of every intermediate result that `new` hands out.
    spec fn wf(&self) -> bool;

    /// Makes the intermediate result of a value that converts. A value
    /// that does not convert comes back in the error.
    fn new(v: Value) -> (r: Result<Self, FromValueError>)
        ensures
            r is Ok <==> Self::accepts(v@),
            r matches Ok(ir) ==> ir.wf() && ir.source() == v@,
            r matches Err(e) ==> e.0@ == v@,
    ;

    /// Gives what the value converts to.
    fn commit(self) -> (t: T)
        requires
            self.wf(),
        ensures
            Self::yields(self.source(), t),
    ;

    /// Gives back the value that the intermediate result was made from.
    fn rollback(self) -> (v: Value)
        requires
            self.wf(),
        ensures
            v@ == self.source(),
    ;
}

/// A type that a value can be converted to.
pub trait FromValue: Sized {
    type Intermediate: ConvIr<Self>;

    /// Converts a value that is known to convert.
    fn from_value(v: Value) -> (t: Self)
        requires
            Self::Intermediate::accepts(v@),
        ensures
            Self::Intermediate::yields(v@, t),
    {
        match Self::from_value_opt(v) {
            Ok(t) => t,
            Err(_) => vstd::pervasive::unreached(),
        }
    }

    /// Converts a value. A value that does not convert comes back in the error.
    fn from_value_opt(v: Value) -> (r: Result<Self, FromValueError>)
        ensures
            r is Ok <==> Self::Intermediate::accepts(v@),
            r matches Ok(t) ==> Self::Intermediate::yields(v@, t),
            r matches Err(e) ==> e.0@ == v@,
    {
        match Self::Intermediate::new(v) {
            Ok(ir) => Ok(ir.commit()),
            Err(e) => Err(e),
        }
    }

    /// Makes the intermediate result of a value, to be committed or rolled
    /// back later.
    fn get_intermediate(v: Value) -> (r: Result<Self::Intermediate, FromValueError>)
        ensures
            r is Ok <==> Self::Intermediate::accepts(v@),
            r matches Ok(ir) ==> ir.wf() && ir.source() == v@,
            r matches Err(e) ==> e.0@ == v@,
    {
        Self::Intermediate::new(v)
    }
}

/// Converts a value that is known to convert to `T`.
pub fn from_value<T: FromValue>(v: Value) -> (t: T)
    requires
        T::Intermediate::accepts(v@),
    ensures
        T::Intermediate::yields(v@, t),
{
    T::from_value(v)
}

/// Converts a value to `T`. A value that does not convert comes back in the error.
pub fn from_value_opt<T: FromValue>(v: Value) -> (r: Result<T, FromValueError>)
    ensures
        r is Ok <==> T::Intermediate::accepts(v@),
        r matches Ok(t) ==> T::Intermediate::yields(v@, t),
        r matches Err(e) ==> e.0@ == v@,
{
    T::from_value_opt(v)
}

/// The intermediate result of converting a value to `Option<T>`.
#[derive(Debug)]
pub struct OptionIr<T> {
    value: Option<Value>,
    ir: Option<T>,
}

impl<T, Ir> ConvIr<Option<T>> for OptionIr<Ir>
where
    T: FromValue<Intermediate = Ir>,
    Ir: ConvIr<T>,
{
    open spec fn accepts(v: ValueView) -> bool {
        v is Null || Ir::accepts(v)
    }

    open spec fn yields(v: ValueView, t: Option<T>) -> bool {
        if v is Null {
            t is None
        } else {
            t matches Some(x) && Ir::yields(v, x)
        }
    }

    closed spec fn source(&self) -> ValueView {
        match self.value {
            Some(v) => v@,
            None => self.ir->0.source(),
        }
    }

    closed spec fn wf(&self) -> bool {
        match self.value {
            Some(v) => v@ is Null && self.ir is None,
            None => self.ir matches Some(ir) && ir.wf() && !(ir.source() is Null),
        }
    }

    fn new(v: Value) -> (r: Result<OptionIr<Ir>, FromValueError>) {
        match v {
            Value::NULL => Ok(OptionIr { value: Some(Value::NULL), ir: None }),
            v => match T::get_intermediate(v) {
                Ok(ir) => Ok(OptionIr { value: None, ir: Some(ir) }),
                Err(err) => Err(err),
            },
        }
    }

    fn commit(self) -> (t: Option<T>) {
        match self.ir {
            Some(ir) => Some(ir.commit()),
            None => None,
        }
    }

    fn rollback(self) -> (v: Value) {
        let OptionIr { value, ir } = self;
        match value {
            Some(v) => v,
            None => match ir {
                Some(ir) => ir.rollback(),
                None => vstd::pervasive::unreached(),
            },
        }
    }
}

impl<T> FromValue for Option<T> where T: FromValue {
    type Intermediate = OptionIr<T::Intermediate>;
}

/// The intermediate result of converting a value to a number, a truth value
/// or a point or span of time: the value itself, beside what it converts to.
#[derive(Debug)]
pub struct ParseIr<T> {
    value: Value,
    output: T,
}

impl ConvIr<Value> for Value {
    open spec fn accepts(v: ValueView) -> bool {
        true
    }

    open spec fn yields(v: ValueView, t: Value) -> bool {
        t@ == v
    }

    open spec fn source(&self) -> ValueView {
        self@
    }

    open spec fn wf(&self) -> bool {
        true
    }

    fn new(v: Value) -> (r: Result<Value, FromValueError>) {
        Ok(v)
    }

    fn commit(self) -> (t: Value) {
        self
    }

    fn rollback(self) -> (v: Value) {
        self
    }
}

impl FromValue for Value {
    type Intermediate = Value;

    fn from_value(v: Value) -> (t: Value) {
        v
    }

    fn from_value_opt(v: Value) -> (r: Result<Value, FromValueError>) {
        Ok(v)
    }
}

/// Calls `String::from_utf8`, and `FromUtf8Error::into_bytes` where it
/// fails. The text is made of the bytes where they are UTF-8, and holds the
/// characters that they encode; where they are not, the bytes come back as
/// they went in.
#[verifier::external_body]
pub(crate) fn string_from_utf8(bytes: Vec<u8>) -> (r: Result<String, Vec<u8>>)
    ensures
        match r {
            Ok(text) => valid_utf8(bytes@) && text@ == decode_utf8(bytes@),
            Err(back) => !valid_utf8(bytes@) && back@ == bytes@,
        },
{
    match String::from_utf8(bytes) {
        Ok(text) => Ok(text),
        Err(err) => Err(err.into_bytes()),
    }
}

/// Calls `String::into_bytes`: the bytes that encode the characters of the
/// text in UTF-8.
#[verifier::external_body]
pub(crate) fn string_into_bytes(text: String) -> (r: Vec<u8>)
    ensures
        r@ == encode_utf8(text@),
{
    text.into_bytes()
}

/// The intermediate result of converting a value to a `String`.
#[derive(Debug)]
pub struct StringIr {
    text: String,
}

impl ConvIr<String> for StringIr {
    open spec fn accepts(v: ValueView) -> bool {
        v matches ValueView::Bytes(bytes) && valid_utf8(bytes)
    }

    open spec fn yields(v: ValueView, t: String) -> bool {
        v matches ValueView::Bytes(bytes) && valid_utf8(bytes) && t@ == decode_utf8(bytes)
    }

    closed spec fn source(&self) -> ValueView {
        ValueView::Bytes(encode_utf8(self.text@))
    }

    open spec fn wf(&self) -> bool {
        true
    }

    fn new(v: Value) -> (r: Result<StringIr, FromValueError>) {
        match v {
            Value::Bytes(bytes) => match string_from_utf8(bytes) {
                Ok(text) => {
                    proof {
                        vstd::utf8::decode_utf8_encode_utf8(bytes@);
                    }
                    Ok(StringIr { text })
                },
                Err(bytes) => Err(FromValueError(Value::Bytes(bytes))),
            },
            v => Err(FromValueError(v)),
        }
    }

    fn commit(self) -> (t: String) {
        proof {
            vstd::utf8::encode_utf8_valid_utf8(self.text@);
            vstd::utf8::encode_utf8_decode_utf8(self.text@);
        }
        self.text
    }

    fn rollback(self) -> (v: Value) {
        Value::Bytes(string_into_bytes(self.text))
    }
}

impl FromValue for String {
    type Intermediate = StringIr;
}

/// The intermediate result of converting a value to a `Vec<u8>`.
#[derive(Debug)]
pub struct BytesIr {
    bytes: Vec<u8>,
}

impl ConvIr<Vec<u8>> for BytesIr {
    open spec fn accepts(v: ValueView) -> bool {
        v is Bytes
    }

    open spec fn yields(v: ValueView, t: Vec<u8>) -> bool {
        v matches ValueView::Bytes(bytes) && t@ == bytes
    }

    closed spec fn source(&self) -> ValueView {
        ValueView::Bytes(self.bytes@)
    }

    open spec fn wf(&self) -> bool {
        true
    }

    fn new(v: Value) -> (r: Result<BytesIr, FromValueError>) {
        match v {
            Value::Bytes(bytes) => Ok(BytesIr { bytes }),
            v => Err(FromValueError(v)),
        }
    }

    fn commit(self) -> (t: Vec<u8>) {
        self.bytes
    }

    fn rollback(self) -> (v: Value) {
        Value::Bytes(self.bytes)
    }
}

impl FromValue for Vec<u8> {
    type Intermediate = BytesIr;
}

} // verus!
