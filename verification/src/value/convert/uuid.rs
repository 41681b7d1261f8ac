//! Conversion to and from universally unique identifiers.

use crate::value::convert::to_value::ToValue;
use crate::value::convert::{ConvIr, FromValue, FromValueError};
use crate::value::{Value, ValueView};
use vstd::prelude::*;
use vstd::slice::slice_to_vec;
use vstd::std_specs::convert::FromSpecImpl;

verus! {

/// A universally unique identifier: sixteen bytes.
#[derive(Clone, Copy, Debug, PartialEq, Eq)]
pub struct Uuid {
    bytes: [u8; 16],
}

impl View for Uuid {
    type V = Seq<u8>;

    /// The sixteen bytes.
    closed spec fn view(&self) -> Seq<u8> {
        self.bytes@
    }
}

impl Uuid {
    /// Makes an identifier of its bytes.
    pub fn from_bytes(bytes: [u8; 16]) -> (r: Uuid)
        ensures
            r@ == bytes@,
    {
        Uuid { bytes }
    }

    /// The bytes of the identifier.
    pub fn as_bytes(&self) -> (r: &[u8; 16])
        ensures
            r@ == self@,
            self@.len() == 16,
    {
        &self.bytes
    }
}

/// Calls `uuid::Uuid::from_slice`, and `into_bytes` on what it makes. It
/// makes an identifier of exactly sixteen bytes, which are then its bytes,
/// and fails on any other number of them.
#[verifier::external_body]
fn uuid_from_slice(bytes: &[u8]) -> (r: Option<[u8; 16]>)
    ensures
        r is Some <==> bytes@.len() == 16,
        r matches Some(id) ==> id@ == bytes@,
{
    match uuid::Uuid::from_slice(bytes) {
        Ok(id) => Some(id.into_bytes()),
        Err(_) => None,
    }
}

/// The intermediate result of converting a value to a [`Uuid`].
#[derive(Debug)]
pub struct UuidIr {
    val: Uuid,
    bytes: Vec<u8>,
}

impl ConvIr<Uuid> for UuidIr {
    open spec fn accepts(v: ValueView) -> bool {
        v matches ValueView::Bytes(bytes) && bytes.len() == 16
    }

    open spec fn yields(v: ValueView, t: Uuid) -> bool {
        v matches ValueView::Bytes(bytes) && bytes.len() == 16 && t@ == bytes
    }

    closed spec fn source(&self) -> ValueView {
        ValueView::Bytes(self.bytes@)
    }

    closed spec fn wf(&self) -> bool {
        self.bytes@.len() == 16 && self.val@ == self.bytes@
    }

    fn new(v: Value) -> (r: Result<UuidIr, FromValueError>) {
        match v {
            Value::Bytes(bytes) => match uuid_from_slice(bytes.as_slice()) {
                Some(id) => Ok(UuidIr { val: Uuid::from_bytes(id), bytes }),
                None => Err(FromValueError(Value::Bytes(bytes))),
            },
            v => Err(FromValueError(v)),
        }
    }

    fn commit(self) -> (t: Uuid) {
        self.val
    }

    fn rollback(self) -> (v: Value) {
        Value::Bytes(self.bytes)
    }
}

impl FromValue for Uuid {
    type Intermediate = UuidIr;
}

impl From<Uuid> for Value {
    fn from(x: Uuid) -> (r: Value)
        ensures
            r@ == ValueView::Bytes(x@),
    {
        Value::Bytes(slice_to_vec(x.as_bytes().as_slice()))
    }
}

impl FromSpecImpl<Uuid> for Value {
    open spec fn obeys_from_spec() -> bool {
        false
    }

    open spec fn from_spec(x: Uuid) -> Value {
        arbitrary()
    }
}

impl ToValue for Uuid {
    open spec fn encodable(&self) -> bool {
        true
    }

    open spec fn encoding(&self) -> ValueView {
        ValueView::Bytes(self@)
    }

    fn to_value(&self) -> (r: Value) {
        Value::from(*self)
    }
}

} // verus!
