//! Conversion to the integer types and to `bool`.

use crate::value::convert::{ConvIr, FromValue, FromValueError, ParseIr};
use crate::value::digits::{text_as_i64, text_as_u64, try_parse_i64, try_parse_u64};
use crate::value::{Value, ValueView};
use vstd::prelude::*;

verus! {

/// The integer that a value stands for when a signed target asks: the
/// number it holds, or the number that its text writes.
pub open spec fn signed_integer(v: ValueView) -> Option<int> {
    match v {
        ValueView::Int(x) => Some(x as int),
        ValueView::UInt(x) => Some(x as int),
        ValueView::Bytes(text) => match text_as_i64(text) {
            Some(x) => Some(x as int),
            None => None,
        },
        _ => None,
    }
}

/// The integer that a value stands for when an unsigned target asks: the
/// number it holds, or the number that its text writes.
pub open spec fn unsigned_integer(v: ValueView) -> Option<int> {
    match v {
        ValueView::Int(x) => Some(x as int),
        ValueView::UInt(x) => Some(x as int),
        ValueView::Bytes(text) => match text_as_u64(text) {
            Some(x) => Some(x as int),
            None => None,
        },
        _ => None,
    }
}

/// `n`, where it is a number from `min` to `max`.
pub open spec fn within(n: Option<int>, min: int, max: int) -> Option<int> {
    match n {
        Some(x) => if min <= x <= max {
            Some(x)
        } else {
            None
        },
        None => None,
    }
}

/// The truth value that a value stands for: the integers 0 and 1 and the
/// one-byte texts `0` and `1` do, and nothing else does.
pub open spec fn truth_value(v: ValueView) -> Option<bool> {
    match v {
        ValueView::Int(x) => if x == 0 {
            Some(false)
        } else if x == 1 {
            Some(true)
        } else {
            None
        },
        ValueView::Bytes(text) => if text.len() == 1 && text[0] == 0x30 {
            Some(false)
        } else if text.len() == 1 && text[0] == 0x31 {
            Some(true)
        } else {
            None
        },
        _ => None,
    }
}

/// Exactly four values stand for a truth value.
pub proof fn lemma_truth_values(v: ValueView)
    ensures
        truth_value(v) is Some <==> (v =~= ValueView::Int(0) || v =~= ValueView::Int(1) || v
            =~= ValueView::Bytes(seq![0x30u8]) || v =~= ValueView::Bytes(seq![0x31u8])),
        truth_value(v) == Some(true) <==> (v =~= ValueView::Int(1) || v =~= ValueView::Bytes(
            seq![0x31u8],
        )),
{
}

/// Reads a value as an integer from `min` to `max` for a signed target.
pub fn signed_in_range(v: &Value, min: i64, max: i64) -> (r: Option<i64>)
    ensures
        match r {
            Some(x) => within(signed_integer(v@), min as int, max as int) == Some(x as int),
            None => within(signed_integer(v@), min as int, max as int) is None,
        },
{
    match v {
        Value::Int(x) => if min <= *x && *x <= max {
            Some(*x)
        } else {
            None
        },
        Value::UInt(x) => if max >= 0 && *x <= max as u64 && (*x as i64) >= min {
            Some(*x as i64)
        } else {
            None
        },
        Value::Bytes(bytes) => match try_parse_i64(bytes.as_slice()) {
            Some(x) => if min <= x && x <= max {
                Some(x)
            } else {
                None
            },
            None => None,
        },
        _ => None,
    }
}

/// Reads a value as an integer from 0 to `max` for an unsigned target.
pub fn unsigned_in_range(v: &Value, max: u64) -> (r: Option<u64>)
    ensures
        match r {
            Some(x) => within(unsigned_integer(v@), 0, max as int) == Some(x as int),
            None => within(unsigned_integer(v@), 0, max as int) is None,
        },
{
    match v {
        Value::Int(x) => if *x >= 0 && *x as u64 <= max {
            Some(*x as u64)
        } else {
            None
        },
        Value::UInt(x) => if *x <= max {
            Some(*x)
        } else {
            None
        },
        Value::Bytes(bytes) => match try_parse_u64(bytes.as_slice()) {
            Some(x) => if x <= max {
                Some(x)
            } else {
                None
            },
            None => None,
        },
        _ => None,
    }
}

impl ConvIr<i64> for ParseIr<i64> {
    open spec fn accepts(v: ValueView) -> bool {
        within(signed_integer(v), i64::MIN as int, i64::MAX as int) is Some
    }

    open spec fn yields(v: ValueView, t: i64) -> bool {
        within(signed_integer(v), i64::MIN as int, i64::MAX as int) == Some(t as int)
    }

    closed spec fn source(&self) -> ValueView {
        self.value@
    }

    closed spec fn wf(&self) -> bool {
        Self::yields(self.value@, self.output)
    }

    fn new(v: Value) -> (r: Result<ParseIr<i64>, FromValueError>) {
        match signed_in_range(&v, i64::MIN, i64::MAX) {
            Some(x) => Ok(ParseIr { value: v, output: x }),
            None => Err(FromValueError(v)),
        }
    }

    fn commit(self) -> (t: i64) {
        self.output
    }

    fn rollback(self) -> (v: Value) {
        self.value
    }
}

impl FromValue for i64 {
    type Intermediate = ParseIr<i64>;
}

impl ConvIr<u64> for ParseIr<u64> {
    open spec fn accepts(v: ValueView) -> bool {
        within(unsigned_integer(v), 0, u64::MAX as int) is Some
    }

    open spec fn yields(v: ValueView, t: u64) -> bool {
        within(unsigned_integer(v), 0, u64::MAX as int) == Some(t as int)
    }

    closed spec fn source(&self) -> ValueView {
        self.value@
    }

    closed spec fn wf(&self) -> bool {
        Self::yields(self.value@, self.output)
    }

    fn new(v: Value) -> (r: Result<ParseIr<u64>, FromValueError>) {
        match unsigned_in_range(&v, u64::MAX) {
            Some(x) => Ok(ParseIr { value: v, output: x }),
            None => Err(FromValueError(v)),
        }
    }

    fn commit(self) -> (t: u64) {
        self.output
    }

    fn rollback(self) -> (v: Value) {
        self.value
    }
}

impl FromValue for u64 {
    type Intermediate = ParseIr<u64>;
}

/// Reads a value as a truth value.
pub fn truth_of(v: &Value) -> (r: Option<bool>)
    ensures
        r == truth_value(v@),
{
    match v {
        Value::Int(x) => if *x == 0 {
            Some(false)
        } else if *x == 1 {
            Some(true)
        } else {
            None
        },
        Value::Bytes(bytes) => if bytes.len() == 1 {
            if bytes[0] == 0x30 {
                Some(false)
            } else if bytes[0] == 0x31 {
                Some(true)
            } else {
                None
            }
        } else {
            None
        },
        _ => None,
    }
}

impl ConvIr<bool> for ParseIr<bool> {
    open spec fn accepts(v: ValueView) -> bool {
        truth_value(v) is Some
    }

    open spec fn yields(v: ValueView, t: bool) -> bool {
        truth_value(v) == Some(t)
    }

    closed spec fn source(&self) -> ValueView {
        self.value@
    }

    closed spec fn wf(&self) -> bool {
        Self::yields(self.value@, self.output)
    }

    fn new(v: Value) -> (r: Result<ParseIr<bool>, FromValueError>) {
        match truth_of(&v) {
            Some(b) => Ok(ParseIr { value: v, output: b }),
            None => Err(FromValueError(v)),
        }
    }

    fn commit(self) -> (t: bool) {
        self.output
    }

    fn rollback(self) -> (v: Value) {
        self.value
    }
}

impl FromValue for bool {
    type Intermediate = ParseIr<bool>;
}

impl ConvIr<i8> for ParseIr<i8> {
    open spec fn accepts(v: ValueView) -> bool {
        within(signed_integer(v), i8::MIN as int, i8::MAX as int) is Some
    }

    open spec fn yields(v: ValueView, t: i8) -> bool {
        within(signed_integer(v), i8::MIN as int, i8::MAX as int) == Some(t as int)
    }

    closed spec fn source(&self) -> ValueView {
        self.value@
    }

    closed spec fn wf(&self) -> bool {
        Self::yields(self.value@, self.output)
    }

    fn new(v: Value) -> (r: Result<ParseIr<i8>, FromValueError>) {
        match signed_in_range(&v, i8::MIN as i64, i8::MAX as i64) {
            Some(x) => Ok(ParseIr { value: v, output: x as i8 }),
            None => Err(FromValueError(v)),
        }
    }

    fn commit(self) -> (t: i8) {
        self.output
    }

    fn rollback(self) -> (v: Value) {
        self.value
    }
}

impl FromValue for i8 {
    type Intermediate = ParseIr<i8>;
}

impl ConvIr<u8> for ParseIr<u8> {
    open spec fn accepts(v: ValueView) -> bool {
        within(unsigned_integer(v), 0, u8::MAX as int) is Some
    }

    open spec fn yields(v: ValueView, t: u8) -> bool {
        within(unsigned_integer(v), 0, u8::MAX as int) == Some(t as int)
    }

    closed spec fn source(&self) -> ValueView {
        self.value@
    }

    closed spec fn wf(&self) -> bool {
        Self::yields(self.value@, self.output)
    }

    fn new(v: Value) -> (r: Result<ParseIr<u8>, FromValueError>) {
        match unsigned_in_range(&v, u8::MAX as u64) {
            Some(x) => Ok(ParseIr { value: v, output: x as u8 }),
            None => Err(FromValueError(v)),
        }
    }

    fn commit(self) -> (t: u8) {
        self.output
    }

    fn rollback(self) -> (v: Value) {
        self.value
    }
}

impl FromValue for u8 {
    type Intermediate = ParseIr<u8>;
}

impl ConvIr<i16> for ParseIr<i16> {
    open spec fn accepts(v: ValueView) -> bool {
        within(signed_integer(v), i16::MIN as int, i16::MAX as int) is Some
    }

    open spec fn yields(v: ValueView, t: i16) -> bool {
        within(signed_integer(v), i16::MIN as int, i16::MAX as int) == Some(t as int)
    }

    closed spec fn source(&self) -> ValueView {
        self.value@
    }

    closed spec fn wf(&self) -> bool {
        Self::yields(self.value@, self.output)
    }

    fn new(v: Value) -> (r: Result<ParseIr<i16>, FromValueError>) {
        match signed_in_range(&v, i16::MIN as i64, i16::MAX as i64) {
            Some(x) => Ok(ParseIr { value: v, output: x as i16 }),
            None => Err(FromValueError(v)),
        }
    }

    fn commit(self) -> (t: i16) {
        self.output
    }

    fn rollback(self) -> (v: Value) {
        self.value
    }
}

impl FromValue for i16 {
    type Intermediate = ParseIr<i16>;
}

impl ConvIr<u16> for ParseIr<u16> {
    open spec fn accepts(v: ValueView) -> bool {
        within(unsigned_integer(v), 0, u16::MAX as int) is Some
    }

    open spec fn yields(v: ValueView, t: u16) -> bool {
        within(unsigned_integer(v), 0, u16::MAX as int) == Some(t as int)
    }

    closed spec fn source(&self) -> ValueView {
        self.value@
    }

    closed spec fn wf(&self) -> bool {
        Self::yields(self.value@, self.output)
    }

    fn new(v: Value) -> (r: Result<ParseIr<u16>, FromValueError>) {
        match unsigned_in_range(&v, u16::MAX as u64) {
            Some(x) => Ok(ParseIr { value: v, output: x as u16 }),
            None => Err(FromValueError(v)),
        }
    }

    fn commit(self) -> (t: u16) {
        self.output
    }

    fn rollback(self) -> (v: Value) {
        self.value
    }
}

impl FromValue for u16 {
    type Intermediate = ParseIr<u16>;
}

impl ConvIr<i32> for ParseIr<i32> {
    open spec fn accepts(v: ValueView) -> bool {
        within(signed_integer(v), i32::MIN as int, i32::MAX as int) is Some
    }

    open spec fn yields(v: ValueView, t: i32) -> bool {
        within(signed_integer(v), i32::MIN as int, i32::MAX as int) == Some(t as int)
    }

    closed spec fn source(&self) -> ValueView {
        self.value@
    }

    closed spec fn wf(&self) -> bool {
        Self::yields(self.value@, self.output)
    }

    fn new(v: Value) -> (r: Result<ParseIr<i32>, FromValueError>) {
        match signed_in_range(&v, i32::MIN as i64, i32::MAX as i64) {
            Some(x) => Ok(ParseIr { value: v, output: x as i32 }),
            None => Err(FromValueError(v)),
        }
    }

    fn commit(self) -> (t: i32) {
        self.output
    }

    fn rollback(self) -> (v: Value) {
        self.value
    }
}

impl FromValue for i32 {
    type Intermediate = ParseIr<i32>;
}

impl ConvIr<u32> for ParseIr<u32> {
    open spec fn accepts(v: ValueView) -> bool {
        within(unsigned_integer(v), 0, u32::MAX as int) is Some
    }

    open spec fn yields(v: ValueView, t: u32) -> bool {
        within(unsigned_integer(v), 0, u32::MAX as int) == Some(t as int)
    }

    closed spec fn source(&self) -> ValueView {
        self.value@
    }

    closed spec fn wf(&self) -> bool {
        Self::yields(self.value@, self.output)
    }

    fn new(v: Value) -> (r: Result<ParseIr<u32>, FromValueError>) {
        match unsigned_in_range(&v, u32::MAX as u64) {
            Some(x) => Ok(ParseIr { value: v, output: x as u32 }),
            None => Err(FromValueError(v)),
        }
    }

    fn commit(self) -> (t: u32) {
        self.output
    }

    fn rollback(self) -> (v: Value) {
        self.value
    }
}

impl FromValue for u32 {
    type Intermediate = ParseIr<u32>;
}

impl ConvIr<isize> for ParseIr<isize> {
    open spec fn accepts(v: ValueView) -> bool {
        within(signed_integer(v), isize::MIN as int, isize::MAX as int) is Some
    }

    open spec fn yields(v: ValueView, t: isize) -> bool {
        within(signed_integer(v), isize::MIN as int, isize::MAX as int) == Some(t as int)
    }

    closed spec fn source(&self) -> ValueView {
        self.value@
    }

    closed spec fn wf(&self) -> bool {
        Self::yields(self.value@, self.output)
    }

    fn new(v: Value) -> (r: Result<ParseIr<isize>, FromValueError>) {
        match signed_in_range(&v, isize::MIN as i64, isize::MAX as i64) {
            Some(x) => Ok(ParseIr { value: v, output: x as isize }),
            None => Err(FromValueError(v)),
        }
    }

    fn commit(self) -> (t: isize) {
        self.output
    }

    fn rollback(self) -> (v: Value) {
        self.value
    }
}

impl FromValue for isize {
    type Intermediate = ParseIr<isize>;
}

impl ConvIr<usize> for ParseIr<usize> {
    open spec fn accepts(v: ValueView) -> bool {
        within(unsigned_integer(v), 0, usize::MAX as int) is Some
    }

    open spec fn yields(v: ValueView, t: usize) -> bool {
        within(unsigned_integer(v), 0, usize::MAX as int) == Some(t as int)
    }

    closed spec fn source(&self) -> ValueView {
        self.value@
    }

    closed spec fn wf(&self) -> bool {
        Self::yields(self.value@, self.output)
    }

    fn new(v: Value) -> (r: Result<ParseIr<usize>, FromValueError>) {
        match unsigned_in_range(&v, usize::MAX as u64) {
            Some(x) => Ok(ParseIr { value: v, output: x as usize }),
            None => Err(FromValueError(v)),
        }
    }

    fn commit(self) -> (t: usize) {
        self.output
    }

    fn rollback(self) -> (v: Value) {
        self.value
    }
}

impl FromValue for usize {
    type Intermediate = ParseIr<usize>;
}

} // verus!
