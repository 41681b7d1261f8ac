//! What the server says of the columns of a result set.

use vstd::prelude::*;
use vstd::utf8::{decode_utf8, valid_utf8};

verus! {

/// The description of one column: its name, as the bytes that the server
/// sent, and the code of its type.
#[derive(Debug, PartialEq, Eq)]
pub struct Column {
    name: Vec<u8>,
    column_type: u8,
}

/// The mathematical content of a [`Column`].
pub struct ColumnView {
    pub name: Seq<u8>,
    pub column_type: u8,
}

impl View for Column {
    type V = ColumnView;

    closed spec fn view(&self) -> ColumnView {
        ColumnView { name: self.name@, column_type: self.column_type }
    }
}

/// What `String::from_utf8_lossy` makes of some bytes.
pub uninterp spec fn lossy_text(bytes: Seq<u8>) -> Seq<char>;

/// Calls `String::from_utf8_lossy` and takes the text as a `String`. Bytes
/// that are UTF-8 give the characters that they encode; of other bytes the
/// contract only gives the text the name [`lossy_text`].
#[verifier::external_body]
fn from_utf8_lossy(bytes: &[u8]) -> (r: String)
    ensures
        r@ == lossy_text(bytes@),
        valid_utf8(bytes@) ==> r@ == decode_utf8(bytes@),
{
    String::from_utf8_lossy(bytes).into_owned()
}

impl Clone for Column {
    fn clone(&self) -> (r: Column)
        ensures
            r@ == self@,
    {
        Column { name: self.name.clone(), column_type: self.column_type }
    }
}

impl Column {
    /// Makes the description of a column of its name and the code of its type.
    pub fn new(name: Vec<u8>, column_type: u8) -> (r: Column)
        ensures
            r@.name == name@,
            r@.column_type == column_type,
    {
        Column { name, column_type }
    }

    /// The name of the column.
    pub fn name_ref(&self) -> (r: &[u8])
        ensures
            r@ == self@.name,
    {
        self.name.as_slice()
    }

    /// The name of the column as text, with a replacement character where
    /// the bytes of the name are not UTF-8.
    pub fn name_str(&self) -> (r: String)
        ensures
            r@ == lossy_text(self@.name),
            valid_utf8(self@.name) ==> r@ == decode_utf8(self@.name),
    {
        from_utf8_lossy(self.name.as_slice())
    }

    /// The code of the column's type.
    pub fn column_type(&self) -> (r: u8)
        ensures
            r == self@.column_type,
    {
        self.column_type
    }
}

/// The names of some columns, in their order.
pub open spec fn names_of(columns: Seq<Column>) -> Seq<Seq<u8>> {
    columns.map_values(|c: Column| c@.name)
}

} // verus!
