//! A row of a result set: its values by position, beside the columns that
//! all rows of the result set share.

use crate::packets::{lossy_text, names_of, Column};
use crate::value::convert::{from_value_opt, ConvIr, FromValue, FromValueError};
use crate::value::{debug_string, debug_text, push_str, Value, ValueView};
use smallvec::SmallVec;
use std::ops::Index;
use std::sync::Arc;
use vstd::prelude::*;
use vstd::utf8::encode_utf8;

verus! {

/// The slots of a row, held in a `SmallVec` with room for twelve of them
/// before it allocates.
///
/// The verifier does not look inside: what the slots hold is known to it as
/// [`slots_of`], and each function below says what is taken on trust of the
/// `SmallVec` call that it makes.
#[verifier::external_body]
#[derive(PartialEq)]
pub struct Slots {
    inner: SmallVec<[Option<Value>; 12]>,
}

/// What a [`Slots`] holds, first to last.
pub uninterp spec fn slots_of(slots: Slots) -> Seq<Option<Value>>;

impl Slots {
    /// `SmallVec::new`: slots that hold nothing.
    #[verifier::external_body]
    fn new() -> (r: Slots)
        ensures
            slots_of(r) == Seq::<Option<Value>>::empty(),
    {
        Slots { inner: SmallVec::new() }
    }

    /// `SmallVec::push`: the slot is added behind the others.
    #[verifier::external_body]
    fn push(&mut self, slot: Option<Value>)
        ensures
            slots_of(*final(self)) == slots_of(*old(self)).push(slot),
    {
        self.inner.push(slot)
    }

    /// `SmallVec::as_slice`: the slots as a slice.
    #[verifier::external_body]
    fn as_slice(&self) -> (r: &[Option<Value>])
        ensures
            r@ == slots_of(*self),
    {
        self.inner.as_slice()
    }

    /// Puts `slot` in the place `index` through `SmallVec`'s `IndexMut`,
    /// with `std::mem::replace`, and hands out what was there. The other
    /// slots stay as they are.
    #[verifier::external_body]
    fn replace(&mut self, index: usize, slot: Option<Value>) -> (r: Option<Value>)
        requires
            index < slots_of(*old(self)).len(),
        ensures
            r == slots_of(*old(self))[index as int],
            slots_of(*final(self)) == slots_of(*old(self)).update(index as int, slot),
        no_unwind
    {
        std::mem::replace(&mut self.inner[index], slot)
    }

    /// `SmallVec::clone`, which clones each slot: the new slots hold values
    /// of the same content in the same places.
    #[verifier::external_body]
    fn duplicate(&self) -> (r: Slots)
        ensures
            slots_of(r).map_values(|slot: Option<Value>| slot_view(slot)) == slots_of(
                *self,
            ).map_values(|slot: Option<Value>| slot_view(slot)),
    {
        Slots { inner: self.inner.clone() }
    }

    /// `SmallVec::into_vec`: the slots in a `Vec`, in their order.
    #[verifier::external_body]
    fn into_vec(self) -> (r: Vec<Option<Value>>)
        ensures
            r@ == slots_of(self),
    {
        self.inner.into_vec()
    }
}

/// The slots that hold the given values, in their order.
fn filled_slots(values: Vec<Value>) -> (r: Slots)
    ensures
        slots_of(r) == values@.map_values(|v: Value| Some(v)),
{
    let mut slots = Slots::new();
    let ghost all = values@;
    for value in it: values
        invariant
            it.seq() == all,
            slots_of(slots) == all.take(it.index() as int).map_values(|v: Value| Some(v)),
    {
        slots.push(Some(value));
    }
    slots
}

/// The content of a slot: the content of the value in it, if it holds one.
pub open spec fn slot_view(slot: Option<Value>) -> Option<ValueView> {
    match slot {
        Some(v) => Some(v@),
        None => None,
    }
}

/// What is found in a row at a position that may name no column: the
/// content of the slot there, and nothing where there is no such slot or
/// its value was taken.
pub open spec fn slot_at(slots: Seq<Option<ValueView>>, at: Option<int>) -> Option<ValueView> {
    match at {
        Some(i) => if 0 <= i < slots.len() {
            slots[i]
        } else {
            None
        },
        None => None,
    }
}

/// The slots of a row after the value at a position was taken: that slot
/// is empty and the others are as before. A position that names no slot
/// changes nothing.
pub open spec fn slots_without(slots: Seq<Option<ValueView>>, at: Option<int>) -> Seq<
    Option<ValueView>,
> {
    match at {
        Some(i) => if 0 <= i < slots.len() {
            slots.update(i, None)
        } else {
            slots
        },
        None => slots,
    }
}

/// Once a value was taken, nothing is found at its position.
pub proof fn lemma_taken_is_absent(slots: Seq<Option<ValueView>>, at: Option<int>)
    ensures
        slot_at(slots_without(slots, at), at) is None,
        slots_without(slots_without(slots, at), at) == slots_without(slots, at),
{
}

/// The position of the first of `names` that equals `name`, looked for from
/// `from` on.
pub open spec fn position_from(names: Seq<Seq<u8>>, name: Seq<u8>, from: int) -> Option<int>
    decreases names.len() - from,
{
    if from >= names.len() {
        None
    } else if names[from] == name {
        Some(from)
    } else {
        position_from(names, name, from + 1)
    }
}

/// What is found is the first of the names that equals `name`: it is at no
/// earlier position, and where nothing is found there is none.
pub proof fn lemma_position_is_first(names: Seq<Seq<u8>>, name: Seq<u8>, from: int)
    requires
        0 <= from,
    ensures
        match position_from(names, name, from) {
            Some(i) => from <= i < names.len() && names[i] == name && forall|j: int|
                from <= j < i ==> names[j] != name,
            None => forall|j: int| from <= j < names.len() ==> names[j] != name,
        },
    decreases names.len() - from,
{
    if from < names.len() && names[from] != name {
        lemma_position_is_first(names, name, from + 1);
    }
}

/// What can stand for a column of a row.
pub trait ColumnIndex {
    /// The position that it stands for among columns of the given names.
    spec fn position(&self, names: Seq<Seq<u8>>) -> Option<int>;

    fn idx(&self, columns: &Vec<Column>) -> (r: Option<usize>)
        ensures
            match r {
                Some(i) => self.position(names_of(columns@)) == Some(i as int),
                None => self.position(names_of(columns@)) is None,
            },
    ;
}

impl ColumnIndex for usize {
    /// A number stands for the column at that position, if there is one.
    open spec fn position(&self, names: Seq<Seq<u8>>) -> Option<int> {
        if *self < names.len() {
            Some(*self as int)
        } else {
            None
        }
    }

    fn idx(&self, columns: &Vec<Column>) -> (r: Option<usize>) {
        if *self >= columns.len() {
            None
        } else {
            Some(*self)
        }
    }
}

/// Tests whether two texts hold the same bytes.
pub fn same_bytes(a: &[u8], b: &[u8]) -> (r: bool)
    ensures
        r == (a@ == b@),
{
    if a.len() != b.len() {
        return false;
    }
    let mut i: usize = 0;
    while i < a.len()
        invariant
            a@.len() == b@.len(),
            i <= a@.len(),
            forall|j: int| 0 <= j < i ==> a@[j] == b@[j],
        decreases a@.len() - i,
    {
        if a[i] != b[i] {
            return false;
        }
        i += 1;
    }
    assert(a@ =~= b@);
    true
}

/// Finds the first column of the given name.
pub fn position_of_name(columns: &Vec<Column>, name: &[u8]) -> (r: Option<usize>)
    ensures
        match r {
            Some(i) => i < columns@.len() && position_from(names_of(columns@), name@, 0) == Some(
                i as int,
            ),
            None => position_from(names_of(columns@), name@, 0) is None,
        },
{
    let mut i: usize = 0;
    while i < columns.len()
        invariant
            i <= columns@.len(),
            position_from(names_of(columns@), name@, 0) == position_from(
                names_of(columns@),
                name@,
                i as int,
            ),
        decreases columns@.len() - i,
    {
        if same_bytes(columns[i].name_ref(), name) {
            return Some(i);
        }
        i += 1;
    }
    None
}

impl<'a> ColumnIndex for &'a str {
    /// A text stands for the first column whose name is the bytes of the text.
    open spec fn position(&self, names: Seq<Seq<u8>>) -> Option<int> {
        position_from(names, encode_utf8(self@), 0)
    }

    fn idx(&self, columns: &Vec<Column>) -> (r: Option<usize>) {
        position_of_name(columns, self.as_bytes())
    }
}

/// `Arc::clone`: another handle on the same columns.
#[verifier::external_body]
fn share(columns: &Arc<Vec<Column>>) -> (r: Arc<Vec<Column>>)
    ensures
        r == *columns,
{
    Arc::clone(columns)
}

/// The text of one field of a row: the name of the column, then its value,
/// or `"<taken>"` where the value was taken.
pub open spec fn field_text(name: Seq<u8>, slot: Option<ValueView>) -> Seq<char> {
    lossy_text(name) + ": "@ + match slot {
        Some(v) => debug_text(v),
        None => "\"<taken>\""@,
    }
}

/// The text of the first `n` fields of a row, with `, ` between them.
pub open spec fn fields_text(names: Seq<Seq<u8>>, slots: Seq<Option<ValueView>>, n: nat) -> Seq<
    char,
>
    decreases n,
{
    if n == 0 {
        Seq::empty()
    } else if n == 1 {
        field_text(names[0], slots[0])
    } else {
        fields_text(names, slots, (n - 1) as nat) + ", "@ + field_text(names[n - 1], slots[n - 1])
    }
}

/// The text of a row: `Row { name: value, .. }`, and `Row` alone for a row
/// without columns.
pub open spec fn row_text(names: Seq<Seq<u8>>, slots: Seq<Option<ValueView>>) -> Seq<char> {
    if slots.len() == 0 {
        "Row"@
    } else {
        "Row { "@ + fields_text(names, slots, slots.len()) + " }"@
    }
}

/// One row of a result set.
///
/// A value can be moved out of the row, which leaves its slot empty and the
/// row incomplete.
#[derive(PartialEq)]
pub struct Row {
    values: Slots,
    columns: Arc<Vec<Column>>,
}

/// The mathematical content of a [`Row`].
pub struct RowView {
    /// The values by position; `None` where the value was taken.
    pub slots: Seq<Option<ValueView>>,
    /// The names of the columns by position.
    pub names: Seq<Seq<u8>>,
}

impl View for Row {
    type V = RowView;

    closed spec fn view(&self) -> RowView {
        RowView {
            slots: slots_of(self.values).map_values(|slot: Option<Value>| slot_view(slot)),
            names: names_of(self.columns@),
        }
    }
}

/// Makes a row of values and columns. There must be as many values as
/// columns: no row is made of anything else, and a row has as many slots as
/// columns for as long as it lives. The row shares the columns with whoever
/// else holds them.
pub fn new_row(values: Vec<Value>, columns: Arc<Vec<Column>>) -> (r: Row)
    requires
        values@.len() == columns@.len(),
    ensures
        r@.slots == values@.map_values(|v: Value| Some(v@)),
        r@.names == names_of(columns@),
        r.columns_spec() == columns@,
        r@.slots.len() == r@.names.len(),
{
    vstd::pervasive::runtime_assert(values.len() == columns.len());
    let slots = filled_slots(values);
    Row { values: slots, columns }
}

impl Row {
    #[verifier::type_invariant]
    closed spec fn wf(self) -> bool {
        slots_of(self.values).len() == self.columns@.len()
    }

    /// The columns of the row.
    pub closed spec fn columns_spec(&self) -> Seq<Column> {
        self.columns@
    }

    /// The number of values of the row, those that were taken counted too.
    pub fn len(&self) -> (r: usize)
        ensures
            r == self@.slots.len(),
            r == self@.names.len(),
    {
        proof {
            use_type_invariant(self);
        }
        self.values.as_slice().len()
    }

    /// The columns of the row.
    pub fn columns_ref(&self) -> (r: &[Column])
        ensures
            r@ == self.columns_spec(),
            names_of(r@) == self@.names,
    {
        self.columns.as_slice()
    }

    /// The value at `index`, unless there is no such slot or the value was taken.
    pub fn as_ref(&self, index: usize) -> (r: Option<&Value>)
        ensures
            match r {
                Some(v) => slot_at(self@.slots, Some(index as int)) == Some(v@),
                None => slot_at(self@.slots, Some(index as int)) is None,
            },
    {
        if index < self.values.as_slice().len() {
            self.values.as_slice()[index].as_ref()
        } else {
            None
        }
    }

    /// Converts a copy of the value of a column to `T`. The row keeps the
    /// value.
    ///
    /// Returns `None` where `index` stands for no column of the row, where
    /// the value was taken, and where the value does not convert to `T`:
    /// the failure is dropped. `get_opt` is the function that reports it.
    pub fn get<T, I>(&self, index: I) -> (r: Option<T>) where T: FromValue, I: ColumnIndex
        ensures
            match r {
                Some(t) => slot_at(self@.slots, index.position(self@.names)) matches Some(v)
                    && T::Intermediate::yields(v, t),
                None => slot_at(self@.slots, index.position(self@.names)) is None || (slot_at(
                    self@.slots,
                    index.position(self@.names),
                ) matches Some(v) && !T::Intermediate::accepts(v)),
            },
    {
        match self.find(index) {
            Some(v) => match from_value_opt::<T>(v.clone()) {
                Ok(t) => Some(t),
                Err(_) => None,
            },
            None => None,
        }
    }

    /// Tries to convert a copy of the value of a column to `T`. The row
    /// keeps the value.
    ///
    /// Returns `None` where `index` stands for no column of the row or the
    /// value was taken.
    pub fn get_opt<T, I>(&self, index: I) -> (r: Option<Result<T, FromValueError>>) where
        T: FromValue,
        I: ColumnIndex,

        ensures
            match r {
                Some(res) => slot_at(self@.slots, index.position(self@.names)) matches Some(v) && (
                res is Ok <==> T::Intermediate::accepts(v)) && (res matches Ok(t)
                    ==> T::Intermediate::yields(v, t)) && (res matches Err(e) ==> e.0@ == v),
                None => slot_at(self@.slots, index.position(self@.names)) is None,
            },
    {
        match self.find(index) {
            Some(v) => Some(from_value_opt::<T>(v.clone())),
            None => None,
        }
    }

    /// The value of the column that `index` stands for, unless there is no
    /// such column or the value was taken.
    fn find<I>(&self, index: I) -> (r: Option<&Value>) where I: ColumnIndex
        ensures
            match r {
                Some(v) => slot_at(self@.slots, index.position(self@.names)) == Some(v@),
                None => slot_at(self@.slots, index.position(self@.names)) is None,
            },
    {
        match index.idx(&*self.columns) {
            Some(idx) => self.as_ref(idx),
            None => None,
        }
    }
}

impl Clone for Row {
    fn clone(&self) -> (r: Row)
        ensures
            r@ == self@,
            r.columns_spec() == self.columns_spec(),
    {
        proof {
            use_type_invariant(self);
        }
        let values = self.values.duplicate();
        proof {
            let f = |slot: Option<Value>| slot_view(slot);
            assert(slots_of(values).map_values(f).len() == slots_of(self.values).map_values(
                f,
            ).len());
        }
        Row { values, columns: share(&self.columns) }
    }
}

impl Row {
    /// The columns of the row, shared with it.
    pub fn columns(&self) -> (r: Arc<Vec<Column>>)
        ensures
            r@ == self.columns_spec(),
    {
        share(&self.columns)
    }

    /// Moves the value of a column out of the row and converts it to `T`.
    /// The slot of the value stays empty, also where the value does not
    /// convert.
    ///
    /// Returns `None` where `index` stands for no column of the row, where
    /// the value was taken before, and where the value does not convert to
    /// `T`: the failure is dropped, and the value with it. `take_opt` is the
    /// function that reports the failure and hands the value back.
    pub fn take<T, I>(&mut self, index: I) -> (r: Option<T>) where T: FromValue, I: ColumnIndex
        ensures
            final(self)@.names == old(self)@.names,
            final(self).columns_spec() == old(self).columns_spec(),
            final(self)@.slots == slots_without(
                old(self)@.slots,
                index.position(old(self)@.names),
            ),
            match r {
                Some(t) => slot_at(old(self)@.slots, index.position(old(self)@.names)) matches Some(
                    v,
                ) && T::Intermediate::yields(v, t),
                None => slot_at(old(self)@.slots, index.position(old(self)@.names)) is None || (
                slot_at(old(self)@.slots, index.position(old(self)@.names)) matches Some(v)
                    && !T::Intermediate::accepts(v)),
            },
    {
        match self.remove(index) {
            Some(v) => match from_value_opt::<T>(v) {
                Ok(t) => Some(t),
                Err(_) => None,
            },
            None => None,
        }
    }

    /// Moves the value of a column out of the row and tries to convert it
    /// to `T`. The slot of the value stays empty, also where the conversion
    /// fails: the value is then in the error.
    ///
    /// Returns `None` where `index` stands for no column of the row or the
    /// value was taken before.
    pub fn take_opt<T, I>(&mut self, index: I) -> (r: Option<Result<T, FromValueError>>) where
        T: FromValue,
        I: ColumnIndex,

        ensures
            final(self)@.names == old(self)@.names,
            final(self).columns_spec() == old(self).columns_spec(),
            final(self)@.slots == slots_without(
                old(self)@.slots,
                index.position(old(self)@.names),
            ),
            match r {
                Some(res) => slot_at(
                    old(self)@.slots,
                    index.position(old(self)@.names),
                ) matches Some(v) && (res is Ok <==> T::Intermediate::accepts(v)) && (
                res matches Ok(t) ==> T::Intermediate::yields(v, t)) && (res matches Err(e) ==> e.0@
                    == v),
                None => slot_at(old(self)@.slots, index.position(old(self)@.names)) is None,
            },
    {
        match self.remove(index) {
            Some(v) => Some(from_value_opt::<T>(v)),
            None => None,
        }
    }

    /// Moves the value of the column that `index` stands for out of the row.
    fn remove<I>(&mut self, index: I) -> (r: Option<Value>) where I: ColumnIndex
        ensures
            final(self)@.names == old(self)@.names,
            final(self).columns_spec() == old(self).columns_spec(),
            final(self)@.slots == slots_without(
                old(self)@.slots,
                index.position(old(self)@.names),
            ),
            slot_view(r) == slot_at(old(self)@.slots, index.position(old(self)@.names)),
    {
        proof {
            use_type_invariant(&*self);
        }
        match index.idx(&*self.columns) {
            Some(idx) => {
                if idx < self.values.as_slice().len() {
                    self.values.replace(idx, None)
                } else {
                    None
                }
            },
            None => None,
        }
    }

    /// Takes the row apart into its values, in the order of the columns.
    /// No value of the row may have been taken.
    pub fn unwrap(self) -> (r: Vec<Value>)
        requires
            forall|i: int| 0 <= i < self@.slots.len() ==> self@.slots[i] is Some,
        ensures
            r@.len() == self@.slots.len(),
            forall|i: int| 0 <= i < r@.len() ==> self@.slots[i] == Some(#[trigger] r@[i]@),
    {
        let ghost before = slots_of(self.values);
        let slots = self.values.into_vec();
        let mut values: Vec<Value> = Vec::new();
        proof {
            assert forall|i: int| 0 <= i < before.len() implies (#[trigger] before[i]) is Some by {
                assert(self@.slots[i] == slot_view(before[i]));
            }
        }
        for slot in it: slots
            invariant
                it.seq() == before,
                forall|i: int| 0 <= i < before.len() ==> (#[trigger] before[i]) is Some,
                values@.len() == it.index(),
                forall|i: int| 0 <= i < values@.len() ==> before[i] == Some(#[trigger] values@[i]),
        {
            match slot {
                Some(value) => {
                    values.push(value);
                },
                None => {
                    vstd::pervasive::unreached()
                },
            }
        }
        proof {
            assert forall|i: int| 0 <= i < values@.len() implies self@.slots[i] == Some(
                #[trigger] values@[i]@,
            ) by {}
        }
        values
    }

    /// Puts a value in the slot at `index`, which must be a slot of the row.
    pub fn place(&mut self, index: usize, value: Value)
        requires
            index < old(self)@.slots.len(),
        ensures
            final(self)@.names == old(self)@.names,
            final(self).columns_spec() == old(self).columns_spec(),
            final(self)@.slots == old(self)@.slots.update(index as int, Some(value@)),
    {
        proof {
            use_type_invariant(&*self);
        }
        let _ = self.values.replace(index, Some(value));
    }

    /// The row as text, as `Debug` would write it: each column's name with
    /// its value, or with `"<taken>"` where the value was taken.
    pub fn debug_string(&self) -> (r: String)
        ensures
            r@ == row_text(self@.names, self@.slots),
    {
        proof {
            use_type_invariant(self);
        }
        let n: usize = self.values.as_slice().len();
        let mut text = String::new();
        if n == 0 {
            push_str(&mut text, "Row");
            return text;
        }
        push_str(&mut text, "Row { ");
        let mut i: usize = 0;
        while i < n
            invariant
                i <= n,
                n == self@.slots.len(),
                n == self@.names.len(),
                n == self.columns@.len(),
                n == slots_of(self.values).len(),
                self@.names == names_of(self.columns@),
                forall|j: int| 0 <= j < n ==> self@.slots[j] == slot_view(slots_of(self.values)[j]),
                text@ == "Row { "@ + fields_text(self@.names, self@.slots, i as nat),
            decreases n - i,
        {
            if i > 0 {
                push_str(&mut text, ", ");
            }
            let name = self.columns[i].name_str();
            push_str(&mut text, name.as_str());
            push_str(&mut text, ": ");
            match &self.values.as_slice()[i] {
                Some(value) => {
                    let shown = debug_string(value);
                    push_str(&mut text, shown.as_str());
                },
                None => {
                    push_str(&mut text, "\"<taken>\"");
                },
            }
            i += 1;
        }
        push_str(&mut text, " }");
        text
    }
}

impl Index<usize> for Row {
    type Output = Value;

    /// The value at `index`.
    fn index(&self, index: usize) -> (r: &Value)
        ensures
            slot_at(self@.slots, Some(index as int)) == Some(r@),
    {
        match self.as_ref(index) {
            Some(v) => v,
            None => vstd::pervasive::unreached(),
        }
    }
}

impl vstd::std_specs::core::IndexSpecImpl<usize> for Row {
    /// There must be a slot at `index`, and its value must not have been taken.
    open spec fn index_req(&self, index: &usize) -> bool {
        slot_at(self@.slots, Some(*index as int)) is Some
    }
}

impl<'a> Index<&'a str> for Row {
    type Output = Value;

    /// The value of the first column of the name `index`.
    fn index(&self, index: &'a str) -> (r: &Value)
        ensures
            slot_at(self@.slots, index.position(self@.names)) == Some(r@),
    {
        match self.find(index) {
            Some(v) => v,
            None => vstd::pervasive::unreached(),
        }
    }
}

impl<'a> vstd::std_specs::core::IndexSpecImpl<&'a str> for Row {
    /// There must be a column of the name `index`, and the value of the
    /// first such column must not have been taken.
    open spec fn index_req(&self, index: &&'a str) -> bool {
        slot_at(self@.slots, index.position(self@.names)) is Some
    }
}

/// Whether a row can be indexed by a position: there is a slot at the
/// position, and its value was not taken.
pub open spec fn can_index(row: Row, index: usize) -> bool {
    <Row as vstd::std_specs::core::IndexSpec<usize>>::index_req(&row, &index)
}

/// Whether a row can be indexed by a name: a column has the name, and the
/// value of the first such column was not taken.
pub open spec fn can_index_by_name(row: Row, name: &str) -> bool {
    <Row as vstd::std_specs::core::IndexSpec<&str>>::index_req(&row, &name)
}

/// A value that was taken cannot be indexed: once the value at a position
/// was taken, the row cannot be indexed by that position, nor by a name
/// that stands for it.
pub proof fn lemma_taken_cannot_be_indexed(before: Row, after: Row, index: usize)
    requires
        after@.names == before@.names,
        after@.slots == slots_without(before@.slots, Some(index as int)),
    ensures
        !can_index(after, index),
        forall|name: &str| #[trigger]
            name.position(after@.names) == Some(index as int) ==> !can_index_by_name(after, name),
{
}

/// A name that no column has cannot be indexed either.
pub proof fn lemma_unknown_name_cannot_be_indexed(row: Row, name: &str)
    requires
        forall|i: int| 0 <= i < row@.names.len() ==> row@.names[i] != encode_utf8(name@),
    ensures
        !can_index_by_name(row, name),
{
    lemma_position_is_first(row@.names, encode_utf8(name@), 0);
}

} // verus!
