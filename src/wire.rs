//! A field-keyed wire record, as exchanged with the cluster's API server.
use vstd::prelude::*;

verus! {

broadcast use vstd::std_specs::vec::group_vec_axioms;

/// Why a payload could not be read as a resource.
#[derive(Debug, Clone, Copy, PartialEq, Eq, Structural)]
pub enum DecodeError {
    /// A required field is missing, or a field does not have the shape that
    /// the schema gives it.
    SchemaViolation,
}

/// One value of a wire payload.
#[derive(Debug, PartialEq)]
pub enum Value {
    Null,
    Bool(bool),
    /// A number that is an integer and fits in 64 bits.
    Int(i64),
    /// Any other number, held as its text.
    Number(String),
    Str(String),
    Array(Vec<Value>),
    /// A record: its keys in the order they came.
    Object(Vec<(String, Value)>),
}

/// What a [`Value`] stands for.
pub enum WireValue {
    Null,
    Bool(bool),
    Int(int),
    Number(Seq<char>),
    Str(Seq<char>),
    Array(Seq<WireValue>),
    Object(Seq<(Seq<char>, WireValue)>),
}

impl View for Value {
    type V = WireValue;

    open spec fn view(&self) -> WireValue
        decreases self,
    {
        match self {
            Value::Null => WireValue::Null,
            Value::Bool(b) => WireValue::Bool(*b),
            Value::Int(n) => WireValue::Int(*n as int),
            Value::Number(s) => WireValue::Number(s@),
            Value::Str(s) => WireValue::Str(s@),
            Value::Array(items) => WireValue::Array(
                Seq::new(
                    items.len() as nat,
                    |i: int|
                        if 0 <= i < items.len() {
                            items[i].view()
                        } else {
                            WireValue::Null
                        },
                ),
            ),
            Value::Object(fields) => WireValue::Object(
                Seq::new(
                    fields.len() as nat,
                    |i: int|
                        if 0 <= i < fields.len() {
                            (fields[i].0@, fields[i].1.view())
                        } else {
                            (Seq::empty(), WireValue::Null)
                        },
                ),
            ),
        }
    }
}

/// The entries of a record, as values.
pub open spec fn fields_view(fs: Vec<(String, Value)>) -> Seq<(Seq<char>, WireValue)> {
    Seq::new(
        fs.len() as nat,
        |i: int|
            if 0 <= i < fs.len() {
                (fs[i].0@, fs[i].1@)
            } else {
                (Seq::empty(), WireValue::Null)
            },
    )
}

/// The view of `Value::Object(fs)` is the record of `fields_view(fs)`.
pub proof fn lemma_object_view(fs: Vec<(String, Value)>)
    ensures
        Value::Object(fs)@ == WireValue::Object(fields_view(fs)),
{
    let v = Value::Object(fs)@;
    reveal_with_fuel(<Value as View>::view, 2);
    assert(v->Object_0 =~= fields_view(fs));
}

} // verus!
