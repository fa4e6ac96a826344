//! The presence policy of a record's fields: how a field is read from a
//! record when it may be missing, and when it is written at all.
use crate::wire::{fields_view, lemma_object_view, Value, WireValue};
use vstd::prelude::*;

verus! {

broadcast use vstd::std_specs::vec::group_vec_axioms;

/// The value under key `k`: that of the first entry with this key.
pub open spec fn field_of(fs: Seq<(Seq<char>, WireValue)>, k: Seq<char>) -> Option<WireValue>
    decreases fs.len(),
{
    if fs.len() == 0 {
        None
    } else if fs[0].0 == k {
        Some(fs[0].1)
    } else {
        field_of(fs.drop_first(), k)
    }
}

/// Looking a key up in two records written one after the other.
pub broadcast proof fn lemma_field_of_concat(
    a: Seq<(Seq<char>, WireValue)>,
    b: Seq<(Seq<char>, WireValue)>,
    k: Seq<char>,
)
    ensures
        #[trigger] field_of(a + b, k) == (if field_of(a, k) is Some {
            field_of(a, k)
        } else {
            field_of(b, k)
        }),
    decreases a.len(),
{
    if a.len() == 0 {
        assert(a + b =~= b);
    } else {
        assert((a + b).drop_first() =~= a.drop_first() + b);
        lemma_field_of_concat(a.drop_first(), b, k);
    }
}

/// The entries written for key `k`: one, or none where the value is left out.
pub open spec fn entry(k: Seq<char>, v: Option<WireValue>) -> Seq<(Seq<char>, WireValue)> {
    match v {
        Some(w) => seq![(k, w)],
        None => seq![],
    }
}

pub broadcast proof fn lemma_field_of_entry(k: Seq<char>, v: Option<WireValue>, q: Seq<char>)
    ensures
        #[trigger] field_of(entry(k, v), q) == (if k == q {
            v
        } else {
            None
        }),
{
    reveal_with_fuel(field_of, 2);
}

pub broadcast group group_record_lookup {
    lemma_field_of_concat,
    lemma_field_of_entry,
}

/// A field that is missing, or present as null.
pub open spec fn is_absent(o: Option<WireValue>) -> bool {
    match o {
        None => true,
        Some(WireValue::Null) => true,
        _ => false,
    }
}

/// A text field read with a default: missing gives the empty text; `None`
/// where the field holds something other than text.
pub open spec fn text_or_empty(o: Option<WireValue>) -> Option<Seq<char>> {
    match o {
        Some(WireValue::Str(s)) => Some(s),
        _ => if is_absent(o) {
            Some(Seq::empty())
        } else {
            None
        },
    }
}

/// An optional text field: missing stays missing.
pub open spec fn text_or_none(o: Option<WireValue>) -> Option<Option<Seq<char>>> {
    match o {
        Some(WireValue::Str(s)) => Some(Some(s)),
        _ => if is_absent(o) {
            Some(None)
        } else {
            None
        },
    }
}

/// A 32-bit integer field read with a default of zero.
pub open spec fn int_or_zero(o: Option<WireValue>) -> Option<i32> {
    match o {
        Some(WireValue::Int(n)) => if i32::MIN <= n <= i32::MAX {
            Some(n as i32)
        } else {
            None
        },
        _ => if is_absent(o) {
            Some(0i32)
        } else {
            None
        },
    }
}

/// An optional 32-bit integer field.
pub open spec fn int_or_none(o: Option<WireValue>) -> Option<Option<i32>> {
    match o {
        Some(WireValue::Int(n)) => if i32::MIN <= n <= i32::MAX {
            Some(Some(n as i32))
        } else {
            None
        },
        _ => if is_absent(o) {
            Some(None)
        } else {
            None
        },
    }
}

/// What is written for a text that is always present.
pub open spec fn text_value(s: Seq<char>) -> Option<WireValue> {
    Some(WireValue::Str(s))
}

/// What is written for an optional text: nothing where it is missing.
pub open spec fn opt_text_value(o: Option<Seq<char>>) -> Option<WireValue> {
    match o {
        Some(s) => Some(WireValue::Str(s)),
        None => None,
    }
}

/// What is written for an optional 32-bit integer.
pub open spec fn opt_int_value(o: Option<i32>) -> Option<WireValue> {
    match o {
        Some(n) => Some(WireValue::Int(n as int)),
        None => None,
    }
}

/// The view of a borrowed value that may be missing.
pub open spec fn wire_of(o: Option<&Value>) -> Option<WireValue> {
    match o {
        Some(v) => Some(v@),
        None => None,
    }
}

/// The view of a value that may be missing.
pub open spec fn opt_wire(o: Option<Value>) -> Option<WireValue> {
    match o {
        Some(v) => Some(v@),
        None => None,
    }
}

/// The view of an optional text.
pub open spec fn opt_text(o: Option<String>) -> Option<Seq<char>> {
    match o {
        Some(s) => Some(s@),
        None => None,
    }
}

/// Finds the value under key `k` in the entries of a record.
pub fn get_field<'a>(fs: &'a Vec<(String, Value)>, k: &str) -> (r: Option<&'a Value>)
    ensures
        wire_of(r) == field_of(fields_view(*fs), k@),
{
    let key = k.to_owned();
    let ghost all = fields_view(*fs);
    let mut i: usize = 0;
    assert(all.subrange(0, all.len() as int) =~= all);
    while i < fs.len()
        invariant
            i <= fs.len(),
            all == fields_view(*fs),
            key@ == k@,
            field_of(all, k@) == field_of(all.subrange(i as int, all.len() as int), k@),
        decreases fs.len() - i,
    {
        let ghost rest = all.subrange(i as int, all.len() as int);
        if fs[i].0 == key {
            return Some(&fs[i].1);
        }
        assert(rest.drop_first() =~= all.subrange(i + 1, all.len() as int));
        i = i + 1;
    }
    None
}

/// Reads a text field with a default of the empty text.
pub fn read_text_or_empty(o: Option<&Value>) -> (r: Option<String>)
    ensures
        opt_text(r) == text_or_empty(wire_of(o)),
{
    match o {
        None => Some(String::new()),
        Some(Value::Null) => Some(String::new()),
        Some(Value::Str(s)) => Some(s.clone()),
        Some(_) => None,
    }
}

/// Reads an optional text field.
pub fn read_text_or_none(o: Option<&Value>) -> (r: Option<Option<String>>)
    ensures
        match r {
            Some(t) => text_or_none(wire_of(o)) == Some(opt_text(t)),
            None => text_or_none(wire_of(o)) is None,
        },
{
    match o {
        None => Some(None),
        Some(Value::Null) => Some(None),
        Some(Value::Str(s)) => Some(Some(s.clone())),
        Some(_) => None,
    }
}

/// Reads a 32-bit integer field with a default of zero.
pub fn read_int_or_zero(o: Option<&Value>) -> (r: Option<i32>)
    ensures
        r == int_or_zero(wire_of(o)),
{
    match o {
        None => Some(0),
        Some(Value::Null) => Some(0),
        Some(Value::Int(n)) => if i32::MIN as i64 <= *n && *n <= i32::MAX as i64 {
            Some(*n as i32)
        } else {
            None
        },
        Some(_) => None,
    }
}

/// Reads an optional 32-bit integer field.
pub fn read_int_or_none(o: Option<&Value>) -> (r: Option<Option<i32>>)
    ensures
        r == int_or_none(wire_of(o)),
{
    match o {
        None => Some(None),
        Some(Value::Null) => Some(None),
        Some(Value::Int(n)) => if i32::MIN as i64 <= *n && *n <= i32::MAX as i64 {
            Some(Some(*n as i32))
        } else {
            None
        },
        Some(_) => None,
    }
}

/// Appends the entry for key `k`, or nothing where `v` is missing.
pub fn put(fs: &mut Vec<(String, Value)>, k: &str, v: Option<Value>)
    ensures
        fields_view(*final(fs)) == fields_view(*old(fs)) + entry(k@, opt_wire(v)),
{
    match v {
        Some(w) => {
            fs.push((k.to_owned(), w));
        },
        None => {},
    }
    assert(fields_view(*final(fs)) =~= fields_view(*old(fs)) + entry(k@, opt_wire(v)));
}

/// Text as a wire value.
pub fn text(s: &String) -> (r: Value)
    ensures
        r@ == WireValue::Str(s@),
{
    Value::Str(s.clone())
}

/// An optional text as a wire value, missing where it is missing.
pub fn opt_text_wire(o: &Option<String>) -> (r: Option<Value>)
    ensures
        opt_wire(r) == opt_text_value(opt_text(*o)),
{
    match o {
        Some(s) => Some(Value::Str(s.clone())),
        None => None,
    }
}

/// A record built from its entries.
pub fn record(fs: Vec<(String, Value)>) -> (r: Value)
    ensures
        r@ == WireValue::Object(fields_view(fs)),
{
    proof {
        lemma_object_view(fs);
    }
    Value::Object(fs)
}

} // verus!
