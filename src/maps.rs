//! Maps from text keys, held as their entries in order, and written as
//! records that are left out entirely when the map is empty.
use crate::bytes::{base64_decoded, base64_of, decode_bytes, encode_bytes};
use crate::fields::{is_absent, wire_of};
use crate::wire::{fields_view, lemma_object_view, Value, WireValue};
use vstd::prelude::*;

verus! {

broadcast use vstd::std_specs::vec::group_vec_axioms;

/// No key occurs twice.
pub open spec fn keys_unique<V>(m: Seq<(Seq<char>, V)>) -> bool {
    forall|i: int, j: int| 0 <= i < j < m.len() ==> m[i].0 != m[j].0
}

/// The entries of a map from text to text.
pub open spec fn text_map_view(m: Vec<(String, String)>) -> Seq<(Seq<char>, Seq<char>)> {
    Seq::new(m.len() as nat, |i: int| (m[i].0@, m[i].1@))
}

/// The entries of a map from text to bytes.
pub open spec fn bytes_map_view(m: Vec<(String, Vec<u8>)>) -> Seq<(Seq<char>, Seq<u8>)> {
    Seq::new(m.len() as nat, |i: int| (m[i].0@, m[i].1@))
}

/// What is written for a map from text to text: nothing where it is empty.
pub open spec fn text_map_value(m: Seq<(Seq<char>, Seq<char>)>) -> Option<WireValue> {
    if m.len() == 0 {
        None
    } else {
        Some(WireValue::Object(Seq::new(m.len(), |i: int| (m[i].0, WireValue::Str(m[i].1)))))
    }
}

/// What is written for a map from text to bytes: nothing where it is empty.
pub open spec fn bytes_map_value(m: Seq<(Seq<char>, Seq<u8>)>) -> Option<WireValue> {
    if m.len() == 0 {
        None
    } else {
        Some(
            WireValue::Object(
                Seq::new(m.len(), |i: int| (m[i].0, WireValue::Str(base64_of(m[i].1)))),
            ),
        )
    }
}

/// A map from text to text read from a field: missing gives the empty map;
/// `None` where the field is not a record of texts with distinct keys.
pub open spec fn text_map_of(o: Option<WireValue>) -> Option<Seq<(Seq<char>, Seq<char>)>> {
    match o {
        Some(WireValue::Object(fs)) => if keys_unique(fs) && forall|i: int|
            0 <= i < fs.len() ==> (#[trigger] fs[i]).1 is Str {
            Some(Seq::new(fs.len(), |i: int| (fs[i].0, fs[i].1->Str_0)))
        } else {
            None
        },
        _ => if is_absent(o) {
            Some(Seq::empty())
        } else {
            None
        },
    }
}

/// A map from text to bytes read from a field: as for text, and each value
/// must be base64 text.
pub open spec fn bytes_map_of(o: Option<WireValue>) -> Option<Seq<(Seq<char>, Seq<u8>)>> {
    match o {
        Some(WireValue::Object(fs)) => if keys_unique(fs) && forall|i: int|
            0 <= i < fs.len() ==> (#[trigger] fs[i]).1 is Str && base64_decoded(fs[i].1->Str_0)
                is Some {
            Some(Seq::new(fs.len(), |i: int| (fs[i].0, base64_decoded(fs[i].1->Str_0)->Some_0)))
        } else {
            None
        },
        _ => if is_absent(o) {
            Some(Seq::empty())
        } else {
            None
        },
    }
}

/// Each value of the map reads back from the text written for it.
pub open spec fn bytes_read_back(m: Seq<(Seq<char>, Seq<u8>)>) -> bool {
    forall|i: int| 0 <= i < m.len() ==> base64_decoded(base64_of(#[trigger] m[i].1)) == Some(m[i].1)
}

/// Whether the entries of a record have distinct keys.
pub fn has_unique_keys(fs: &Vec<(String, Value)>) -> (r: bool)
    ensures
        r == keys_unique(fields_view(*fs)),
{
    let ghost all = fields_view(*fs);
    let mut j: usize = 0;
    while j < fs.len()
        invariant
            j <= fs.len(),
            all == fields_view(*fs),
            forall|a: int, b: int| 0 <= a < b < j ==> all[a].0 != all[b].0,
        decreases fs.len() - j,
    {
        let mut i: usize = 0;
        while i < j
            invariant
                i <= j < fs.len(),
                all == fields_view(*fs),
                forall|a: int, b: int| 0 <= a < b < j ==> all[a].0 != all[b].0,
                forall|a: int| 0 <= a < i ==> all[a].0 != all[j as int].0,
            decreases j - i,
        {
            if fs[i].0 == fs[j].0 {
                assert(all[i as int].0 == all[j as int].0);
                return false;
            }
            i = i + 1;
        }
        j = j + 1;
    }
    true
}

/// Reads a map from text to text.
pub fn read_text_map(o: Option<&Value>) -> (r: Option<Vec<(String, String)>>)
    ensures
        r is Some <==> text_map_of(wire_of(o)) is Some,
        r matches Some(m) ==> text_map_of(wire_of(o)) == Some(text_map_view(m)),
{
    match o {
        None => Some(Vec::new()),
        Some(Value::Null) => Some(Vec::new()),
        Some(Value::Object(fs)) => {
            proof {
                lemma_object_view(*fs);
            }
            let ghost all = fields_view(*fs);
            assert(wire_of(o) == Some(WireValue::Object(all)));
            if !has_unique_keys(fs) {
                return None;
            }
            let mut out: Vec<(String, String)> = Vec::new();
            let mut i: usize = 0;
            while i < fs.len()
                invariant
                    i <= fs.len(),
                    all == fields_view(*fs),
                    wire_of(o) == Some(WireValue::Object(all)),
                    keys_unique(all),
                    out.len() == i,
                    forall|a: int| 0 <= a < i ==> (#[trigger] all[a]).1 is Str,
                    forall|a: int|
                        0 <= a < i ==> (#[trigger] out[a]).0@ == all[a].0 && out[a].1@
                            == all[a].1->Str_0,
                decreases fs.len() - i,
            {
                match &fs[i].1 {
                    Value::Str(s) => {
                        out.push((fs[i].0.clone(), s.clone()));
                    },
                    _ => {
                        proof {
                            reveal_with_fuel(<Value as View>::view, 1);
                        }
                        assert(!(all[i as int].1 is Str));
                        return None;
                    },
                }
                i = i + 1;
            }
            assert(text_map_view(out) =~= Seq::new(
                all.len(),
                |a: int| (all[a].0, all[a].1->Str_0),
            ));
            Some(out)
        },
        Some(_) => None,
    }
}

/// Reads a map from text to bytes.
pub fn read_bytes_map(o: Option<&Value>) -> (r: Option<Vec<(String, Vec<u8>)>>)
    ensures
        r is Some <==> bytes_map_of(wire_of(o)) is Some,
        r matches Some(m) ==> bytes_map_of(wire_of(o)) == Some(bytes_map_view(m)),
{
    match o {
        None => Some(Vec::new()),
        Some(Value::Null) => Some(Vec::new()),
        Some(Value::Object(fs)) => {
            proof {
                lemma_object_view(*fs);
            }
            let ghost all = fields_view(*fs);
            assert(wire_of(o) == Some(WireValue::Object(all)));
            if !has_unique_keys(fs) {
                return None;
            }
            let mut out: Vec<(String, Vec<u8>)> = Vec::new();
            let mut i: usize = 0;
            while i < fs.len()
                invariant
                    i <= fs.len(),
                    all == fields_view(*fs),
                    wire_of(o) == Some(WireValue::Object(all)),
                    keys_unique(all),
                    out.len() == i,
                    forall|a: int|
                        0 <= a < i ==> (#[trigger] all[a]).1 is Str && base64_decoded(
                            all[a].1->Str_0,
                        ) is Some,
                    forall|a: int|
                        0 <= a < i ==> (#[trigger] out[a]).0@ == all[a].0 && Some(out[a].1@)
                            == base64_decoded(all[a].1->Str_0),
                decreases fs.len() - i,
            {
                match &fs[i].1 {
                    Value::Str(s) => match decode_bytes(s) {
                        Some(b) => {
                            out.push((fs[i].0.clone(), b));
                        },
                        None => {
                            assert(base64_decoded(all[i as int].1->Str_0) is None);
                            return None;
                        },
                    },
                    _ => {
                        proof {
                            reveal_with_fuel(<Value as View>::view, 1);
                        }
                        assert(!(all[i as int].1 is Str));
                        return None;
                    },
                }
                i = i + 1;
            }
            assert(bytes_map_view(out) =~= Seq::new(
                all.len(),
                |a: int| (all[a].0, base64_decoded(all[a].1->Str_0)->Some_0),
            ));
            Some(out)
        },
        Some(_) => None,
    }
}

/// Writes a map from text to text; `None` where it is empty.
pub fn text_map_wire(m: &Vec<(String, String)>) -> (r: Option<Value>)
    ensures
        match r {
            Some(v) => text_map_value(text_map_view(*m)) == Some(v@),
            None => text_map_value(text_map_view(*m)) is None,
        },
{
    if m.len() == 0 {
        return None;
    }
    let mut fs: Vec<(String, Value)> = Vec::new();
    let mut i: usize = 0;
    while i < m.len()
        invariant
            i <= m.len(),
            fs.len() == i,
            forall|a: int|
                0 <= a < i ==> (#[trigger] fs[a]).0@ == m[a].0@ && fs[a].1@ == WireValue::Str(
                    m[a].1@,
                ),
        decreases m.len() - i,
    {
        fs.push((m[i].0.clone(), Value::Str(m[i].1.clone())));
        i = i + 1;
    }
    let ghost mv = text_map_view(*m);
    assert(fields_view(fs) =~= Seq::new(mv.len(), |a: int| (mv[a].0, WireValue::Str(mv[a].1))));
    proof {
        lemma_object_view(fs);
    }
    Some(Value::Object(fs))
}

/// Writes a map from text to bytes; `None` where it is empty. Each value
/// written reads back to the bytes it came from.
pub fn bytes_map_wire(m: &Vec<(String, Vec<u8>)>) -> (r: Option<Value>)
    ensures
        match r {
            Some(v) => bytes_map_value(bytes_map_view(*m)) == Some(v@),
            None => bytes_map_value(bytes_map_view(*m)) is None,
        },
        bytes_read_back(bytes_map_view(*m)),
{
    let ghost mv = bytes_map_view(*m);
    if m.len() == 0 {
        return None;
    }
    let mut fs: Vec<(String, Value)> = Vec::new();
    let mut i: usize = 0;
    while i < m.len()
        invariant
            i <= m.len(),
            fs.len() == i,
            mv == bytes_map_view(*m),
            forall|a: int|
                0 <= a < i ==> (#[trigger] fs[a]).0@ == m[a].0@ && fs[a].1@ == WireValue::Str(
                    base64_of(m[a].1@),
                ),
            forall|a: int|
                0 <= a < i ==> base64_decoded(base64_of(#[trigger] mv[a].1)) == Some(mv[a].1),
        decreases m.len() - i,
    {
        let s = encode_bytes(&m[i].1);
        fs.push((m[i].0.clone(), Value::Str(s)));
        i = i + 1;
    }
    assert(fields_view(fs) =~= Seq::new(
        mv.len(),
        |a: int| (mv[a].0, WireValue::Str(base64_of(mv[a].1))),
    ));
    proof {
        lemma_object_view(fs);
    }
    Some(Value::Object(fs))
}

/// A map from text to text reads back from what is written for it.
pub proof fn lemma_text_map_round_trip(m: Seq<(Seq<char>, Seq<char>)>)
    requires
        keys_unique(m),
    ensures
        text_map_of(text_map_value(m)) == Some(m),
{
    if m.len() > 0 {
        let fs = Seq::new(m.len(), |i: int| (m[i].0, WireValue::Str(m[i].1)));
        assert(keys_unique(fs));
        assert(Seq::new(fs.len(), |i: int| (fs[i].0, fs[i].1->Str_0)) =~= m);
    } else {
        assert(m =~= Seq::empty());
    }
}

/// A map from text to bytes reads back from what is written for it.
pub proof fn lemma_bytes_map_round_trip(m: Seq<(Seq<char>, Seq<u8>)>)
    requires
        keys_unique(m),
        bytes_read_back(m),
    ensures
        bytes_map_of(bytes_map_value(m)) == Some(m),
{
    if m.len() > 0 {
        let fs = Seq::new(m.len(), |i: int| (m[i].0, WireValue::Str(base64_of(m[i].1))));
        assert(keys_unique(fs));
        assert(forall|i: int|
            0 <= i < fs.len() ==> (#[trigger] fs[i]).1 is Str && base64_decoded(fs[i].1->Str_0)
                is Some);
        assert(Seq::new(fs.len(), |i: int| (fs[i].0, base64_decoded(fs[i].1->Str_0)->Some_0))
            =~= m);
    } else {
        assert(m =~= Seq::empty());
    }
}

} // verus!
