//! What holds of the presence policy across all payloads and instances.
use crate::config_map::{config_map_from_wire, config_map_to_wire, v1ConfigMap, ConfigMapView};
use crate::event::{event_from_wire, event_to_wire, lemma_event_keys, v1Event, EventView};
use crate::fields::{entry, field_of, group_record_lookup};
use crate::bytes::base64_decoded;
use crate::maps::{bytes_map_of, text_map_of};
use crate::meta::KubeObject;
use crate::secret::{secret_from_wire, secret_to_wire, v1Secret, SecretView};
use crate::wire::WireValue;
use vstd::prelude::*;

verus! {

broadcast use group_record_lookup;

/// The empty record.
pub open spec fn empty_record() -> WireValue {
    WireValue::Object(Seq::empty())
}

/// An empty record reads as an empty map.
proof fn lemma_empty_record_maps()
    ensures
        bytes_map_of(Some(empty_record())) == Some(Seq::<(Seq<char>, Seq<u8>)>::empty()),
        text_map_of(Some(empty_record())) == Some(Seq::<(Seq<char>, Seq<char>)>::empty()),
{
    let fs = Seq::<(Seq<char>, WireValue)>::empty();
    assert(Seq::new(fs.len(), |i: int| (fs[i].0, base64_decoded(fs[i].1->Str_0)->Some_0))
        =~= Seq::<(Seq<char>, Seq<u8>)>::empty());
    assert(Seq::new(fs.len(), |i: int| (fs[i].0, fs[i].1->Str_0)) =~= Seq::<
        (Seq<char>, Seq<char>),
    >::empty());
}

/// A secret's empty maps are left out of its record, and a payload that
/// lacks a map's key is read exactly as one that holds an empty record
/// there: the map comes out empty, and the missing key is never what makes
/// decoding fail.
pub proof fn lemma_secret_omits_empty_maps(s: SecretView, fs: Seq<(Seq<char>, WireValue)>)
    ensures
        s.data.len() == 0 ==> field_of(secret_to_wire(s)->Object_0, "data"@) is None,
        s.string_data.len() == 0 ==> field_of(secret_to_wire(s)->Object_0, "stringData"@) is None,
        field_of(fs, "data"@) is None ==> secret_from_wire(WireValue::Object(fs)) == secret_from_wire(
            WireValue::Object(fs + entry("data"@, Some(empty_record()))),
        ),
        field_of(fs, "data"@) is None ==> (secret_from_wire(WireValue::Object(fs)) matches Some(d)
            ==> d.data.len() == 0),
        field_of(fs, "stringData"@) is None ==> secret_from_wire(WireValue::Object(fs))
            == secret_from_wire(WireValue::Object(fs + entry("stringData"@, Some(empty_record())))),
        field_of(fs, "stringData"@) is None ==> (secret_from_wire(WireValue::Object(fs)) matches Some(
            d,
        ) ==> d.string_data.len() == 0),
{
    lemma_empty_record_maps();
    reveal_strlit("data");
    reveal_strlit("metadata");
    reveal_strlit("stringData");
    reveal_strlit("type");
    assert("data"@.len() == 4 && "type"@.len() == 4 && "data"@[0] != "type"@[0]);
    assert("metadata"@.len() == 8 && "stringData"@.len() == 10);
}

/// A config map's empty maps are left out of its record, and a payload that
/// lacks a map's key is read exactly as one that holds an empty record there.
pub proof fn lemma_config_map_omits_empty_maps(c: ConfigMapView, fs: Seq<(Seq<char>, WireValue)>)
    ensures
        c.binary_data.len() == 0 ==> field_of(config_map_to_wire(c)->Object_0, "binaryData"@) is None,
        c.data.len() == 0 ==> field_of(config_map_to_wire(c)->Object_0, "data"@) is None,
        field_of(fs, "binaryData"@) is None ==> config_map_from_wire(WireValue::Object(fs))
            == config_map_from_wire(WireValue::Object(fs + entry("binaryData"@, Some(empty_record())))),
        field_of(fs, "binaryData"@) is None ==> (config_map_from_wire(WireValue::Object(fs)) matches Some(
            d,
        ) ==> d.binary_data.len() == 0),
        field_of(fs, "data"@) is None ==> config_map_from_wire(WireValue::Object(fs))
            == config_map_from_wire(WireValue::Object(fs + entry("data"@, Some(empty_record())))),
        field_of(fs, "data"@) is None ==> (config_map_from_wire(WireValue::Object(fs)) matches Some(d)
            ==> d.data.len() == 0),
{
    lemma_empty_record_maps();
    reveal_strlit("data");
    reveal_strlit("metadata");
    reveal_strlit("binaryData");
    assert("data"@.len() == 4 && "metadata"@.len() == 8 && "binaryData"@.len() == 10);
}

/// An event payload that lacks one of the defaulted fields is read exactly
/// as one that holds its zero value there: empty text, or a count of zero.
pub proof fn lemma_event_defaults(fs: Seq<(Seq<char>, WireValue)>)
    ensures
        field_of(fs, "reportingComponent"@) is None ==> event_from_wire(WireValue::Object(fs))
            == event_from_wire(
            WireValue::Object(fs + entry("reportingComponent"@, Some(WireValue::Str(Seq::empty())))),
        ),
        field_of(fs, "reportingInstance"@) is None ==> event_from_wire(WireValue::Object(fs))
            == event_from_wire(
            WireValue::Object(fs + entry("reportingInstance"@, Some(WireValue::Str(Seq::empty())))),
        ),
        field_of(fs, "message"@) is None ==> event_from_wire(WireValue::Object(fs)) == event_from_wire(
            WireValue::Object(fs + entry("message"@, Some(WireValue::Str(Seq::empty())))),
        ),
        field_of(fs, "reason"@) is None ==> event_from_wire(WireValue::Object(fs)) == event_from_wire(
            WireValue::Object(fs + entry("reason"@, Some(WireValue::Str(Seq::empty())))),
        ),
        field_of(fs, "count"@) is None ==> event_from_wire(WireValue::Object(fs)) == event_from_wire(
            WireValue::Object(fs + entry("count"@, Some(WireValue::Int(0))))),
        field_of(fs, "type"@) is None ==> event_from_wire(WireValue::Object(fs)) == event_from_wire(
            WireValue::Object(fs + entry("type"@, Some(WireValue::Str(Seq::empty())))),
        ),
{
    lemma_event_keys();
}

/// An event payload without its metadata, or without the reference to the
/// object it is about, is refused.
pub proof fn lemma_event_required(fs: Seq<(Seq<char>, WireValue)>)
    ensures
        field_of(fs, "metadata"@) is None ==> event_from_wire(WireValue::Object(fs)) is None,
        field_of(fs, "involvedObject"@) is None ==> event_from_wire(WireValue::Object(fs)) is None,
{
}

/// The type tag is written under the key "type", never under its Rust
/// spelling "type_".
pub proof fn lemma_type_key(e: EventView, s: SecretView, c: ConfigMapView)
    ensures
        field_of(event_to_wire(e)->Object_0, "type"@) == Some(WireValue::Str(e.type_)),
        field_of(event_to_wire(e)->Object_0, "type_"@) is None,
        s.type_ is Some ==> field_of(secret_to_wire(s)->Object_0, "type"@) == Some(
            WireValue::Str(s.type_->Some_0),
        ),
        field_of(secret_to_wire(s)->Object_0, "type_"@) is None,
        field_of(config_map_to_wire(c)->Object_0, "type_"@) is None,
{
    lemma_event_keys();
    reveal_strlit("data");
    reveal_strlit("stringData");
    reveal_strlit("binaryData");
    reveal_strlit("type");
    assert("data"@.len() == 4 && "stringData"@.len() == 10 && "binaryData"@.len() == 10);
    assert("data"@[0] == 'd' && "type"@[0] == 't');
}

/// Each kind's metadata accessor gives the embedded metadata, whatever its
/// other fields hold.
pub proof fn lemma_meta_is_embedded(e: v1Event, s: v1Secret, c: v1ConfigMap)
    ensures
        e.spec_meta() == e.metadata,
        s.spec_meta() == s.metadata,
        c.spec_meta() == c.metadata,
{
}

} // verus!
