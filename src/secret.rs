//! Secrets: a map of byte values and a map of text values, each left out of
//! the payload when empty, and an optional type tag.
use crate::fields::{
    entry, field_of, get_field, group_record_lookup, opt_text, opt_text_value, opt_text_wire, put,
    read_text_or_none, record, text_or_none,
};
use crate::maps::{
    bytes_map_of, bytes_map_value, bytes_map_view, bytes_map_wire, bytes_read_back, keys_unique,
    lemma_bytes_map_round_trip, lemma_text_map_round_trip, read_bytes_map, read_text_map,
    text_map_of, text_map_value, text_map_view, text_map_wire,
};
use crate::meta::{
    lemma_meta_round_trip, meta_from_wire, meta_to_wire, KubeObject, ObjectMeta, ObjectMetaView,
};
use crate::wire::{lemma_object_view, DecodeError, Value, WireValue};
use vstd::prelude::*;

verus! {

broadcast use group_record_lookup;

#[derive(Debug, Clone, PartialEq)]
pub struct v1Secret {
    /// Values as bytes; written as base64 text.
    pub data: Vec<(String, Vec<u8>)>,
    pub metadata: ObjectMeta,
    /// Values as text, a write-only alias for `data`.
    pub stringData: Vec<(String, String)>,
    /// Written under the key "type".
    pub type_: Option<String>,
}

pub struct SecretView {
    pub data: Seq<(Seq<char>, Seq<u8>)>,
    pub metadata: ObjectMetaView,
    pub string_data: Seq<(Seq<char>, Seq<char>)>,
    pub type_: Option<Seq<char>>,
}

impl View for v1Secret {
    type V = SecretView;

    open spec fn view(&self) -> SecretView {
        SecretView {
            data: bytes_map_view(self.data),
            metadata: self.metadata@,
            string_data: text_map_view(self.stringData),
            type_: opt_text(self.type_),
        }
    }
}

impl SecretView {
    pub open spec fn wf(self) -> bool {
        &&& keys_unique(self.data)
        &&& self.metadata.wf()
        &&& keys_unique(self.string_data)
    }
}

/// The record written for a secret.
pub open spec fn secret_to_wire(s: SecretView) -> WireValue {
    WireValue::Object(
        entry("data"@, bytes_map_value(s.data)) + entry("metadata"@, Some(meta_to_wire(s.metadata)))
            + entry("stringData"@, text_map_value(s.string_data)) + entry(
            "type"@,
            opt_text_value(s.type_),
        ),
    )
}

/// A secret read from a payload; `None` where it is not a record, lacks the
/// metadata, or has a field of the wrong shape.
pub open spec fn secret_from_wire(w: WireValue) -> Option<SecretView> {
    match w {
        WireValue::Object(fs) => match (
            bytes_map_of(field_of(fs, "data"@)),
            field_of(fs, "metadata"@),
            text_map_of(field_of(fs, "stringData"@)),
            text_or_none(field_of(fs, "type"@)),
        ) {
            (Some(data), Some(m), Some(string_data), Some(type_)) => match meta_from_wire(m) {
                Some(metadata) => Some(SecretView { data, metadata, string_data, type_ }),
                None => None,
            },
            _ => None,
        },
        _ => None,
    }
}

proof fn lemma_secret_keys()
    ensures
        "data"@.len() == 4,
        "metadata"@.len() == 8,
        "stringData"@.len() == 10,
        "type"@.len() == 4,
        "data"@[0] == 'd',
        "type"@[0] == 't',
{
    reveal_strlit("data");
    reveal_strlit("metadata");
    reveal_strlit("stringData");
    reveal_strlit("type");
}

/// A secret reads back from the record written for it, where its byte
/// values read back from their text.
pub proof fn lemma_secret_round_trip(s: SecretView)
    requires
        s.wf(),
        bytes_read_back(s.data),
    ensures
        secret_from_wire(secret_to_wire(s)) == Some(s),
{
    lemma_secret_keys();
    lemma_meta_round_trip(s.metadata);
    lemma_bytes_map_round_trip(s.data);
    lemma_text_map_round_trip(s.string_data);
}

impl KubeObject for v1Secret {
    open spec fn spec_meta(&self) -> ObjectMeta {
        self.metadata
    }

    fn meta(&self) -> (r: &ObjectMeta) {
        &self.metadata
    }
}

impl v1Secret {
    /// The record written for this secret; the byte values read back from
    /// the text written for them.
    pub fn encode(&self) -> (r: Value)
        ensures
            r@ == secret_to_wire(self@),
            bytes_read_back(self@.data),
    {
        let mut fs: Vec<(String, Value)> = Vec::new();
        put(&mut fs, "data", bytes_map_wire(&self.data));
        put(&mut fs, "metadata", Some(self.metadata.encode()));
        put(&mut fs, "stringData", text_map_wire(&self.stringData));
        put(&mut fs, "type", opt_text_wire(&self.type_));
        record(fs)
    }

    /// Reads a secret from a payload.
    pub fn decode(v: &Value) -> (r: Result<v1Secret, DecodeError>)
        ensures
            r is Ok <==> secret_from_wire(v@) is Some,
            r matches Ok(x) ==> secret_from_wire(v@) == Some(x@),
    {
        let fs = match v {
            Value::Object(fs) => fs,
            _ => return Err(DecodeError::SchemaViolation),
        };
        proof {
            lemma_object_view(*fs);
        }
        let data = match read_bytes_map(get_field(fs, "data")) {
            Some(x) => x,
            None => return Err(DecodeError::SchemaViolation),
        };
        let m = match get_field(fs, "metadata") {
            Some(m) => m,
            None => return Err(DecodeError::SchemaViolation),
        };
        let stringData = match read_text_map(get_field(fs, "stringData")) {
            Some(x) => x,
            None => return Err(DecodeError::SchemaViolation),
        };
        let type_ = match read_text_or_none(get_field(fs, "type")) {
            Some(x) => x,
            None => return Err(DecodeError::SchemaViolation),
        };
        let metadata = match ObjectMeta::decode(m) {
            Ok(x) => x,
            Err(e) => return Err(e),
        };
        Ok(v1Secret { data, metadata, stringData, type_ })
    }
}

} // verus!
