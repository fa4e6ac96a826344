//! Config maps: a map of byte values and a map of text values, each left
//! out of the payload when empty.
use crate::fields::{entry, field_of, get_field, group_record_lookup};
use crate::maps::{
    bytes_map_of, bytes_map_value, bytes_map_view, bytes_map_wire, bytes_read_back, keys_unique,
    lemma_bytes_map_round_trip, lemma_text_map_round_trip, read_bytes_map, read_text_map,
    text_map_of, text_map_value, text_map_view, text_map_wire,
};
use crate::fields::{put, record};
use crate::meta::{
    lemma_meta_round_trip, meta_from_wire, meta_to_wire, KubeObject, ObjectMeta, ObjectMetaView,
};
use crate::wire::{lemma_object_view, DecodeError, Value, WireValue};
use vstd::prelude::*;

verus! {

broadcast use group_record_lookup;

#[derive(Debug, Clone, PartialEq)]
pub struct v1ConfigMap {
    pub metadata: ObjectMeta,
    /// Values as bytes; written as base64 text.
    pub binaryData: Vec<(String, Vec<u8>)>,
    pub data: Vec<(String, String)>,
}

pub struct ConfigMapView {
    pub metadata: ObjectMetaView,
    pub binary_data: Seq<(Seq<char>, Seq<u8>)>,
    pub data: Seq<(Seq<char>, Seq<char>)>,
}

impl View for v1ConfigMap {
    type V = ConfigMapView;

    open spec fn view(&self) -> ConfigMapView {
        ConfigMapView {
            metadata: self.metadata@,
            binary_data: bytes_map_view(self.binaryData),
            data: text_map_view(self.data),
        }
    }
}

impl ConfigMapView {
    pub open spec fn wf(self) -> bool {
        &&& self.metadata.wf()
        &&& keys_unique(self.binary_data)
        &&& keys_unique(self.data)
    }
}

/// The record written for a config map.
pub open spec fn config_map_to_wire(c: ConfigMapView) -> WireValue {
    WireValue::Object(
        entry("metadata"@, Some(meta_to_wire(c.metadata))) + entry(
            "binaryData"@,
            bytes_map_value(c.binary_data),
        ) + entry("data"@, text_map_value(c.data)),
    )
}

/// A config map read from a payload; `None` where it is not a record, lacks
/// the metadata, or has a field of the wrong shape.
pub open spec fn config_map_from_wire(w: WireValue) -> Option<ConfigMapView> {
    match w {
        WireValue::Object(fs) => match (
            field_of(fs, "metadata"@),
            bytes_map_of(field_of(fs, "binaryData"@)),
            text_map_of(field_of(fs, "data"@)),
        ) {
            (Some(m), Some(binary_data), Some(data)) => match meta_from_wire(m) {
                Some(metadata) => Some(ConfigMapView { metadata, binary_data, data }),
                None => None,
            },
            _ => None,
        },
        _ => None,
    }
}

proof fn lemma_config_map_keys()
    ensures
        "metadata"@.len() == 8,
        "binaryData"@.len() == 10,
        "data"@.len() == 4,
{
    reveal_strlit("metadata");
    reveal_strlit("binaryData");
    reveal_strlit("data");
}

/// A config map reads back from the record written for it, where its byte
/// values read back from their text.
pub proof fn lemma_config_map_round_trip(c: ConfigMapView)
    requires
        c.wf(),
        bytes_read_back(c.binary_data),
    ensures
        config_map_from_wire(config_map_to_wire(c)) == Some(c),
{
    lemma_config_map_keys();
    lemma_meta_round_trip(c.metadata);
    lemma_bytes_map_round_trip(c.binary_data);
    lemma_text_map_round_trip(c.data);
}

impl KubeObject for v1ConfigMap {
    open spec fn spec_meta(&self) -> ObjectMeta {
        self.metadata
    }

    fn meta(&self) -> (r: &ObjectMeta) {
        &self.metadata
    }
}

impl v1ConfigMap {
    /// The record written for this config map; the byte values read back
    /// from the text written for them.
    pub fn encode(&self) -> (r: Value)
        ensures
            r@ == config_map_to_wire(self@),
            bytes_read_back(self@.binary_data),
    {
        let mut fs: Vec<(String, Value)> = Vec::new();
        put(&mut fs, "metadata", Some(self.metadata.encode()));
        put(&mut fs, "binaryData", bytes_map_wire(&self.binaryData));
        put(&mut fs, "data", text_map_wire(&self.data));
        record(fs)
    }

    /// Reads a config map from a payload.
    pub fn decode(v: &Value) -> (r: Result<v1ConfigMap, DecodeError>)
        ensures
            r is Ok <==> config_map_from_wire(v@) is Some,
            r matches Ok(x) ==> config_map_from_wire(v@) == Some(x@),
    {
        let fs = match v {
            Value::Object(fs) => fs,
            _ => return Err(DecodeError::SchemaViolation),
        };
        proof {
            lemma_object_view(*fs);
        }
        let m = match get_field(fs, "metadata") {
            Some(m) => m,
            None => return Err(DecodeError::SchemaViolation),
        };
        let binaryData = match read_bytes_map(get_field(fs, "binaryData")) {
            Some(x) => x,
            None => return Err(DecodeError::SchemaViolation),
        };
        let data = match read_text_map(get_field(fs, "data")) {
            Some(x) => x,
            None => return Err(DecodeError::SchemaViolation),
        };
        let metadata = match ObjectMeta::decode(m) {
            Ok(x) => x,
            Err(e) => return Err(e),
        };
        Ok(v1ConfigMap { metadata, binaryData, data })
    }
}

} // verus!
