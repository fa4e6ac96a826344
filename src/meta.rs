//! Object metadata, shared by every resource kind, references to other
//! objects, and the capability that exposes metadata to generic code.
use crate::fields::{
    entry, field_of, get_field, group_record_lookup, opt_text, opt_text_value, opt_text_wire, put,
    read_text_or_empty, read_text_or_none, record, text, text_or_empty,
    text_or_none, text_value,
};
use crate::maps::{
    keys_unique, lemma_text_map_round_trip, read_text_map, text_map_of, text_map_value,
    text_map_view, text_map_wire,
};
use crate::wire::{fields_view, lemma_object_view, DecodeError, Value, WireValue};
use vstd::prelude::*;

verus! {

broadcast use group_record_lookup;

/// What generic code (caches, watchers, indexers) needs of any resource
/// kind: its metadata.
pub trait KubeObject {
    /// The metadata embedded in the instance.
    spec fn spec_meta(&self) -> ObjectMeta;

    fn meta(&self) -> (r: &ObjectMeta)
        ensures
            *r == self.spec_meta(),
    ;
}

/// The identity and version of a resource instance.
#[derive(Debug, Clone, PartialEq)]
pub struct ObjectMeta {
    pub name: String,
    pub namespace: Option<String>,
    pub uid: Option<String>,
    pub resourceVersion: Option<String>,
    pub labels: Vec<(String, String)>,
    pub annotations: Vec<(String, String)>,
}

pub struct ObjectMetaView {
    pub name: Seq<char>,
    pub namespace: Option<Seq<char>>,
    pub uid: Option<Seq<char>>,
    pub resource_version: Option<Seq<char>>,
    pub labels: Seq<(Seq<char>, Seq<char>)>,
    pub annotations: Seq<(Seq<char>, Seq<char>)>,
}

impl View for ObjectMeta {
    type V = ObjectMetaView;

    open spec fn view(&self) -> ObjectMetaView {
        ObjectMetaView {
            name: self.name@,
            namespace: opt_text(self.namespace),
            uid: opt_text(self.uid),
            resource_version: opt_text(self.resourceVersion),
            labels: text_map_view(self.labels),
            annotations: text_map_view(self.annotations),
        }
    }
}

impl ObjectMetaView {
    /// Labels and annotations are maps: no key twice.
    pub open spec fn wf(self) -> bool {
        keys_unique(self.labels) && keys_unique(self.annotations)
    }
}

/// The record written for metadata.
pub open spec fn meta_to_wire(m: ObjectMetaView) -> WireValue {
    WireValue::Object(
        entry("name"@, text_value(m.name)) + entry("namespace"@, opt_text_value(m.namespace))
            + entry("uid"@, opt_text_value(m.uid)) + entry(
            "resourceVersion"@,
            opt_text_value(m.resource_version),
        ) + entry("labels"@, text_map_value(m.labels)) + entry(
            "annotations"@,
            text_map_value(m.annotations),
        ),
    )
}

/// Metadata read from a record; `None` where it is not a record or a field
/// of it is malformed. Every field of it may be missing.
pub open spec fn meta_from_wire(w: WireValue) -> Option<ObjectMetaView> {
    match w {
        WireValue::Object(fs) => match (
            text_or_empty(field_of(fs, "name"@)),
            text_or_none(field_of(fs, "namespace"@)),
            text_or_none(field_of(fs, "uid"@)),
            text_or_none(field_of(fs, "resourceVersion"@)),
            text_map_of(field_of(fs, "labels"@)),
            text_map_of(field_of(fs, "annotations"@)),
        ) {
            (Some(name), Some(namespace), Some(uid), Some(rv), Some(labels), Some(annotations)) => {
                Some(
                    ObjectMetaView {
                        name,
                        namespace,
                        uid,
                        resource_version: rv,
                        labels,
                        annotations,
                    },
                )
            },
            _ => None,
        },
        _ => None,
    }
}

/// The keys of a metadata record are distinct.
proof fn lemma_meta_keys()
    ensures
        "name"@ != "namespace"@,
        "name"@ != "uid"@,
        "name"@ != "resourceVersion"@,
        "name"@ != "labels"@,
        "name"@ != "annotations"@,
        "namespace"@ != "uid"@,
        "namespace"@ != "resourceVersion"@,
        "namespace"@ != "labels"@,
        "namespace"@ != "annotations"@,
        "uid"@ != "resourceVersion"@,
        "uid"@ != "labels"@,
        "uid"@ != "annotations"@,
        "resourceVersion"@ != "labels"@,
        "resourceVersion"@ != "annotations"@,
        "labels"@ != "annotations"@,
{
    reveal_strlit("name");
    reveal_strlit("namespace");
    reveal_strlit("uid");
    reveal_strlit("resourceVersion");
    reveal_strlit("labels");
    reveal_strlit("annotations");
    assert("name"@.len() == 4);
    assert("namespace"@.len() == 9);
    assert("uid"@.len() == 3);
    assert("resourceVersion"@.len() == 15);
    assert("labels"@.len() == 6);
    assert("annotations"@.len() == 11);
}

/// Metadata reads back from the record written for it.
pub proof fn lemma_meta_round_trip(m: ObjectMetaView)
    requires
        m.wf(),
    ensures
        meta_from_wire(meta_to_wire(m)) == Some(m),
{
    lemma_meta_keys();
    lemma_text_map_round_trip(m.labels);
    lemma_text_map_round_trip(m.annotations);
}

impl ObjectMeta {
    /// The record written for this metadata.
    pub fn encode(&self) -> (r: Value)
        ensures
            r@ == meta_to_wire(self@),
    {
        let mut fs: Vec<(String, Value)> = Vec::new();
        put(&mut fs, "name", Some(text(&self.name)));
        put(&mut fs, "namespace", opt_text_wire(&self.namespace));
        put(&mut fs, "uid", opt_text_wire(&self.uid));
        put(&mut fs, "resourceVersion", opt_text_wire(&self.resourceVersion));
        put(&mut fs, "labels", text_map_wire(&self.labels));
        put(&mut fs, "annotations", text_map_wire(&self.annotations));
        record(fs)
    }

    /// Reads metadata from a record.
    pub fn decode(v: &Value) -> (r: Result<ObjectMeta, DecodeError>)
        ensures
            r is Ok <==> meta_from_wire(v@) is Some,
            r matches Ok(m) ==> meta_from_wire(v@) == Some(m@),
    {
        match v {
            Value::Object(fs) => {
                proof {
                    lemma_object_view(*fs);
                }
                let name = match read_text_or_empty(get_field(fs, "name")) {
                    Some(x) => x,
                    None => return Err(DecodeError::SchemaViolation),
                };
                let namespace = match read_text_or_none(get_field(fs, "namespace")) {
                    Some(x) => x,
                    None => return Err(DecodeError::SchemaViolation),
                };
                let uid = match read_text_or_none(get_field(fs, "uid")) {
                    Some(x) => x,
                    None => return Err(DecodeError::SchemaViolation),
                };
                let resourceVersion = match read_text_or_none(get_field(fs, "resourceVersion")) {
                    Some(x) => x,
                    None => return Err(DecodeError::SchemaViolation),
                };
                let labels = match read_text_map(get_field(fs, "labels")) {
                    Some(x) => x,
                    None => return Err(DecodeError::SchemaViolation),
                };
                let annotations = match read_text_map(get_field(fs, "annotations")) {
                    Some(x) => x,
                    None => return Err(DecodeError::SchemaViolation),
                };
                Ok(ObjectMeta { name, namespace, uid, resourceVersion, labels, annotations })
            },
            _ => Err(DecodeError::SchemaViolation),
        }
    }
}

} // verus!
