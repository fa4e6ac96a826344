//! Records that an event carries about other objects: a reference to an
//! object, the source that reported the event, and a series summary.
use crate::fields::{
    entry, field_of, get_field, group_record_lookup, int_or_none, opt_int_value, opt_text,
    opt_text_value, opt_text_wire, put, read_int_or_none, read_text_or_none, record, text_or_none,
};
use crate::wire::{lemma_object_view, DecodeError, Value, WireValue};
use vstd::prelude::*;

verus! {

broadcast use group_record_lookup;

/// A reference to another object; every field may be missing.
#[derive(Debug, Clone, PartialEq)]
pub struct ObjectReference {
    pub api_version: Option<String>,
    pub field_path: Option<String>,
    pub kind: Option<String>,
    pub name: Option<String>,
    pub namespace: Option<String>,
    pub resource_version: Option<String>,
    pub uid: Option<String>,
}

pub struct ObjectReferenceView {
    pub api_version: Option<Seq<char>>,
    pub field_path: Option<Seq<char>>,
    pub kind: Option<Seq<char>>,
    pub name: Option<Seq<char>>,
    pub namespace: Option<Seq<char>>,
    pub resource_version: Option<Seq<char>>,
    pub uid: Option<Seq<char>>,
}

impl View for ObjectReference {
    type V = ObjectReferenceView;

    open spec fn view(&self) -> ObjectReferenceView {
        ObjectReferenceView {
            api_version: opt_text(self.api_version),
            field_path: opt_text(self.field_path),
            kind: opt_text(self.kind),
            name: opt_text(self.name),
            namespace: opt_text(self.namespace),
            resource_version: opt_text(self.resource_version),
            uid: opt_text(self.uid),
        }
    }
}

/// The record written for a reference.
pub open spec fn reference_to_wire(r: ObjectReferenceView) -> WireValue {
    WireValue::Object(
        entry("apiVersion"@, opt_text_value(r.api_version)) + entry(
            "fieldPath"@,
            opt_text_value(r.field_path),
        ) + entry("kind"@, opt_text_value(r.kind)) + entry("name"@, opt_text_value(r.name))
            + entry("namespace"@, opt_text_value(r.namespace)) + entry(
            "resourceVersion"@,
            opt_text_value(r.resource_version),
        ) + entry("uid"@, opt_text_value(r.uid)),
    )
}

/// A reference read from a record; `None` where it is not a record or a
/// field of it is not text.
pub open spec fn reference_from_wire(w: WireValue) -> Option<ObjectReferenceView> {
    match w {
        WireValue::Object(fs) => match (
            text_or_none(field_of(fs, "apiVersion"@)),
            text_or_none(field_of(fs, "fieldPath"@)),
            text_or_none(field_of(fs, "kind"@)),
            text_or_none(field_of(fs, "name"@)),
            text_or_none(field_of(fs, "namespace"@)),
            text_or_none(field_of(fs, "resourceVersion"@)),
            text_or_none(field_of(fs, "uid"@)),
        ) {
            (
                Some(api_version),
                Some(field_path),
                Some(kind),
                Some(name),
                Some(namespace),
                Some(resource_version),
                Some(uid),
            ) => Some(
                ObjectReferenceView {
                    api_version,
                    field_path,
                    kind,
                    name,
                    namespace,
                    resource_version,
                    uid,
                },
            ),
            _ => None,
        },
        _ => None,
    }
}

proof fn lemma_reference_keys()
    ensures
        "apiVersion"@.len() == 10,
        "fieldPath"@.len() == 9,
        "kind"@.len() == 4,
        "name"@.len() == 4,
        "namespace"@.len() == 9,
        "resourceVersion"@.len() == 15,
        "uid"@.len() == 3,
        "kind"@[0] == 'k',
        "name"@[0] == 'n',
        "fieldPath"@[0] == 'f',
        "namespace"@[0] == 'n',
{
    reveal_strlit("apiVersion");
    reveal_strlit("fieldPath");
    reveal_strlit("kind");
    reveal_strlit("name");
    reveal_strlit("namespace");
    reveal_strlit("resourceVersion");
    reveal_strlit("uid");
}

/// A reference reads back from the record written for it.
pub proof fn lemma_reference_round_trip(r: ObjectReferenceView)
    ensures
        reference_from_wire(reference_to_wire(r)) == Some(r),
{
    lemma_reference_keys();
}

impl ObjectReference {
    /// The record written for this reference.
    pub fn encode(&self) -> (r: Value)
        ensures
            r@ == reference_to_wire(self@),
    {
        let mut fs: Vec<(String, Value)> = Vec::new();
        put(&mut fs, "apiVersion", opt_text_wire(&self.api_version));
        put(&mut fs, "fieldPath", opt_text_wire(&self.field_path));
        put(&mut fs, "kind", opt_text_wire(&self.kind));
        put(&mut fs, "name", opt_text_wire(&self.name));
        put(&mut fs, "namespace", opt_text_wire(&self.namespace));
        put(&mut fs, "resourceVersion", opt_text_wire(&self.resource_version));
        put(&mut fs, "uid", opt_text_wire(&self.uid));
        record(fs)
    }

    /// Reads a reference from a record.
    pub fn decode(v: &Value) -> (r: Result<ObjectReference, DecodeError>)
        ensures
            r is Ok <==> reference_from_wire(v@) is Some,
            r matches Ok(x) ==> reference_from_wire(v@) == Some(x@),
    {
        match v {
            Value::Object(fs) => {
                proof {
                    lemma_object_view(*fs);
                }
                let api_version = match read_text_or_none(get_field(fs, "apiVersion")) {
                    Some(x) => x,
                    None => return Err(DecodeError::SchemaViolation),
                };
                let field_path = match read_text_or_none(get_field(fs, "fieldPath")) {
                    Some(x) => x,
                    None => return Err(DecodeError::SchemaViolation),
                };
                let kind = match read_text_or_none(get_field(fs, "kind")) {
                    Some(x) => x,
                    None => return Err(DecodeError::SchemaViolation),
                };
                let name = match read_text_or_none(get_field(fs, "name")) {
                    Some(x) => x,
                    None => return Err(DecodeError::SchemaViolation),
                };
                let namespace = match read_text_or_none(get_field(fs, "namespace")) {
                    Some(x) => x,
                    None => return Err(DecodeError::SchemaViolation),
                };
                let resource_version = match read_text_or_none(get_field(fs, "resourceVersion")) {
                    Some(x) => x,
                    None => return Err(DecodeError::SchemaViolation),
                };
                let uid = match read_text_or_none(get_field(fs, "uid")) {
                    Some(x) => x,
                    None => return Err(DecodeError::SchemaViolation),
                };
                Ok(
                    ObjectReference {
                        api_version,
                        field_path,
                        kind,
                        name,
                        namespace,
                        resource_version,
                        uid,
                    },
                )
            },
            _ => Err(DecodeError::SchemaViolation),
        }
    }
}

/// The component and host that reported an event.
#[derive(Debug, Clone, PartialEq)]
pub struct EventSource {
    pub component: Option<String>,
    pub host: Option<String>,
}

pub struct EventSourceView {
    pub component: Option<Seq<char>>,
    pub host: Option<Seq<char>>,
}

impl View for EventSource {
    type V = EventSourceView;

    open spec fn view(&self) -> EventSourceView {
        EventSourceView { component: opt_text(self.component), host: opt_text(self.host) }
    }
}

pub open spec fn source_to_wire(s: EventSourceView) -> WireValue {
    WireValue::Object(
        entry("component"@, opt_text_value(s.component)) + entry(
            "host"@,
            opt_text_value(s.host),
        ),
    )
}

pub open spec fn source_from_wire(w: WireValue) -> Option<EventSourceView> {
    match w {
        WireValue::Object(fs) => match (
            text_or_none(field_of(fs, "component"@)),
            text_or_none(field_of(fs, "host"@)),
        ) {
            (Some(component), Some(host)) => Some(EventSourceView { component, host }),
            _ => None,
        },
        _ => None,
    }
}

pub proof fn lemma_source_round_trip(s: EventSourceView)
    ensures
        source_from_wire(source_to_wire(s)) == Some(s),
{
    reveal_strlit("component");
    reveal_strlit("host");
    assert("component"@.len() != "host"@.len());
}

impl EventSource {
    pub fn encode(&self) -> (r: Value)
        ensures
            r@ == source_to_wire(self@),
    {
        let mut fs: Vec<(String, Value)> = Vec::new();
        put(&mut fs, "component", opt_text_wire(&self.component));
        put(&mut fs, "host", opt_text_wire(&self.host));
        record(fs)
    }

    pub fn decode(v: &Value) -> (r: Result<EventSource, DecodeError>)
        ensures
            r is Ok <==> source_from_wire(v@) is Some,
            r matches Ok(x) ==> source_from_wire(v@) == Some(x@),
    {
        match v {
            Value::Object(fs) => {
                proof {
                    lemma_object_view(*fs);
                }
                let component = match read_text_or_none(get_field(fs, "component")) {
                    Some(x) => x,
                    None => return Err(DecodeError::SchemaViolation),
                };
                let host = match read_text_or_none(get_field(fs, "host")) {
                    Some(x) => x,
                    None => return Err(DecodeError::SchemaViolation),
                };
                Ok(EventSource { component, host })
            },
            _ => Err(DecodeError::SchemaViolation),
        }
    }
}

/// How often an event recurred, and when it was last seen (as its
/// timestamp text).
#[derive(Debug, Clone, PartialEq)]
pub struct EventSeries {
    pub count: Option<i32>,
    pub last_observed_time: Option<String>,
}

pub struct EventSeriesView {
    pub count: Option<i32>,
    pub last_observed_time: Option<Seq<char>>,
}

impl View for EventSeries {
    type V = EventSeriesView;

    open spec fn view(&self) -> EventSeriesView {
        EventSeriesView { count: self.count, last_observed_time: opt_text(self.last_observed_time) }
    }
}

pub open spec fn series_to_wire(s: EventSeriesView) -> WireValue {
    WireValue::Object(
        entry("count"@, opt_int_value(s.count)) + entry(
            "lastObservedTime"@,
            opt_text_value(s.last_observed_time),
        ),
    )
}

pub open spec fn series_from_wire(w: WireValue) -> Option<EventSeriesView> {
    match w {
        WireValue::Object(fs) => match (
            int_or_none(field_of(fs, "count"@)),
            text_or_none(field_of(fs, "lastObservedTime"@)),
        ) {
            (Some(count), Some(last_observed_time)) => Some(
                EventSeriesView { count, last_observed_time },
            ),
            _ => None,
        },
        _ => None,
    }
}

pub proof fn lemma_series_round_trip(s: EventSeriesView)
    ensures
        series_from_wire(series_to_wire(s)) == Some(s),
{
    reveal_strlit("count");
    reveal_strlit("lastObservedTime");
    assert("count"@.len() != "lastObservedTime"@.len());
}

impl EventSeries {
    pub fn encode(&self) -> (r: Value)
        ensures
            r@ == series_to_wire(self@),
    {
        let mut fs: Vec<(String, Value)> = Vec::new();
        let count = match self.count {
            Some(n) => Some(Value::Int(n as i64)),
            None => None,
        };
        put(&mut fs, "count", count);
        put(&mut fs, "lastObservedTime", opt_text_wire(&self.last_observed_time));
        record(fs)
    }

    pub fn decode(v: &Value) -> (r: Result<EventSeries, DecodeError>)
        ensures
            r is Ok <==> series_from_wire(v@) is Some,
            r matches Ok(x) ==> series_from_wire(v@) == Some(x@),
    {
        match v {
            Value::Object(fs) => {
                proof {
                    lemma_object_view(*fs);
                }
                let count = match read_int_or_none(get_field(fs, "count")) {
                    Some(x) => x,
                    None => return Err(DecodeError::SchemaViolation),
                };
                let last_observed_time = match read_text_or_none(
                    get_field(fs, "lastObservedTime"),
                ) {
                    Some(x) => x,
                    None => return Err(DecodeError::SchemaViolation),
                };
                Ok(EventSeries { count, last_observed_time })
            },
            _ => Err(DecodeError::SchemaViolation),
        }
    }
}

} // verus!
