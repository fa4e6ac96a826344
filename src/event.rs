//! Events: their metadata and the reference to the object they are about
//! are required; the reporting fields and the message are read with defaults,
//! since servers often leave them out; the rest may be missing.
use crate::fields::{
    entry, field_of, get_field, group_record_lookup, int_or_zero, is_absent, opt_text,
    opt_text_value, opt_text_wire, put, read_int_or_zero, read_text_or_empty, read_text_or_none,
    record, text, text_or_empty, text_or_none, text_value,
};
use crate::meta::{
    lemma_meta_round_trip, meta_from_wire, meta_to_wire, KubeObject, ObjectMeta, ObjectMetaView,
};
use crate::reference::{
    lemma_reference_round_trip, lemma_series_round_trip, lemma_source_round_trip,
    reference_from_wire, reference_to_wire, series_from_wire, series_to_wire, source_from_wire,
    source_to_wire, EventSeries, EventSeriesView, EventSource, EventSourceView, ObjectReference,
    ObjectReferenceView,
};
use crate::wire::{lemma_object_view, DecodeError, Value, WireValue};
use vstd::prelude::*;

verus! {

broadcast use group_record_lookup;

/// An event about an object in the cluster. Timestamps are held as their
/// wire text.
#[derive(Debug, Clone, PartialEq)]
pub struct v1Event {
    pub metadata: ObjectMeta,
    pub involvedObject: ObjectReference,
    pub reportingComponent: String,
    pub reportingInstance: String,
    pub message: String,
    pub reason: String,
    pub count: i32,
    /// Written under the key "type".
    pub type_: String,
    pub action: Option<String>,
    pub eventTime: Option<String>,
    pub firstTimestamp: Option<String>,
    pub lastTimestamp: Option<String>,
    pub related: Option<ObjectReference>,
    pub series: Option<EventSeries>,
    pub source: Option<EventSource>,
}

pub struct EventView {
    pub metadata: ObjectMetaView,
    pub involved_object: ObjectReferenceView,
    pub reporting_component: Seq<char>,
    pub reporting_instance: Seq<char>,
    pub message: Seq<char>,
    pub reason: Seq<char>,
    pub count: i32,
    pub type_: Seq<char>,
    pub action: Option<Seq<char>>,
    pub event_time: Option<Seq<char>>,
    pub first_timestamp: Option<Seq<char>>,
    pub last_timestamp: Option<Seq<char>>,
    pub related: Option<ObjectReferenceView>,
    pub series: Option<EventSeriesView>,
    pub source: Option<EventSourceView>,
}

impl View for v1Event {
    type V = EventView;

    open spec fn view(&self) -> EventView {
        EventView {
            metadata: self.metadata@,
            involved_object: self.involvedObject@,
            reporting_component: self.reportingComponent@,
            reporting_instance: self.reportingInstance@,
            message: self.message@,
            reason: self.reason@,
            count: self.count,
            type_: self.type_@,
            action: opt_text(self.action),
            event_time: opt_text(self.eventTime),
            first_timestamp: opt_text(self.firstTimestamp),
            last_timestamp: opt_text(self.lastTimestamp),
            related: match self.related {
                Some(r) => Some(r@),
                None => None,
            },
            series: match self.series {
                Some(s) => Some(s@),
                None => None,
            },
            source: match self.source {
                Some(s) => Some(s@),
                None => None,
            },
        }
    }
}

impl EventView {
    pub open spec fn wf(self) -> bool {
        self.metadata.wf()
    }
}

/// An optional reference read from a field.
pub open spec fn reference_or_none(o: Option<WireValue>) -> Option<Option<ObjectReferenceView>> {
    if is_absent(o) {
        Some(None)
    } else {
        match reference_from_wire(o->Some_0) {
            Some(r) => Some(Some(r)),
            None => None,
        }
    }
}

pub open spec fn series_or_none(o: Option<WireValue>) -> Option<Option<EventSeriesView>> {
    if is_absent(o) {
        Some(None)
    } else {
        match series_from_wire(o->Some_0) {
            Some(r) => Some(Some(r)),
            None => None,
        }
    }
}

pub open spec fn source_or_none(o: Option<WireValue>) -> Option<Option<EventSourceView>> {
    if is_absent(o) {
        Some(None)
    } else {
        match source_from_wire(o->Some_0) {
            Some(r) => Some(Some(r)),
            None => None,
        }
    }
}

/// A required record read from a field: `None` where it is missing.
pub open spec fn required<T>(o: Option<WireValue>, read: spec_fn(WireValue) -> Option<T>) -> Option<
    T,
> {
    match o {
        Some(w) => read(w),
        None => None,
    }
}

/// The record written for an event.
pub open spec fn event_to_wire(e: EventView) -> WireValue {
    WireValue::Object(
        entry("metadata"@, Some(meta_to_wire(e.metadata))) + entry(
            "involvedObject"@,
            Some(reference_to_wire(e.involved_object)),
        ) + entry("reportingComponent"@, text_value(e.reporting_component)) + entry(
            "reportingInstance"@,
            text_value(e.reporting_instance),
        ) + entry("message"@, text_value(e.message)) + entry("reason"@, text_value(e.reason))
            + entry("count"@, Some(WireValue::Int(e.count as int))) + entry(
            "type"@,
            text_value(e.type_),
        ) + entry("action"@, opt_text_value(e.action)) + entry(
            "eventTime"@,
            opt_text_value(e.event_time),
        ) + entry("firstTimestamp"@, opt_text_value(e.first_timestamp)) + entry(
            "lastTimestamp"@,
            opt_text_value(e.last_timestamp),
        ) + entry(
            "related"@,
            match e.related {
                Some(r) => Some(reference_to_wire(r)),
                None => None,
            },
        ) + entry(
            "series"@,
            match e.series {
                Some(s) => Some(series_to_wire(s)),
                None => None,
            },
        ) + entry(
            "source"@,
            match e.source {
                Some(s) => Some(source_to_wire(s)),
                None => None,
            },
        ),
    )
}

/// An event read from a payload; `None` where the payload is not a record,
/// lacks the metadata or the involved object, or has a field of the wrong
/// shape.
pub open spec fn event_from_wire(w: WireValue) -> Option<EventView> {
    match w {
        WireValue::Object(fs) => match (
            required(field_of(fs, "metadata"@), |v| meta_from_wire(v)),
            required(field_of(fs, "involvedObject"@), |v| reference_from_wire(v)),
            text_or_empty(field_of(fs, "reportingComponent"@)),
            text_or_empty(field_of(fs, "reportingInstance"@)),
            text_or_empty(field_of(fs, "message"@)),
            text_or_empty(field_of(fs, "reason"@)),
            int_or_zero(field_of(fs, "count"@)),
            text_or_empty(field_of(fs, "type"@)),
        ) {
            (
                Some(metadata),
                Some(involved_object),
                Some(reporting_component),
                Some(reporting_instance),
                Some(message),
                Some(reason),
                Some(count),
                Some(type_),
            ) => match (
                text_or_none(field_of(fs, "action"@)),
                text_or_none(field_of(fs, "eventTime"@)),
                text_or_none(field_of(fs, "firstTimestamp"@)),
                text_or_none(field_of(fs, "lastTimestamp"@)),
                reference_or_none(field_of(fs, "related"@)),
                series_or_none(field_of(fs, "series"@)),
                source_or_none(field_of(fs, "source"@)),
            ) {
                (
                    Some(action),
                    Some(event_time),
                    Some(first_timestamp),
                    Some(last_timestamp),
                    Some(related),
                    Some(series),
                    Some(source),
                ) => Some(
                    EventView {
                        metadata,
                        involved_object,
                        reporting_component,
                        reporting_instance,
                        message,
                        reason,
                        count,
                        type_,
                        action,
                        event_time,
                        first_timestamp,
                        last_timestamp,
                        related,
                        series,
                        source,
                    },
                ),
                _ => None,
            },
            _ => None,
        },
        _ => None,
    }
}

/// The keys of an event record, and the Rust spelling of its type tag, are
/// told apart by their length and first two characters.
pub(crate) proof fn lemma_event_keys()
    ensures
        "metadata"@.len() == 8,
        "involvedObject"@.len() == 14,
        "reportingComponent"@.len() == 18,
        "reportingInstance"@.len() == 17,
        "message"@.len() == 7,
        "reason"@.len() == 6,
        "count"@.len() == 5,
        "type"@.len() == 4,
        "type_"@.len() == 5,
        "action"@.len() == 6,
        "eventTime"@.len() == 9,
        "firstTimestamp"@.len() == 14,
        "lastTimestamp"@.len() == 13,
        "related"@.len() == 7,
        "series"@.len() == 6,
        "source"@.len() == 6,
        "involvedObject"@[0] == 'i',
        "firstTimestamp"@[0] == 'f',
        "message"@[0] == 'm',
        "related"@[0] == 'r',
        "reason"@[0] == 'r',
        "action"@[0] == 'a',
        "series"@[0] == 's',
        "source"@[0] == 's',
        "count"@[0] == 'c',
        "type_"@[0] == 't',
        "series"@[1] == 'e',
        "source"@[1] == 'o',
{
    reveal_strlit("metadata");
    reveal_strlit("involvedObject");
    reveal_strlit("reportingComponent");
    reveal_strlit("reportingInstance");
    reveal_strlit("message");
    reveal_strlit("reason");
    reveal_strlit("count");
    reveal_strlit("type");
    reveal_strlit("type_");
    reveal_strlit("action");
    reveal_strlit("eventTime");
    reveal_strlit("firstTimestamp");
    reveal_strlit("lastTimestamp");
    reveal_strlit("related");
    reveal_strlit("series");
    reveal_strlit("source");
}

/// An event reads back from the record written for it.
#[verifier::rlimit(40)]
pub proof fn lemma_event_round_trip(e: EventView)
    requires
        e.wf(),
    ensures
        event_from_wire(event_to_wire(e)) == Some(e),
{
    lemma_event_keys();
    let fs = event_to_wire(e)->Object_0;
    assert(field_of(fs, "metadata"@) == Some(meta_to_wire(e.metadata)));
    assert(field_of(fs, "involvedObject"@) == Some(reference_to_wire(e.involved_object)));
    assert(field_of(fs, "reportingComponent"@) == text_value(e.reporting_component));
    assert(field_of(fs, "reportingInstance"@) == text_value(e.reporting_instance));
    assert(field_of(fs, "message"@) == text_value(e.message));
    assert(field_of(fs, "reason"@) == text_value(e.reason));
    assert(field_of(fs, "count"@) == Some(WireValue::Int(e.count as int)));
    assert(field_of(fs, "type"@) == text_value(e.type_));
    assert(field_of(fs, "action"@) == opt_text_value(e.action));
    assert(field_of(fs, "eventTime"@) == opt_text_value(e.event_time));
    assert(field_of(fs, "firstTimestamp"@) == opt_text_value(e.first_timestamp));
    assert(field_of(fs, "lastTimestamp"@) == opt_text_value(e.last_timestamp));
    lemma_meta_round_trip(e.metadata);
    lemma_reference_round_trip(e.involved_object);
    match e.related {
        Some(r) => lemma_reference_round_trip(r),
        None => {},
    }
    match e.series {
        Some(s) => lemma_series_round_trip(s),
        None => {},
    }
    match e.source {
        Some(s) => lemma_source_round_trip(s),
        None => {},
    }
}

impl KubeObject for v1Event {
    open spec fn spec_meta(&self) -> ObjectMeta {
        self.metadata
    }

    fn meta(&self) -> (r: &ObjectMeta) {
        &self.metadata
    }
}

impl v1Event {
    /// The record written for this event: every field but the optional ones
    /// that are missing, the type tag under the key "type".
    pub fn encode(&self) -> (r: Value)
        ensures
            r@ == event_to_wire(self@),
    {
        let mut fs: Vec<(String, Value)> = Vec::new();
        put(&mut fs, "metadata", Some(self.metadata.encode()));
        put(&mut fs, "involvedObject", Some(self.involvedObject.encode()));
        put(&mut fs, "reportingComponent", Some(text(&self.reportingComponent)));
        put(&mut fs, "reportingInstance", Some(text(&self.reportingInstance)));
        put(&mut fs, "message", Some(text(&self.message)));
        put(&mut fs, "reason", Some(text(&self.reason)));
        put(&mut fs, "count", Some(Value::Int(self.count as i64)));
        put(&mut fs, "type", Some(text(&self.type_)));
        put(&mut fs, "action", opt_text_wire(&self.action));
        put(&mut fs, "eventTime", opt_text_wire(&self.eventTime));
        put(&mut fs, "firstTimestamp", opt_text_wire(&self.firstTimestamp));
        put(&mut fs, "lastTimestamp", opt_text_wire(&self.lastTimestamp));
        let related = match &self.related {
            Some(x) => Some(x.encode()),
            None => None,
        };
        put(&mut fs, "related", related);
        let series = match &self.series {
            Some(x) => Some(x.encode()),
            None => None,
        };
        put(&mut fs, "series", series);
        let source = match &self.source {
            Some(x) => Some(x.encode()),
            None => None,
        };
        put(&mut fs, "source", source);
        record(fs)
    }

    /// Reads an event from a payload.
    pub fn decode(v: &Value) -> (r: Result<v1Event, DecodeError>)
        ensures
            r is Ok <==> event_from_wire(v@) is Some,
            r matches Ok(x) ==> event_from_wire(v@) == Some(x@),
    {
        let fs = match v {
            Value::Object(fs) => fs,
            _ => return Err(DecodeError::SchemaViolation),
        };
        proof {
            lemma_object_view(*fs);
        }
        let metadata = match get_field(fs, "metadata") {
            Some(m) => match ObjectMeta::decode(m) {
                Ok(x) => x,
                Err(e) => return Err(e),
            },
            None => return Err(DecodeError::SchemaViolation),
        };
        let involvedObject = match get_field(fs, "involvedObject") {
            Some(m) => match ObjectReference::decode(m) {
                Ok(x) => x,
                Err(e) => return Err(e),
            },
            None => return Err(DecodeError::SchemaViolation),
        };
        let reportingComponent = match read_text_or_empty(get_field(fs, "reportingComponent")) {
            Some(x) => x,
            None => return Err(DecodeError::SchemaViolation),
        };
        let reportingInstance = match read_text_or_empty(get_field(fs, "reportingInstance")) {
            Some(x) => x,
            None => return Err(DecodeError::SchemaViolation),
        };
        let message = match read_text_or_empty(get_field(fs, "message")) {
            Some(x) => x,
            None => return Err(DecodeError::SchemaViolation),
        };
        let reason = match read_text_or_empty(get_field(fs, "reason")) {
            Some(x) => x,
            None => return Err(DecodeError::SchemaViolation),
        };
        let count = match read_int_or_zero(get_field(fs, "count")) {
            Some(x) => x,
            None => return Err(DecodeError::SchemaViolation),
        };
        let type_ = match read_text_or_empty(get_field(fs, "type")) {
            Some(x) => x,
            None => return Err(DecodeError::SchemaViolation),
        };
        let action = match read_text_or_none(get_field(fs, "action")) {
            Some(x) => x,
            None => return Err(DecodeError::SchemaViolation),
        };
        let eventTime = match read_text_or_none(get_field(fs, "eventTime")) {
            Some(x) => x,
            None => return Err(DecodeError::SchemaViolation),
        };
        let firstTimestamp = match read_text_or_none(get_field(fs, "firstTimestamp")) {
            Some(x) => x,
            None => return Err(DecodeError::SchemaViolation),
        };
        let lastTimestamp = match read_text_or_none(get_field(fs, "lastTimestamp")) {
            Some(x) => x,
            None => return Err(DecodeError::SchemaViolation),
        };
        let related = match get_field(fs, "related") {
            None | Some(Value::Null) => None,
            Some(m) => match ObjectReference::decode(m) {
                Ok(x) => Some(x),
                Err(e) => return Err(e),
            },
        };
        let series = match get_field(fs, "series") {
            None | Some(Value::Null) => None,
            Some(m) => match EventSeries::decode(m) {
                Ok(x) => Some(x),
                Err(e) => return Err(e),
            },
        };
        let source = match get_field(fs, "source") {
            None | Some(Value::Null) => None,
            Some(m) => match EventSource::decode(m) {
                Ok(x) => Some(x),
                Err(e) => return Err(e),
            },
        };
        Ok(
            v1Event {
                metadata,
                involvedObject,
                reportingComponent,
                reportingInstance,
                message,
                reason,
                count,
                type_,
                action,
                eventTime,
                firstTimestamp,
                lastTimestamp,
                related,
                series,
                source,
            },
        )
    }
}

} // verus!
