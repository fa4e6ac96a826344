use kube_snowflake::api::{Api, RawApi};
use kube_snowflake::config_map::v1ConfigMap;
use kube_snowflake::event::v1Event;
use kube_snowflake::meta::{KubeObject, ObjectMeta};
use kube_snowflake::reference::{EventSeries, EventSource, ObjectReference};
use kube_snowflake::secret::v1Secret;
use kube_snowflake::wire::{DecodeError, Value};

fn s(x: &str) -> String {
    x.to_string()
}

fn text(x: &str) -> Value {
    Value::Str(s(x))
}

fn obj(fields: Vec<(&str, Value)>) -> Value {
    Value::Object(fields.into_iter().map(|(k, v)| (s(k), v)).collect())
}

fn get<'a>(v: &'a Value, k: &str) -> Option<&'a Value> {
    match v {
        Value::Object(fs) => fs.iter().find(|(key, _)| key == k).map(|(_, v)| v),
        _ => None,
    }
}

fn named(name: &str) -> ObjectMeta {
    ObjectMeta {
        name: s(name),
        namespace: None,
        uid: None,
        resourceVersion: None,
        labels: vec![],
        annotations: vec![],
    }
}

fn full_meta() -> ObjectMeta {
    ObjectMeta {
        name: s("n"),
        namespace: Some(s("default")),
        uid: Some(s("u-1")),
        resourceVersion: Some(s("42")),
        labels: vec![(s("app"), s("web")), (s("tier"), s("front"))],
        annotations: vec![(s("note"), s("x"))],
    }
}

fn pod_ref() -> ObjectReference {
    ObjectReference {
        api_version: Some(s("v1")),
        field_path: None,
        kind: Some(s("Pod")),
        name: Some(s("p1")),
        namespace: Some(s("default")),
        resource_version: None,
        uid: Some(s("abc")),
    }
}

fn minimal_event_payload() -> Value {
    obj(vec![
        ("metadata", obj(vec![("name", text("e1"))])),
        ("involvedObject", obj(vec![("kind", text("Pod")), ("name", text("p1"))])),
    ])
}

fn full_event() -> v1Event {
    v1Event {
        metadata: full_meta(),
        involvedObject: pod_ref(),
        reportingComponent: s("kubelet"),
        reportingInstance: s("node-1"),
        message: s("Started container"),
        reason: s("Started"),
        count: -7,
        type_: s("Normal"),
        action: Some(s("Binding")),
        eventTime: Some(s("2024-01-01T00:00:00.000000Z")),
        firstTimestamp: Some(s("2024-01-01T00:00:00Z")),
        lastTimestamp: Some(s("2024-01-02T00:00:00Z")),
        related: Some(pod_ref()),
        series: Some(EventSeries { count: Some(3), last_observed_time: Some(s("2024-01-02T00:00:00.5Z")) }),
        source: Some(EventSource { component: Some(s("kubelet")), host: None }),
    }
}

fn bare_event() -> v1Event {
    v1Event {
        metadata: named("e"),
        involvedObject: ObjectReference {
            api_version: None,
            field_path: None,
            kind: None,
            name: None,
            namespace: None,
            resource_version: None,
            uid: None,
        },
        reportingComponent: s(""),
        reportingInstance: s(""),
        message: s(""),
        reason: s(""),
        count: 0,
        type_: s(""),
        action: None,
        eventTime: None,
        firstTimestamp: None,
        lastTimestamp: None,
        related: None,
        series: None,
        source: None,
    }
}

#[test]
fn decode_minimal_event_fills_defaults() {
    let e = v1Event::decode(&minimal_event_payload()).unwrap();
    assert_eq!(e.metadata.name, "e1");
    assert_eq!(e.involvedObject.kind, Some(s("Pod")));
    assert_eq!(e.involvedObject.name, Some(s("p1")));
    assert_eq!(e.reportingComponent, "");
    assert_eq!(e.reportingInstance, "");
    assert_eq!(e.message, "");
    assert_eq!(e.reason, "");
    assert_eq!(e.type_, "");
    assert_eq!(e.count, 0);
    assert_eq!(e.action, None);
    assert_eq!(e.related, None);
    assert_eq!(e.series, None);
    assert_eq!(e.source, None);
}

#[test]
fn decode_secret_with_empty_data_and_reencode_omits_it() {
    let payload = obj(vec![("metadata", obj(vec![("name", text("s1"))])), ("data", obj(vec![]))]);
    let secret = v1Secret::decode(&payload).unwrap();
    assert!(secret.data.is_empty());
    assert_eq!(secret.metadata.name, "s1");
    let out = secret.encode();
    assert!(get(&out, "data").is_none());
    assert!(get(&out, "stringData").is_none());
    assert!(get(&out, "metadata").is_some());
}

#[test]
fn decode_event_without_involved_object_fails() {
    let payload = obj(vec![("metadata", obj(vec![("name", text("e1"))]))]);
    assert_eq!(v1Event::decode(&payload), Err(DecodeError::SchemaViolation));
}

#[test]
fn encode_config_map_keeps_data_and_omits_empty_binary_data() {
    let cm = v1ConfigMap { metadata: named("c"), binaryData: vec![], data: vec![(s("k"), s("v"))] };
    let out = cm.encode();
    assert_eq!(get(&out, "data"), Some(&obj(vec![("k", text("v"))])));
    assert!(get(&out, "binaryData").is_none());
}

#[test]
fn event_round_trip_all_fields() {
    let e = full_event();
    assert_eq!(v1Event::decode(&e.encode()), Ok(e));
}

#[test]
fn event_round_trip_no_optional_fields() {
    let e = bare_event();
    let out = e.encode();
    assert!(get(&out, "action").is_none());
    assert!(get(&out, "related").is_none());
    assert_eq!(get(&out, "reportingComponent"), Some(&text("")));
    assert_eq!(get(&out, "count"), Some(&Value::Int(0)));
    assert_eq!(v1Event::decode(&out), Ok(e));
}

#[test]
fn secret_round_trip_with_and_without_maps() {
    let full = v1Secret {
        data: vec![(s("password"), b"hunter2".to_vec()), (s("empty"), vec![]), (s("bin"), vec![0, 255, 7])],
        metadata: full_meta(),
        stringData: vec![(s("user"), s("admin"))],
        type_: Some(s("Opaque")),
    };
    assert_eq!(v1Secret::decode(&full.encode()), Ok(full));
    let bare = v1Secret { data: vec![], metadata: named("s"), stringData: vec![], type_: None };
    let out = bare.encode();
    assert!(get(&out, "type").is_none());
    assert_eq!(v1Secret::decode(&out), Ok(bare));
}

#[test]
fn config_map_round_trip_with_and_without_maps() {
    let full = v1ConfigMap {
        metadata: full_meta(),
        binaryData: vec![(s("blob"), vec![1, 2, 3, 4])],
        data: vec![(s("a"), s("1")), (s("b"), s(""))],
    };
    assert_eq!(v1ConfigMap::decode(&full.encode()), Ok(full));
    let bare = v1ConfigMap { metadata: named("c"), binaryData: vec![], data: vec![] };
    let out = bare.encode();
    assert!(get(&out, "data").is_none());
    assert!(get(&out, "binaryData").is_none());
    assert_eq!(v1ConfigMap::decode(&out), Ok(bare));
}

#[test]
fn missing_maps_decode_as_empty() {
    let payload = obj(vec![("metadata", obj(vec![("name", text("c"))]))]);
    let cm = v1ConfigMap::decode(&payload).unwrap();
    assert!(cm.data.is_empty());
    assert!(cm.binaryData.is_empty());
    let secret = v1Secret::decode(&payload).unwrap();
    assert!(secret.data.is_empty());
    assert!(secret.stringData.is_empty());
    assert_eq!(secret.type_, None);
}

#[test]
fn null_fields_read_as_missing() {
    let payload = obj(vec![
        ("metadata", obj(vec![("name", text("e1")), ("labels", Value::Null)])),
        ("involvedObject", obj(vec![])),
        ("message", Value::Null),
        ("count", Value::Null),
        ("action", Value::Null),
        ("series", Value::Null),
    ]);
    let e = v1Event::decode(&payload).unwrap();
    assert_eq!(e.message, "");
    assert_eq!(e.count, 0);
    assert_eq!(e.action, None);
    assert_eq!(e.series, None);
    assert!(e.metadata.labels.is_empty());
}

#[test]
fn event_without_metadata_fails() {
    let payload = obj(vec![("involvedObject", obj(vec![("kind", text("Pod"))]))]);
    assert_eq!(v1Event::decode(&payload), Err(DecodeError::SchemaViolation));
    let null_ref = obj(vec![("metadata", obj(vec![])), ("involvedObject", Value::Null)]);
    assert_eq!(v1Event::decode(&null_ref), Err(DecodeError::SchemaViolation));
}

#[test]
fn secret_and_config_map_without_metadata_fail() {
    let payload = obj(vec![("data", obj(vec![]))]);
    assert_eq!(v1Secret::decode(&payload), Err(DecodeError::SchemaViolation));
    assert_eq!(v1ConfigMap::decode(&payload), Err(DecodeError::SchemaViolation));
}

#[test]
fn malformed_fields_are_schema_violations() {
    let mut bad_count = minimal_event_payload();
    if let Value::Object(fs) = &mut bad_count {
        fs.push((s("count"), text("three")));
    }
    assert_eq!(v1Event::decode(&bad_count), Err(DecodeError::SchemaViolation));

    let mut big_count = minimal_event_payload();
    if let Value::Object(fs) = &mut big_count {
        fs.push((s("count"), Value::Int(i32::MAX as i64 + 1)));
    }
    assert_eq!(v1Event::decode(&big_count), Err(DecodeError::SchemaViolation));

    let mut max_count = minimal_event_payload();
    if let Value::Object(fs) = &mut max_count {
        fs.push((s("count"), Value::Int(i32::MAX as i64)));
    }
    assert_eq!(v1Event::decode(&max_count).unwrap().count, i32::MAX);

    let bad_ref = obj(vec![("metadata", obj(vec![])), ("involvedObject", text("Pod/p1"))]);
    assert_eq!(v1Event::decode(&bad_ref), Err(DecodeError::SchemaViolation));

    assert_eq!(v1Event::decode(&Value::Array(vec![])), Err(DecodeError::SchemaViolation));
    assert_eq!(v1Secret::decode(&text("x")), Err(DecodeError::SchemaViolation));
}

#[test]
fn malformed_maps_are_schema_violations() {
    let meta = || obj(vec![("name", text("s"))]);
    let not_base64 = obj(vec![("metadata", meta()), ("data", obj(vec![("k", text("!!not base64!!"))]))]);
    assert_eq!(v1Secret::decode(&not_base64), Err(DecodeError::SchemaViolation));
    let repeated = obj(vec![("metadata", meta()), ("data", obj(vec![("k", text("v")), ("k", text("w"))]))]);
    assert_eq!(v1ConfigMap::decode(&repeated), Err(DecodeError::SchemaViolation));
    let not_text = obj(vec![("metadata", meta()), ("stringData", obj(vec![("k", Value::Int(1))]))]);
    assert_eq!(v1Secret::decode(&not_text), Err(DecodeError::SchemaViolation));
    let not_record = obj(vec![("metadata", meta()), ("data", text("k=v"))]);
    assert_eq!(v1ConfigMap::decode(&not_record), Err(DecodeError::SchemaViolation));
}

#[test]
fn byte_values_travel_as_base64() {
    let secret = v1Secret { data: vec![(s("k"), b"hi".to_vec())], metadata: named("s"), stringData: vec![], type_: None };
    let out = secret.encode();
    assert_eq!(get(&out, "data"), Some(&obj(vec![("k", text("aGk="))])));
    let payload = obj(vec![("metadata", obj(vec![])), ("binaryData", obj(vec![("k", text("AQID"))]))]);
    assert_eq!(v1ConfigMap::decode(&payload).unwrap().binaryData, vec![(s("k"), vec![1u8, 2, 3])]);
}

#[test]
fn type_tag_is_written_under_type() {
    let secret = v1Secret { data: vec![], metadata: named("s"), stringData: vec![], type_: Some(s("Opaque")) };
    let out = secret.encode();
    assert_eq!(get(&out, "type"), Some(&text("Opaque")));
    assert!(get(&out, "type_").is_none());
    let mut e = bare_event();
    e.type_ = s("Opaque");
    let out = e.encode();
    assert_eq!(get(&out, "type"), Some(&text("Opaque")));
    assert!(get(&out, "type_").is_none());
    let payload = obj(vec![("metadata", obj(vec![])), ("type", text("kubernetes.io/tls"))]);
    assert_eq!(v1Secret::decode(&payload).unwrap().type_, Some(s("kubernetes.io/tls")));
}

#[test]
fn meta_returns_embedded_metadata() {
    let e = full_event();
    assert_eq!(e.meta(), &full_meta());
    let secret = v1Secret { data: vec![(s("k"), vec![1])], metadata: named("s"), stringData: vec![], type_: None };
    assert_eq!(secret.meta(), &named("s"));
    let cm = v1ConfigMap { metadata: full_meta(), binaryData: vec![], data: vec![(s("a"), s("b"))] };
    assert_eq!(cm.meta(), &full_meta());
}

#[test]
fn typed_clients_carry_their_descriptors() {
    let events = Api::v1Event(s("handle"));
    assert_eq!(events.api.group, "");
    assert_eq!(events.api.version, "v1");
    assert_eq!(events.api.resource, "events");
    assert!(events.api.namespaced);
    assert_eq!(events.client, "handle");
    let secrets = Api::v1Secret(7u32);
    assert_eq!(secrets.api.resource, "secrets");
    assert_eq!(secrets.client, 7);
    let maps = Api::v1ConfigMap(());
    assert_eq!(maps.api.resource, "configmaps");
    assert_eq!(RawApi::v1ConfigMap().version, "v1");
}

#[test]
fn metadata_round_trip_keeps_label_order() {
    let m = full_meta();
    let out = m.encode();
    assert_eq!(get(&out, "labels"), Some(&obj(vec![("app", text("web")), ("tier", text("front"))])));
    assert_eq!(get(&out, "resourceVersion"), Some(&text("42")));
    assert_eq!(ObjectMeta::decode(&out), Ok(m));
    let bare = named("x").encode();
    assert!(get(&bare, "labels").is_none());
    assert!(get(&bare, "namespace").is_none());
}

#[test]
fn typed_client_copies_share_descriptor_and_handle() {
    let events = Api::v1Event(s("handle"));
    let copy = events.clone();
    assert_eq!(copy.api.resource, "events");
    assert_eq!(copy.client, "handle");
    assert_eq!(events.client, "handle");
}
