use cqhttp::{ClassificationError, Error, MessageSegment, PayloadFault};

fn fault_of(text: &str) -> PayloadFault {
    match MessageSegment::from_json(text) {
        Err(Error::Classification(ClassificationError::MalformedPayload(name, fault))) => {
            assert_eq!(name, "MessageSegment");
            fault
        }
        other => panic!("no malformed payload: {:?}", other),
    }
}

#[test]
fn segment_from_json_reads_type_and_data() {
    let seg = MessageSegment::from_json(r#"{"type":"at","data":{"qq":"10"}}"#).unwrap();
    assert_eq!(seg.name(), "at");
    assert_eq!(seg.data().get("qq"), Some(&"10".to_string()));
    assert_eq!(seg.to_string(), "[CQ:at,qq=10]");
}

#[test]
fn segment_from_json_walks_members_by_name() {
    let seg = MessageSegment::from_json(r#"{"data":{"b":"2","a":"1"},"type":"x"}"#).unwrap();
    assert_eq!(seg.to_string(), "[CQ:x,a=1,b=2]");
}

#[test]
fn segment_from_json_rejects_text_that_is_no_json() {
    assert!(matches!(MessageSegment::from_json("{"), Err(Error::Serde(_))));
}

#[test]
fn segment_from_json_names_the_fault() {
    assert_eq!(fault_of(r#"{"data":{}}"#), PayloadFault::MissingField("type"));
    assert_eq!(fault_of(r#"{"type":1,"data":{}}"#), PayloadFault::InvalidField("type"));
    assert_eq!(fault_of(r#"{"type":"at"}"#), PayloadFault::MissingField("data"));
    assert_eq!(fault_of(r#"{"type":"at","data":[]}"#), PayloadFault::InvalidField("data"));
    assert_eq!(fault_of(r#"{"type":"at","data":{"qq":10}}"#), PayloadFault::InvalidField("data"));
    assert_eq!(fault_of(r#"[]"#), PayloadFault::MissingField("type"));
}

#[test]
fn segment_from_json_keeps_text_segments_well_formed() {
    assert_eq!(fault_of(r#"{"type":"text","data":{}}"#), PayloadFault::InvalidField("data"));
    assert_eq!(
        fault_of(r#"{"type":"text","data":{"text":"a","more":"b"}}"#),
        PayloadFault::InvalidField("data")
    );
    assert_eq!(fault_of(r#"{"type":"text","data":{"txt":"a"}}"#), PayloadFault::InvalidField("data"));
    let seg = MessageSegment::from_json(r#"{"type":"text","data":{"text":"a[b]"}}"#).unwrap();
    assert_eq!(seg.to_string(), "a[b]");
}

#[test]
fn segment_from_value_reads_a_parsed_value() {
    let value: serde_json::Value =
        serde_json::from_str(r#"{"type":"face","data":{"id":"14"},"more":true}"#).unwrap();
    let seg = MessageSegment::from_value(&value).unwrap();
    assert_eq!(seg.name(), "face");
    assert_eq!(seg.data().len(), 1);
    assert_eq!(seg.to_string(), "[CQ:face,id=14]");
    let no_data: serde_json::Value = serde_json::from_str(r#"{"type":"face"}"#).unwrap();
    assert_eq!(
        MessageSegment::from_value(&no_data).unwrap_err(),
        PayloadFault::MissingField("data")
    );
    let number: serde_json::Value = serde_json::from_str("7").unwrap();
    assert_eq!(
        MessageSegment::from_value(&number).unwrap_err(),
        PayloadFault::MissingField("type")
    );
}
