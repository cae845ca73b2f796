use cqhttp::event::{secondary, select};
use cqhttp::{
    get_event, Anonymous, ClassificationError, Error, Event, EventKind, FileInfo, FriendPoke,
    OfflineFile, PayloadFault, Sender,
};

const SENDER: &str = r#"{"age":18,"nickname":"nick","sex":"male","user_id":20}"#;

fn value(text: &str) -> serde_json::Value {
    serde_json::from_str(text).unwrap()
}

fn classify(text: &str) -> Result<Event, ClassificationError> {
    get_event(&value(text))
}

fn private_message() -> String {
    format!(
        r#"{{"post_type":"message","message_type":"private","sub_type":"friend","message_id":5,
            "user_id":20,"message":"hi","raw_message":"hi","font":0,"sender":{},
            "self_id":1,"time":1700000000}}"#,
        SENDER
    )
}

fn group_message(extra: &str) -> String {
    format!(
        r#"{{"post_type":"message","message_type":"group","sub_type":"normal","message_id":6,
            "group_id":10,"user_id":20,"message":"hi","raw_message":"hi","font":0,
            "sender":{},"self_id":1,"time":0{}}}"#,
        SENDER, extra
    )
}

fn notice(notice_type: &str, rest: &str) -> String {
    format!(
        r#"{{"post_type":"notice","notice_type":"{}","self_id":1,"time":2{}}}"#,
        notice_type, rest
    )
}

fn malformed(text: &str) -> (&'static str, PayloadFault) {
    match classify(text) {
        Err(ClassificationError::MalformedPayload(name, fault)) => (name, fault),
        other => panic!("no malformed payload: {:?}", other),
    }
}

#[test]
fn unrecognized_post_type_is_unknown() {
    assert!(matches!(classify(r#"{"post_type":"heartbeat"}"#), Ok(Event::Unknown)));
    assert!(matches!(classify(r#"{"post_type":""}"#), Ok(Event::Unknown)));
    assert!(matches!(
        classify(r#"{"post_type":"message_sent","message_type":7,"time":"x"}"#),
        Ok(Event::Unknown)
    ));
}

#[test]
fn group_message_exposes_group_id() {
    match classify(&group_message("")) {
        Ok(Event::GroupMessage(e)) => {
            assert_eq!(e.group_id, 10);
            assert_eq!(e.user_id, 20);
            assert_eq!(e.message, "hi");
            assert_eq!(e.self_id, 1);
            assert_eq!(e.time, 0);
            assert_eq!(e.post_type, "message");
            assert_eq!(e.message_type, "group");
            assert_eq!(e.sender.nickname, "nick");
            assert_eq!(e.sender.age, 18);
            assert!(e.anonymous.is_none());
        }
        other => panic!("no group message: {:?}", other),
    }
}

#[test]
fn private_message_is_decoded() {
    match classify(&private_message()) {
        Ok(Event::PrivateMessage(e)) => {
            assert_eq!(e.message_id, 5);
            assert_eq!(e.sub_type, "friend");
            assert_eq!(e.raw_message, "hi");
            assert_eq!(e.font, 0);
            assert_eq!(e.sender.user_id, 20);
            assert_eq!(e.sender.sex, "male");
            assert_eq!(e.time, 1700000000);
        }
        other => panic!("no private message: {:?}", other),
    }
}

#[test]
fn anonymous_may_be_absent_null_or_an_object() {
    match classify(&group_message(r#","anonymous":null"#)) {
        Ok(Event::GroupMessage(e)) => assert!(e.anonymous.is_none()),
        other => panic!("no group message: {:?}", other),
    }
    match classify(&group_message(r#","anonymous":{"id":3,"name":"anon","flag":"f"}"#)) {
        Ok(Event::GroupMessage(e)) => {
            let a = e.anonymous.unwrap();
            assert_eq!(a.id, 3);
            assert_eq!(a.name, "anon");
            assert_eq!(a.flag, "f");
        }
        other => panic!("no group message: {:?}", other),
    }
    assert_eq!(
        malformed(&group_message(r#","anonymous":5"#)),
        ("GroupMessage", PayloadFault::InvalidField("anonymous"))
    );
    assert_eq!(
        malformed(&group_message(r#","anonymous":{"id":3,"name":"anon"}"#)),
        ("GroupMessage", PayloadFault::MissingField("flag"))
    );
}

#[test]
fn unknown_secondary_type_is_unknown() {
    assert!(matches!(
        classify(r#"{"post_type":"message","message_type":"guild"}"#),
        Ok(Event::Unknown)
    ));
    assert!(matches!(
        classify(r#"{"post_type":"notice","notice_type":"notify"}"#),
        Ok(Event::Unknown)
    ));
    assert!(matches!(
        classify(r#"{"post_type":"request","request_type":"other"}"#),
        Ok(Event::Unknown)
    ));
}

#[test]
fn missing_discriminator() {
    assert_eq!(classify(r#"{}"#).unwrap_err(), ClassificationError::MissingDiscriminator);
    assert_eq!(classify(r#"{"post_type":5}"#).unwrap_err(), ClassificationError::MissingDiscriminator);
    assert_eq!(classify(r#"{"post_type":null}"#).unwrap_err(), ClassificationError::MissingDiscriminator);
    assert_eq!(classify(r#"[1,2]"#).unwrap_err(), ClassificationError::MissingDiscriminator);
    assert_eq!(classify(r#""message""#).unwrap_err(), ClassificationError::MissingDiscriminator);
    assert_eq!(
        classify(r#"{"message_type":"private","self_id":1}"#).unwrap_err(),
        ClassificationError::MissingDiscriminator
    );
}

#[test]
fn unreadable_secondary_type_is_unknown() {
    assert!(matches!(classify(r#"{"post_type":"message"}"#), Ok(Event::Unknown)));
    assert!(matches!(classify(r#"{"post_type":"notice"}"#), Ok(Event::Unknown)));
    assert!(matches!(classify(r#"{"post_type":"request"}"#), Ok(Event::Unknown)));
    assert!(matches!(classify(r#"{"post_type":"notice","notice_type":1}"#), Ok(Event::Unknown)));
    assert!(matches!(
        classify(r#"{"post_type":"message","message_type":null,"time":"x"}"#),
        Ok(Event::Unknown)
    ));
    assert!(matches!(
        classify(r#"{"post_type":"request","message_type":"group"}"#),
        Ok(Event::Unknown)
    ));
    assert!(matches!(
        classify(r#"{"post_type":"message","message_type":["private"]}"#),
        Ok(Event::Unknown)
    ));
}

#[test]
fn malformed_payload_names_event_and_first_fault() {
    assert_eq!(
        malformed(r#"{"post_type":"message","message_type":"private"}"#),
        ("PrivateMessage", PayloadFault::MissingField("self_id"))
    );
    assert_eq!(
        malformed(r#"{"post_type":"message","message_type":"private","self_id":"1","time":"x"}"#),
        ("PrivateMessage", PayloadFault::InvalidField("self_id"))
    );
    assert_eq!(
        malformed(r#"{"post_type":"message","message_type":"private","self_id":1,"time":1.5}"#),
        ("PrivateMessage", PayloadFault::InvalidField("time"))
    );
    assert_eq!(
        malformed(r#"{"post_type":"meta_event","self_id":1,"time":2}"#),
        ("MetaEvent", PayloadFault::MissingField("meta_event_type"))
    );
    let no_sender = private_message().replace(&format!(r#""sender":{},"#, SENDER), "");
    assert_eq!(malformed(&no_sender), ("PrivateMessage", PayloadFault::MissingField("sender")));
    let bad_sender = private_message().replace(SENDER, "[]");
    assert_eq!(malformed(&bad_sender), ("PrivateMessage", PayloadFault::InvalidField("sender")));
    let short_sender = private_message().replace(SENDER, r#"{"age":18,"nickname":"n"}"#);
    assert_eq!(malformed(&short_sender), ("PrivateMessage", PayloadFault::MissingField("sex")));
}

#[test]
fn integers_must_fit_their_field() {
    let big_font = private_message().replace(r#""font":0"#, r#""font":2147483648"#);
    assert_eq!(malformed(&big_font), ("PrivateMessage", PayloadFault::InvalidField("font")));
    let small_font = private_message().replace(r#""font":0"#, r#""font":-2147483649"#);
    assert_eq!(malformed(&small_font), ("PrivateMessage", PayloadFault::InvalidField("font")));
    let max_font = private_message().replace(r#""font":0"#, r#""font":2147483647"#);
    match classify(&max_font) {
        Ok(Event::PrivateMessage(e)) => assert_eq!(e.font, i32::MAX),
        other => panic!("no private message: {:?}", other),
    }
    let min_font = private_message().replace(r#""font":0"#, r#""font":-2147483648"#);
    match classify(&min_font) {
        Ok(Event::PrivateMessage(e)) => assert_eq!(e.font, i32::MIN),
        other => panic!("no private message: {:?}", other),
    }
    let big_id = private_message().replace(r#""message_id":5"#, r#""message_id":9223372036854775808"#);
    assert_eq!(malformed(&big_id), ("PrivateMessage", PayloadFault::InvalidField("message_id")));
    let max_id = private_message().replace(r#""message_id":5"#, r#""message_id":9223372036854775807"#);
    match classify(&max_id) {
        Ok(Event::PrivateMessage(e)) => assert_eq!(e.message_id, i64::MAX),
        other => panic!("no private message: {:?}", other),
    }
    let real_id = private_message().replace(r#""message_id":5"#, r#""message_id":5.0"#);
    assert_eq!(malformed(&real_id), ("PrivateMessage", PayloadFault::InvalidField("message_id")));
}

#[test]
fn notices_are_mapped_by_notice_type() {
    let file = r#","group_id":10,"user_id":20,"file":{"id":"f","name":"n","size":3,"busid":4}"#;
    match classify(&notice("group_upload", file)) {
        Ok(Event::GroupFileUpload(e)) => {
            assert_eq!(e.file.name, "n");
            assert_eq!(e.file.size, 3);
            assert_eq!(e.file.id, "f");
            assert_eq!(e.file.busid, 4);
            assert_eq!(e.group_id, 10);
        }
        other => panic!("unexpected: {:?}", other),
    }
    let sub = r#","sub_type":"set","group_id":10,"user_id":20,"operator_id":30,"duration":60"#;
    assert!(matches!(classify(&notice("group_admin", sub)), Ok(Event::GroupAdminChange(_))));
    assert!(matches!(classify(&notice("group_decrease", sub)), Ok(Event::GroupMemberReduce(_))));
    assert!(matches!(classify(&notice("group_increase", sub)), Ok(Event::GroupMemberIncrease(_))));
    match classify(&notice("group_ban", sub)) {
        Ok(Event::GroupMute(e)) => {
            assert_eq!(e.duration, 60);
            assert_eq!(e.operator_id, 30);
        }
        other => panic!("unexpected: {:?}", other),
    }
    assert!(matches!(classify(&notice("friend_add", r#","user_id":20"#)), Ok(Event::FriendAdd(_))));
    let recall = r#","group_id":10,"message_id":9,"user_id":20,"operator_id":30"#;
    assert!(matches!(classify(&notice("group_recall", recall)), Ok(Event::GroupMessageRecall(_))));
    match classify(&notice("friend_recall", recall)) {
        Ok(Event::FriendMessageRecall(e)) => assert_eq!(e.message_id, 9),
        other => panic!("unexpected: {:?}", other),
    }
    let offline = r#","file":{"name":"n","size":3,"url":"u"}"#;
    match classify(&notice("offline_file", offline)) {
        Ok(Event::OfflineFileUpload(e)) => {
            assert_eq!(e.file.url, "u");
            assert_eq!(e.notice_type, "offline_file");
        }
        other => panic!("unexpected: {:?}", other),
    }
}

#[test]
fn every_poke_is_a_group_poke() {
    let group = r#","sub_type":"poke","group_id":10,"sender_id":20,"target_id":30"#;
    match classify(&notice("poke", group)) {
        Ok(Event::GroupPoke(e)) => {
            assert_eq!(e.group_id, 10);
            assert_eq!(e.sender_id, 20);
            assert_eq!(e.target_id, 30);
        }
        other => panic!("unexpected: {:?}", other),
    }
    let friend = r#","sub_type":"poke","user_id":10,"sender_id":20,"target_id":30"#;
    assert_eq!(
        malformed(&notice("poke", friend)),
        ("GroupPoke", PayloadFault::MissingField("group_id"))
    );
    let v = value(&notice("poke", friend));
    let poke = FriendPoke::decode(&v).unwrap();
    assert_eq!(poke.user_id, 10);
    assert!(matches!(Event::decode(EventKind::FriendPoke, &v), Ok(Event::FriendPoke(_))));
}

#[test]
fn requests_and_meta_events() {
    let friend = r#"{"post_type":"request","request_type":"friend","user_id":20,"comment":"c",
        "flag":"f","self_id":1,"time":2}"#;
    match classify(friend) {
        Ok(Event::FriendRequest(e)) => {
            assert_eq!(e.comment, "c");
            assert_eq!(e.flag, "f");
        }
        other => panic!("unexpected: {:?}", other),
    }
    let group = r#"{"post_type":"request","request_type":"group","sub_type":"add","group_id":10,
        "user_id":20,"comment":"c","flag":"f","self_id":1,"time":2}"#;
    match classify(group) {
        Ok(Event::GroupRequest(e)) => assert_eq!(e.sub_type, "add"),
        other => panic!("unexpected: {:?}", other),
    }
    let meta = r#"{"post_type":"meta_event","meta_event_type":"heartbeat","status":"ok",
        "interval":5000,"self_id":1,"time":2,"message_type":"private"}"#;
    match classify(meta) {
        Ok(Event::MetaEvent(e)) => {
            assert_eq!(e.interval, 5000);
            assert_eq!(e.meta_event_type, "heartbeat");
            assert_eq!(e.status, "ok");
        }
        other => panic!("unexpected: {:?}", other),
    }
}

#[test]
fn from_str_parses_then_classifies() {
    match Event::from_str(&group_message("")) {
        Ok(Event::GroupMessage(e)) => assert_eq!(e.group_id, 10),
        other => panic!("unexpected: {:?}", other),
    }
    assert!(matches!(Event::from_str(r#"{"post_type":"x"}"#), Ok(Event::Unknown)));
    assert!(matches!(Event::from_str("{not json"), Err(Error::Serde(_))));
    assert!(matches!(Event::from_str(""), Err(Error::Serde(_))));
    assert!(matches!(
        Event::from_str("{}"),
        Err(Error::Classification(ClassificationError::MissingDiscriminator))
    ));
    assert!(matches!(
        Event::from_str(r#"{"post_type":"meta_event"}"#),
        Err(Error::Classification(ClassificationError::MalformedPayload(
            "MetaEvent",
            PayloadFault::MissingField("self_id")
        )))
    ));
}

#[test]
fn kind_and_name_of_events() {
    let e = classify(&group_message("")).unwrap();
    assert_eq!(e.kind(), EventKind::GroupMessage);
    assert_eq!(e.kind().name(), "GroupMessage");
    assert_eq!(Event::Unknown.kind(), EventKind::Unknown);
    assert_eq!(EventKind::Unknown.name(), "Unknown");
    assert_eq!(EventKind::OfflineFileUpload.name(), "OfflineFileUpload");
}

#[test]
fn discriminators_select_the_kind() {
    assert_eq!(secondary("message"), Some("message_type"));
    assert_eq!(secondary("notice"), Some("notice_type"));
    assert_eq!(secondary("request"), Some("request_type"));
    assert_eq!(secondary("meta_event"), None);
    assert_eq!(secondary("other"), None);
    assert_eq!(select("message", "private"), EventKind::PrivateMessage);
    assert_eq!(select("message", "group"), EventKind::GroupMessage);
    assert_eq!(select("message", "friend"), EventKind::Unknown);
    assert_eq!(select("notice", "poke"), EventKind::GroupPoke);
    assert_eq!(select("notice", "group"), EventKind::Unknown);
    assert_eq!(select("request", "friend"), EventKind::FriendRequest);
    assert_eq!(select("request", "group"), EventKind::GroupRequest);
    assert_eq!(select("meta_event", ""), EventKind::MetaEvent);
    assert_eq!(select("meta_event", "private"), EventKind::MetaEvent);
    assert_eq!(select("", "private"), EventKind::Unknown);
}

#[test]
fn records_decode_on_their_own() {
    let s = Sender::decode(&value(SENDER)).unwrap();
    assert_eq!((s.age, s.user_id), (18, 20));
    assert_eq!(
        Sender::decode(&value(r#"{"age":"18"}"#)).unwrap_err(),
        PayloadFault::InvalidField("age")
    );
    assert_eq!(Sender::decode(&value("3")).unwrap_err(), PayloadFault::MissingField("age"));
    let f = FileInfo::decode(&value(r#"{"id":"i","name":"n","size":1,"busid":2,"more":[]}"#)).unwrap();
    assert_eq!(f.busid, 2);
    let o = OfflineFile::decode(&value(r#"{"name":"n","size":1,"url":"u"}"#)).unwrap();
    assert_eq!(o.size, 1);
    let a = Anonymous::decode(&value(r#"{"id":1,"name":"n","flag":"f"}"#)).unwrap();
    assert_eq!(a.id, 1);
    assert!(matches!(Event::decode(EventKind::Unknown, &value("null")), Ok(Event::Unknown)));
}
