use cqhttp::text::{chars_of, int_to_string, replace};
use cqhttp::{escape, unescape, Attributes, Message, MessageSegment};

#[test]
fn escape_replaces_the_four_reserved_characters() {
    assert_eq!(escape("a,b[c]d&e", true), "a&#44;b&#91;c&#93;d&amp;e");
}

#[test]
fn escape_without_comma_keeps_commas() {
    assert_eq!(escape("a,b[c]d&e", false), "a,b&#91;c&#93;d&amp;e");
}

#[test]
fn escape_does_not_escape_its_own_ampersands() {
    assert_eq!(escape("[", true), "&#91;");
    assert_eq!(escape("&#91;", true), "&amp;#91;");
    assert_eq!(escape("", true), "");
    assert_eq!(escape("plain text", true), "plain text");
}

#[test]
fn unescape_reverses_escape() {
    for s in ["", "plain", "a,b[c]d&e", "&amp;", "&#44;", "&&&", "[[]],,", "&amp;#91;", "x&#9", "é[漢]&"] {
        assert_eq!(unescape(&escape(s, true)), s);
        assert_eq!(unescape(&escape(s, false)), s);
    }
}

#[test]
fn unescape_decodes_ampersand_last() {
    assert_eq!(unescape("&amp;#44;"), "&#44;");
    assert_eq!(unescape("&#44;&#91;&#93;&amp;"), ",[]&");
    assert_eq!(unescape("&am&amp;p;"), "&am&p;");
    assert_eq!(unescape("no entity & here"), "no entity & here");
}

#[test]
fn replace_scans_from_the_left_without_overlap() {
    assert_eq!(replace("aaa", "aa", "b"), "ba");
    assert_eq!(replace("abcabc", "bc", ""), "aa");
    assert_eq!(replace("abc", "", "x"), "abc");
    assert_eq!(replace("ab", "abc", "x"), "ab");
    assert_eq!(replace("", "a", "x"), "");
    assert_eq!(replace("xyz", "xyz", "1"), "1");
}

#[test]
fn chars_of_lists_the_characters() {
    assert_eq!(chars_of("a漢b"), vec!['a', '漢', 'b']);
    assert_eq!(chars_of(""), Vec::<char>::new());
}

#[test]
fn decimal_notation() {
    assert_eq!(int_to_string(0), "0");
    assert_eq!(int_to_string(7), "7");
    assert_eq!(int_to_string(10), "10");
    assert_eq!(int_to_string(-1), "-1");
    assert_eq!(int_to_string(1234567890), "1234567890");
    assert_eq!(int_to_string(i64::MAX), "9223372036854775807");
    assert_eq!(int_to_string(i64::MIN), "-9223372036854775808");
}

#[test]
fn text_message_has_no_brackets() {
    assert_eq!(Message::from("hello").to_string(), "hello");
    assert_eq!(Message::from(String::from("a[b],&c")).to_string(), "a[b],&c");
}

#[test]
fn at_segment_markup() {
    let mut m = Message::new();
    m.append(MessageSegment::at(123));
    assert_eq!(m.to_string(), "[CQ:at,qq=123]");
}

#[test]
fn segments_are_concatenated_in_order() {
    let mut m = Message::new();
    assert_eq!(m.to_string(), "");
    m.append(MessageSegment::text("hi "));
    m.append(MessageSegment::at(42));
    m.append(MessageSegment::face(&3));
    m.append(MessageSegment::text("!"));
    assert_eq!(m.to_string(), "hi [CQ:at,qq=42][CQ:face,id=3]!");
}

#[test]
fn builders_set_kind_and_attributes() {
    let face = MessageSegment::face(&-5);
    assert_eq!(face.name(), "face");
    assert_eq!(face.data().get("id"), Some(&"-5".to_string()));
    assert_eq!(face.data().len(), 1);
    let emoji = MessageSegment::emoji(128512);
    assert_eq!(emoji.to_string(), "[CQ:emoji,id=128512]");
    let rps = MessageSegment::rps();
    assert_eq!(rps.name(), "rps");
    assert_eq!(rps.data().len(), 0);
    assert_eq!(rps.to_string(), "[CQ:rps]");
    let text = MessageSegment::text("a,b");
    assert_eq!(text.name(), "text");
    assert_eq!(text.data().get("text"), Some(&"a,b".to_string()));
    assert_eq!(text.to_string(), "a,b");
}

#[test]
fn image_sets_only_what_is_given() {
    let all = MessageSegment::image("http://a/b.png", Some(true), Some(40000), Some("flash"), Some(1));
    assert_eq!(
        all.to_string(),
        "[CQ:image,file=http://a/b.png,cache=1,id=40000,type=flash,subType=1]"
    );
    let none = MessageSegment::image("f", None, None, None, None);
    assert_eq!(none.to_string(), "[CQ:image,file=f]");
    let some = MessageSegment::image("f", Some(false), None, Some("show"), None);
    assert_eq!(some.to_string(), "[CQ:image,file=f,cache=0,type=show]");
}

#[test]
fn record_sets_only_what_is_given() {
    let all = MessageSegment::record("r.amr", Some(true), Some(false), Some(true), Some(-10));
    assert_eq!(all.to_string(), "[CQ:record,file=r.amr,magic=1,cache=0,proxy=1,timeout=-10]");
    let none = MessageSegment::record("r.amr", None, None, None, None);
    assert_eq!(none.to_string(), "[CQ:record,file=r.amr]");
    let last = MessageSegment::record("r.amr", None, None, None, Some(30));
    assert_eq!(last.to_string(), "[CQ:record,file=r.amr,timeout=30]");
}

#[test]
fn attribute_values_are_escaped_and_names_are_not() {
    let mut data = Attributes::new();
    data.insert("file".to_string(), "a,b[c]&d".to_string());
    data.insert("k".to_string(), "v".to_string());
    let seg = MessageSegment::new("image", Some(data));
    assert_eq!(seg.to_string(), "[CQ:image,file=a&#44;b&#91;c&#93;&amp;d,k=v]");
}

#[test]
fn attributes_keep_insertion_order_and_replace_in_place() {
    let mut data = Attributes::new();
    assert_eq!(data.len(), 0);
    assert_eq!(data.insert("b".to_string(), "1".to_string()), None);
    assert_eq!(data.insert("a".to_string(), "2".to_string()), None);
    assert_eq!(data.insert("b".to_string(), "3".to_string()), Some("1".to_string()));
    assert_eq!(data.len(), 2);
    assert_eq!(data.get("b"), Some(&"3".to_string()));
    assert_eq!(data.get("a"), Some(&"2".to_string()));
    assert_eq!(data.get("c"), None);
    assert_eq!(data.entry(0), Some((&"b".to_string(), &"3".to_string())));
    assert_eq!(data.entry(1), Some((&"a".to_string(), &"2".to_string())));
    assert_eq!(data.entry(2), None);
    let copy = data.clone();
    assert_eq!(copy, data);
    assert_eq!(Attributes::default().len(), 0);
}

#[test]
fn segment_without_data_has_none() {
    let seg = MessageSegment::new("shake", None);
    assert_eq!(seg.name(), "shake");
    assert_eq!(seg.data().len(), 0);
    assert_eq!(seg.to_string(), "[CQ:shake]");
    let empty = MessageSegment::default();
    assert_eq!(empty.name(), "");
    assert_eq!(Message::default().to_string(), "");
}

#[test]
fn segment_to_json_and_back() {
    let seg = MessageSegment::image("u", Some(true), None, Some("flash"), None);
    let json = seg.to_json();
    assert_eq!(json, r#"{"data":{"cache":"1","file":"u","type":"flash"},"type":"image"}"#);
    let back = MessageSegment::from_json(&json).unwrap();
    assert_eq!(back.name(), "image");
    assert_eq!(back.data().len(), 3);
    assert_eq!(back.data().get("file"), Some(&"u".to_string()));
    assert_eq!(back.data().get("cache"), Some(&"1".to_string()));
    assert_eq!(back.data().get("type"), Some(&"flash".to_string()));
}

#[test]
fn test_json() {
    let mut data = Attributes::new();
    data.insert("text".to_string(), "hello".to_string());
    let code = MessageSegment::new("text", Some(data));
    let s = code.to_json();
    println!("{}", s);
    let code: MessageSegment = MessageSegment::from_json(&s).unwrap();
    println!("{:?}", code);
}

#[test]
fn test_image() {
    let code = MessageSegment::image("http://www.baidu.com", Some(true), Some(40000), Some("flash"), Some(1));
    println!("{}", code.to_string());
    let json = code.to_json();
    println!("{}", json);
}

#[test]
fn test_record() {
    let code = MessageSegment::record("http://www.baidu.com", Some(true), Some(true), Some(true), Some(10));
    println!("{}", code.to_string());
    let json = code.to_json();
    println!("{}", json);
}
