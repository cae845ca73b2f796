//! Rich messages: ordered segments with attributes, and their encoding into
//! the gateway's inline markup.

use vstd::prelude::*;
use crate::attributes::{has_key, lemma_put_fresh, put, value_of, Attributes, Pairs};
use crate::error::{ClassificationError, Error, PayloadFault};
use crate::escape::{escape, escaped, lemma_escaped_plain, reserved};
use crate::json::{
    as_text, empty_object, json_parse, json_text, member, member_names, member_of, member_order,
    parse, set_member, text_value, to_text, value_model, JsonView,
};
use crate::payload::{
    object_at, read_record, read_text, record_fault, text_at, text_fault, Scan,
};
use crate::text::{decimal, digit_char, int_to_string, lemma_decimal_chars, str_eq};

verus! {

/// The model of a segment: its kind and its attributes in insertion order.
pub struct SegmentView {
    pub name: Seq<char>,
    pub data: Pairs,
}

/// The attributes that a `text` segment must have: `text` and nothing else.
pub open spec fn text_data(data: Pairs) -> bool {
    data.len() == 1 && data[0].0 == "text"@
}

/// A segment is well formed when it is no `text` segment, or holds exactly
/// the attribute `text`.
pub open spec fn well_formed(seg: SegmentView) -> bool {
    seg.name == "text"@ ==> text_data(seg.data)
}

/// The markup of the attributes: `,name=value` for each in order, the value
/// escaped with commas.
pub open spec fn attributes_markup(data: Pairs) -> Seq<char>
    decreases data.len(),
{
    if data.len() == 0 {
        Seq::empty()
    } else {
        attributes_markup(data.drop_last()) + ","@ + data.last().0 + "="@ + escaped(
            data.last().1,
            true,
        )
    }
}

/// The markup of one segment: the raw text of a `text` segment, and
/// `[CQ:kind,name=value,...]` for any other.
pub open spec fn segment_markup(seg: SegmentView) -> Seq<char> {
    if seg.name == "text"@ {
        value_of(seg.data, "text"@)
    } else {
        "[CQ:"@ + seg.name + attributes_markup(seg.data) + "]"@
    }
}

/// The markup of a message: the markup of its segments, one after another.
pub open spec fn message_markup(segments: Seq<SegmentView>) -> Seq<char>
    decreases segments.len(),
{
    if segments.len() == 0 {
        Seq::empty()
    } else {
        message_markup(segments.drop_last()) + segment_markup(segments.last())
    }
}

/// The JSON members that stand for the attributes: one string for each.
pub open spec fn attributes_json(data: Pairs) -> Map<Seq<char>, JsonView>
    decreases data.len(),
{
    if data.len() == 0 {
        Map::empty()
    } else {
        attributes_json(data.drop_last()).insert(data.last().0, JsonView::Str(data.last().1))
    }
}

/// The JSON form of a segment: an object with the kind under `type` and the
/// attributes, as an object of strings, under `data`.
pub open spec fn segment_json(seg: SegmentView) -> JsonView {
    JsonView::Object(
        Map::empty().insert("type"@, JsonView::Str(seg.name)).insert(
            "data"@,
            JsonView::Object(attributes_json(seg.data)),
        ),
    )
}

/// Whether every member of `data` is a string.
pub open spec fn all_strings(data: JsonView) -> bool {
    forall|key: Seq<char>| #[trigger]
        member_of(data, key) is Some ==> member_of(data, key)->Some_0 is Str
}

/// The attributes that the object `data` stands for: its members in the
/// order in which they are walked.
pub open spec fn data_pairs(data: JsonView) -> Pairs {
    Seq::new(
        member_order(data).len(),
        |i: int| (member_order(data)[i], text_at(data, member_order(data)[i])),
    )
}

/// The first fault that keeps `json` from being read as a segment, if there
/// is one: `type` must be a string and `data` an object of strings, and a
/// segment of kind `text` must hold the attribute `text` and no other.
pub open spec fn segment_fault(json: JsonView) -> Option<PayloadFault> {
    let data = object_at(json, "data"@);
    Scan::of(json).text("type").check(record_fault(json, "data", None)).check(
        if all_strings(data) && well_formed(
            SegmentView { name: text_at(json, "type"@), data: data_pairs(data) },
        ) {
            None
        } else {
            Some(PayloadFault::InvalidField("data"))
        },
    ).fault
}

/// How a flag is written as an attribute value: `1` for true, `0` for false.
pub open spec fn flag(b: bool) -> Seq<char> {
    decimal(
        if b {
            1
        } else {
            0
        },
    )
}

/// `data` with the pair appended when `value` is present.
pub open spec fn with_optional(data: Pairs, name: Seq<char>, value: Option<Seq<char>>) -> Pairs {
    match value {
        Some(v) => data.push((name, v)),
        None => data,
    }
}

/// The attributes of an `image` segment.
pub open spec fn image_data(
    file: Seq<char>,
    cache: Option<bool>,
    id: Option<u32>,
    ty: Option<Seq<char>>,
    sub_type: Option<u32>,
) -> Pairs {
    let a = seq![("file"@, file)];
    let b = with_optional(
        a,
        "cache"@,
        match cache {
            Some(c) => Some(flag(c)),
            None => None,
        },
    );
    let c = with_optional(
        b,
        "id"@,
        match id {
            Some(n) => Some(decimal(n as int)),
            None => None,
        },
    );
    let d = with_optional(c, "type"@, ty);
    with_optional(
        d,
        "subType"@,
        match sub_type {
            Some(n) => Some(decimal(n as int)),
            None => None,
        },
    )
}

/// The attributes of a `record` segment.
pub open spec fn record_data(
    file: Seq<char>,
    magic: Option<bool>,
    cache: Option<bool>,
    proxy: Option<bool>,
    timeout: Option<i32>,
) -> Pairs {
    let a = seq![("file"@, file)];
    let b = with_optional(
        a,
        "magic"@,
        match magic {
            Some(f) => Some(flag(f)),
            None => None,
        },
    );
    let c = with_optional(
        b,
        "cache"@,
        match cache {
            Some(f) => Some(flag(f)),
            None => None,
        },
    );
    let d = with_optional(
        c,
        "proxy"@,
        match proxy {
            Some(f) => Some(flag(f)),
            None => None,
        },
    );
    with_optional(
        d,
        "timeout"@,
        match timeout {
            Some(n) => Some(decimal(n as int)),
            None => None,
        },
    )
}

proof fn lemma_attribute_names()
    ensures
        "text"@.len() == 4,
        ""@.len() == 0,
        "face"@ != "text"@,
        "at"@ != "text"@,
        "emoji"@ != "text"@,
        "image"@ != "text"@,
        "record"@ != "text"@,
        "rps"@ != "text"@,
        "file"@.len() == 4 && "file"@[0] == 'f',
        "cache"@.len() == 5,
        "id"@.len() == 2,
        "type"@.len() == 4 && "type"@[0] == 't',
        "subType"@.len() == 7,
        "magic"@.len() == 5 && "magic"@[0] == 'm',
        "cache"@[0] == 'c',
        "proxy"@.len() == 5 && "proxy"@[0] == 'p',
        "timeout"@.len() == 7,
{
    reveal_strlit("text");
    reveal_strlit("");
    reveal_strlit("face");
    reveal_strlit("at");
    reveal_strlit("emoji");
    reveal_strlit("image");
    reveal_strlit("record");
    reveal_strlit("rps");
    reveal_strlit("file");
    reveal_strlit("cache");
    reveal_strlit("id");
    reveal_strlit("type");
    reveal_strlit("subType");
    reveal_strlit("magic");
    reveal_strlit("proxy");
    reveal_strlit("timeout");
    assert("face"@[0] != "text"@[0]);
}

/// One unit of a rich message: a kind and its attributes.
#[derive(Debug, PartialEq)]
pub struct MessageSegment {
    name: String,
    data: Attributes,
}

impl View for MessageSegment {
    type V = SegmentView;

    closed spec fn view(&self) -> SegmentView {
        SegmentView { name: self.name@, data: self.data@ }
    }
}

impl MessageSegment {
    #[verifier::type_invariant]
    spec fn text_holds_text(self) -> bool {
        well_formed(self@)
    }

    /// A segment of kind `name` with the attributes `data`, or with none.
    /// A segment of kind `text` must come with exactly the attribute `text`.
    pub fn new(name: &str, data: Option<Attributes>) -> (r: MessageSegment)
        requires
            name@ == "text"@ ==> (data matches Some(d) && text_data(d@)),
        ensures
            r@.name == name@,
            r@.data == match data {
                Some(d) => d@,
                None => Pairs::empty(),
            },
    {
        let data = match data {
            Some(d) => d,
            None => Attributes::new(),
        };
        MessageSegment { name: name.to_owned(), data }
    }

    /// The kind of the segment.
    pub fn name(&self) -> (r: String)
        ensures
            r@ == self@.name,
            well_formed(self@),
    {
        proof {
            use_type_invariant(self);
        }
        self.name.clone()
    }

    /// The attributes of the segment.
    pub fn data(&self) -> (r: Attributes)
        ensures
            r@ == self@.data,
    {
        self.data.clone()
    }

    /// A run of plain text.
    pub fn text(text: &str) -> (r: MessageSegment)
        ensures
            r@ == (SegmentView { name: "text"@, data: seq![("text"@, text@)] }),
    {
        let mut data = Attributes::new();
        proof {
            lemma_put_fresh(data@, "text"@, text@);
        }
        data.insert("text".to_owned(), text.to_owned());
        MessageSegment::new("text", Some(data))
    }

    /// A built-in emoticon, by its number.
    pub fn face(id: &i32) -> (r: MessageSegment)
        ensures
            r@ == (SegmentView { name: "face"@, data: seq![("id"@, decimal(*id as int))] }),
    {
        let mut data = Attributes::new();
        proof {
            lemma_attribute_names();
            lemma_put_fresh(data@, "id"@, decimal(*id as int));
        }
        data.insert("id".to_owned(), int_to_string(*id as i64));
        MessageSegment::new("face", Some(data))
    }

    /// A mention of the account `qq`.
    pub fn at(qq: i64) -> (r: MessageSegment)
        ensures
            r@ == (SegmentView { name: "at"@, data: seq![("qq"@, decimal(qq as int))] }),
    {
        let mut data = Attributes::new();
        proof {
            lemma_attribute_names();
            lemma_put_fresh(data@, "qq"@, decimal(qq as int));
        }
        data.insert("qq".to_owned(), int_to_string(qq));
        MessageSegment::new("at", Some(data))
    }

    /// An emoji, by its number.
    pub fn emoji(id: i32) -> (r: MessageSegment)
        ensures
            r@ == (SegmentView { name: "emoji"@, data: seq![("id"@, decimal(id as int))] }),
    {
        let mut data = Attributes::new();
        proof {
            lemma_attribute_names();
            lemma_put_fresh(data@, "id"@, decimal(id as int));
        }
        data.insert("id".to_owned(), int_to_string(id as i64));
        MessageSegment::new("emoji", Some(data))
    }

    /// An image. `file` is its location; `cache` says whether a cached copy
    /// may be used, `id` picks a special effect, `ty` is `flash` or `show`,
    /// and `sub_type` is the image subtype of a group message. Only the
    /// attributes that are given are set.
    pub fn image(
        file: &str,
        cache: Option<bool>,
        id: Option<u32>,
        ty: Option<&str>,
        sub_type: Option<u32>,
    ) -> (r: MessageSegment)
        ensures
            r@ == (SegmentView {
                name: "image"@,
                data: image_data(
                    file@,
                    cache,
                    id,
                    match ty {
                        Some(t) => Some(t@),
                        None => None,
                    },
                    sub_type,
                ),
            }),
    {
        proof {
            lemma_attribute_names();
        }
        let mut data = Attributes::new();
        proof {
            lemma_put_fresh(data@, "file"@, file@);
        }
        data.insert("file".to_owned(), file.to_owned());
        if let Some(cache) = cache {
            proof {
                lemma_put_fresh(data@, "cache"@, flag(cache));
            }
            data.insert("cache".to_owned(), flag_to_string(cache));
        }
        if let Some(id) = id {
            proof {
                lemma_put_fresh(data@, "id"@, decimal(id as int));
            }
            data.insert("id".to_owned(), int_to_string(id as i64));
        }
        if let Some(ty) = ty {
            proof {
                lemma_put_fresh(data@, "type"@, ty@);
            }
            data.insert("type".to_owned(), ty.to_owned());
        }
        if let Some(sub_type) = sub_type {
            proof {
                lemma_put_fresh(data@, "subType"@, decimal(sub_type as int));
            }
            data.insert("subType".to_owned(), int_to_string(sub_type as i64));
        }
        MessageSegment::new("image", Some(data))
    }

    /// A voice recording. `file` is its location; `magic` asks for the voice
    /// changer, `cache` and `proxy` say whether a cached copy and a proxy may
    /// be used, and `timeout` bounds the download in seconds. Only the
    /// attributes that are given are set.
    pub fn record(
        file: &str,
        magic: Option<bool>,
        cache: Option<bool>,
        proxy: Option<bool>,
        timeout: Option<i32>,
    ) -> (r: MessageSegment)
        ensures
            r@ == (SegmentView {
                name: "record"@,
                data: record_data(file@, magic, cache, proxy, timeout),
            }),
    {
        proof {
            lemma_attribute_names();
        }
        let mut data = Attributes::new();
        proof {
            lemma_put_fresh(data@, "file"@, file@);
        }
        data.insert("file".to_owned(), file.to_owned());
        if let Some(magic) = magic {
            proof {
                lemma_put_fresh(data@, "magic"@, flag(magic));
            }
            data.insert("magic".to_owned(), flag_to_string(magic));
        }
        if let Some(cache) = cache {
            proof {
                lemma_put_fresh(data@, "cache"@, flag(cache));
            }
            data.insert("cache".to_owned(), flag_to_string(cache));
        }
        if let Some(proxy) = proxy {
            proof {
                lemma_put_fresh(data@, "proxy"@, flag(proxy));
            }
            data.insert("proxy".to_owned(), flag_to_string(proxy));
        }
        if let Some(timeout) = timeout {
            proof {
                lemma_put_fresh(data@, "timeout"@, decimal(timeout as int));
            }
            data.insert("timeout".to_owned(), int_to_string(timeout as i64));
        }
        MessageSegment::new("record", Some(data))
    }

    /// A round of rock-paper-scissors.
    pub fn rps() -> (r: MessageSegment)
        ensures
            r@ == (SegmentView { name: "rps"@, data: Pairs::empty() }),
    {
        proof {
            lemma_attribute_names();
        }
        MessageSegment::new("rps", None)
    }

    /// The markup of the segment.
    pub fn to_string(&self) -> (r: String)
        ensures
            r@ == segment_markup(self@),
    {
        proof {
            use_type_invariant(self);
        }
        if str_eq(self.name.as_str(), "text") {
            assert(self.data@[0].0 == "text"@);
            match self.data.get("text") {
                Some(text) => text.clone(),
                None => String::new(),
            }
        } else {
            let mut s = "[CQ:".to_owned();
            s.append(self.name.as_str());
            let n = self.data.len();
            let mut i: usize = 0;
            while i < n
                invariant
                    i <= n,
                    n == self@.data.len(),
                    s@ == "[CQ:"@ + self@.name + attributes_markup(self@.data.subrange(0, i as int)),
                decreases n - i,
            {
                if let Some(pair) = self.data.entry(i) {
                    let value = escape(pair.1.as_str(), true);
                    proof {
                        let next = self@.data.subrange(0, i + 1);
                        assert(next.drop_last() =~= self@.data.subrange(0, i as int));
                        assert(next.last() == self@.data[i as int]);
                    }
                    s.append(",");
                    s.append(pair.0.as_str());
                    s.append("=");
                    s.append(value.as_str());
                    assert(s@ =~= "[CQ:"@ + self@.name + attributes_markup(
                        self@.data.subrange(0, i + 1),
                    ));
                }
                i += 1;
            }
            assert(self@.data.subrange(0, n as int) =~= self@.data);
            s.append("]");
            s
        }
    }
}

impl MessageSegment {
    /// The segment as JSON text.
    pub fn to_json(&self) -> (r: String)
        ensures
            r@ == json_text(segment_json(self@)),
    {
        let mut data = empty_object();
        let n = self.data.len();
        let mut i: usize = 0;
        while i < n
            invariant
                i <= n,
                n == self@.data.len(),
                value_model(data) == JsonView::Object(
                    attributes_json(self@.data.subrange(0, i as int)),
                ),
            decreases n - i,
        {
            if let Some(pair) = self.data.entry(i) {
                proof {
                    let next = self@.data.subrange(0, i + 1);
                    assert(next.drop_last() =~= self@.data.subrange(0, i as int));
                    assert(next.last() == self@.data[i as int]);
                }
                set_member(&mut data, pair.0.as_str(), text_value(pair.1.as_str()));
            }
            i += 1;
        }
        assert(self@.data.subrange(0, n as int) =~= self@.data);
        let mut json = empty_object();
        set_member(&mut json, "type", text_value(self.name.as_str()));
        set_member(&mut json, "data", data);
        to_text(&json)
    }

    /// Reads a segment from JSON text. Text that is no JSON gives
    /// `Error::Serde`; JSON that is no segment gives a malformed payload
    /// named `MessageSegment`.
    pub fn from_json(text: &str) -> (r: Result<MessageSegment, Error>)
        ensures
            match json_parse(text@) {
                None => r matches Err(Error::Serde(_)),
                Some(json) => match r {
                    Ok(seg) => segment_fault(json) is None && seg@ == (SegmentView {
                        name: text_at(json, "type"@),
                        data: data_pairs(object_at(json, "data"@)),
                    }),
                    Err(
                        Error::Classification(ClassificationError::MalformedPayload(name, fault)),
                    ) => name == "MessageSegment" && segment_fault(json) == Some(fault),
                    Err(_) => false,
                },
            },
    {
        let value = match parse(text) {
            Ok(value) => value,
            Err(message) => return Err(Error::Serde(message)),
        };
        match MessageSegment::from_value(&value) {
            Ok(seg) => Ok(seg),
            Err(fault) => Err(
                Error::Classification(
                    ClassificationError::MalformedPayload("MessageSegment", fault),
                ),
            ),
        }
    }

    /// Reads a segment from a JSON value: `type` gives the kind, and the
    /// members of `data`, in the order in which they are walked, give the
    /// attributes. The first fault found is returned where the value is no
    /// segment.
    pub fn from_value(v: &serde_json::Value) -> (r: Result<MessageSegment, PayloadFault>)
        ensures
            match r {
                Ok(seg) => segment_fault(value_model(*v)) is None && seg@ == (SegmentView {
                    name: text_at(value_model(*v), "type"@),
                    data: data_pairs(object_at(value_model(*v), "data"@)),
                }),
                Err(fault) => segment_fault(value_model(*v)) == Some(fault),
            },
    {
        let name = read_text(v, "type")?;
        let members = read_record(v, "data")?;
        let ghost data = value_model(*members);
        let names = member_names(members);
        let mut attributes = Attributes::new();
        let mut i: usize = 0;
        while i < names.len()
            invariant
                i <= names.len(),
                data == value_model(*members),
                data is Object,
                member_of(value_model(*v), "data"@) == Some(data),
                text_fault(value_model(*v), "type") is None,
                names@.len() == member_order(data).len(),
                forall|k: int|
                    0 <= k < names@.len() ==> (#[trigger] names@[k])@ == member_order(data)[k],
                forall|k: int, j: int|
                    0 <= k < j < names@.len() ==> (#[trigger] names@[k])@ != (
                    #[trigger] names@[j])@,
                forall|k: int|
                    0 <= k < names@.len() ==> member_of(data, (#[trigger] names@[k])@) is Some,
                attributes@ == data_pairs(data).subrange(0, i as int),
                forall|k: int|
                    0 <= k < i ==> member_of(data, (#[trigger] names@[k])@)->Some_0 is Str,
            decreases names.len() - i,
        {
            let key = &names[i];
            let value = match member(members, key.as_str()) {
                Some(m) => match as_text(m) {
                    Some(s) => s.to_owned(),
                    None => {
                        assert(!all_strings(data)) by {
                            assert(member_of(data, key@) is Some);
                        }
                        return Err(PayloadFault::InvalidField("data"));
                    },
                },
                None => {
                    return Err(PayloadFault::InvalidField("data"));
                },
            };
            proof {
                let so_far = attributes@;
                assert forall|k: int| 0 <= k < so_far.len() implies (#[trigger] so_far[k]).0
                    != key@ by {
                    assert(so_far[k].0 == names@[k]@);
                    assert(names@[k]@ != names@[i as int]@);
                }
                lemma_put_fresh(so_far, key@, value@);
                assert(so_far.push((key@, value@)) =~= data_pairs(data).subrange(0, i + 1));
            }
            attributes.insert(key.clone(), value);
            i += 1;
        }
        assert(data_pairs(data).subrange(0, names@.len() as int) =~= data_pairs(data));
        proof {
            assert forall|key: Seq<char>| #[trigger] member_of(data, key) is Some implies member_of(
                data,
                key,
            )->Some_0 is Str by {
                let k = choose|k: int| 0 <= k < names@.len() && (#[trigger] names@[k])@ == key;
                assert(member_of(data, names@[k]@)->Some_0 is Str);
            }
        }
        if str_eq(name.as_str(), "text") {
            let only_text = attributes.len() == 1 && attributes.get("text").is_some();
            if !only_text {
                return Err(PayloadFault::InvalidField("data"));
            }
            assert(attributes@[0].0 == "text"@);
        }
        Ok(MessageSegment::new(name.as_str(), Some(attributes)))
    }
}

fn flag_to_string(b: bool) -> (r: String)
    ensures
        r@ == flag(b),
{
    int_to_string(
        if b {
            1
        } else {
            0
        },
    )
}

impl Default for MessageSegment {
    fn default() -> (r: Self)
        ensures
            r@ == (SegmentView { name: ""@, data: Pairs::empty() }),
    {
        proof {
            lemma_attribute_names();
        }
        MessageSegment::new("", None)
    }
}

/// A rich message: segments in the order in which they are rendered.
pub struct Message {
    segments: Vec<MessageSegment>,
}

impl View for Message {
    type V = Seq<SegmentView>;

    closed spec fn view(&self) -> Seq<SegmentView> {
        Seq::new(self.segments@.len(), |i: int| self.segments@[i]@)
    }
}

impl Message {
    /// The empty message.
    pub fn new() -> (r: Self)
        ensures
            r@ == Seq::<SegmentView>::empty(),
    {
        let r = Message { segments: Vec::new() };
        assert(r@ =~= Seq::<SegmentView>::empty());
        r
    }

    /// Adds `seg` at the end of the message.
    pub fn append(&mut self, seg: MessageSegment)
        ensures
            final(self)@ == old(self)@.push(seg@),
    {
        self.segments.push(seg);
        assert(self@ =~= old(self)@.push(seg@));
    }

    /// The markup of the message.
    pub fn to_string(&self) -> (r: String)
        ensures
            r@ == message_markup(self@),
    {
        let mut msg = String::new();
        let mut i: usize = 0;
        while i < self.segments.len()
            invariant
                i <= self.segments.len(),
                msg@ == message_markup(self@.subrange(0, i as int)),
            decreases self.segments.len() - i,
        {
            let part = self.segments[i].to_string();
            proof {
                let next = self@.subrange(0, i + 1);
                assert(next.drop_last() =~= self@.subrange(0, i as int));
                assert(next.last() == self.segments@[i as int]@);
            }
            msg.append(part.as_str());
            i += 1;
        }
        assert(self@.subrange(0, self.segments.len() as int) =~= self@);
        msg
    }
}

impl From<String> for Message {
    /// The message of one `text` segment that holds `value`.
    fn from(value: String) -> (r: Message)
        ensures
            r@ == seq![SegmentView { name: "text"@, data: seq![("text"@, value@)] }],
    {
        let seg = MessageSegment::text(value.as_str());
        let mut msg = Message::new();
        msg.append(seg);
        msg
    }
}

/// What `from` returns is stated by its `ensures`, over the view: no ghost
/// expression builds a `Message`.
impl vstd::std_specs::convert::FromSpecImpl<String> for Message {
    open spec fn obeys_from_spec() -> bool {
        false
    }

    open spec fn from_spec(value: String) -> Message {
        arbitrary()
    }
}

impl From<&str> for Message {
    /// The message of one `text` segment that holds `value`.
    fn from(value: &str) -> (r: Message)
        ensures
            r@ == seq![SegmentView { name: "text"@, data: seq![("text"@, value@)] }],
    {
        let seg = MessageSegment::text(value);
        let mut msg = Message::new();
        msg.append(seg);
        msg
    }
}

/// What `from` returns is stated by its `ensures`, over the view: no ghost
/// expression builds a `Message`.
impl vstd::std_specs::convert::FromSpecImpl<&str> for Message {
    open spec fn obeys_from_spec() -> bool {
        false
    }

    open spec fn from_spec(value: &str) -> Message {
        arbitrary()
    }
}

/// A message that holds one `text` segment encodes to that text, unchanged:
/// plain text gets neither brackets nor escaping.
pub proof fn lemma_text_message_markup(text: Seq<char>)
    ensures
        message_markup(seq![SegmentView { name: "text"@, data: seq![("text"@, text)] }]) == text,
{
    let seg = SegmentView { name: "text"@, data: seq![("text"@, text)] };
    let m = seq![seg];
    assert(seg.data[0].0 == "text"@);
    assert(m.drop_last() =~= Seq::<SegmentView>::empty());
    assert(message_markup(m.drop_last()) =~= Seq::<char>::empty());
    assert(m.last() == seg);
    assert(Seq::<char>::empty() + text =~= text);
}

/// A mention is written `[CQ:at,qq=` and the number in decimal notation,
/// closed by a bracket: a number needs no escaping.
pub proof fn lemma_at_markup(qq: i64)
    ensures
        segment_markup(SegmentView { name: "at"@, data: seq![("qq"@, decimal(qq as int))] })
            == "[CQ:at,qq="@ + decimal(qq as int) + "]"@,
{
    let number = decimal(qq as int);
    let data = seq![("qq"@, number)];
    lemma_attribute_names();
    reveal_strlit("[CQ:at,qq=");
    reveal_strlit("[CQ:");
    reveal_strlit(",");
    reveal_strlit("qq");
    reveal_strlit("=");
    reveal_strlit("at");
    assert forall|i: int| 0 <= i < number.len() implies !reserved(#[trigger] number[i], true) by {
        lemma_decimal_chars(qq as int);
        let c = number[i];
        if c != '-' {
            let d = choose|d: int| 0 <= d <= 9 && c == digit_char(d);
            assert(c == digit_char(d));
        }
    }
    lemma_escaped_plain(number, true);
    assert(data.drop_last() =~= Pairs::empty());
    assert(attributes_markup(data.drop_last()) =~= Seq::<char>::empty());
    assert(attributes_markup(data) =~= ","@ + "qq"@ + "="@ + number);
    assert("[CQ:"@ + "at"@ + (","@ + "qq"@ + "="@ + number) + "]"@ =~= "[CQ:at,qq="@ + number
        + "]"@);
}

impl Default for Message {
    fn default() -> (r: Self)
        ensures
            r@ == Seq::<SegmentView>::empty(),
    {
        Message::new()
    }
}

} // verus!
