//! The events that the gateway pushes, and the classifier that decodes a JSON
//! payload into the event that its discriminators announce.

use vstd::prelude::*;
use crate::error::{ClassificationError, Error, PayloadFault};
use crate::json::{as_text, json_parse, member, member_of, parse, value_model, JsonView};
use crate::record::{
    FriendAdd, FriendMessageRecall, FriendPoke, FriendRequest, GroupAdminChange, GroupFileUpload,
    GroupMemberIncrease, GroupMemberReduce, GroupMessage, GroupMessageRecall, GroupMute,
    GroupPoke, GroupRequest, MetaEvent, OfflineFileUpload, PrivateMessage,
};
use crate::text::str_eq;

verus! {

/// Which event a payload is, without the event's fields.
#[derive(Debug, Clone, Copy, PartialEq, Eq)]
pub enum EventKind {
    PrivateMessage,
    GroupMessage,
    GroupFileUpload,
    GroupAdminChange,
    GroupMemberReduce,
    GroupMemberIncrease,
    GroupMute,
    FriendAdd,
    GroupMessageRecall,
    FriendMessageRecall,
    FriendPoke,
    GroupPoke,
    FriendRequest,
    GroupRequest,
    MetaEvent,
    OfflineFileUpload,
    Unknown,
}

impl EventKind {
    /// The name of the event.
    pub open spec fn spec_name(self) -> &'static str {
        match self {
            EventKind::PrivateMessage => "PrivateMessage",
            EventKind::GroupMessage => "GroupMessage",
            EventKind::GroupFileUpload => "GroupFileUpload",
            EventKind::GroupAdminChange => "GroupAdminChange",
            EventKind::GroupMemberReduce => "GroupMemberReduce",
            EventKind::GroupMemberIncrease => "GroupMemberIncrease",
            EventKind::GroupMute => "GroupMute",
            EventKind::FriendAdd => "FriendAdd",
            EventKind::GroupMessageRecall => "GroupMessageRecall",
            EventKind::FriendMessageRecall => "FriendMessageRecall",
            EventKind::FriendPoke => "FriendPoke",
            EventKind::GroupPoke => "GroupPoke",
            EventKind::FriendRequest => "FriendRequest",
            EventKind::GroupRequest => "GroupRequest",
            EventKind::MetaEvent => "MetaEvent",
            EventKind::OfflineFileUpload => "OfflineFileUpload",
            EventKind::Unknown => "Unknown",
        }
    }

    /// The name of the event.
    pub fn name(self) -> (r: &'static str)
        ensures
            r == self.spec_name(),
    {
        match self {
            EventKind::PrivateMessage => "PrivateMessage",
            EventKind::GroupMessage => "GroupMessage",
            EventKind::GroupFileUpload => "GroupFileUpload",
            EventKind::GroupAdminChange => "GroupAdminChange",
            EventKind::GroupMemberReduce => "GroupMemberReduce",
            EventKind::GroupMemberIncrease => "GroupMemberIncrease",
            EventKind::GroupMute => "GroupMute",
            EventKind::FriendAdd => "FriendAdd",
            EventKind::GroupMessageRecall => "GroupMessageRecall",
            EventKind::FriendMessageRecall => "FriendMessageRecall",
            EventKind::FriendPoke => "FriendPoke",
            EventKind::GroupPoke => "GroupPoke",
            EventKind::FriendRequest => "FriendRequest",
            EventKind::GroupRequest => "GroupRequest",
            EventKind::MetaEvent => "MetaEvent",
            EventKind::OfflineFileUpload => "OfflineFileUpload",
            EventKind::Unknown => "Unknown",
        }
    }

    /// The first fault that keeps `json` from being read as the record of
    /// this event, if there is one. An unknown event has no record.
    pub open spec fn fault(self, json: JsonView) -> Option<PayloadFault> {
        match self {
            EventKind::PrivateMessage => PrivateMessage::fault(json),
            EventKind::GroupMessage => GroupMessage::fault(json),
            EventKind::GroupFileUpload => GroupFileUpload::fault(json),
            EventKind::GroupAdminChange => GroupAdminChange::fault(json),
            EventKind::GroupMemberReduce => GroupMemberReduce::fault(json),
            EventKind::GroupMemberIncrease => GroupMemberIncrease::fault(json),
            EventKind::GroupMute => GroupMute::fault(json),
            EventKind::FriendAdd => FriendAdd::fault(json),
            EventKind::GroupMessageRecall => GroupMessageRecall::fault(json),
            EventKind::FriendMessageRecall => FriendMessageRecall::fault(json),
            EventKind::FriendPoke => FriendPoke::fault(json),
            EventKind::GroupPoke => GroupPoke::fault(json),
            EventKind::FriendRequest => FriendRequest::fault(json),
            EventKind::GroupRequest => GroupRequest::fault(json),
            EventKind::MetaEvent => MetaEvent::fault(json),
            EventKind::OfflineFileUpload => OfflineFileUpload::fault(json),
            EventKind::Unknown => None,
        }
    }
}

/// The member that tells payloads of one `post_type` apart, where there is
/// one: messages, notices and requests have a type of their own.
pub open spec fn secondary_key(post_type: Seq<char>) -> Option<&'static str> {
    if post_type == "message"@ {
        Some("message_type")
    } else if post_type == "notice"@ {
        Some("notice_type")
    } else if post_type == "request"@ {
        Some("request_type")
    } else {
        None
    }
}

/// The event that a message of type `message_type` is.
pub open spec fn message_kind(message_type: Seq<char>) -> EventKind {
    if message_type == "private"@ {
        EventKind::PrivateMessage
    } else if message_type == "group"@ {
        EventKind::GroupMessage
    } else {
        EventKind::Unknown
    }
}

/// The event that a notice of type `notice_type` is. Every poke is read as
/// a poke in a group.
pub open spec fn notice_kind(notice_type: Seq<char>) -> EventKind {
    if notice_type == "group_upload"@ {
        EventKind::GroupFileUpload
    } else if notice_type == "group_admin"@ {
        EventKind::GroupAdminChange
    } else if notice_type == "group_decrease"@ {
        EventKind::GroupMemberReduce
    } else if notice_type == "group_increase"@ {
        EventKind::GroupMemberIncrease
    } else if notice_type == "group_ban"@ {
        EventKind::GroupMute
    } else if notice_type == "friend_add"@ {
        EventKind::FriendAdd
    } else if notice_type == "group_recall"@ {
        EventKind::GroupMessageRecall
    } else if notice_type == "friend_recall"@ {
        EventKind::FriendMessageRecall
    } else if notice_type == "poke"@ {
        EventKind::GroupPoke
    } else if notice_type == "offline_file"@ {
        EventKind::OfflineFileUpload
    } else {
        EventKind::Unknown
    }
}

/// The event that a request of type `request_type` is.
pub open spec fn request_kind(request_type: Seq<char>) -> EventKind {
    if request_type == "friend"@ {
        EventKind::FriendRequest
    } else if request_type == "group"@ {
        EventKind::GroupRequest
    } else {
        EventKind::Unknown
    }
}

/// The event that the discriminators select. `secondary` is the value of
/// the member that `secondary_key` names, and is not looked at where there
/// is none.
pub open spec fn kind_of(post_type: Seq<char>, secondary: Seq<char>) -> EventKind {
    if post_type == "message"@ {
        message_kind(secondary)
    } else if post_type == "notice"@ {
        notice_kind(secondary)
    } else if post_type == "request"@ {
        request_kind(secondary)
    } else if post_type == "meta_event"@ {
        EventKind::MetaEvent
    } else {
        EventKind::Unknown
    }
}

/// The characters of the member `key` of `json`, if it is a string.
pub open spec fn discriminator(json: JsonView, key: Seq<char>) -> Option<Seq<char>> {
    match member_of(json, key) {
        Some(JsonView::Str(s)) => Some(s),
        _ => None,
    }
}

/// `kind`, unless `json` does not have the shape of its record.
pub open spec fn checked(kind: EventKind, json: JsonView) -> Result<EventKind, ClassificationError> {
    match kind.fault(json) {
        Some(fault) => Err(ClassificationError::MalformedPayload(kind.spec_name(), fault)),
        None => Ok(kind),
    }
}

/// What classifying `json` yields: the kind of the event, or the reason for
/// which there is none. A `post_type` that cannot be read is missing. A
/// `post_type` that selects no event gives `Unknown`, and so does the type
/// of a message, notice or request that selects none, or that is absent or
/// no string. A payload that a known event is selected for must have the
/// shape of that event's record.
pub open spec fn classification(json: JsonView) -> Result<EventKind, ClassificationError> {
    match discriminator(json, "post_type"@) {
        None => Err(ClassificationError::MissingDiscriminator),
        Some(post_type) => match secondary_key(post_type) {
            None => checked(kind_of(post_type, Seq::empty()), json),
            Some(key) => match discriminator(json, key@) {
                None => Ok(EventKind::Unknown),
                Some(secondary) => checked(kind_of(post_type, secondary), json),
            },
        },
    }
}

/// The member of a payload that tells payloads of `post_type` apart, where
/// there is one.
pub fn secondary(post_type: &str) -> (r: Option<&'static str>)
    ensures
        r == secondary_key(post_type@),
{
    if str_eq(post_type, "message") {
        Some("message_type")
    } else if str_eq(post_type, "notice") {
        Some("notice_type")
    } else if str_eq(post_type, "request") {
        Some("request_type")
    } else {
        None
    }
}

/// The event that the discriminators select.
pub fn select(post_type: &str, secondary: &str) -> (r: EventKind)
    ensures
        r == kind_of(post_type@, secondary@),
{
    if str_eq(post_type, "message") {
        if str_eq(secondary, "private") {
            EventKind::PrivateMessage
        } else if str_eq(secondary, "group") {
            EventKind::GroupMessage
        } else {
            EventKind::Unknown
        }
    } else if str_eq(post_type, "notice") {
        if str_eq(secondary, "group_upload") {
            EventKind::GroupFileUpload
        } else if str_eq(secondary, "group_admin") {
            EventKind::GroupAdminChange
        } else if str_eq(secondary, "group_decrease") {
            EventKind::GroupMemberReduce
        } else if str_eq(secondary, "group_increase") {
            EventKind::GroupMemberIncrease
        } else if str_eq(secondary, "group_ban") {
            EventKind::GroupMute
        } else if str_eq(secondary, "friend_add") {
            EventKind::FriendAdd
        } else if str_eq(secondary, "group_recall") {
            EventKind::GroupMessageRecall
        } else if str_eq(secondary, "friend_recall") {
            EventKind::FriendMessageRecall
        } else if str_eq(secondary, "poke") {
            EventKind::GroupPoke
        } else if str_eq(secondary, "offline_file") {
            EventKind::OfflineFileUpload
        } else {
            EventKind::Unknown
        }
    } else if str_eq(post_type, "request") {
        if str_eq(secondary, "friend") {
            EventKind::FriendRequest
        } else if str_eq(secondary, "group") {
            EventKind::GroupRequest
        } else {
            EventKind::Unknown
        }
    } else if str_eq(post_type, "meta_event") {
        EventKind::MetaEvent
    } else {
        EventKind::Unknown
    }
}

/// An event pushed by the gateway.
#[derive(Debug)]
pub enum Event {
    PrivateMessage(PrivateMessage),
    GroupMessage(GroupMessage),
    GroupFileUpload(GroupFileUpload),
    GroupAdminChange(GroupAdminChange),
    GroupMemberReduce(GroupMemberReduce),
    GroupMemberIncrease(GroupMemberIncrease),
    GroupMute(GroupMute),
    FriendAdd(FriendAdd),
    GroupMessageRecall(GroupMessageRecall),
    FriendMessageRecall(FriendMessageRecall),
    FriendPoke(FriendPoke),
    GroupPoke(GroupPoke),
    FriendRequest(FriendRequest),
    GroupRequest(GroupRequest),
    MetaEvent(MetaEvent),
    OfflineFileUpload(OfflineFileUpload),
    Unknown,
}

/// A message event.
pub enum MsgEvent {
    PrivateMessage(PrivateMessage),
    GroupMessage(GroupMessage),
}

impl Event {
    /// Which event this is.
    pub open spec fn spec_kind(&self) -> EventKind {
        match self {
            Event::PrivateMessage(_) => EventKind::PrivateMessage,
            Event::GroupMessage(_) => EventKind::GroupMessage,
            Event::GroupFileUpload(_) => EventKind::GroupFileUpload,
            Event::GroupAdminChange(_) => EventKind::GroupAdminChange,
            Event::GroupMemberReduce(_) => EventKind::GroupMemberReduce,
            Event::GroupMemberIncrease(_) => EventKind::GroupMemberIncrease,
            Event::GroupMute(_) => EventKind::GroupMute,
            Event::FriendAdd(_) => EventKind::FriendAdd,
            Event::GroupMessageRecall(_) => EventKind::GroupMessageRecall,
            Event::FriendMessageRecall(_) => EventKind::FriendMessageRecall,
            Event::FriendPoke(_) => EventKind::FriendPoke,
            Event::GroupPoke(_) => EventKind::GroupPoke,
            Event::FriendRequest(_) => EventKind::FriendRequest,
            Event::GroupRequest(_) => EventKind::GroupRequest,
            Event::MetaEvent(_) => EventKind::MetaEvent,
            Event::OfflineFileUpload(_) => EventKind::OfflineFileUpload,
            Event::Unknown => EventKind::Unknown,
        }
    }

    /// The record of the event holds the members of `json`.
    pub open spec fn decodes(&self, json: JsonView) -> bool {
        match self {
            Event::PrivateMessage(e) => e.decodes(json),
            Event::GroupMessage(e) => e.decodes(json),
            Event::GroupFileUpload(e) => e.decodes(json),
            Event::GroupAdminChange(e) => e.decodes(json),
            Event::GroupMemberReduce(e) => e.decodes(json),
            Event::GroupMemberIncrease(e) => e.decodes(json),
            Event::GroupMute(e) => e.decodes(json),
            Event::FriendAdd(e) => e.decodes(json),
            Event::GroupMessageRecall(e) => e.decodes(json),
            Event::FriendMessageRecall(e) => e.decodes(json),
            Event::FriendPoke(e) => e.decodes(json),
            Event::GroupPoke(e) => e.decodes(json),
            Event::FriendRequest(e) => e.decodes(json),
            Event::GroupRequest(e) => e.decodes(json),
            Event::MetaEvent(e) => e.decodes(json),
            Event::OfflineFileUpload(e) => e.decodes(json),
            Event::Unknown => true,
        }
    }

    /// Which event this is.
    pub fn kind(&self) -> (r: EventKind)
        ensures
            r == self.spec_kind(),
    {
        match self {
            Event::PrivateMessage(_) => EventKind::PrivateMessage,
            Event::GroupMessage(_) => EventKind::GroupMessage,
            Event::GroupFileUpload(_) => EventKind::GroupFileUpload,
            Event::GroupAdminChange(_) => EventKind::GroupAdminChange,
            Event::GroupMemberReduce(_) => EventKind::GroupMemberReduce,
            Event::GroupMemberIncrease(_) => EventKind::GroupMemberIncrease,
            Event::GroupMute(_) => EventKind::GroupMute,
            Event::FriendAdd(_) => EventKind::FriendAdd,
            Event::GroupMessageRecall(_) => EventKind::GroupMessageRecall,
            Event::FriendMessageRecall(_) => EventKind::FriendMessageRecall,
            Event::FriendPoke(_) => EventKind::FriendPoke,
            Event::GroupPoke(_) => EventKind::GroupPoke,
            Event::FriendRequest(_) => EventKind::FriendRequest,
            Event::GroupRequest(_) => EventKind::GroupRequest,
            Event::MetaEvent(_) => EventKind::MetaEvent,
            Event::OfflineFileUpload(_) => EventKind::OfflineFileUpload,
            Event::Unknown => EventKind::Unknown,
        }
    }

    /// Reads `v` as the record of the event `kind`.
    pub fn decode(kind: EventKind, v: &serde_json::Value) -> (r: Result<Event, PayloadFault>)
        ensures
            match r {
                Ok(e) => kind.fault(value_model(*v)) is None && e.spec_kind() == kind && e.decodes(
                    value_model(*v),
                ),
                Err(f) => kind.fault(value_model(*v)) == Some(f),
            },
    {
        match kind {
            EventKind::PrivateMessage => Ok(Event::PrivateMessage(PrivateMessage::decode(v)?)),
            EventKind::GroupMessage => Ok(Event::GroupMessage(GroupMessage::decode(v)?)),
            EventKind::GroupFileUpload => Ok(Event::GroupFileUpload(GroupFileUpload::decode(v)?)),
            EventKind::GroupAdminChange => Ok(Event::GroupAdminChange(GroupAdminChange::decode(v)?)),
            EventKind::GroupMemberReduce => Ok(Event::GroupMemberReduce(GroupMemberReduce::decode(v)?)),
            EventKind::GroupMemberIncrease => Ok(Event::GroupMemberIncrease(GroupMemberIncrease::decode(v)?)),
            EventKind::GroupMute => Ok(Event::GroupMute(GroupMute::decode(v)?)),
            EventKind::FriendAdd => Ok(Event::FriendAdd(FriendAdd::decode(v)?)),
            EventKind::GroupMessageRecall => Ok(Event::GroupMessageRecall(GroupMessageRecall::decode(v)?)),
            EventKind::FriendMessageRecall => Ok(Event::FriendMessageRecall(FriendMessageRecall::decode(v)?)),
            EventKind::FriendPoke => Ok(Event::FriendPoke(FriendPoke::decode(v)?)),
            EventKind::GroupPoke => Ok(Event::GroupPoke(GroupPoke::decode(v)?)),
            EventKind::FriendRequest => Ok(Event::FriendRequest(FriendRequest::decode(v)?)),
            EventKind::GroupRequest => Ok(Event::GroupRequest(GroupRequest::decode(v)?)),
            EventKind::MetaEvent => Ok(Event::MetaEvent(MetaEvent::decode(v)?)),
            EventKind::OfflineFileUpload => Ok(Event::OfflineFileUpload(OfflineFileUpload::decode(v)?)),
            EventKind::Unknown => Ok(Event::Unknown),
        }
    }

    /// Parses `v` as JSON and classifies the payload. Text that is no JSON
    /// gives `Error::Serde`; a payload that cannot be classified gives
    /// `Error::Classification`.
    pub fn from_str(v: &str) -> (r: Result<Event, Error>)
        ensures
            match json_parse(v@) {
                None => r matches Err(Error::Serde(_)),
                Some(json) => match r {
                    Ok(e) => classification(json) == Ok::<EventKind, ClassificationError>(
                        e.spec_kind(),
                    ) && e.decodes(json),
                    Err(Error::Classification(c)) => classification(json) == Err::<
                        EventKind,
                        ClassificationError,
                    >(c),
                    Err(_) => false,
                },
            },
    {
        match parse(v) {
            Err(message) => Err(Error::Serde(message)),
            Ok(value) => match get_event(&value) {
                Ok(e) => Ok(e),
                Err(c) => Err(Error::Classification(c)),
            },
        }
    }
}

fn read_discriminator<'a>(v: &'a serde_json::Value, key: &str) -> (r: Option<&'a str>)
    ensures
        match r {
            Some(s) => discriminator(value_model(*v), key@) == Some(s@),
            None => discriminator(value_model(*v), key@) is None,
        },
{
    match member(v, key) {
        Some(m) => as_text(m),
        None => None,
    }
}

/// Classifies a payload: reads `post_type` and, for messages, notices and
/// requests, the type of their own, and decodes the payload into the record
/// of the event that they select. Only an unreadable `post_type` is a
/// missing discriminator: a message, notice or request whose own type is
/// absent or no string is `Unknown`.
pub fn get_event(event: &serde_json::Value) -> (r: Result<Event, ClassificationError>)
    ensures
        match r {
            Ok(e) => classification(value_model(*event)) == Ok::<EventKind, ClassificationError>(
                e.spec_kind(),
            ) && e.decodes(value_model(*event)),
            Err(c) => classification(value_model(*event)) == Err::<EventKind, ClassificationError>(
                c,
            ),
        },
{
    let post_type = match read_discriminator(event, "post_type") {
        Some(s) => s,
        None => return Err(ClassificationError::MissingDiscriminator),
    };
    let kind = match secondary(post_type) {
        None => select(post_type, ""),
        Some(key) => match read_discriminator(event, key) {
            Some(s) => select(post_type, s),
            None => EventKind::Unknown,
        },
    };
    match Event::decode(kind, event) {
        Ok(e) => Ok(e),
        Err(fault) => Err(ClassificationError::MalformedPayload(kind.name(), fault)),
    }
}

/// A payload whose `post_type` is a string other than `message`, `notice`,
/// `request` and `meta_event` is classified as `Unknown`, whatever else it
/// holds: an unrecognized `post_type` is never an error.
pub proof fn lemma_unrecognized_post_type(json: JsonView, post_type: Seq<char>)
    requires
        discriminator(json, "post_type"@) == Some(post_type),
        post_type != "message"@,
        post_type != "notice"@,
        post_type != "request"@,
        post_type != "meta_event"@,
    ensures
        classification(json) == Ok::<EventKind, ClassificationError>(EventKind::Unknown),
{
}

/// The discriminator is missing exactly where `post_type` is absent or is
/// no string; nothing else in a payload makes it so.
pub proof fn lemma_missing_discriminator(json: JsonView)
    ensures
        classification(json) == Err::<EventKind, ClassificationError>(
            ClassificationError::MissingDiscriminator,
        ) <==> discriminator(json, "post_type"@) is None,
{
}

/// A message, notice or request whose own type is absent or is no string is
/// classified as `Unknown`, whatever else the payload holds.
pub proof fn lemma_unreadable_secondary(json: JsonView, post_type: Seq<char>, key: &'static str)
    requires
        discriminator(json, "post_type"@) == Some(post_type),
        secondary_key(post_type) == Some(key),
        discriminator(json, key@) is None,
    ensures
        classification(json) == Ok::<EventKind, ClassificationError>(EventKind::Unknown),
{
}

/// A payload is reported as malformed only for a known event: where the
/// discriminators select none, nothing else in the payload is an error.
pub proof fn lemma_malformed_is_known(json: JsonView, name: &'static str, fault: PayloadFault)
    requires
        classification(json) == Err::<EventKind, ClassificationError>(
            ClassificationError::MalformedPayload(name, fault),
        ),
    ensures
        exists|kind: EventKind|
            kind != EventKind::Unknown && name == kind.spec_name() && #[trigger] kind.fault(json)
                == Some(fault),
{
}

/// A payload with `post_type` `message` and `message_type` `group` that has
/// the shape of a group message is classified as a group message.
pub proof fn lemma_group_message(json: JsonView)
    requires
        discriminator(json, "post_type"@) == Some("message"@),
        discriminator(json, "message_type"@) == Some("group"@),
        GroupMessage::fault(json) is None,
    ensures
        classification(json) == Ok::<EventKind, ClassificationError>(EventKind::GroupMessage),
{
    reveal_strlit("group");
    reveal_strlit("private");
    assert("group"@.len() != "private"@.len());
}

} // verus!
