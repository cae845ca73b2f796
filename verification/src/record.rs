//! The records that events are made of. Each is read from a JSON object
//! member by member: a field has the name of the member that it is read from.

use vstd::prelude::*;
use crate::error::PayloadFault;
use crate::json::{value_model, JsonView};
use crate::payload::{
    absent, int_at, object_at, read_int32, read_int64, read_optional_record, read_record,
    read_text, text_at, Scan,
};

verus! {

/// Who sent a message.
#[derive(Debug, Clone)]
pub struct Sender {
    pub age: i32,
    pub nickname: String,
    pub sex: String,
    pub user_id: i64,
}

impl Sender {
    /// The first fault that keeps `json` from being read as this record, if
    /// there is one.
    pub open spec fn fault(json: JsonView) -> Option<PayloadFault> {
        Scan::of(json).int32("age").text("nickname").text("sex").int64("user_id").fault
    }

    /// Each field holds the value of the member of `json` that has its name.
    pub open spec fn decodes(&self, json: JsonView) -> bool {
        &&& self.age == int_at(json, "age"@)
        &&& self.nickname@ == text_at(json, "nickname"@)
        &&& self.sex@ == text_at(json, "sex"@)
        &&& self.user_id == int_at(json, "user_id"@)
    }

    /// Reads the record from a JSON object.
    pub fn decode(v: &serde_json::Value) -> (r: Result<Sender, PayloadFault>)
        ensures
            match r {
                Ok(e) => Sender::fault(value_model(*v)) is None && e.decodes(value_model(*v)),
                Err(f) => Sender::fault(value_model(*v)) == Some(f),
            },
    {
        let age = read_int32(v, "age")?;
        let nickname = read_text(v, "nickname")?;
        let sex = read_text(v, "sex")?;
        let user_id = read_int64(v, "user_id")?;
        Ok(Sender { age, nickname, sex, user_id })
    }
}

/// A file uploaded to a group.
#[derive(Debug, Clone)]
pub struct FileInfo {
    pub id: String,
    pub name: String,
    pub size: i64,
    pub busid: i64,
}

impl FileInfo {
    /// The first fault that keeps `json` from being read as this record, if
    /// there is one.
    pub open spec fn fault(json: JsonView) -> Option<PayloadFault> {
        Scan::of(json).text("id").text("name").int64("size").int64("busid").fault
    }

    /// Each field holds the value of the member of `json` that has its name.
    pub open spec fn decodes(&self, json: JsonView) -> bool {
        &&& self.id@ == text_at(json, "id"@)
        &&& self.name@ == text_at(json, "name"@)
        &&& self.size == int_at(json, "size"@)
        &&& self.busid == int_at(json, "busid"@)
    }

    /// Reads the record from a JSON object.
    pub fn decode(v: &serde_json::Value) -> (r: Result<FileInfo, PayloadFault>)
        ensures
            match r {
                Ok(e) => FileInfo::fault(value_model(*v)) is None && e.decodes(value_model(*v)),
                Err(f) => FileInfo::fault(value_model(*v)) == Some(f),
            },
    {
        let id = read_text(v, "id")?;
        let name = read_text(v, "name")?;
        let size = read_int64(v, "size")?;
        let busid = read_int64(v, "busid")?;
        Ok(FileInfo { id, name, size, busid })
    }
}

/// A file received while offline.
#[derive(Debug, Clone)]
pub struct OfflineFile {
    pub name: String,
    pub size: i64,
    pub url: String,
}

impl OfflineFile {
    /// The first fault that keeps `json` from being read as this record, if
    /// there is one.
    pub open spec fn fault(json: JsonView) -> Option<PayloadFault> {
        Scan::of(json).text("name").int64("size").text("url").fault
    }

    /// Each field holds the value of the member of `json` that has its name.
    pub open spec fn decodes(&self, json: JsonView) -> bool {
        &&& self.name@ == text_at(json, "name"@)
        &&& self.size == int_at(json, "size"@)
        &&& self.url@ == text_at(json, "url"@)
    }

    /// Reads the record from a JSON object.
    pub fn decode(v: &serde_json::Value) -> (r: Result<OfflineFile, PayloadFault>)
        ensures
            match r {
                Ok(e) => OfflineFile::fault(value_model(*v)) is None && e.decodes(value_model(*v)),
                Err(f) => OfflineFile::fault(value_model(*v)) == Some(f),
            },
    {
        let name = read_text(v, "name")?;
        let size = read_int64(v, "size")?;
        let url = read_text(v, "url")?;
        Ok(OfflineFile { name, size, url })
    }
}

/// The anonymous identity under which a group message was sent.
#[derive(Debug, Clone)]
pub struct Anonymous {
    pub id: i64,
    pub name: String,
    pub flag: String,
}

impl Anonymous {
    /// The first fault that keeps `json` from being read as this record, if
    /// there is one.
    pub open spec fn fault(json: JsonView) -> Option<PayloadFault> {
        Scan::of(json).int64("id").text("name").text("flag").fault
    }

    /// Each field holds the value of the member of `json` that has its name.
    pub open spec fn decodes(&self, json: JsonView) -> bool {
        &&& self.id == int_at(json, "id"@)
        &&& self.name@ == text_at(json, "name"@)
        &&& self.flag@ == text_at(json, "flag"@)
    }

    /// Reads the record from a JSON object.
    pub fn decode(v: &serde_json::Value) -> (r: Result<Anonymous, PayloadFault>)
        ensures
            match r {
                Ok(e) => Anonymous::fault(value_model(*v)) is None && e.decodes(value_model(*v)),
                Err(f) => Anonymous::fault(value_model(*v)) == Some(f),
            },
    {
        let id = read_int64(v, "id")?;
        let name = read_text(v, "name")?;
        let flag = read_text(v, "flag")?;
        Ok(Anonymous { id, name, flag })
    }
}

/// A message sent to the bot in a private chat.
#[derive(Debug, Clone)]
pub struct PrivateMessage {
    pub post_type: String,
    pub self_id: i64,
    pub time: i64,
    pub message_type: String,
    pub sub_type: String,
    pub message_id: i64,
    pub user_id: i64,
    pub message: String,
    pub raw_message: String,
    pub font: i32,
    pub sender: Sender,
}

impl PrivateMessage {
    /// The first fault that keeps `json` from being read as this record, if
    /// there is one.
    pub open spec fn fault(json: JsonView) -> Option<PayloadFault> {
        Scan::of(json).base().message().fault
    }

    /// Each field holds the value of the member of `json` that has its name.
    pub open spec fn decodes(&self, json: JsonView) -> bool {
        &&& self.post_type@ == text_at(json, "post_type"@)
        &&& self.self_id == int_at(json, "self_id"@)
        &&& self.time == int_at(json, "time"@)
        &&& self.message_type@ == text_at(json, "message_type"@)
        &&& self.sub_type@ == text_at(json, "sub_type"@)
        &&& self.message_id == int_at(json, "message_id"@)
        &&& self.user_id == int_at(json, "user_id"@)
        &&& self.message@ == text_at(json, "message"@)
        &&& self.raw_message@ == text_at(json, "raw_message"@)
        &&& self.font == int_at(json, "font"@)
        &&& self.sender.decodes(object_at(json, "sender"@))
    }

    /// Reads the record from a JSON object.
    pub fn decode(v: &serde_json::Value) -> (r: Result<PrivateMessage, PayloadFault>)
        ensures
            match r {
                Ok(e) => PrivateMessage::fault(value_model(*v)) is None && e.decodes(value_model(*v)),
                Err(f) => PrivateMessage::fault(value_model(*v)) == Some(f),
            },
    {
        let post_type = read_text(v, "post_type")?;
        let self_id = read_int64(v, "self_id")?;
        let time = read_int64(v, "time")?;
        let message_type = read_text(v, "message_type")?;
        let sub_type = read_text(v, "sub_type")?;
        let message_id = read_int64(v, "message_id")?;
        let user_id = read_int64(v, "user_id")?;
        let message = read_text(v, "message")?;
        let raw_message = read_text(v, "raw_message")?;
        let font = read_int32(v, "font")?;
        let sender = Sender::decode(read_record(v, "sender")?)?;
        Ok(PrivateMessage {
            post_type,
            self_id,
            time,
            message_type,
            sub_type,
            message_id,
            user_id,
            message,
            raw_message,
            font,
            sender,
        })
    }
}

/// A message sent in a group.
#[derive(Debug, Clone)]
pub struct GroupMessage {
    pub post_type: String,
    pub self_id: i64,
    pub time: i64,
    pub message_type: String,
    pub sub_type: String,
    pub message_id: i64,
    pub user_id: i64,
    pub message: String,
    pub raw_message: String,
    pub font: i32,
    pub sender: Sender,
    pub group_id: i64,
    pub anonymous: Option<Anonymous>,
}

impl GroupMessage {
    /// The first fault that keeps `json` from being read as this record, if
    /// there is one.
    pub open spec fn fault(json: JsonView) -> Option<PayloadFault> {
        Scan::of(json).base().message().int64("group_id").anonymous("anonymous").fault
    }

    /// Each field holds the value of the member of `json` that has its name.
    pub open spec fn decodes(&self, json: JsonView) -> bool {
        &&& self.post_type@ == text_at(json, "post_type"@)
        &&& self.self_id == int_at(json, "self_id"@)
        &&& self.time == int_at(json, "time"@)
        &&& self.message_type@ == text_at(json, "message_type"@)
        &&& self.sub_type@ == text_at(json, "sub_type"@)
        &&& self.message_id == int_at(json, "message_id"@)
        &&& self.user_id == int_at(json, "user_id"@)
        &&& self.message@ == text_at(json, "message"@)
        &&& self.raw_message@ == text_at(json, "raw_message"@)
        &&& self.font == int_at(json, "font"@)
        &&& self.sender.decodes(object_at(json, "sender"@))
        &&& self.group_id == int_at(json, "group_id"@)
        &&& match self.anonymous {
            Some(inner) => !absent(json, "anonymous"@) && inner.decodes(object_at(json, "anonymous"@)),
            None => absent(json, "anonymous"@),
        }
    }

    /// Reads the record from a JSON object.
    pub fn decode(v: &serde_json::Value) -> (r: Result<GroupMessage, PayloadFault>)
        ensures
            match r {
                Ok(e) => GroupMessage::fault(value_model(*v)) is None && e.decodes(value_model(*v)),
                Err(f) => GroupMessage::fault(value_model(*v)) == Some(f),
            },
    {
        let post_type = read_text(v, "post_type")?;
        let self_id = read_int64(v, "self_id")?;
        let time = read_int64(v, "time")?;
        let message_type = read_text(v, "message_type")?;
        let sub_type = read_text(v, "sub_type")?;
        let message_id = read_int64(v, "message_id")?;
        let user_id = read_int64(v, "user_id")?;
        let message = read_text(v, "message")?;
        let raw_message = read_text(v, "raw_message")?;
        let font = read_int32(v, "font")?;
        let sender = Sender::decode(read_record(v, "sender")?)?;
        let group_id = read_int64(v, "group_id")?;
        let anonymous = match read_optional_record(v, "anonymous")? {
            Some(inner) => Some(Anonymous::decode(inner)?),
            None => None,
        };
        Ok(GroupMessage {
            post_type,
            self_id,
            time,
            message_type,
            sub_type,
            message_id,
            user_id,
            message,
            raw_message,
            font,
            sender,
            group_id,
            anonymous,
        })
    }
}

/// A file was uploaded to a group.
#[derive(Debug, Clone)]
pub struct GroupFileUpload {
    pub post_type: String,
    pub self_id: i64,
    pub time: i64,
    pub notice_type: String,
    pub group_id: i64,
    pub user_id: i64,
    pub file: FileInfo,
}

impl GroupFileUpload {
    /// The first fault that keeps `json` from being read as this record, if
    /// there is one.
    pub open spec fn fault(json: JsonView) -> Option<PayloadFault> {
        Scan::of(json)
            .base()
            .notice()
            .int64("group_id")
            .int64("user_id")
            .file_info("file")
            .fault
    }

    /// Each field holds the value of the member of `json` that has its name.
    pub open spec fn decodes(&self, json: JsonView) -> bool {
        &&& self.post_type@ == text_at(json, "post_type"@)
        &&& self.self_id == int_at(json, "self_id"@)
        &&& self.time == int_at(json, "time"@)
        &&& self.notice_type@ == text_at(json, "notice_type"@)
        &&& self.group_id == int_at(json, "group_id"@)
        &&& self.user_id == int_at(json, "user_id"@)
        &&& self.file.decodes(object_at(json, "file"@))
    }

    /// Reads the record from a JSON object.
    pub fn decode(v: &serde_json::Value) -> (r: Result<GroupFileUpload, PayloadFault>)
        ensures
            match r {
                Ok(e) => GroupFileUpload::fault(value_model(*v)) is None && e.decodes(value_model(*v)),
                Err(f) => GroupFileUpload::fault(value_model(*v)) == Some(f),
            },
    {
        let post_type = read_text(v, "post_type")?;
        let self_id = read_int64(v, "self_id")?;
        let time = read_int64(v, "time")?;
        let notice_type = read_text(v, "notice_type")?;
        let group_id = read_int64(v, "group_id")?;
        let user_id = read_int64(v, "user_id")?;
        let file = FileInfo::decode(read_record(v, "file")?)?;
        Ok(GroupFileUpload { post_type, self_id, time, notice_type, group_id, user_id, file })
    }
}

/// A group member was made administrator, or no longer is.
#[derive(Debug, Clone)]
pub struct GroupAdminChange {
    pub post_type: String,
    pub self_id: i64,
    pub time: i64,
    pub notice_type: String,
    pub sub_type: String,
    pub group_id: i64,
    pub user_id: i64,
}

impl GroupAdminChange {
    /// The first fault that keeps `json` from being read as this record, if
    /// there is one.
    pub open spec fn fault(json: JsonView) -> Option<PayloadFault> {
        Scan::of(json).base().notice().text("sub_type").int64("group_id").int64("user_id").fault
    }

    /// Each field holds the value of the member of `json` that has its name.
    pub open spec fn decodes(&self, json: JsonView) -> bool {
        &&& self.post_type@ == text_at(json, "post_type"@)
        &&& self.self_id == int_at(json, "self_id"@)
        &&& self.time == int_at(json, "time"@)
        &&& self.notice_type@ == text_at(json, "notice_type"@)
        &&& self.sub_type@ == text_at(json, "sub_type"@)
        &&& self.group_id == int_at(json, "group_id"@)
        &&& self.user_id == int_at(json, "user_id"@)
    }

    /// Reads the record from a JSON object.
    pub fn decode(v: &serde_json::Value) -> (r: Result<GroupAdminChange, PayloadFault>)
        ensures
            match r {
                Ok(e) => GroupAdminChange::fault(value_model(*v)) is None && e.decodes(value_model(*v)),
                Err(f) => GroupAdminChange::fault(value_model(*v)) == Some(f),
            },
    {
        let post_type = read_text(v, "post_type")?;
        let self_id = read_int64(v, "self_id")?;
        let time = read_int64(v, "time")?;
        let notice_type = read_text(v, "notice_type")?;
        let sub_type = read_text(v, "sub_type")?;
        let group_id = read_int64(v, "group_id")?;
        let user_id = read_int64(v, "user_id")?;
        Ok(GroupAdminChange {
            post_type,
            self_id,
            time,
            notice_type,
            sub_type,
            group_id,
            user_id,
        })
    }
}

/// A member left a group or was removed from it.
#[derive(Debug, Clone)]
pub struct GroupMemberReduce {
    pub post_type: String,
    pub self_id: i64,
    pub time: i64,
    pub notice_type: String,
    pub sub_type: String,
    pub group_id: i64,
    pub user_id: i64,
    pub operator_id: i64,
}

impl GroupMemberReduce {
    /// The first fault that keeps `json` from being read as this record, if
    /// there is one.
    pub open spec fn fault(json: JsonView) -> Option<PayloadFault> {
        Scan::of(json)
            .base()
            .notice()
            .text("sub_type")
            .int64("group_id")
            .int64("user_id")
            .int64("operator_id")
            .fault
    }

    /// Each field holds the value of the member of `json` that has its name.
    pub open spec fn decodes(&self, json: JsonView) -> bool {
        &&& self.post_type@ == text_at(json, "post_type"@)
        &&& self.self_id == int_at(json, "self_id"@)
        &&& self.time == int_at(json, "time"@)
        &&& self.notice_type@ == text_at(json, "notice_type"@)
        &&& self.sub_type@ == text_at(json, "sub_type"@)
        &&& self.group_id == int_at(json, "group_id"@)
        &&& self.user_id == int_at(json, "user_id"@)
        &&& self.operator_id == int_at(json, "operator_id"@)
    }

    /// Reads the record from a JSON object.
    pub fn decode(v: &serde_json::Value) -> (r: Result<GroupMemberReduce, PayloadFault>)
        ensures
            match r {
                Ok(e) => GroupMemberReduce::fault(value_model(*v)) is None && e.decodes(value_model(*v)),
                Err(f) => GroupMemberReduce::fault(value_model(*v)) == Some(f),
            },
    {
        let post_type = read_text(v, "post_type")?;
        let self_id = read_int64(v, "self_id")?;
        let time = read_int64(v, "time")?;
        let notice_type = read_text(v, "notice_type")?;
        let sub_type = read_text(v, "sub_type")?;
        let group_id = read_int64(v, "group_id")?;
        let user_id = read_int64(v, "user_id")?;
        let operator_id = read_int64(v, "operator_id")?;
        Ok(GroupMemberReduce {
            post_type,
            self_id,
            time,
            notice_type,
            sub_type,
            group_id,
            user_id,
            operator_id,
        })
    }
}

/// A member joined a group.
#[derive(Debug, Clone)]
pub struct GroupMemberIncrease {
    pub post_type: String,
    pub self_id: i64,
    pub time: i64,
    pub notice_type: String,
    pub sub_type: String,
    pub group_id: i64,
    pub user_id: i64,
    pub operator_id: i64,
}

impl GroupMemberIncrease {
    /// The first fault that keeps `json` from being read as this record, if
    /// there is one.
    pub open spec fn fault(json: JsonView) -> Option<PayloadFault> {
        Scan::of(json)
            .base()
            .notice()
            .text("sub_type")
            .int64("group_id")
            .int64("user_id")
            .int64("operator_id")
            .fault
    }

    /// Each field holds the value of the member of `json` that has its name.
    pub open spec fn decodes(&self, json: JsonView) -> bool {
        &&& self.post_type@ == text_at(json, "post_type"@)
        &&& self.self_id == int_at(json, "self_id"@)
        &&& self.time == int_at(json, "time"@)
        &&& self.notice_type@ == text_at(json, "notice_type"@)
        &&& self.sub_type@ == text_at(json, "sub_type"@)
        &&& self.group_id == int_at(json, "group_id"@)
        &&& self.user_id == int_at(json, "user_id"@)
        &&& self.operator_id == int_at(json, "operator_id"@)
    }

    /// Reads the record from a JSON object.
    pub fn decode(v: &serde_json::Value) -> (r: Result<GroupMemberIncrease, PayloadFault>)
        ensures
            match r {
                Ok(e) => GroupMemberIncrease::fault(value_model(*v)) is None && e.decodes(value_model(*v)),
                Err(f) => GroupMemberIncrease::fault(value_model(*v)) == Some(f),
            },
    {
        let post_type = read_text(v, "post_type")?;
        let self_id = read_int64(v, "self_id")?;
        let time = read_int64(v, "time")?;
        let notice_type = read_text(v, "notice_type")?;
        let sub_type = read_text(v, "sub_type")?;
        let group_id = read_int64(v, "group_id")?;
        let user_id = read_int64(v, "user_id")?;
        let operator_id = read_int64(v, "operator_id")?;
        Ok(GroupMemberIncrease {
            post_type,
            self_id,
            time,
            notice_type,
            sub_type,
            group_id,
            user_id,
            operator_id,
        })
    }
}

/// A group member was muted or unmuted.
#[derive(Debug, Clone)]
pub struct GroupMute {
    pub post_type: String,
    pub self_id: i64,
    pub time: i64,
    pub notice_type: String,
    pub sub_type: String,
    pub group_id: i64,
    pub operator_id: i64,
    pub user_id: i64,
    pub duration: i64,
}

impl GroupMute {
    /// The first fault that keeps `json` from being read as this record, if
    /// there is one.
    pub open spec fn fault(json: JsonView) -> Option<PayloadFault> {
        Scan::of(json)
            .base()
            .notice()
            .text("sub_type")
            .int64("group_id")
            .int64("operator_id")
            .int64("user_id")
            .int64("duration")
            .fault
    }

    /// Each field holds the value of the member of `json` that has its name.
    pub open spec fn decodes(&self, json: JsonView) -> bool {
        &&& self.post_type@ == text_at(json, "post_type"@)
        &&& self.self_id == int_at(json, "self_id"@)
        &&& self.time == int_at(json, "time"@)
        &&& self.notice_type@ == text_at(json, "notice_type"@)
        &&& self.sub_type@ == text_at(json, "sub_type"@)
        &&& self.group_id == int_at(json, "group_id"@)
        &&& self.operator_id == int_at(json, "operator_id"@)
        &&& self.user_id == int_at(json, "user_id"@)
        &&& self.duration == int_at(json, "duration"@)
    }

    /// Reads the record from a JSON object.
    pub fn decode(v: &serde_json::Value) -> (r: Result<GroupMute, PayloadFault>)
        ensures
            match r {
                Ok(e) => GroupMute::fault(value_model(*v)) is None && e.decodes(value_model(*v)),
                Err(f) => GroupMute::fault(value_model(*v)) == Some(f),
            },
    {
        let post_type = read_text(v, "post_type")?;
        let self_id = read_int64(v, "self_id")?;
        let time = read_int64(v, "time")?;
        let notice_type = read_text(v, "notice_type")?;
        let sub_type = read_text(v, "sub_type")?;
        let group_id = read_int64(v, "group_id")?;
        let operator_id = read_int64(v, "operator_id")?;
        let user_id = read_int64(v, "user_id")?;
        let duration = read_int64(v, "duration")?;
        Ok(GroupMute {
            post_type,
            self_id,
            time,
            notice_type,
            sub_type,
            group_id,
            operator_id,
            user_id,
            duration,
        })
    }
}

/// A friend was added.
#[derive(Debug, Clone)]
pub struct FriendAdd {
    pub post_type: String,
    pub self_id: i64,
    pub time: i64,
    pub notice_type: String,
    pub user_id: i64,
}

impl FriendAdd {
    /// The first fault that keeps `json` from being read as this record, if
    /// there is one.
    pub open spec fn fault(json: JsonView) -> Option<PayloadFault> {
        Scan::of(json).base().notice().int64("user_id").fault
    }

    /// Each field holds the value of the member of `json` that has its name.
    pub open spec fn decodes(&self, json: JsonView) -> bool {
        &&& self.post_type@ == text_at(json, "post_type"@)
        &&& self.self_id == int_at(json, "self_id"@)
        &&& self.time == int_at(json, "time"@)
        &&& self.notice_type@ == text_at(json, "notice_type"@)
        &&& self.user_id == int_at(json, "user_id"@)
    }

    /// Reads the record from a JSON object.
    pub fn decode(v: &serde_json::Value) -> (r: Result<FriendAdd, PayloadFault>)
        ensures
            match r {
                Ok(e) => FriendAdd::fault(value_model(*v)) is None && e.decodes(value_model(*v)),
                Err(f) => FriendAdd::fault(value_model(*v)) == Some(f),
            },
    {
        let post_type = read_text(v, "post_type")?;
        let self_id = read_int64(v, "self_id")?;
        let time = read_int64(v, "time")?;
        let notice_type = read_text(v, "notice_type")?;
        let user_id = read_int64(v, "user_id")?;
        Ok(FriendAdd { post_type, self_id, time, notice_type, user_id })
    }
}

/// A file was received while offline.
#[derive(Debug, Clone)]
pub struct OfflineFileUpload {
    pub post_type: String,
    pub self_id: i64,
    pub time: i64,
    pub notice_type: String,
    pub file: OfflineFile,
}

impl OfflineFileUpload {
    /// The first fault that keeps `json` from being read as this record, if
    /// there is one.
    pub open spec fn fault(json: JsonView) -> Option<PayloadFault> {
        Scan::of(json).base().notice().offline_file("file").fault
    }

    /// Each field holds the value of the member of `json` that has its name.
    pub open spec fn decodes(&self, json: JsonView) -> bool {
        &&& self.post_type@ == text_at(json, "post_type"@)
        &&& self.self_id == int_at(json, "self_id"@)
        &&& self.time == int_at(json, "time"@)
        &&& self.notice_type@ == text_at(json, "notice_type"@)
        &&& self.file.decodes(object_at(json, "file"@))
    }

    /// Reads the record from a JSON object.
    pub fn decode(v: &serde_json::Value) -> (r: Result<OfflineFileUpload, PayloadFault>)
        ensures
            match r {
                Ok(e) => OfflineFileUpload::fault(value_model(*v)) is None && e.decodes(value_model(*v)),
                Err(f) => OfflineFileUpload::fault(value_model(*v)) == Some(f),
            },
    {
        let post_type = read_text(v, "post_type")?;
        let self_id = read_int64(v, "self_id")?;
        let time = read_int64(v, "time")?;
        let notice_type = read_text(v, "notice_type")?;
        let file = OfflineFile::decode(read_record(v, "file")?)?;
        Ok(OfflineFileUpload { post_type, self_id, time, notice_type, file })
    }
}

/// A group message was recalled.
#[derive(Debug, Clone)]
pub struct GroupMessageRecall {
    pub post_type: String,
    pub self_id: i64,
    pub time: i64,
    pub notice_type: String,
    pub group_id: i64,
    pub message_id: i64,
    pub user_id: i64,
    pub operator_id: i64,
}

impl GroupMessageRecall {
    /// The first fault that keeps `json` from being read as this record, if
    /// there is one.
    pub open spec fn fault(json: JsonView) -> Option<PayloadFault> {
        Scan::of(json)
            .base()
            .notice()
            .int64("group_id")
            .int64("message_id")
            .int64("user_id")
            .int64("operator_id")
            .fault
    }

    /// Each field holds the value of the member of `json` that has its name.
    pub open spec fn decodes(&self, json: JsonView) -> bool {
        &&& self.post_type@ == text_at(json, "post_type"@)
        &&& self.self_id == int_at(json, "self_id"@)
        &&& self.time == int_at(json, "time"@)
        &&& self.notice_type@ == text_at(json, "notice_type"@)
        &&& self.group_id == int_at(json, "group_id"@)
        &&& self.message_id == int_at(json, "message_id"@)
        &&& self.user_id == int_at(json, "user_id"@)
        &&& self.operator_id == int_at(json, "operator_id"@)
    }

    /// Reads the record from a JSON object.
    pub fn decode(v: &serde_json::Value) -> (r: Result<GroupMessageRecall, PayloadFault>)
        ensures
            match r {
                Ok(e) => GroupMessageRecall::fault(value_model(*v)) is None && e.decodes(value_model(*v)),
                Err(f) => GroupMessageRecall::fault(value_model(*v)) == Some(f),
            },
    {
        let post_type = read_text(v, "post_type")?;
        let self_id = read_int64(v, "self_id")?;
        let time = read_int64(v, "time")?;
        let notice_type = read_text(v, "notice_type")?;
        let group_id = read_int64(v, "group_id")?;
        let message_id = read_int64(v, "message_id")?;
        let user_id = read_int64(v, "user_id")?;
        let operator_id = read_int64(v, "operator_id")?;
        Ok(GroupMessageRecall {
            post_type,
            self_id,
            time,
            notice_type,
            group_id,
            message_id,
            user_id,
            operator_id,
        })
    }
}

/// A private message was recalled.
#[derive(Debug, Clone)]
pub struct FriendMessageRecall {
    pub post_type: String,
    pub self_id: i64,
    pub time: i64,
    pub notice_type: String,
    pub user_id: i64,
    pub message_id: i64,
}

impl FriendMessageRecall {
    /// The first fault that keeps `json` from being read as this record, if
    /// there is one.
    pub open spec fn fault(json: JsonView) -> Option<PayloadFault> {
        Scan::of(json).base().notice().int64("user_id").int64("message_id").fault
    }

    /// Each field holds the value of the member of `json` that has its name.
    pub open spec fn decodes(&self, json: JsonView) -> bool {
        &&& self.post_type@ == text_at(json, "post_type"@)
        &&& self.self_id == int_at(json, "self_id"@)
        &&& self.time == int_at(json, "time"@)
        &&& self.notice_type@ == text_at(json, "notice_type"@)
        &&& self.user_id == int_at(json, "user_id"@)
        &&& self.message_id == int_at(json, "message_id"@)
    }

    /// Reads the record from a JSON object.
    pub fn decode(v: &serde_json::Value) -> (r: Result<FriendMessageRecall, PayloadFault>)
        ensures
            match r {
                Ok(e) => FriendMessageRecall::fault(value_model(*v)) is None && e.decodes(value_model(*v)),
                Err(f) => FriendMessageRecall::fault(value_model(*v)) == Some(f),
            },
    {
        let post_type = read_text(v, "post_type")?;
        let self_id = read_int64(v, "self_id")?;
        let time = read_int64(v, "time")?;
        let notice_type = read_text(v, "notice_type")?;
        let user_id = read_int64(v, "user_id")?;
        let message_id = read_int64(v, "message_id")?;
        Ok(FriendMessageRecall { post_type, self_id, time, notice_type, user_id, message_id })
    }
}

/// A poke in a private chat.
#[derive(Debug, Clone)]
pub struct FriendPoke {
    pub post_type: String,
    pub self_id: i64,
    pub time: i64,
    pub notice_type: String,
    pub sub_type: String,
    pub user_id: i64,
    pub sender_id: i64,
    pub target_id: i64,
}

impl FriendPoke {
    /// The first fault that keeps `json` from being read as this record, if
    /// there is one.
    pub open spec fn fault(json: JsonView) -> Option<PayloadFault> {
        Scan::of(json)
            .base()
            .notice()
            .text("sub_type")
            .int64("user_id")
            .int64("sender_id")
            .int64("target_id")
            .fault
    }

    /// Each field holds the value of the member of `json` that has its name.
    pub open spec fn decodes(&self, json: JsonView) -> bool {
        &&& self.post_type@ == text_at(json, "post_type"@)
        &&& self.self_id == int_at(json, "self_id"@)
        &&& self.time == int_at(json, "time"@)
        &&& self.notice_type@ == text_at(json, "notice_type"@)
        &&& self.sub_type@ == text_at(json, "sub_type"@)
        &&& self.user_id == int_at(json, "user_id"@)
        &&& self.sender_id == int_at(json, "sender_id"@)
        &&& self.target_id == int_at(json, "target_id"@)
    }

    /// Reads the record from a JSON object.
    pub fn decode(v: &serde_json::Value) -> (r: Result<FriendPoke, PayloadFault>)
        ensures
            match r {
                Ok(e) => FriendPoke::fault(value_model(*v)) is None && e.decodes(value_model(*v)),
                Err(f) => FriendPoke::fault(value_model(*v)) == Some(f),
            },
    {
        let post_type = read_text(v, "post_type")?;
        let self_id = read_int64(v, "self_id")?;
        let time = read_int64(v, "time")?;
        let notice_type = read_text(v, "notice_type")?;
        let sub_type = read_text(v, "sub_type")?;
        let user_id = read_int64(v, "user_id")?;
        let sender_id = read_int64(v, "sender_id")?;
        let target_id = read_int64(v, "target_id")?;
        Ok(FriendPoke {
            post_type,
            self_id,
            time,
            notice_type,
            sub_type,
            user_id,
            sender_id,
            target_id,
        })
    }
}

/// A poke in a group.
#[derive(Debug, Clone)]
pub struct GroupPoke {
    pub post_type: String,
    pub self_id: i64,
    pub time: i64,
    pub notice_type: String,
    pub sub_type: String,
    pub group_id: i64,
    pub sender_id: i64,
    pub target_id: i64,
}

impl GroupPoke {
    /// The first fault that keeps `json` from being read as this record, if
    /// there is one.
    pub open spec fn fault(json: JsonView) -> Option<PayloadFault> {
        Scan::of(json)
            .base()
            .notice()
            .text("sub_type")
            .int64("group_id")
            .int64("sender_id")
            .int64("target_id")
            .fault
    }

    /// Each field holds the value of the member of `json` that has its name.
    pub open spec fn decodes(&self, json: JsonView) -> bool {
        &&& self.post_type@ == text_at(json, "post_type"@)
        &&& self.self_id == int_at(json, "self_id"@)
        &&& self.time == int_at(json, "time"@)
        &&& self.notice_type@ == text_at(json, "notice_type"@)
        &&& self.sub_type@ == text_at(json, "sub_type"@)
        &&& self.group_id == int_at(json, "group_id"@)
        &&& self.sender_id == int_at(json, "sender_id"@)
        &&& self.target_id == int_at(json, "target_id"@)
    }

    /// Reads the record from a JSON object.
    pub fn decode(v: &serde_json::Value) -> (r: Result<GroupPoke, PayloadFault>)
        ensures
            match r {
                Ok(e) => GroupPoke::fault(value_model(*v)) is None && e.decodes(value_model(*v)),
                Err(f) => GroupPoke::fault(value_model(*v)) == Some(f),
            },
    {
        let post_type = read_text(v, "post_type")?;
        let self_id = read_int64(v, "self_id")?;
        let time = read_int64(v, "time")?;
        let notice_type = read_text(v, "notice_type")?;
        let sub_type = read_text(v, "sub_type")?;
        let group_id = read_int64(v, "group_id")?;
        let sender_id = read_int64(v, "sender_id")?;
        let target_id = read_int64(v, "target_id")?;
        Ok(GroupPoke {
            post_type,
            self_id,
            time,
            notice_type,
            sub_type,
            group_id,
            sender_id,
            target_id,
        })
    }
}

/// A request to become the bot's friend.
#[derive(Debug, Clone)]
pub struct FriendRequest {
    pub post_type: String,
    pub self_id: i64,
    pub time: i64,
    pub request_type: String,
    pub user_id: i64,
    pub comment: String,
    pub flag: String,
}

impl FriendRequest {
    /// The first fault that keeps `json` from being read as this record, if
    /// there is one.
    pub open spec fn fault(json: JsonView) -> Option<PayloadFault> {
        Scan::of(json)
            .base()
            .text("request_type")
            .int64("user_id")
            .text("comment")
            .text("flag")
            .fault
    }

    /// Each field holds the value of the member of `json` that has its name.
    pub open spec fn decodes(&self, json: JsonView) -> bool {
        &&& self.post_type@ == text_at(json, "post_type"@)
        &&& self.self_id == int_at(json, "self_id"@)
        &&& self.time == int_at(json, "time"@)
        &&& self.request_type@ == text_at(json, "request_type"@)
        &&& self.user_id == int_at(json, "user_id"@)
        &&& self.comment@ == text_at(json, "comment"@)
        &&& self.flag@ == text_at(json, "flag"@)
    }

    /// Reads the record from a JSON object.
    pub fn decode(v: &serde_json::Value) -> (r: Result<FriendRequest, PayloadFault>)
        ensures
            match r {
                Ok(e) => FriendRequest::fault(value_model(*v)) is None && e.decodes(value_model(*v)),
                Err(f) => FriendRequest::fault(value_model(*v)) == Some(f),
            },
    {
        let post_type = read_text(v, "post_type")?;
        let self_id = read_int64(v, "self_id")?;
        let time = read_int64(v, "time")?;
        let request_type = read_text(v, "request_type")?;
        let user_id = read_int64(v, "user_id")?;
        let comment = read_text(v, "comment")?;
        let flag = read_text(v, "flag")?;
        Ok(FriendRequest { post_type, self_id, time, request_type, user_id, comment, flag })
    }
}

/// A request or an invitation to join a group.
#[derive(Debug, Clone)]
pub struct GroupRequest {
    pub post_type: String,
    pub self_id: i64,
    pub time: i64,
    pub request_type: String,
    pub sub_type: String,
    pub group_id: i64,
    pub user_id: i64,
    pub comment: String,
    pub flag: String,
}

impl GroupRequest {
    /// The first fault that keeps `json` from being read as this record, if
    /// there is one.
    pub open spec fn fault(json: JsonView) -> Option<PayloadFault> {
        Scan::of(json)
            .base()
            .text("request_type")
            .text("sub_type")
            .int64("group_id")
            .int64("user_id")
            .text("comment")
            .text("flag")
            .fault
    }

    /// Each field holds the value of the member of `json` that has its name.
    pub open spec fn decodes(&self, json: JsonView) -> bool {
        &&& self.post_type@ == text_at(json, "post_type"@)
        &&& self.self_id == int_at(json, "self_id"@)
        &&& self.time == int_at(json, "time"@)
        &&& self.request_type@ == text_at(json, "request_type"@)
        &&& self.sub_type@ == text_at(json, "sub_type"@)
        &&& self.group_id == int_at(json, "group_id"@)
        &&& self.user_id == int_at(json, "user_id"@)
        &&& self.comment@ == text_at(json, "comment"@)
        &&& self.flag@ == text_at(json, "flag"@)
    }

    /// Reads the record from a JSON object.
    pub fn decode(v: &serde_json::Value) -> (r: Result<GroupRequest, PayloadFault>)
        ensures
            match r {
                Ok(e) => GroupRequest::fault(value_model(*v)) is None && e.decodes(value_model(*v)),
                Err(f) => GroupRequest::fault(value_model(*v)) == Some(f),
            },
    {
        let post_type = read_text(v, "post_type")?;
        let self_id = read_int64(v, "self_id")?;
        let time = read_int64(v, "time")?;
        let request_type = read_text(v, "request_type")?;
        let sub_type = read_text(v, "sub_type")?;
        let group_id = read_int64(v, "group_id")?;
        let user_id = read_int64(v, "user_id")?;
        let comment = read_text(v, "comment")?;
        let flag = read_text(v, "flag")?;
        Ok(GroupRequest {
            post_type,
            self_id,
            time,
            request_type,
            sub_type,
            group_id,
            user_id,
            comment,
            flag,
        })
    }
}

/// An event about the gateway itself.
#[derive(Debug, Clone)]
pub struct MetaEvent {
    pub post_type: String,
    pub self_id: i64,
    pub time: i64,
    pub meta_event_type: String,
    pub status: String,
    pub interval: i64,
}

impl MetaEvent {
    /// The first fault that keeps `json` from being read as this record, if
    /// there is one.
    pub open spec fn fault(json: JsonView) -> Option<PayloadFault> {
        Scan::of(json).base().text("meta_event_type").text("status").int64("interval").fault
    }

    /// Each field holds the value of the member of `json` that has its name.
    pub open spec fn decodes(&self, json: JsonView) -> bool {
        &&& self.post_type@ == text_at(json, "post_type"@)
        &&& self.self_id == int_at(json, "self_id"@)
        &&& self.time == int_at(json, "time"@)
        &&& self.meta_event_type@ == text_at(json, "meta_event_type"@)
        &&& self.status@ == text_at(json, "status"@)
        &&& self.interval == int_at(json, "interval"@)
    }

    /// Reads the record from a JSON object.
    pub fn decode(v: &serde_json::Value) -> (r: Result<MetaEvent, PayloadFault>)
        ensures
            match r {
                Ok(e) => MetaEvent::fault(value_model(*v)) is None && e.decodes(value_model(*v)),
                Err(f) => MetaEvent::fault(value_model(*v)) == Some(f),
            },
    {
        let post_type = read_text(v, "post_type")?;
        let self_id = read_int64(v, "self_id")?;
        let time = read_int64(v, "time")?;
        let meta_event_type = read_text(v, "meta_event_type")?;
        let status = read_text(v, "status")?;
        let interval = read_int64(v, "interval")?;
        Ok(MetaEvent { post_type, self_id, time, meta_event_type, status, interval })
    }
}

} // verus!
