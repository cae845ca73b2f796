//! Reading the members of a JSON payload: what can be wrong with a member,
//! and the readers that either return its value or name the fault.

use vstd::prelude::*;
use crate::error::PayloadFault;
use crate::json::{as_integer, as_text, is_null, is_object, member, member_of, value_model, JsonView};
use crate::record::{Anonymous, FileInfo, OfflineFile, Sender};

verus! {

/// The fault of reading the member `key` of `json` as a string, if there is
/// one.
pub open spec fn text_fault(json: JsonView, key: &'static str) -> Option<PayloadFault> {
    match member_of(json, key@) {
        None => Some(PayloadFault::MissingField(key)),
        Some(JsonView::Str(_)) => None,
        Some(_) => Some(PayloadFault::InvalidField(key)),
    }
}

/// The characters of the string member `key` of `json`.
pub open spec fn text_at(json: JsonView, key: Seq<char>) -> Seq<char> {
    match member_of(json, key) {
        Some(JsonView::Str(s)) => s,
        _ => Seq::empty(),
    }
}

/// The fault of reading the member `key` of `json` as an integer between
/// `low` and `high`, if there is one.
pub open spec fn int_fault(json: JsonView, key: &'static str, low: int, high: int) -> Option<
    PayloadFault,
> {
    match member_of(json, key@) {
        None => Some(PayloadFault::MissingField(key)),
        Some(JsonView::Int(n)) => if low <= n <= high {
            None
        } else {
            Some(PayloadFault::InvalidField(key))
        },
        Some(_) => Some(PayloadFault::InvalidField(key)),
    }
}

/// The value of the integer member `key` of `json`.
pub open spec fn int_at(json: JsonView, key: Seq<char>) -> int {
    match member_of(json, key) {
        Some(JsonView::Int(n)) => n,
        _ => 0,
    }
}

/// The member `key` of `json`.
pub open spec fn object_at(json: JsonView, key: Seq<char>) -> JsonView {
    match member_of(json, key) {
        Some(m) => m,
        None => JsonView::Null,
    }
}

/// The fault of reading the member `key` of `json` as a record, if there is
/// one: the member must be an object, and `inner` is the fault of reading
/// that object.
pub open spec fn record_fault(json: JsonView, key: &'static str, inner: Option<PayloadFault>) -> Option<
    PayloadFault,
> {
    match member_of(json, key@) {
        None => Some(PayloadFault::MissingField(key)),
        Some(JsonView::Object(_)) => inner,
        Some(_) => Some(PayloadFault::InvalidField(key)),
    }
}

/// Whether the member `key` of `json` is absent or `null`.
pub open spec fn absent(json: JsonView, key: Seq<char>) -> bool {
    member_of(json, key) is None || member_of(json, key) == Some(JsonView::Null)
}

/// The fault of reading the member `key` of `json` as a record that may be
/// left out, if there is one: an absent or `null` member is in order.
pub open spec fn optional_record_fault(
    json: JsonView,
    key: &'static str,
    inner: Option<PayloadFault>,
) -> Option<PayloadFault> {
    if absent(json, key@) {
        None
    } else {
        record_fault(json, key, inner)
    }
}

/// The state of checking a payload member by member: the payload, and the
/// first fault found so far. Later checks leave an earlier fault in place.
pub struct Scan {
    pub json: JsonView,
    pub fault: Option<PayloadFault>,
}

impl Scan {
    pub open spec fn of(json: JsonView) -> Scan {
        Scan { json, fault: None }
    }

    pub open spec fn check(self, fault: Option<PayloadFault>) -> Scan {
        if self.fault is Some {
            self
        } else {
            Scan { json: self.json, fault }
        }
    }

    pub open spec fn text(self, key: &'static str) -> Scan {
        self.check(text_fault(self.json, key))
    }

    pub open spec fn int64(self, key: &'static str) -> Scan {
        self.check(int_fault(self.json, key, i64::MIN as int, i64::MAX as int))
    }

    pub open spec fn int32(self, key: &'static str) -> Scan {
        self.check(int_fault(self.json, key, i32::MIN as int, i32::MAX as int))
    }

    /// The members that every event has.
    pub open spec fn base(self) -> Scan {
        self.text("post_type").int64("self_id").int64("time")
    }

    /// The members that every message event has, after those of `base`.
    pub open spec fn message(self) -> Scan {
        self.text("message_type").text("sub_type").int64("message_id").int64("user_id").text(
            "message",
        ).text("raw_message").int32("font").sender("sender")
    }

    /// The member that every notice event has, after those of `base`.
    pub open spec fn notice(self) -> Scan {
        self.text("notice_type")
    }

    pub open spec fn sender(self, key: &'static str) -> Scan {
        self.check(record_fault(self.json, key, Sender::fault(object_at(self.json, key@))))
    }

    pub open spec fn file_info(self, key: &'static str) -> Scan {
        self.check(record_fault(self.json, key, FileInfo::fault(object_at(self.json, key@))))
    }

    pub open spec fn offline_file(self, key: &'static str) -> Scan {
        self.check(record_fault(self.json, key, OfflineFile::fault(object_at(self.json, key@))))
    }

    pub open spec fn anonymous(self, key: &'static str) -> Scan {
        self.check(
            optional_record_fault(self.json, key, Anonymous::fault(object_at(self.json, key@))),
        )
    }
}

pub(crate) fn read_text(v: &serde_json::Value, key: &'static str) -> (r: Result<String, PayloadFault>)
    ensures
        match r {
            Ok(s) => text_fault(value_model(*v), key) is None && s@ == text_at(
                value_model(*v),
                key@,
            ),
            Err(f) => text_fault(value_model(*v), key) == Some(f),
        },
{
    match member(v, key) {
        None => Err(PayloadFault::MissingField(key)),
        Some(m) => match as_text(m) {
            Some(s) => Ok(s.to_owned()),
            None => Err(PayloadFault::InvalidField(key)),
        },
    }
}

pub(crate) fn read_int64(v: &serde_json::Value, key: &'static str) -> (r: Result<i64, PayloadFault>)
    ensures
        match r {
            Ok(n) => int_fault(value_model(*v), key, i64::MIN as int, i64::MAX as int) is None
                && n == int_at(value_model(*v), key@),
            Err(f) => int_fault(value_model(*v), key, i64::MIN as int, i64::MAX as int) == Some(f),
        },
{
    match member(v, key) {
        None => Err(PayloadFault::MissingField(key)),
        Some(m) => match as_integer(m) {
            Some(n) => Ok(n),
            None => Err(PayloadFault::InvalidField(key)),
        },
    }
}

pub(crate) fn read_int32(v: &serde_json::Value, key: &'static str) -> (r: Result<i32, PayloadFault>)
    ensures
        match r {
            Ok(n) => int_fault(value_model(*v), key, i32::MIN as int, i32::MAX as int) is None
                && n == int_at(value_model(*v), key@),
            Err(f) => int_fault(value_model(*v), key, i32::MIN as int, i32::MAX as int) == Some(f),
        },
{
    match member(v, key) {
        None => Err(PayloadFault::MissingField(key)),
        Some(m) => match as_integer(m) {
            Some(n) => if -2147483648 <= n && n <= 2147483647 {
                Ok(n as i32)
            } else {
                Err(PayloadFault::InvalidField(key))
            },
            None => Err(PayloadFault::InvalidField(key)),
        },
    }
}

/// The member `key`, which must be an object.
pub(crate) fn read_record<'a>(v: &'a serde_json::Value, key: &'static str) -> (r: Result<
    &'a serde_json::Value,
    PayloadFault,
>)
    ensures
        match r {
            Ok(m) => member_of(value_model(*v), key@) == Some(value_model(*m)) && value_model(
                *m,
            ) is Object,
            Err(f) => record_fault(value_model(*v), key, None) == Some(f),
        },
{
    match member(v, key) {
        None => Err(PayloadFault::MissingField(key)),
        Some(m) => if is_object(m) {
            Ok(m)
        } else {
            Err(PayloadFault::InvalidField(key))
        },
    }
}

/// The member `key`, which must be an object unless it is absent or `null`.
pub(crate) fn read_optional_record<'a>(v: &'a serde_json::Value, key: &'static str) -> (r: Result<
    Option<&'a serde_json::Value>,
    PayloadFault,
>)
    ensures
        match r {
            Ok(None) => absent(value_model(*v), key@),
            Ok(Some(m)) => !absent(value_model(*v), key@) && member_of(value_model(*v), key@)
                == Some(value_model(*m)) && value_model(*m) is Object,
            Err(f) => !absent(value_model(*v), key@) && record_fault(value_model(*v), key, None)
                == Some(f),
        },
{
    match member(v, key) {
        None => Ok(None),
        Some(m) => if is_null(m) {
            Ok(None)
        } else if is_object(m) {
            Ok(Some(m))
        } else {
            Err(PayloadFault::InvalidField(key))
        },
    }
}

} // verus!
