//! The calls of the gateway's HTTP interface, as requests for a transport to
//! carry out: the library computes where a call goes and what it says, and
//! leaves the sending to its caller.

use vstd::prelude::*;
use crate::json::{
    bool_value, empty_object, integer_value, json_text, set_member, text_value, to_text, JsonView,
};

verus! {

/// The characters of an optional string.
pub open spec fn optional_text(s: Option<String>) -> Option<Seq<char>> {
    match s {
        Some(s) => Some(s@),
        None => None,
    }
}

/// The model of a request.
pub struct RequestView {
    pub url: Seq<char>,
    pub authorization: Seq<char>,
    pub timeout: Option<u64>,
    pub body: Seq<char>,
}

/// One call of the gateway, ready to be sent: a `POST` to `url` with the
/// header `Authorization` set to `authorization` and with `body` as its
/// body, given up after `timeout` seconds where a timeout is set.
#[derive(Debug, Clone, PartialEq, Eq)]
pub struct ApiRequest {
    pub url: String,
    pub authorization: String,
    pub timeout: Option<u64>,
    pub body: String,
}

impl View for ApiRequest {
    type V = RequestView;

    open spec fn view(&self) -> RequestView {
        RequestView {
            url: self.url@,
            authorization: self.authorization@,
            timeout: self.timeout,
            body: self.body@,
        }
    }
}

/// The request that calls `action` with `body` on the gateway at
/// `api_root`: the action is appended to the root after a slash, and the
/// token, or nothing where there is none, follows the word `Bearer`.
pub open spec fn request_to(
    api_root: Seq<char>,
    access_token: Option<Seq<char>>,
    timeout: Option<u64>,
    action: Seq<char>,
    body: Seq<char>,
) -> RequestView {
    RequestView {
        url: api_root + "/"@ + action,
        authorization: "Bearer "@ + match access_token {
            Some(token) => token,
            None => Seq::empty(),
        },
        timeout,
        body,
    }
}

/// How a flag is written where the gateway takes a number.
pub open spec fn flag_number(b: bool) -> int {
    if b {
        1
    } else {
        0
    }
}

/// The body of `send_private_msg`. `auto_escape` goes out as a number.
pub open spec fn private_msg_body(
    user_id: i64,
    message: Seq<char>,
    auto_escape: bool,
    self_id: i64,
) -> JsonView {
    JsonView::Object(
        Map::empty().insert("user_id"@, JsonView::Int(user_id as int)).insert(
            "message"@,
            JsonView::Str(message),
        ).insert("auto_escape"@, JsonView::Int(flag_number(auto_escape))).insert(
            "self_id"@,
            JsonView::Int(self_id as int),
        ),
    )
}

/// The body of `send_group_msg`. `auto_escape` goes out as a boolean.
pub open spec fn group_msg_body(
    group_id: i64,
    message: Seq<char>,
    auto_escape: bool,
    self_id: i64,
) -> JsonView {
    JsonView::Object(
        Map::empty().insert("group_id"@, JsonView::Int(group_id as int)).insert(
            "message"@,
            JsonView::Str(message),
        ).insert("auto_escape"@, JsonView::Bool(auto_escape)).insert(
            "self_id"@,
            JsonView::Int(self_id as int),
        ),
    )
}

/// The body of `get_msg`.
pub open spec fn get_msg_body(msg_id: i64, self_id: i64) -> JsonView {
    JsonView::Object(
        Map::empty().insert("message_id"@, JsonView::Int(msg_id as int)).insert(
            "self_id"@,
            JsonView::Int(self_id as int),
        ),
    )
}

/// Whom a message goes to.
pub enum MsgType {
    Private,
    Group,
    Discuss,
}

/// The gateway's interface over a reverse WebSocket.
pub struct WebSocketReverseApi {}

/// The gateway's interface over HTTP.
pub struct HttpApi {
    api_root: String,
    access_token: Option<String>,
    timeout: Option<u64>,
}

impl HttpApi {
    /// The address that actions are appended to.
    pub closed spec fn api_root(&self) -> Seq<char> {
        self.api_root@
    }

    /// The bearer token, if one is set.
    pub closed spec fn access_token(&self) -> Option<Seq<char>> {
        optional_text(self.access_token)
    }

    /// The timeout of each call in seconds, if one is set.
    pub closed spec fn timeout(&self) -> Option<u64> {
        self.timeout
    }

    /// The request that calls `action` with `body`.
    pub open spec fn request(&self, action: Seq<char>, body: Seq<char>) -> RequestView {
        request_to(self.api_root(), self.access_token(), self.timeout(), action, body)
    }

    pub fn new(api_root: &str, access_token: Option<String>, timeout: Option<u64>) -> (r: HttpApi)
        ensures
            r.api_root() == api_root@,
            r.access_token() == optional_text(access_token),
            r.timeout() == timeout,
    {
        HttpApi { api_root: api_root.to_owned(), access_token, timeout }
    }

    /// The request that calls `action` with `data` as its body.
    pub fn call_actions(&self, action: &str, data: String) -> (r: ApiRequest)
        ensures
            r@ == self.request(action@, data@),
    {
        let mut url = self.api_root.clone();
        url.append("/");
        url.append(action);
        let mut authorization = "Bearer ".to_owned();
        match &self.access_token {
            Some(token) => {
                authorization.append(token.as_str());
            },
            None => {
                assert(authorization@ + Seq::<char>::empty() =~= authorization@);
            },
        }
        ApiRequest { url, authorization, timeout: self.timeout, body: data }
    }

    /// Sends `message` to the user `user_id` in a private chat, on behalf
    /// of the bot `self_id`. With `auto_escape` the message goes out as
    /// plain text, its markup not interpreted.
    pub fn send_private_msg(
        &self,
        user_id: i64,
        message: &str,
        auto_escape: bool,
        self_id: i64,
    ) -> (r: ApiRequest)
        ensures
            r@ == self.request(
                "send_private_msg"@,
                json_text(private_msg_body(user_id, message@, auto_escape, self_id)),
            ),
    {
        let mut json = empty_object();
        set_member(&mut json, "user_id", integer_value(user_id));
        set_member(&mut json, "message", text_value(message));
        set_member(
            &mut json,
            "auto_escape",
            integer_value(
                if auto_escape {
                    1
                } else {
                    0
                },
            ),
        );
        set_member(&mut json, "self_id", integer_value(self_id));
        self.call_actions("send_private_msg", to_text(&json))
    }

    /// Sends `message` to the group `group_id`, on behalf of the bot
    /// `self_id`. With `auto_escape` the message goes out as plain text, its
    /// markup not interpreted.
    pub fn send_group_msg(
        &self,
        group_id: i64,
        message: &str,
        auto_escape: bool,
        self_id: i64,
    ) -> (r: ApiRequest)
        ensures
            r@ == self.request(
                "send_group_msg"@,
                json_text(group_msg_body(group_id, message@, auto_escape, self_id)),
            ),
    {
        let mut json = empty_object();
        set_member(&mut json, "group_id", integer_value(group_id));
        set_member(&mut json, "message", text_value(message));
        set_member(&mut json, "auto_escape", bool_value(auto_escape));
        set_member(&mut json, "self_id", integer_value(self_id));
        self.call_actions("send_group_msg", to_text(&json))
    }

    /// Asks for the message `msg_id`, on behalf of the bot `self_id`.
    pub fn get_msg(&self, msg_id: i64, self_id: i64) -> (r: ApiRequest)
        ensures
            r@ == self.request("get_msg"@, json_text(get_msg_body(msg_id, self_id))),
    {
        let mut json = empty_object();
        set_member(&mut json, "message_id", integer_value(msg_id));
        set_member(&mut json, "self_id", integer_value(self_id));
        self.call_actions("get_msg", to_text(&json))
    }

    /// Sends `message` to the user `user_id` or to the group `group_id`, as
    /// `msg_type` says. Discussion groups are not served.
    pub fn send_msg(
        &self,
        msg_type: MsgType,
        group_id: i64,
        user_id: i64,
        message: String,
        auto_escape: bool,
        self_id: i64,
    ) -> (r: ApiRequest)
        requires
            !(msg_type is Discuss),
        ensures
            r@ == match msg_type {
                MsgType::Private => self.request(
                    "send_private_msg"@,
                    json_text(private_msg_body(user_id, message@, auto_escape, self_id)),
                ),
                _ => self.request(
                    "send_group_msg"@,
                    json_text(group_msg_body(group_id, message@, auto_escape, self_id)),
                ),
            },
    {
        match msg_type {
            MsgType::Private => self.send_private_msg(
                user_id,
                message.as_str(),
                auto_escape,
                self_id,
            ),
            _ => self.send_group_msg(group_id, message.as_str(), auto_escape, self_id),
        }
    }
}

impl Default for HttpApi {
    fn default() -> (r: Self)
        ensures
            r.api_root() == Seq::<char>::empty(),
            r.access_token() is None,
            r.timeout() is None,
    {
        HttpApi { api_root: String::new(), access_token: None, timeout: None }
    }
}

} // verus!
