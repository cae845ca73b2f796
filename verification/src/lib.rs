//! A client-side protocol layer for a OneBot/CQHTTP chat-bot gateway:
//! the inline markup codec for outgoing messages, the classifier that turns
//! pushed JSON payloads into typed events, and the name-keyed handler registry.
//!
//! The library computes and decides; it performs no input or output. A call
//! of the gateway comes back as an `ApiRequest` for the caller to send.

use vstd::prelude::*;

pub mod api;
pub mod attributes;
pub mod bus;
pub mod error;
pub mod escape;
pub mod event;
pub mod json;
pub mod message;
pub mod payload;
pub mod record;
pub mod text;

pub use crate::api::{ApiRequest, HttpApi, MsgType, WebSocketReverseApi};
pub use crate::attributes::Attributes;
pub use crate::bus::{EventBus, EventHandler};
pub use crate::error::{ClassificationError, Error, PayloadFault};
pub use crate::escape::{escape, unescape};
pub use crate::event::{get_event, Event, EventKind, MsgEvent};
pub use crate::message::{Message, MessageSegment};
pub use crate::record::{
    Anonymous, FileInfo, FriendAdd, FriendMessageRecall, FriendPoke, FriendRequest,
    GroupAdminChange, GroupFileUpload, GroupMemberIncrease, GroupMemberReduce, GroupMessage,
    GroupMessageRecall, GroupMute, GroupPoke, GroupRequest, MetaEvent, OfflineFile,
    OfflineFileUpload, PrivateMessage, Sender,
};

use crate::api::{group_msg_body, optional_text, private_msg_body};
use crate::json::json_text;
use crate::text::{decimal, int_to_string};

verus! {

/// Whom a reply to an event is addressed to.
#[derive(Debug, Clone, Copy, PartialEq, Eq)]
pub enum ReplyTarget {
    /// The group that the message was sent in.
    Group { group_id: i64, self_id: i64 },
    /// The user who sent the private message.
    Private { user_id: i64, self_id: i64 },
}

/// The recipient of a reply to `event`: the group of a group message, the
/// sender of a private message. No other event can be replied to.
pub open spec fn reply_target_of(event: Event) -> Option<ReplyTarget> {
    match event {
        Event::GroupMessage(e) => Some(
            ReplyTarget::Group { group_id: e.group_id, self_id: e.self_id },
        ),
        Event::PrivateMessage(e) => Some(
            ReplyTarget::Private { user_id: e.sender.user_id, self_id: e.self_id },
        ),
        _ => None,
    }
}

/// The recipient of a reply to `event`, or `Error::ReplyEvent` where the
/// event has none.
pub fn reply_target(event: &Event) -> (r: Result<ReplyTarget, Error>)
    ensures
        match reply_target_of(*event) {
            Some(target) => r == Ok::<ReplyTarget, Error>(target),
            None => r matches Err(Error::ReplyEvent),
        },
{
    match event {
        Event::GroupMessage(e) => Ok(
            ReplyTarget::Group { group_id: e.group_id, self_id: e.self_id },
        ),
        Event::PrivateMessage(e) => Ok(
            ReplyTarget::Private { user_id: e.sender.user_id, self_id: e.self_id },
        ),
        _ => Err(Error::ReplyEvent),
    }
}

/// The line that records the arrival of `event`. Only messages are
/// recorded: who sent what, and for a group message in which group.
pub open spec fn log_text(event: Event) -> Option<Seq<char>> {
    match event {
        Event::GroupMessage(e) => Some(
            "收到群"@ + decimal(e.group_id as int) + "的消息"@ + decimal(e.sender.user_id as int)
                + "("@ + e.sender.nickname@ + "):"@ + e.message@,
        ),
        Event::PrivateMessage(e) => Some(
            "收到私聊消息"@ + decimal(e.sender.user_id as int) + "("@ + e.sender.nickname@ + "):"@
                + e.message@,
        ),
        _ => None,
    }
}

/// The line to write to the log when `event` arrives, if it is one that is
/// recorded.
pub fn log_line(event: &Event) -> (r: Option<String>)
    ensures
        match r {
            Some(line) => log_text(*event) == Some(line@),
            None => log_text(*event) is None,
        },
{
    match event {
        Event::GroupMessage(e) => {
            let mut line = "收到群".to_owned();
            line.append(int_to_string(e.group_id).as_str());
            line.append("的消息");
            line.append(int_to_string(e.sender.user_id).as_str());
            line.append("(");
            line.append(e.sender.nickname.as_str());
            line.append("):");
            line.append(e.message.as_str());
            Some(line)
        },
        Event::PrivateMessage(e) => {
            let mut line = "收到私聊消息".to_owned();
            line.append(int_to_string(e.sender.user_id).as_str());
            line.append("(");
            line.append(e.sender.nickname.as_str());
            line.append("):");
            line.append(e.message.as_str());
            Some(line)
        },
        _ => None,
    }
}

/// What the server that takes the gateway's pushes is set up with: where it
/// listens, and the secret that it keeps for its requests, if one is set.
#[derive(Debug, Clone, PartialEq, Eq)]
pub struct ServerConfig {
    pub address: String,
    pub port: u16,
    pub secret_key: Option<String>,
}

/// A bot: where its gateway is, how it authenticates, and its handlers.
/// `H` is the type of the handlers.
#[verifier::reject_recursive_types(H)]
pub struct CQHttp<H> {
    api: HttpApi,
    access_token: Option<String>,
    secret: Option<String>,
    api_root: String,
    api_timeout: Option<u64>,
    bus: EventBus<H>,
}

impl<H> CQHttp<H> {
    /// The gateway interface that requests are made with.
    pub closed spec fn api(&self) -> HttpApi {
        self.api
    }

    /// The address of the gateway.
    pub closed spec fn root(&self) -> Seq<char> {
        self.api_root@
    }

    /// The bearer token, if one is set.
    pub closed spec fn token(&self) -> Option<Seq<char>> {
        optional_text(self.access_token)
    }

    /// The secret that signs pushed events, if one is set.
    pub closed spec fn signing_secret(&self) -> Option<Seq<char>> {
        optional_text(self.secret)
    }

    /// The timeout of each call in seconds, if one is set.
    pub closed spec fn timeout(&self) -> Option<u64> {
        self.api_timeout
    }

    /// The handlers.
    pub closed spec fn bus(&self) -> EventBus<H> {
        self.bus
    }

    /// A bot for the gateway at `api_root`, without token, secret, timeout
    /// or handlers. Its gateway interface is unset until `build_api`.
    pub fn new(api_root: &str) -> (r: Self)
        ensures
            r.root() == api_root@,
            r.token() is None,
            r.signing_secret() is None,
            r.timeout() is None,
            r.api().api_root() == Seq::<char>::empty(),
            r.api().access_token() is None,
            r.api().timeout() is None,
            r.bus().subscribers() == Map::<Seq<char>, H>::empty(),
            r.bus().hooks_before() == Map::<Seq<char>, H>::empty(),
    {
        CQHttp {
            api: HttpApi::default(),
            access_token: None,
            secret: None,
            api_root: api_root.to_owned(),
            api_timeout: None,
            bus: EventBus::new(),
        }
    }

    /// Sets the bearer token.
    pub fn access_token(self, token: &str) -> (r: Self)
        ensures
            r.token() == Some(token@),
            r.root() == self.root(),
            r.signing_secret() == self.signing_secret(),
            r.timeout() == self.timeout(),
            r.api() == self.api(),
            r.bus() == self.bus(),
    {
        let mut bot = self;
        bot.access_token = Some(token.to_owned());
        bot
    }

    /// Sets the secret that signs pushed events.
    pub fn secret(self, secret: &str) -> (r: Self)
        ensures
            r.signing_secret() == Some(secret@),
            r.root() == self.root(),
            r.token() == self.token(),
            r.timeout() == self.timeout(),
            r.api() == self.api(),
            r.bus() == self.bus(),
    {
        let mut bot = self;
        bot.secret = Some(secret.to_owned());
        bot
    }

    /// Sets the timeout of each call, in seconds.
    pub fn api_timeout(self, timeout: u64) -> (r: Self)
        ensures
            r.timeout() == Some(timeout),
            r.root() == self.root(),
            r.token() == self.token(),
            r.signing_secret() == self.signing_secret(),
            r.api() == self.api(),
            r.bus() == self.bus(),
    {
        let mut bot = self;
        bot.api_timeout = Some(timeout);
        bot
    }

    /// Makes the gateway interface from the address, token and timeout that
    /// are set.
    pub fn build_api(&mut self)
        ensures
            final(self).api().api_root() == old(self).root(),
            final(self).api().access_token() == old(self).token(),
            final(self).api().timeout() == old(self).timeout(),
            final(self).root() == old(self).root(),
            final(self).token() == old(self).token(),
            final(self).signing_secret() == old(self).signing_secret(),
            final(self).timeout() == old(self).timeout(),
            final(self).bus() == old(self).bus(),
    {
        let token = match &self.access_token {
            Some(t) => Some(t.clone()),
            None => None,
        };
        self.api = HttpApi::new(self.api_root.as_str(), token, self.api_timeout);
    }

    /// The settings of the server that listens on `address` and `port` for
    /// this bot: the bot's secret goes with them.
    pub fn server_config(&self, address: &str, port: u16) -> (r: ServerConfig)
        ensures
            r.address@ == address@,
            r.port == port,
            optional_text(r.secret_key) == self.signing_secret(),
    {
        let secret_key = match &self.secret {
            Some(key) => Some(key.clone()),
            None => None,
        };
        ServerConfig { address: address.to_owned(), port, secret_key }
    }

    /// The request that replies `message` to `event`: to the group of a
    /// group message, to the sender of a private message, the markup of the
    /// message interpreted. Any other event gives `Error::ReplyEvent`.
    pub fn send(&self, event: &Event, message: &str) -> (r: Result<ApiRequest, Error>)
        ensures
            match reply_target_of(*event) {
                Some(ReplyTarget::Group { group_id, self_id }) => r matches Ok(request)
                    && request@ == self.api().request(
                    "send_group_msg"@,
                    json_text(group_msg_body(group_id, message@, false, self_id)),
                ),
                Some(ReplyTarget::Private { user_id, self_id }) => r matches Ok(request)
                    && request@ == self.api().request(
                    "send_private_msg"@,
                    json_text(private_msg_body(user_id, message@, false, self_id)),
                ),
                None => r matches Err(Error::ReplyEvent),
            },
    {
        match reply_target(event) {
            Ok(ReplyTarget::Group { group_id, self_id }) => Ok(
                self.api.send_group_msg(group_id, message, false, self_id),
            ),
            Ok(ReplyTarget::Private { user_id, self_id }) => Ok(
                self.api.send_private_msg(user_id, message, false, self_id),
            ),
            Err(e) => Err(e),
        }
    }

    /// Makes `handler` the subscriber of `name`, in place of an earlier one.
    pub fn subscribe(&mut self, name: &str, handler: H)
        ensures
            final(self).bus().subscribers() == old(self).bus().subscribers().insert(
                name@,
                handler,
            ),
            final(self).bus().hooks_before() == old(self).bus().hooks_before(),
            final(self).unchanged_but_bus(*old(self)),
    {
        self.bus.subscribe(name, handler);
    }

    /// Removes the subscriber of `name`, if there is one.
    pub fn unsubscribe(&mut self, name: &str)
        ensures
            final(self).bus().subscribers() == old(self).bus().subscribers().remove(name@),
            final(self).bus().hooks_before() == old(self).bus().hooks_before(),
            final(self).unchanged_but_bus(*old(self)),
    {
        self.bus.unsubscribe(name);
    }

    /// Makes `handler` the pre-hook of `name`, in place of an earlier one.
    pub fn hook_before(&mut self, name: &str, handler: H)
        ensures
            final(self).bus().hooks_before() == old(self).bus().hooks_before().insert(
                name@,
                handler,
            ),
            final(self).bus().subscribers() == old(self).bus().subscribers(),
            final(self).unchanged_but_bus(*old(self)),
    {
        self.bus.hook_before(name, handler);
    }

    /// Removes the pre-hook of `name`, if there is one.
    pub fn unhook_before(&mut self, name: &str)
        ensures
            final(self).bus().hooks_before() == old(self).bus().hooks_before().remove(name@),
            final(self).bus().subscribers() == old(self).bus().subscribers(),
            final(self).unchanged_but_bus(*old(self)),
    {
        self.bus.unhook_before(name);
    }

    /// Everything but the handlers is as in `before`.
    pub open spec fn unchanged_but_bus(&self, before: Self) -> bool {
        &&& self.api() == before.api()
        &&& self.root() == before.root()
        &&& self.token() == before.token()
        &&& self.signing_secret() == before.signing_secret()
        &&& self.timeout() == before.timeout()
    }
}

impl<H: EventHandler> CQHttp<H> {
    /// Hands `args` to the handler chosen for `name`: its subscriber, or
    /// else its pre-hook; does nothing where there is neither.
    pub fn emit(&self, name: &str, args: H::Args)
        ensures
            match crate::bus::chosen(self.bus().subscribers(), self.bus().hooks_before(), name@) {
                Some(h) => crate::bus::handled(h, args),
                None => true,
            },
    {
        self.bus.emit(name, args);
    }
}

impl<H> Default for CQHttp<H> {
    /// A bot without an address: as `new` gives it for the empty address.
    fn default() -> (r: Self)
        ensures
            r.root() == Seq::<char>::empty(),
            r.token() is None,
            r.signing_secret() is None,
            r.timeout() is None,
            r.api().api_root() == Seq::<char>::empty(),
            r.api().access_token() is None,
            r.api().timeout() is None,
            r.bus().subscribers() == Map::<Seq<char>, H>::empty(),
            r.bus().hooks_before() == Map::<Seq<char>, H>::empty(),
    {
        proof {
            reveal_strlit("");
            assert(""@ =~= Seq::<char>::empty());
        }
        CQHttp::new("")
    }
}

} // verus!
