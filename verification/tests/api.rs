use cqhttp::{
    log_line, reply_target, ApiRequest, CQHttp, Error, Event, EventHandler, HttpApi, MsgType,
    ReplyTarget, ServerConfig,
};

struct Ignore;

impl EventHandler for Ignore {
    type Output = ();
    type Args = ();

    fn handle_event(&self, _args: ()) {}
}

const SENDER: &str = r#"{"age":18,"nickname":"nick","sex":"male","user_id":20}"#;

fn private_message() -> Event {
    Event::from_str(&format!(
        r#"{{"post_type":"message","message_type":"private","sub_type":"friend","message_id":5,
            "user_id":21,"message":"hello","raw_message":"hello","font":0,"sender":{},
            "self_id":1,"time":3}}"#,
        SENDER
    ))
    .unwrap()
}

fn group_message() -> Event {
    Event::from_str(&format!(
        r#"{{"post_type":"message","message_type":"group","sub_type":"normal","message_id":6,
            "group_id":10,"user_id":20,"message":"hi all","raw_message":"hi all","font":0,
            "sender":{},"self_id":1,"time":0}}"#,
        SENDER
    ))
    .unwrap()
}

fn meta_event() -> Event {
    Event::from_str(
        r#"{"post_type":"meta_event","meta_event_type":"heartbeat","status":"ok",
            "interval":5000,"self_id":1,"time":2}"#,
    )
    .unwrap()
}

fn bot() -> CQHttp<Ignore> {
    let mut bot = CQHttp::new("http://127.0.0.1:5700").access_token("tok").api_timeout(9);
    bot.build_api();
    bot
}

#[test]
fn call_actions_addresses_the_action() {
    let api = HttpApi::new("http://h:1", Some("secret".to_string()), Some(5));
    let r = api.call_actions("get_status", "{}".to_string());
    assert_eq!(
        r,
        ApiRequest {
            url: "http://h:1/get_status".to_string(),
            authorization: "Bearer secret".to_string(),
            timeout: Some(5),
            body: "{}".to_string(),
        }
    );
}

#[test]
fn missing_token_gives_empty_bearer() {
    let api = HttpApi::new("root", None, None);
    let r = api.call_actions("a", "b".to_string());
    assert_eq!(r.url, "root/a");
    assert_eq!(r.authorization, "Bearer ");
    assert_eq!(r.timeout, None);
    assert_eq!(r.body, "b");
    let unset = HttpApi::default().call_actions("a", String::new());
    assert_eq!(unset.url, "/a");
}

#[test]
fn private_message_body() {
    let api = HttpApi::new("r", None, None);
    let r = api.send_private_msg(2, "hi \"you\"", false, 1);
    assert_eq!(r.url, "r/send_private_msg");
    assert_eq!(r.body, r#"{"auto_escape":0,"message":"hi \"you\"","self_id":1,"user_id":2}"#);
    let escaped = api.send_private_msg(-2, "", true, 1);
    assert_eq!(escaped.body, r#"{"auto_escape":1,"message":"","self_id":1,"user_id":-2}"#);
}

#[test]
fn group_message_body() {
    let api = HttpApi::new("r", None, None);
    let r = api.send_group_msg(10, "[CQ:at,qq=1]", true, 1);
    assert_eq!(r.url, "r/send_group_msg");
    assert_eq!(r.body, r#"{"auto_escape":true,"group_id":10,"message":"[CQ:at,qq=1]","self_id":1}"#);
    let plain = api.send_group_msg(10, "x", false, 1);
    assert_eq!(plain.body, r#"{"auto_escape":false,"group_id":10,"message":"x","self_id":1}"#);
}

#[test]
fn get_msg_body() {
    let api = HttpApi::new("r", None, None);
    let r = api.get_msg(77, 1);
    assert_eq!(r.url, "r/get_msg");
    assert_eq!(r.body, r#"{"message_id":77,"self_id":1}"#);
}

#[test]
fn send_msg_picks_by_type() {
    let api = HttpApi::new("r", None, None);
    let p = api.send_msg(MsgType::Private, 10, 20, "m".to_string(), false, 1);
    assert_eq!(p, api.send_private_msg(20, "m", false, 1));
    let g = api.send_msg(MsgType::Group, 10, 20, "m".to_string(), true, 1);
    assert_eq!(g, api.send_group_msg(10, "m", true, 1));
}

#[test]
fn reply_to_meta_event_is_refused() {
    assert!(matches!(reply_target(&meta_event()), Err(Error::ReplyEvent)));
    assert!(matches!(reply_target(&Event::Unknown), Err(Error::ReplyEvent)));
    assert!(matches!(bot().send(&meta_event(), "x"), Err(Error::ReplyEvent)));
}

#[test]
fn reply_to_private_message_targets_the_sender() {
    assert_eq!(
        reply_target(&private_message()).unwrap(),
        ReplyTarget::Private { user_id: 20, self_id: 1 }
    );
    let r = bot().send(&private_message(), "pong").unwrap();
    assert_eq!(r.url, "http://127.0.0.1:5700/send_private_msg");
    assert_eq!(r.authorization, "Bearer tok");
    assert_eq!(r.timeout, Some(9));
    assert_eq!(r.body, r#"{"auto_escape":0,"message":"pong","self_id":1,"user_id":20}"#);
}

#[test]
fn reply_to_group_message_targets_the_group() {
    assert_eq!(
        reply_target(&group_message()).unwrap(),
        ReplyTarget::Group { group_id: 10, self_id: 1 }
    );
    let r = bot().send(&group_message(), "pong").unwrap();
    assert_eq!(r.url, "http://127.0.0.1:5700/send_group_msg");
    assert_eq!(r.body, r#"{"auto_escape":false,"group_id":10,"message":"pong","self_id":1}"#);
}

#[test]
fn api_is_unset_until_built() {
    let bot: CQHttp<Ignore> = CQHttp::new("http://h").access_token("t").secret("s");
    let r = bot.send(&group_message(), "m").unwrap();
    assert_eq!(r.url, "/send_group_msg");
    assert_eq!(r.authorization, "Bearer ");
    let mut built = bot;
    built.build_api();
    let r = built.send(&group_message(), "m").unwrap();
    assert_eq!(r.url, "http://h/send_group_msg");
    assert_eq!(r.authorization, "Bearer t");
    assert_eq!(r.timeout, None);
}

#[test]
fn log_line_records_messages_only() {
    assert_eq!(log_line(&group_message()).unwrap(), "收到群10的消息20(nick):hi all");
    assert_eq!(log_line(&private_message()).unwrap(), "收到私聊消息20(nick):hello");
    assert_eq!(log_line(&meta_event()), None);
    assert_eq!(log_line(&Event::Unknown), None);
}

#[test]
fn server_config_carries_the_secret() {
    let bot: CQHttp<Ignore> = CQHttp::new("r").secret("s3");
    assert_eq!(
        bot.server_config("0.0.0.0", 8080),
        ServerConfig {
            address: "0.0.0.0".to_string(),
            port: 8080,
            secret_key: Some("s3".to_string()),
        }
    );
    let plain: CQHttp<Ignore> = CQHttp::new("r");
    assert_eq!(plain.server_config("::1", 1).secret_key, None);
}

#[test]
fn default_bot_has_nothing_set() {
    let mut bot: CQHttp<Ignore> = CQHttp::default();
    bot.build_api();
    let r = bot.send(&group_message(), "m").unwrap();
    assert_eq!(r.url, "/send_group_msg");
    assert_eq!(r.authorization, "Bearer ");
    assert_eq!(r.timeout, None);
    assert_eq!(bot.server_config("h", 1).secret_key, None);
}
