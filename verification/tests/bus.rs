use cqhttp::{CQHttp, EventBus, EventHandler};
use std::cell::RefCell;
use std::rc::Rc;

type Log = Rc<RefCell<Vec<(&'static str, i32)>>>;

struct Recorder {
    tag: &'static str,
    log: Log,
}

impl EventHandler for Recorder {
    type Output = ();
    type Args = i32;

    fn handle_event(&self, args: i32) {
        self.log.borrow_mut().push((self.tag, args));
    }
}

fn recorder(tag: &'static str, log: &Log) -> Recorder {
    Recorder { tag, log: log.clone() }
}

#[test]
fn subscriber_takes_precedence_over_hook() {
    let log: Log = Rc::new(RefCell::new(Vec::new()));
    let mut bus = EventBus::new();
    bus.subscribe("x", recorder("H1", &log));
    bus.hook_before("x", recorder("H2", &log));
    bus.emit("x", 1);
    assert_eq!(*log.borrow(), vec![("H1", 1)]);
    bus.unsubscribe("x");
    bus.emit("x", 2);
    assert_eq!(*log.borrow(), vec![("H1", 1), ("H2", 2)]);
}

#[test]
fn emit_without_handler_does_nothing() {
    let log: Log = Rc::new(RefCell::new(Vec::new()));
    let mut bus = EventBus::new();
    bus.emit("x", 1);
    bus.subscribe("y", recorder("Y", &log));
    bus.emit("x", 2);
    assert!(log.borrow().is_empty());
    assert!(bus.resolve("x").is_none());
    bus.unsubscribe("x");
    bus.unhook_before("x");
    bus.emit("y", 3);
    assert_eq!(*log.borrow(), vec![("Y", 3)]);
}

#[test]
fn later_subscribe_replaces_earlier() {
    let log: Log = Rc::new(RefCell::new(Vec::new()));
    let mut bus = EventBus::new();
    bus.subscribe("x", recorder("old", &log));
    bus.subscribe("x", recorder("new", &log));
    bus.emit("x", 7);
    assert_eq!(*log.borrow(), vec![("new", 7)]);
    assert_eq!(bus.resolve("x").map(|h| h.tag), Some("new"));
}

#[test]
fn hook_is_removed_by_unhook() {
    let log: Log = Rc::new(RefCell::new(Vec::new()));
    let mut bus = EventBus::default();
    bus.hook_before("x", recorder("hook", &log));
    bus.emit("x", 1);
    bus.unhook_before("x");
    bus.emit("x", 2);
    assert_eq!(*log.borrow(), vec![("hook", 1)]);
}

#[test]
fn names_do_not_interfere() {
    let log: Log = Rc::new(RefCell::new(Vec::new()));
    let mut bus = EventBus::new();
    bus.subscribe("a", recorder("A", &log));
    bus.hook_before("b", recorder("B", &log));
    bus.emit("b", 1);
    bus.emit("a", 2);
    bus.unsubscribe("b");
    bus.emit("b", 3);
    assert_eq!(*log.borrow(), vec![("B", 1), ("A", 2), ("B", 3)]);
}

#[test]
fn bot_forwards_to_its_bus() {
    let log: Log = Rc::new(RefCell::new(Vec::new()));
    let mut bot = CQHttp::new("http://127.0.0.1:5700");
    bot.subscribe("x", recorder("H1", &log));
    bot.hook_before("x", recorder("H2", &log));
    bot.emit("x", 1);
    bot.unsubscribe("x");
    bot.emit("x", 2);
    bot.unhook_before("x");
    bot.emit("x", 3);
    assert_eq!(*log.borrow(), vec![("H1", 1), ("H2", 2)]);
}
