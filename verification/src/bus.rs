//! The registry of event handlers: one subscriber and one pre-hook at most
//! for each event name, and the rule by which one of them is chosen.

use vstd::prelude::*;
use vstd::hash_map::StringHashMap;

verus! {

/// What the application provides to take events.
pub trait EventHandler {
    type Output;

    type Args;

    fn handle_event(&self, args: Self::Args) -> Self::Output;
}

/// `handler` was handed `args` and returned: some call of its
/// `handle_event` with these arguments has come to an end.
pub open spec fn handled<H: EventHandler>(handler: H, args: H::Args) -> bool {
    exists|output: H::Output| call_ensures(H::handle_event, (&handler, args), output)
}

/// The handler that takes an event named `name`: the subscriber of that
/// name if there is one, else the pre-hook of that name if there is one.
pub open spec fn chosen<H>(
    subscribers: Map<Seq<char>, H>,
    hooks_before: Map<Seq<char>, H>,
    name: Seq<char>,
) -> Option<H> {
    if subscribers.contains_key(name) {
        Some(subscribers[name])
    } else if hooks_before.contains_key(name) {
        Some(hooks_before[name])
    } else {
        None
    }
}

/// A subscriber takes precedence over a pre-hook of the same name, and the
/// pre-hook takes over once the subscriber is removed: after subscribing
/// `first` and hooking `second` under `name`, `first` is chosen; after
/// unsubscribing `name`, `second` is.
pub proof fn lemma_subscriber_before_hook<H>(
    subscribers: Map<Seq<char>, H>,
    hooks_before: Map<Seq<char>, H>,
    name: Seq<char>,
    first: H,
    second: H,
)
    ensures
        chosen(subscribers.insert(name, first), hooks_before.insert(name, second), name) == Some(
            first,
        ),
        chosen(
            subscribers.insert(name, first).remove(name),
            hooks_before.insert(name, second),
            name,
        ) == Some(second),
{
}

/// Registering or removing a handler under one name does not change which
/// handler is chosen for any other name.
pub proof fn lemma_names_independent<H>(
    subscribers: Map<Seq<char>, H>,
    hooks_before: Map<Seq<char>, H>,
    name: Seq<char>,
    other: Seq<char>,
    handler: H,
)
    requires
        name != other,
    ensures
        chosen(subscribers.insert(name, handler), hooks_before, other) == chosen(
            subscribers,
            hooks_before,
            other,
        ),
        chosen(subscribers, hooks_before.insert(name, handler), other) == chosen(
            subscribers,
            hooks_before,
            other,
        ),
        chosen(subscribers.remove(name), hooks_before, other) == chosen(
            subscribers,
            hooks_before,
            other,
        ),
        chosen(subscribers, hooks_before.remove(name), other) == chosen(
            subscribers,
            hooks_before,
            other,
        ),
{
}

/// The handlers of a bot, by event name. `H` is the type of the handlers.
#[verifier::reject_recursive_types(H)]
pub struct EventBus<H> {
    subscribers: StringHashMap<H>,
    hooks_before: StringHashMap<H>,
}

impl<H> EventBus<H> {
    /// The subscribers, by event name.
    pub closed spec fn subscribers(&self) -> Map<Seq<char>, H> {
        self.subscribers@
    }

    /// The pre-hooks, by event name.
    pub closed spec fn hooks_before(&self) -> Map<Seq<char>, H> {
        self.hooks_before@
    }

    /// A registry without handlers.
    pub fn new() -> (r: Self)
        ensures
            r.subscribers() == Map::<Seq<char>, H>::empty(),
            r.hooks_before() == Map::<Seq<char>, H>::empty(),
    {
        EventBus { subscribers: StringHashMap::new(), hooks_before: StringHashMap::new() }
    }

    /// Makes `func` the subscriber of `name`, in place of an earlier one.
    pub fn subscribe(&mut self, name: &str, func: H)
        ensures
            final(self).subscribers() == old(self).subscribers().insert(name@, func),
            final(self).hooks_before() == old(self).hooks_before(),
    {
        self.subscribers.insert(name.to_owned(), func);
    }

    /// Makes `func` the pre-hook of `name`, in place of an earlier one.
    pub fn hook_before(&mut self, name: &str, func: H)
        ensures
            final(self).hooks_before() == old(self).hooks_before().insert(name@, func),
            final(self).subscribers() == old(self).subscribers(),
    {
        self.hooks_before.insert(name.to_owned(), func);
    }

    /// Removes the subscriber of `name`, if there is one.
    pub fn unsubscribe(&mut self, name: &str)
        ensures
            final(self).subscribers() == old(self).subscribers().remove(name@),
            final(self).hooks_before() == old(self).hooks_before(),
    {
        self.subscribers.remove(name);
    }

    /// Removes the pre-hook of `name`, if there is one.
    pub fn unhook_before(&mut self, name: &str)
        ensures
            final(self).hooks_before() == old(self).hooks_before().remove(name@),
            final(self).subscribers() == old(self).subscribers(),
    {
        self.hooks_before.remove(name);
    }

    /// The handler that an event named `name` goes to, if any.
    pub fn resolve(&self, name: &str) -> (r: Option<&H>)
        ensures
            match r {
                Some(h) => chosen(self.subscribers(), self.hooks_before(), name@) == Some(*h),
                None => chosen(self.subscribers(), self.hooks_before(), name@) is None,
            },
    {
        match self.subscribers.get(name) {
            Some(h) => Some(h),
            None => self.hooks_before.get(name),
        }
    }
}

impl<H: EventHandler> EventBus<H> {
    /// Hands `args` to the handler chosen for `name`, and to no other; does
    /// nothing where none is registered.
    pub fn emit(&self, name: &str, args: H::Args)
        ensures
            match chosen(self.subscribers(), self.hooks_before(), name@) {
                Some(h) => handled(h, args),
                None => true,
            },
    {
        match self.resolve(name) {
            Some(handler) => {
                handler.handle_event(args);
            },
            None => {},
        }
    }
}

impl<H> Default for EventBus<H> {
    fn default() -> (r: Self)
        ensures
            r.subscribers() == Map::<Seq<char>, H>::empty(),
            r.hooks_before() == Map::<Seq<char>, H>::empty(),
    {
        EventBus::new()
    }
}

} // verus!
