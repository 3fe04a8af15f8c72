//! The rules that tie the session slot and the topic cache to the lifecycle
//! of a connection: starting and closing sessions, the client's lifecycle
//! events, and publishing values.
use vstd::prelude::*;
use crate::session::{emptied, replaced, SessionSlot};
use crate::topic_cache::TopicCache;

verus! {

/// How long a connection attempt may take, in milliseconds.
pub const CONNECT_TIMEOUT_MS: u64 = 500;

/// Interval between reconnection attempts after a disconnect, in milliseconds.
pub const RECONNECT_INTERVAL_MS: u64 = 3000;

/// How a session is opened and how its topics are published.
pub struct SessionConfig {
    pub connect_timeout_ms: u64,
    pub reconnect_interval_ms: u64,
    /// Subscribe to the whole topic namespace, rather than to `prefixes` only.
    pub subscribe_all: bool,
    /// Topic name prefixes subscribed to when `subscribe_all` is off.
    pub prefixes: Vec<String>,
    /// The retained flag declared when a topic is registered, if any.
    pub retained: Option<bool>,
}

/// The views of a sequence of strings.
pub open spec fn string_views(v: Seq<String>) -> Seq<Seq<char>> {
    v.map_values(|s: String| s@)
}

impl SessionConfig {
    /// The configuration of a session on a local network: a short connect
    /// timeout, a fixed reconnect interval, the whole namespace subscribed and
    /// published topics retained.
    pub fn new() -> (r: Self)
        ensures
            r.connect_timeout_ms == CONNECT_TIMEOUT_MS,
            r.reconnect_interval_ms == RECONNECT_INTERVAL_MS,
            r.subscribe_all,
            r.prefixes@.len() == 0,
            r.retained == Some(true),
    {
        SessionConfig {
            connect_timeout_ms: CONNECT_TIMEOUT_MS,
            reconnect_interval_ms: RECONNECT_INTERVAL_MS,
            subscribe_all: true,
            prefixes: Vec::new(),
            retained: Some(true),
        }
    }

    /// The prefix patterns to subscribe to: the empty prefix, which covers
    /// every topic, or the configured prefixes.
    pub fn subscription_patterns(&self) -> (r: Vec<String>)
        ensures
            self.subscribe_all ==> string_views(r@) == seq![Seq::<char>::empty()],
            !self.subscribe_all ==> string_views(r@) == string_views(self.prefixes@),
    {
        let mut out: Vec<String> = Vec::new();
        if self.subscribe_all {
            out.push(String::new());
            assert(string_views(out@) =~= seq![Seq::<char>::empty()]);
            return out;
        }
        let mut i: usize = 0;
        while i < self.prefixes.len()
            invariant
                i <= self.prefixes@.len(),
                out@.len() == i,
                forall|j: int| 0 <= j < i ==> #[trigger] out@[j]@ == self.prefixes@[j]@,
            decreases self.prefixes@.len() - i,
        {
            out.push(self.prefixes[i].clone());
            i = i + 1;
        }
        assert(string_views(out@) =~= string_views(self.prefixes@));
        out
    }
}

/// A notification for the consumer of the session.
#[derive(PartialEq, Eq, Structural, Clone, Copy, Debug)]
pub enum Notification {
    Connected,
    Disconnected,
    Reconnected,
    TopicsAnnounced,
    Messages,
}

/// The name under which a notification is fired.
pub open spec fn notification_name(n: Notification) -> Seq<char> {
    match n {
        Notification::Connected => "connected"@,
        Notification::Disconnected => "disconnected"@,
        Notification::Reconnected => "reconnected"@,
        Notification::TopicsAnnounced => "topics_announced"@,
        Notification::Messages => "messages"@,
    }
}

impl Notification {
    /// The name under which this notification is fired.
    pub fn name(&self) -> (r: &'static str)
        ensures
            r@ == notification_name(*self),
    {
        match self {
            Notification::Connected => "connected",
            Notification::Disconnected => "disconnected",
            Notification::Reconnected => "reconnected",
            Notification::TopicsAnnounced => "topics_announced",
            Notification::Messages => "messages",
        }
    }
}

/// A lifecycle event that the protocol client reports.
#[derive(PartialEq, Eq, Structural, Clone, Copy, Debug)]
pub enum ClientEvent {
    /// The remote announced topics.
    Announce,
    /// The transport was lost.
    Disconnect,
    /// The transport was re-established.
    Reconnect,
}

/// The notification that a client event gives.
pub open spec fn notification_for(ev: ClientEvent) -> Notification {
    match ev {
        ClientEvent::Announce => Notification::TopicsAnnounced,
        ClientEvent::Disconnect => Notification::Disconnected,
        ClientEvent::Reconnect => Notification::Reconnected,
    }
}

/// The topic cache after a client event: a reconnect forgets every handle,
/// since the remote may have forgotten the registrations.
pub open spec fn cache_after_event<H>(cache: Map<Seq<char>, H>, ev: ClientEvent) -> Map<Seq<char>, H> {
    match ev {
        ClientEvent::Reconnect => Map::empty(),
        _ => cache,
    }
}

/// Applies a client event to the topic cache and gives the notification for it.
pub fn on_client_event<H>(cache: &mut TopicCache<H>, ev: ClientEvent) -> (n: Notification)
    requires
        old(cache).wf(),
    ensures
        final(cache).wf(),
        final(cache)@ == cache_after_event(old(cache)@, ev),
        n == notification_for(ev),
{
    match ev {
        ClientEvent::Announce => Notification::TopicsAnnounced,
        ClientEvent::Disconnect => Notification::Disconnected,
        ClientEvent::Reconnect => {
            cache.clear();
            Notification::Reconnected
        },
    }
}

/// Why an operation on a session failed. Each variant carries the
/// description given by the protocol client, or of the malformed input.
#[derive(Debug)]
pub enum SessionError {
    /// The address is not a `host:port` socket address; nothing was attempted.
    InvalidAddress(String),
    /// The transport or the handshake failed while starting a session.
    ConnectFailure(String),
    /// The subscription failed after the connection was made.
    SubscribeFailure(String),
    /// The registration of a topic failed.
    RegistrationFailure(String),
    /// Writing a value to a registered topic failed.
    PublishFailure(String),
}

/// The description that an error carries.
pub open spec fn error_detail(e: SessionError) -> Seq<char> {
    match e {
        SessionError::InvalidAddress(d) => d@,
        SessionError::ConnectFailure(d) => d@,
        SessionError::SubscribeFailure(d) => d@,
        SessionError::RegistrationFailure(d) => d@,
        SessionError::PublishFailure(d) => d@,
    }
}

impl SessionError {
    /// The description that this error carries.
    pub fn detail(&self) -> (r: &String)
        ensures
            r@ == error_detail(*self),
    {
        match self {
            SessionError::InvalidAddress(d) => d,
            SessionError::ConnectFailure(d) => d,
            SessionError::SubscribeFailure(d) => d,
            SessionError::RegistrationFailure(d) => d,
            SessionError::PublishFailure(d) => d,
        }
    }
}

/// Rejects a malformed address, with the parser's description.
pub fn invalid_address(detail: String) -> (e: SessionError)
    ensures
        e == SessionError::InvalidAddress(detail),
{
    SessionError::InvalidAddress(detail)
}

/// The outcome of opening the client: a failure is a connect failure.
pub fn connect_outcome<C>(r: Result<C, String>) -> (out: Result<C, SessionError>)
    ensures
        out == match r {
            Ok(c) => Ok::<C, SessionError>(c),
            Err(d) => Err(SessionError::ConnectFailure(d)),
        },
{
    match r {
        Ok(c) => Ok(c),
        Err(d) => Err(SessionError::ConnectFailure(d)),
    }
}

/// The outcome of subscribing on an open client: a failure is a subscribe failure.
pub fn subscribe_outcome<T>(r: Result<T, String>) -> (out: Result<T, SessionError>)
    ensures
        out == match r {
            Ok(t) => Ok::<T, SessionError>(t),
            Err(d) => Err(SessionError::SubscribeFailure(d)),
        },
{
    match r {
        Ok(t) => Ok(t),
        Err(d) => Err(SessionError::SubscribeFailure(d)),
    }
}

/// Installs a newly opened session: the previous one leaves the slot before
/// the new one enters, and the topic cache is emptied, since handles belong
/// to the session that issued them. Hands back the previous session for
/// release, and the notification for the consumer.
pub fn install_session<S, H>(slot: &mut SessionSlot<S>, cache: &mut TopicCache<H>, s: S) -> (r: (
    Option<S>,
    Notification,
))
    requires
        old(cache).wf(),
    ensures
        (final(slot)@, r.0) == replaced(old(slot)@, s),
        final(cache).wf(),
        final(cache)@ == Map::<Seq<char>, H>::empty(),
        r.1 == Notification::Connected,
{
    let prev = slot.close();
    cache.clear();
    let none = slot.replace(s);
    assert(none is None);
    (prev, Notification::Connected)
}

/// Closes the live session, if any, and hands it back for release. Without a
/// live session nothing changes.
pub fn close_session<S>(slot: &mut SessionSlot<S>) -> (prev: Option<S>)
    ensures
        (final(slot)@, prev) == emptied(old(slot)@),
{
    slot.close()
}

/// What a publish does.
#[derive(PartialEq, Eq, Structural, Clone, Copy, Debug)]
pub enum PublishPlan {
    /// No session is live: nothing to publish to.
    Skip,
    /// The topic's handle is cached: write the value with it.
    Write,
    /// The topic is not registered in this session: register it, cache the
    /// handle, then write the value.
    Register,
}

/// What a publish to `name` does, given whether a session is live and the cache.
pub open spec fn publish_plan<H>(active: bool, cache: Map<Seq<char>, H>, name: Seq<char>) -> PublishPlan {
    if !active {
        PublishPlan::Skip
    } else if cache.contains_key(name) {
        PublishPlan::Write
    } else {
        PublishPlan::Register
    }
}

/// Decides what a publish to `name` does.
pub fn plan_publish<S, H>(slot: &SessionSlot<S>, cache: &TopicCache<H>, name: &String) -> (p: PublishPlan)
    requires
        cache.wf(),
    ensures
        p == publish_plan(slot@ is Some, cache@, name@),
{
    if !slot.is_active() {
        PublishPlan::Skip
    } else if cache.contains(name) {
        PublishPlan::Write
    } else {
        PublishPlan::Register
    }
}

/// The outcome of a registration: a failure is a registration failure, and
/// nothing is cached.
pub fn registration_outcome<H>(r: Result<H, String>) -> (out: Result<H, SessionError>)
    ensures
        out == match r {
            Ok(h) => Ok::<H, SessionError>(h),
            Err(d) => Err(SessionError::RegistrationFailure(d)),
        },
{
    match r {
        Ok(h) => Ok(h),
        Err(d) => Err(SessionError::RegistrationFailure(d)),
    }
}

/// The outcome of writing a value: a failure is a publish failure.
pub fn write_outcome(r: Result<(), String>) -> (out: Result<(), SessionError>)
    ensures
        out == match r {
            Ok(()) => Ok::<(), SessionError>(()),
            Err(d) => Err(SessionError::PublishFailure(d)),
        },
{
    match r {
        Ok(()) => Ok(()),
        Err(d) => Err(SessionError::PublishFailure(d)),
    }
}

/// Completes the publish of a newly registered topic: the handle is cached
/// whether or not the write succeeded, since the registration did, and the
/// write's outcome is returned.
pub fn complete_registration<H>(
    cache: &mut TopicCache<H>,
    name: String,
    handle: H,
    written: Result<(), String>,
) -> (out: Result<(), SessionError>)
    requires
        old(cache).wf(),
    ensures
        final(cache).wf(),
        final(cache)@ == old(cache)@.insert(name@, handle),
        out == match written {
            Ok(()) => Ok::<(), SessionError>(()),
            Err(d) => Err(SessionError::PublishFailure(d)),
        },
{
    cache.insert(name, handle);
    write_outcome(written)
}

/// The cache after a publish that followed `plan` and, on registration, got `handle`.
pub open spec fn cache_after_publish<H>(
    cache: Map<Seq<char>, H>,
    name: Seq<char>,
    plan: PublishPlan,
    handle: H,
) -> Map<Seq<char>, H> {
    if plan == PublishPlan::Register {
        cache.insert(name, handle)
    } else {
        cache
    }
}

/// The number of registrations a publish makes.
pub open spec fn registrations(plan: PublishPlan) -> nat {
    if plan == PublishPlan::Register {
        1
    } else {
        0
    }
}

/// The number of value writes a publish makes.
pub open spec fn writes(plan: PublishPlan) -> nat {
    if plan == PublishPlan::Skip {
        0
    } else {
        1
    }
}

/// Within one session, two publishes to the same topic make one
/// registration between them when the topic was not yet cached, none when
/// it was, and two writes.
pub proof fn lemma_one_registration_per_topic<H>(cache: Map<Seq<char>, H>, name: Seq<char>, handle: H)
    ensures
        ({
            let first = publish_plan(true, cache, name);
            let second = publish_plan(true, cache_after_publish(cache, name, first, handle), name);
            &&& registrations(first) + registrations(second) == if cache.contains_key(name) {
                0nat
            } else {
                1nat
            }
            &&& writes(first) + writes(second) == 2
        }),
{
}

/// After a reconnect, a publish to any topic registers it afresh, even if it
/// was registered before.
pub proof fn lemma_reconnect_forces_registration<H>(cache: Map<Seq<char>, H>, name: Seq<char>)
    ensures
        publish_plan(true, cache_after_event(cache, ClientEvent::Reconnect), name)
            == PublishPlan::Register,
{
}

} // verus!
