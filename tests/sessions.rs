use nt_session::batcher::{BatchEvent, Batcher};
use nt_session::lifecycle::{
    close_session, complete_registration, connect_outcome, install_session, invalid_address,
    on_client_event, plan_publish, registration_outcome, subscribe_outcome, write_outcome,
    ClientEvent, Notification, PublishPlan, SessionConfig, SessionError,
};
use nt_session::session::SessionSlot;
use nt_session::topic_cache::TopicCache;

/// Calls that a stand-in protocol client received.
#[derive(Default)]
struct Calls {
    registrations: Vec<String>,
    writes: Vec<(String, f64)>,
}

fn publish(
    slot: &SessionSlot<String>,
    cache: &mut TopicCache<usize>,
    calls: &mut Calls,
    topic: &str,
    value: f64,
    write_result: Result<(), String>,
) -> Result<(), SessionError> {
    let name = topic.to_string();
    match plan_publish(slot, cache, &name) {
        PublishPlan::Skip => Ok(()),
        PublishPlan::Write => {
            calls.writes.push((name, value));
            write_outcome(write_result)
        }
        PublishPlan::Register => {
            calls.registrations.push(name.clone());
            let handle = registration_outcome(Ok::<usize, String>(calls.registrations.len()))?;
            calls.writes.push((name.clone(), value));
            complete_registration(cache, name, handle, write_result)
        }
    }
}

fn started(addr: &str) -> (SessionSlot<String>, TopicCache<usize>) {
    let mut slot = SessionSlot::new();
    let mut cache = TopicCache::new();
    let (prev, n) = install_session(&mut slot, &mut cache, addr.to_string());
    assert!(prev.is_none());
    assert_eq!(n, Notification::Connected);
    (slot, cache)
}

#[test]
fn example_session_scenario() {
    let client = connect_outcome(Ok::<String, String>("127.0.0.1:5810".to_string())).unwrap();
    let mut slot = SessionSlot::new();
    let mut cache = TopicCache::new();
    let (prev, n) = install_session(&mut slot, &mut cache, client);
    assert!(prev.is_none());
    assert_eq!(n.name(), "connected");
    assert_eq!(slot.current(), Some(&"127.0.0.1:5810".to_string()));

    let mut calls = Calls::default();
    assert!(publish(&slot, &mut cache, &mut calls, "speed", 3.14, Ok(())).is_ok());
    assert_eq!(calls.registrations.len(), 1);
    assert_eq!(calls.writes.len(), 1);
    assert!(publish(&slot, &mut cache, &mut calls, "speed", 2.0, Ok(())).is_ok());
    assert_eq!(calls.registrations.len(), 1);
    assert_eq!(calls.writes.len(), 2);
    assert_eq!(calls.writes[1], ("speed".to_string(), 2.0));

    let mut b = Batcher::new();
    let mut batches = Vec::new();
    for m in 0..70u32 {
        if let Some(batch) = b.on_event(BatchEvent::Message(m)) {
            batches.push(batch);
        }
    }
    if let Some(batch) = b.on_tick() {
        batches.push(batch);
    }
    assert_eq!(batches.iter().map(|x| x.len()).collect::<Vec<usize>>(), vec![64, 6]);

    assert_eq!(close_session(&mut slot), Some("127.0.0.1:5810".to_string()));
    assert_eq!(b.finish(), None);
    assert!(!slot.is_active());
}

#[test]
fn close_without_session_is_a_no_op() {
    let mut slot: SessionSlot<String> = SessionSlot::new();
    assert_eq!(close_session(&mut slot), None);
    assert_eq!(close_session(&mut slot), None);
    assert!(!slot.is_active());
}

#[test]
fn second_start_replaces_first_session() {
    let (mut slot, mut cache) = started("10.0.0.1:5810");
    cache.insert("speed".to_string(), 1);
    let (prev, n) = install_session(&mut slot, &mut cache, "10.0.0.2:5810".to_string());
    assert_eq!(prev, Some("10.0.0.1:5810".to_string()));
    assert_eq!(n, Notification::Connected);
    assert_eq!(slot.current(), Some(&"10.0.0.2:5810".to_string()));
    assert!(!cache.contains(&"speed".to_string()));
}

#[test]
fn publish_twice_registers_once() {
    let (slot, mut cache) = started("127.0.0.1:5810");
    let mut calls = Calls::default();
    publish(&slot, &mut cache, &mut calls, "angle", 1.0, Ok(())).unwrap();
    publish(&slot, &mut cache, &mut calls, "angle", 1.5, Ok(())).unwrap();
    assert_eq!(calls.registrations, vec!["angle".to_string()]);
    assert_eq!(calls.writes.len(), 2);
}

#[test]
fn reconnect_forces_new_registration() {
    let (slot, mut cache) = started("127.0.0.1:5810");
    let mut calls = Calls::default();
    publish(&slot, &mut cache, &mut calls, "speed", 1.0, Ok(())).unwrap();
    assert_eq!(on_client_event(&mut cache, ClientEvent::Reconnect), Notification::Reconnected);
    assert_eq!(plan_publish(&slot, &cache, &"speed".to_string()), PublishPlan::Register);
    publish(&slot, &mut cache, &mut calls, "speed", 2.0, Ok(())).unwrap();
    assert_eq!(calls.registrations.len(), 2);
}

#[test]
fn announce_and_disconnect_keep_cache() {
    let (_slot, mut cache) = started("127.0.0.1:5810");
    cache.insert("speed".to_string(), 4);
    assert_eq!(on_client_event(&mut cache, ClientEvent::Announce), Notification::TopicsAnnounced);
    assert_eq!(on_client_event(&mut cache, ClientEvent::Disconnect), Notification::Disconnected);
    assert_eq!(cache.get(&"speed".to_string()), Some(&4));
}

#[test]
fn publish_without_session_does_nothing() {
    let slot: SessionSlot<String> = SessionSlot::new();
    let mut cache = TopicCache::new();
    let mut calls = Calls::default();
    assert!(publish(&slot, &mut cache, &mut calls, "speed", 1.0, Ok(())).is_ok());
    assert!(calls.registrations.is_empty());
    assert!(calls.writes.is_empty());
}

#[test]
fn failed_write_keeps_handle_cached() {
    let (slot, mut cache) = started("127.0.0.1:5810");
    let mut calls = Calls::default();
    let r = publish(&slot, &mut cache, &mut calls, "speed", 1.0, Err("closed".to_string()));
    match r {
        Err(SessionError::PublishFailure(d)) => assert_eq!(d, "closed"),
        other => panic!("unexpected {:?}", other),
    }
    assert_eq!(cache.get(&"speed".to_string()), Some(&1));
    assert_eq!(plan_publish(&slot, &cache, &"speed".to_string()), PublishPlan::Write);
}

#[test]
fn failed_registration_caches_nothing() {
    let (slot, cache) = started("127.0.0.1:5810");
    let r = registration_outcome(Err::<usize, String>("refused".to_string()));
    assert!(matches!(r, Err(SessionError::RegistrationFailure(ref d)) if d == "refused"));
    assert!(!cache.contains(&"speed".to_string()));
    assert!(slot.is_active());
}

#[test]
fn error_kinds_carry_their_detail() {
    let e = invalid_address("bad addr".to_string());
    assert!(matches!(e, SessionError::InvalidAddress(_)));
    assert_eq!(e.detail(), "bad addr");
    let c = connect_outcome(Err::<String, String>("timed out".to_string()));
    assert!(matches!(c, Err(SessionError::ConnectFailure(ref d)) if d == "timed out"));
    let s = subscribe_outcome(Err::<u8, String>("denied".to_string()));
    assert!(matches!(s, Err(SessionError::SubscribeFailure(ref d)) if d == "denied"));
    assert_eq!(subscribe_outcome(Ok::<u8, String>(3)).unwrap(), 3);
    assert!(write_outcome(Ok(())).is_ok());
}

#[test]
fn notification_names() {
    assert_eq!(Notification::Connected.name(), "connected");
    assert_eq!(Notification::Disconnected.name(), "disconnected");
    assert_eq!(Notification::Reconnected.name(), "reconnected");
    assert_eq!(Notification::TopicsAnnounced.name(), "topics_announced");
    assert_eq!(Notification::Messages.name(), "messages");
}

#[test]
fn default_config() {
    let c = SessionConfig::new();
    assert_eq!(c.connect_timeout_ms, 500);
    assert_eq!(c.reconnect_interval_ms, 3000);
    assert_eq!(c.retained, Some(true));
    assert_eq!(c.subscription_patterns(), vec!["".to_string()]);
}

#[test]
fn prefix_config_subscribes_to_prefixes() {
    let mut c = SessionConfig::new();
    c.subscribe_all = false;
    c.prefixes = vec!["/SmartDashboard".to_string(), "/Shuffleboard".to_string()];
    assert_eq!(
        c.subscription_patterns(),
        vec!["/SmartDashboard".to_string(), "/Shuffleboard".to_string()]
    );
}
