use channel::{
    dispatch, handle, init, meta_state, Action, Channel, ChannelError, Identity, MessageLog,
    Post, Reply, SubscriberRegistry, DEFAULT_CAPACITY,
};

fn id(n: u128) -> Identity {
    Identity::new(0, n)
}

fn started(owner: Identity, name: &str) -> Channel {
    let mut c = Channel::new(Some(DEFAULT_CAPACITY));
    init(&mut c, owner, name.to_string(), "About alerts".to_string(), 7).unwrap();
    c
}

fn texts(posts: &[Post]) -> Vec<String> {
    posts.iter().map(|p| p.text.clone()).collect()
}

#[test]
fn init_records_creation_and_enrolls_owner() {
    let o = id(1);
    let c = started(o, "Alerts");
    assert_eq!(texts(&meta_state(&c)), vec!["Channel Alerts was created".to_string()]);
    assert_eq!(meta_state(&c)[0].timestamp, 7);
    assert_eq!(c.subs(), vec![o]);
    assert_eq!(c.owner(), o);
    assert_eq!(c.name(), "Alerts");
    assert_eq!(c.description(), "About alerts");
    assert!(c.is_owner(o));
    assert!(!c.is_owner(id(2)));
}

#[test]
fn second_init_fails_and_changes_nothing() {
    let o = id(1);
    let mut c = started(o, "Alerts");
    let r = init(&mut c, id(9), "Other".to_string(), "Else".to_string(), 8);
    assert_eq!(r, Err(ChannelError::AlreadyInitialized));
    assert_eq!(c.owner(), o);
    assert_eq!(c.name(), "Alerts");
    assert_eq!(c.description(), "About alerts");
    assert_eq!(c.subs(), vec![o]);
    assert_eq!(texts(&c.messages()), vec!["Channel Alerts was created".to_string()]);
}

#[test]
fn init_fails_when_one_field_was_set() {
    let mut c = Channel::new(None);
    assert_eq!(c.set_name("Early".to_string()), Ok(()));
    let r = init(&mut c, id(1), "Alerts".to_string(), "d".to_string(), 0);
    assert_eq!(r, Err(ChannelError::AlreadyInitialized));
    assert_eq!(c.owner(), Identity::zero());
    assert_eq!(c.name(), "Early");
    assert!(c.messages().is_empty());
    assert!(c.subs().is_empty());
}

#[test]
fn setters_refuse_a_second_value() {
    let mut c = Channel::new(None);
    assert_eq!(c.set_owner_id(id(1)), Ok(()));
    assert_eq!(c.set_owner_id(id(2)), Err(ChannelError::AlreadyInitialized));
    assert_eq!(c.owner(), id(1));
    assert_eq!(c.set_description("a".to_string()), Ok(()));
    assert_eq!(c.set_description("b".to_string()), Err(ChannelError::AlreadyInitialized));
    assert_eq!(c.description(), "a");
}

#[test]
fn owner_post_notifies_every_subscriber() {
    let o = id(1);
    let a = id(2);
    let b = id(3);
    let mut c = started(o, "Alerts");
    dispatch(&mut c, a, Action::Subscribe, 8).unwrap();
    dispatch(&mut c, b, Action::Subscribe, 8).unwrap();
    let r = dispatch(&mut c, o, Action::Post("hello".to_string()), 9).unwrap();
    assert!(matches!(r.reply, Reply::Ack));
    let got: Vec<(Identity, String, u64)> = r
        .notifications
        .iter()
        .map(|n| (n.recipient, n.post.text.clone(), n.post.timestamp))
        .collect();
    assert_eq!(
        got,
        vec![(o, "hello".to_string(), 9), (a, "hello".to_string(), 9), (b, "hello".to_string(), 9)]
    );
    assert_eq!(c.messages().len(), 2);
    assert_eq!(c.messages()[1].text, "hello");
}

#[test]
fn non_owner_post_is_rejected() {
    let o = id(1);
    let a = id(2);
    let mut c = started(o, "Alerts");
    dispatch(&mut c, a, Action::Subscribe, 8).unwrap();
    let r = dispatch(&mut c, a, Action::Post("spam".to_string()), 9);
    assert_eq!(r.err(), Some(ChannelError::NotOwner));
    assert_eq!(c.messages().len(), 1);
    assert_eq!(c.subs(), vec![o, a]);
}

#[test]
fn post_before_init_is_rejected() {
    let mut c = Channel::new(Some(DEFAULT_CAPACITY));
    let r = c.post(Identity::zero(), "x".to_string(), 0);
    assert_eq!(r.err(), Some(ChannelError::NotOwner));
    assert!(c.messages().is_empty());
}

#[test]
fn bounded_log_keeps_latest_five() {
    let mut log = MessageLog::new(Some(5));
    for i in 0..6u64 {
        log.append(Post::new(format!("p{}", i), i));
    }
    let s = log.snapshot();
    assert_eq!(s.len(), 5);
    assert_eq!(texts(&s), vec!["p1", "p2", "p3", "p4", "p5"]);
    assert_eq!(log.len(), 5);
    assert_eq!(log.capacity(), Some(5));
}

#[test]
fn channel_log_evicts_creation_post_first() {
    let o = id(1);
    let mut c = started(o, "Alerts");
    for i in 0..5u64 {
        dispatch(&mut c, o, Action::Post(format!("m{}", i)), 10 + i).unwrap();
    }
    assert_eq!(texts(&meta_state(&c)), vec!["m0", "m1", "m2", "m3", "m4"]);
}

#[test]
fn unbounded_and_zero_capacity_logs() {
    let mut all = MessageLog::new(None);
    let mut none = MessageLog::new(Some(0));
    for i in 0..8u64 {
        all.append(Post::new(format!("p{}", i), i));
        none.append(Post::new(format!("p{}", i), i));
    }
    assert_eq!(all.len(), 8);
    assert_eq!(all.snapshot()[0].text, "p0");
    assert!(none.snapshot().is_empty());
}

#[test]
fn subscriptions_follow_the_last_call() {
    let o = id(1);
    let a = id(2);
    let b = id(3);
    let mut c = started(o, "Alerts");
    dispatch(&mut c, a, Action::Subscribe, 0).unwrap();
    dispatch(&mut c, a, Action::Subscribe, 0).unwrap();
    dispatch(&mut c, b, Action::Subscribe, 0).unwrap();
    dispatch(&mut c, b, Action::Unsubscribe, 0).unwrap();
    dispatch(&mut c, b, Action::Unsubscribe, 0).unwrap();
    dispatch(&mut c, o, Action::Unsubscribe, 0).unwrap();
    dispatch(&mut c, o, Action::Subscribe, 0).unwrap();
    assert_eq!(c.subs(), vec![o, a]);
}

#[test]
fn unsubscribe_of_absent_identity_is_a_no_op() {
    let o = id(1);
    let mut c = started(o, "Alerts");
    let r = dispatch(&mut c, id(5), Action::Unsubscribe, 0).unwrap();
    assert!(matches!(r.reply, Reply::Ack));
    assert!(r.notifications.is_empty());
    assert_eq!(c.subs(), vec![o]);
}

#[test]
fn registry_order_is_ascending_whatever_the_insertion_order() {
    let mut r = SubscriberRegistry::new();
    let ids = [
        Identity::new(2, 0),
        Identity::new(0, 9),
        Identity::new(1, 5),
        Identity::new(0, 3),
        Identity::new(1, 5),
    ];
    for i in ids.iter() {
        r.add(*i);
    }
    assert_eq!(
        r.snapshot(),
        vec![Identity::new(0, 3), Identity::new(0, 9), Identity::new(1, 5), Identity::new(2, 0)]
    );
    assert!(r.contains(Identity::new(1, 5)));
    r.remove(Identity::new(1, 5));
    assert!(!r.contains(Identity::new(1, 5)));
    r.remove(Identity::new(7, 7));
    assert_eq!(r.snapshot(), vec![Identity::new(0, 3), Identity::new(0, 9), Identity::new(2, 0)]);
}

#[test]
fn identity_order_compares_high_half_first() {
    assert!(Identity::new(0, u128::MAX).precedes(&Identity::new(1, 0)));
    assert!(Identity::new(1, 0).precedes(&Identity::new(1, 1)));
    assert!(!Identity::new(1, 1).precedes(&Identity::new(1, 1)));
    assert!(!Identity::new(2, 0).precedes(&Identity::new(1, 9)));
}

#[test]
fn meta_reports_placeholders_before_init() {
    let mut c = Channel::new(Some(DEFAULT_CAPACITY));
    let r = dispatch(&mut c, id(4), Action::Meta, 0).unwrap();
    match r.reply {
        Reply::Metadata(m) => {
            assert_eq!(m.name, "");
            assert_eq!(m.description, "");
            assert_eq!(m.owner, Identity::zero());
        }
        _ => panic!("expected metadata"),
    }
    assert!(r.notifications.is_empty());
}

#[test]
fn meta_and_feed_after_init() {
    let o = id(1);
    let mut c = started(o, "Alerts");
    let r = dispatch(&mut c, id(4), Action::Meta, 0).unwrap();
    match r.reply {
        Reply::Metadata(m) => {
            assert_eq!(m.name, "Alerts");
            assert_eq!(m.description, "About alerts");
            assert_eq!(m.owner, o);
        }
        _ => panic!("expected metadata"),
    }
    let r = dispatch(&mut c, id(4), Action::Feed, 0).unwrap();
    match r.reply {
        Reply::Feed(posts) => assert_eq!(texts(&posts), vec!["Channel Alerts was created"]),
        _ => panic!("expected feed"),
    }
}

#[test]
fn undecodable_payload_is_rejected_before_any_change() {
    let o = id(1);
    let mut c = started(o, "Alerts");
    let r = handle(&mut c, o, None, 0);
    assert_eq!(r.err(), Some(ChannelError::DecodeFailure));
    assert_eq!(c.messages().len(), 1);
    assert_eq!(c.subs(), vec![o]);
    let r = handle(&mut c, id(2), Some(Action::Subscribe), 0).unwrap();
    assert!(matches!(r.reply, Reply::Ack));
    assert_eq!(c.subs(), vec![o, id(2)]);
}

#[test]
fn add_message_and_remove_subscriber_on_channel() {
    let o = id(1);
    let mut c = started(o, "Alerts");
    c.add_message(Post::new("direct".to_string(), 3));
    c.add_subscriber(id(8));
    c.remove_subscriber(o);
    assert_eq!(texts(&c.messages()), vec!["Channel Alerts was created", "direct"]);
    assert_eq!(c.subs(), vec![id(8)]);
    let p = c.messages()[1].clone();
    assert_eq!((p.text, p.timestamp), ("direct".to_string(), 3));
}
