use signal_relay::command::Command;
use signal_relay::frame::{Action, Frame};
use signal_relay::registry::Registry;
use signal_relay::session::{Policy, Session};
use signal_relay::supervisor::{Duty, Supervisor};

const KEEP: Policy = Policy { keep_auto_id: true, report_untargeted_binary: true };

fn s(x: &str) -> String {
    x.to_string()
}

fn text(x: &str) -> Frame {
    Frame::Text(s(x))
}

fn open(registry: &mut Registry, id: &str, policy: Policy) -> Session {
    Session::open_with_id(registry, s(id), policy).expect("handle available")
}

#[test]
fn scenario_text_then_binary_relay() {
    let mut reg = Registry::new();
    let mut a = open(&mut reg, "u1", KEEP);
    let b = open(&mut reg, "u2", KEEP);
    let msg = r#"{"target_id":"u2","msg":"hi"}"#;
    assert_eq!(
        a.route(&mut reg, text(msg)),
        Action::Deliver { to: b.handle(), frame: text(msg) }
    );
    let payload = vec![0xDE, 0xAD, 0xBE, 0xEF];
    assert_eq!(
        a.route(&mut reg, Frame::Binary(payload.clone())),
        Action::Deliver { to: b.handle(), frame: Frame::Binary(payload) }
    );
}

#[test]
fn relay_goes_only_to_its_target() {
    let mut reg = Registry::new();
    let mut a = open(&mut reg, "a", KEEP);
    let b = open(&mut reg, "b", KEEP);
    let c = open(&mut reg, "c", KEEP);
    let msg = r#"{"target_id":"c","sdp":"x"}"#;
    let act = a.route(&mut reg, text(msg));
    assert_eq!(act, Action::Deliver { to: c.handle(), frame: text(msg) });
    assert_ne!(b.handle(), c.handle());
    assert_ne!(a.handle(), c.handle());
}

#[test]
fn register_custom_id_keeps_auto_id() {
    let mut reg = Registry::new();
    let mut a = open(&mut reg, "auto-a", KEEP);
    let mut b = open(&mut reg, "auto-b", KEEP);
    let act = a.route(&mut reg, text(r#"{"type":"register","connectionId":"alice"}"#));
    assert_eq!(act, Action::Reply(text(r#"{"type":"registered","id":"alice"}"#)));
    assert_eq!(reg.lookup(&s("alice")), Some(a.handle()));
    assert_eq!(reg.lookup(&s("auto-a")), Some(a.handle()));
    let msg = r#"{"target_id":"alice","offer":1}"#;
    assert_eq!(b.route(&mut reg, text(msg)), Action::Deliver { to: a.handle(), frame: text(msg) });
}

#[test]
fn register_with_rebinding_drops_earlier_ids() {
    let mut reg = Registry::new();
    let policy = Policy { keep_auto_id: false, report_untargeted_binary: true };
    let mut a = open(&mut reg, "auto-a", policy);
    let b = open(&mut reg, "auto-b", policy);
    a.route(&mut reg, text(r#"{"type":"register","connectionId":"alice"}"#));
    assert!(!reg.contains(&s("auto-a")));
    assert_eq!(reg.lookup(&s("alice")), Some(a.handle()));
    assert_eq!(reg.lookup(&s("auto-b")), Some(b.handle()));
}

#[test]
fn register_without_connection_id_is_ignored() {
    let mut reg = Registry::new();
    let mut a = open(&mut reg, "a", KEEP);
    let _b = open(&mut reg, "b", KEEP);
    let act = a.route(&mut reg, text(r#"{"type":"register","target_id":"b"}"#));
    assert_eq!(act, Action::Ignore);
    assert_eq!(a.last_target(), &None);
}

#[test]
fn check_recipient_changes_nothing() {
    let mut reg = Registry::new();
    let mut a = open(&mut reg, "a", KEEP);
    let act = a.route(&mut reg, text(r#"{"type":"check-recipient","connectionId":"a"}"#));
    assert_eq!(act, Action::Ignore);
    assert_eq!(reg.lookup(&s("a")), Some(a.handle()));
}

#[test]
fn receiver_ready_is_forwarded_verbatim() {
    let mut reg = Registry::new();
    let sender = open(&mut reg, "sender", KEEP);
    let mut receiver = open(&mut reg, "receiver", KEEP);
    let msg = r#"{"type":"receiver-ready","senderId":"sender","target_id":"nobody"}"#;
    assert_eq!(
        receiver.route(&mut reg, text(msg)),
        Action::Deliver { to: sender.handle(), frame: text(msg) }
    );
    assert_eq!(receiver.last_target(), &None);
    let gone = r#"{"type":"receiver-ready","senderId":"ghost"}"#;
    assert_eq!(receiver.route(&mut reg, text(gone)), Action::Ignore);
}

#[test]
fn relay_to_unknown_target_replies_with_error() {
    let mut reg = Registry::new();
    let mut a = open(&mut reg, "a", KEEP);
    let act = a.route(&mut reg, text(r#"{"target_id":"zed","msg":"hi"}"#));
    assert_eq!(
        act,
        Action::Reply(text(r#"{"type":"error","message":"Target zed not found"}"#))
    );
    assert_eq!(a.last_target(), &Some(s("zed")));
}

#[test]
fn binary_without_target_reports_error() {
    let mut reg = Registry::new();
    let mut a = open(&mut reg, "a", KEEP);
    let act = a.route(&mut reg, Frame::Binary(vec![1, 2, 3]));
    assert_eq!(
        act,
        Action::Reply(text(r#"{"type":"error","message":"No target set for binary transfer"}"#))
    );
}

#[test]
fn binary_without_target_silent_policy() {
    let mut reg = Registry::new();
    let policy = Policy { keep_auto_id: true, report_untargeted_binary: false };
    let mut a = open(&mut reg, "a", policy);
    assert_eq!(a.route(&mut reg, Frame::Binary(vec![1])), Action::Ignore);
}

#[test]
fn binary_to_vanished_target_is_dropped() {
    let mut reg = Registry::new();
    let mut a = open(&mut reg, "a", KEEP);
    let b = open(&mut reg, "b", KEEP);
    a.route(&mut reg, text(r#"{"target_id":"b"}"#));
    b.close(&mut reg);
    assert_eq!(a.route(&mut reg, Frame::Binary(vec![9])), Action::Ignore);
}

#[test]
fn malformed_and_untargeted_text_is_ignored() {
    let mut reg = Registry::new();
    let mut a = open(&mut reg, "a", KEEP);
    assert_eq!(a.route(&mut reg, text("not json")), Action::Ignore);
    assert_eq!(a.route(&mut reg, text(r#"{"msg":"hi"}"#)), Action::Ignore);
    assert_eq!(a.route(&mut reg, text(r#"{"target_id":7}"#)), Action::Ignore);
    assert_eq!(a.route(&mut reg, text(r#"["target_id","a"]"#)), Action::Ignore);
}

#[test]
fn close_and_control_frames() {
    let mut reg = Registry::new();
    let mut a = open(&mut reg, "a", KEEP);
    assert_eq!(a.route(&mut reg, Frame::Close), Action::Close);
    assert_eq!(a.route(&mut reg, Frame::Ping(vec![4])), Action::Reply(Frame::Ping(vec![4])));
    assert_eq!(a.route(&mut reg, Frame::Pong(vec![])), Action::Reply(Frame::Pong(vec![])));
}

#[test]
fn closing_removes_every_identifier_of_the_connection() {
    let mut reg = Registry::new();
    let mut a = open(&mut reg, "auto-a", KEEP);
    let mut b = open(&mut reg, "auto-b", KEEP);
    a.route(&mut reg, text(r#"{"type":"register","connectionId":"alice"}"#));
    a.close(&mut reg);
    assert!(!reg.contains(&s("auto-a")));
    assert!(!reg.contains(&s("alice")));
    assert_eq!(reg.lookup(&s("auto-b")), Some(b.handle()));
    let act = b.route(&mut reg, text(r#"{"target_id":"alice"}"#));
    assert_eq!(act, Action::Reply(text(r#"{"type":"error","message":"Target alice not found"}"#)));
}

#[test]
fn random_session_ids_are_distinct_uuids() {
    let mut reg = Registry::new();
    let a = Session::open(&mut reg, KEEP).unwrap();
    let b = Session::open(&mut reg, KEEP).unwrap();
    assert_eq!(a.id().len(), 36);
    assert_ne!(a.id(), b.id());
    assert_ne!(a.handle(), b.handle());
    assert_eq!(reg.lookup(a.id()), Some(a.handle()));
    assert_eq!(reg.lookup(b.id()), Some(b.handle()));
}

#[test]
fn registry_register_overwrites_and_unregisters() {
    let mut reg = Registry::new();
    let h1 = reg.issue_handle().unwrap();
    let h2 = reg.issue_handle().unwrap();
    assert_eq!((h1, h2), (0, 1));
    assert_eq!(reg.lookup(&s("x")), None);
    reg.register(s("x"), h1);
    assert_eq!(reg.lookup(&s("x")), Some(h1));
    reg.register(s("x"), h2);
    assert_eq!(reg.lookup(&s("x")), Some(h2));
    reg.register(s("y"), h1);
    reg.unregister(&s("x"));
    assert!(!reg.contains(&s("x")));
    assert!(reg.contains(&s("y")));
    reg.unregister(&s("x"));
    assert_eq!(reg.lookup(&s("y")), Some(h1));
}

#[test]
fn registry_unregister_connection_keeps_others() {
    let mut reg = Registry::new();
    let h1 = reg.issue_handle().unwrap();
    let h2 = reg.issue_handle().unwrap();
    reg.register(s("a"), h1);
    reg.register(s("b"), h2);
    reg.register(s("c"), h1);
    reg.unregister_connection(h1);
    assert_eq!(reg.lookup(&s("a")), None);
    assert_eq!(reg.lookup(&s("c")), None);
    assert_eq!(reg.lookup(&s("b")), Some(h2));
}

#[test]
fn supervisor_tears_down_once() {
    let mut reg = Registry::new();
    let a = open(&mut reg, "a", KEEP);
    let b = open(&mut reg, "b", KEEP);
    let mut sup = Supervisor::new();
    assert!(sup.duty_exited(Duty::Keepalive, &a, &mut reg));
    assert!(!reg.contains(&s("a")));
    reg.register(s("a"), b.handle());
    assert!(!sup.duty_exited(Duty::Reader, &a, &mut reg));
    assert!(!sup.duty_exited(Duty::Writer, &a, &mut reg));
    assert_eq!(reg.lookup(&s("a")), Some(b.handle()));
}

#[test]
fn decode_reads_string_fields() {
    assert_eq!(
        Command::decode(r#"{"type":"register","connectionId":"id1"}"#),
        Command::Register(s("id1"))
    );
    assert_eq!(
        Command::decode(r#"{"type":"check-recipient","connectionId":"id2"}"#),
        Command::CheckRecipient(s("id2"))
    );
    assert_eq!(
        Command::decode(r#"{"type":"receiver-ready","senderId":"id3"}"#),
        Command::ReceiverReady(s("id3"))
    );
    assert_eq!(Command::decode(r#"{"type":"offer","target_id":"id4"}"#), Command::Relay(s("id4")));
    assert_eq!(Command::decode(r#"{"type":1,"target_id":"id5"}"#), Command::Relay(s("id5")));
    assert_eq!(Command::decode(r#"{"type":"register"}"#), Command::Unrecognized);
    assert_eq!(Command::decode("{"), Command::Unrecognized);
}

#[test]
fn classify_prefers_known_types() {
    assert_eq!(
        Command::classify(Some(s("register")), Some(s("x")), None, Some(s("t"))),
        Command::Register(s("x"))
    );
    assert_eq!(
        Command::classify(Some(s("receiver-ready")), None, None, Some(s("t"))),
        Command::Unrecognized
    );
    assert_eq!(Command::classify(None, None, None, Some(s("t"))), Command::Relay(s("t")));
    assert_eq!(Command::classify(None, None, None, None), Command::Unrecognized);
}

#[test]
fn route_command_takes_a_decoded_command() {
    let mut reg = Registry::new();
    let mut a = open(&mut reg, "a", KEEP);
    let b = open(&mut reg, "b", KEEP);
    let act = a.route_command(&mut reg, s("payload"), Command::Relay(s("b")));
    assert_eq!(act, Action::Deliver { to: b.handle(), frame: text("payload") });
    assert_eq!(a.last_target(), &Some(s("b")));
}
