use amallgam::tester::{send_gap_nanos, AmallgamTesterContext};
use amallgam::timings::NoteTimings;

fn tester() -> AmallgamTesterContext {
    AmallgamTesterContext::new("tester.org", "test_user", "https://example.com/user/abc/".to_string()).ok().unwrap()
}

#[test]
fn tester_user_urls() {
    let t = tester();
    assert_eq!(t.base_url, "https://tester.org/");
    assert_eq!(t.user.id, "https://tester.org/user/test_user");
    assert_eq!(t.user.name, "test_user");
    assert_eq!(t.user.preferred_username, "test_user");
    // the user URL has no trailing slash, so `./inbox` replaces its last segment
    assert_eq!(t.user.inbox, "https://tester.org/user/inbox");
    assert_eq!(t.user.outbox, "https://tester.org/user/outbox");
    assert_eq!(t.user.public_key.id, "https://tester.org/user/test_user#main-key");
    assert_eq!(t.user.public_key.owner, "https://tester.org/user/test_user");
    assert!(t.user.private_key.is_some());
}

#[test]
fn tester_note_targets_the_bot() {
    let t = tester();
    let c = t.test_note().unwrap();
    assert!(c.id.starts_with("https://tester.org/creates/"));
    assert_eq!(c.actor, "https://example.com/user/abc/");
    assert_eq!(c.to, vec!["https://www.w3.org/ns/activitystreams#Public".to_string()]);
    assert_eq!(c.object.attributed_to, "https://tester.org/user/test_user");
    assert_eq!(c.object.to, vec!["https://example.com/user/abc/".to_string()]);
    assert!(c.object.cc.is_empty());
    assert_eq!(c.object.content, "");
    assert!(c.object.in_reply_to.is_none());
    assert_eq!(c.object.tag[0].href, "https://example.com/user/abc/");
}

#[test]
fn tester_serves_only_its_user() {
    let t = tester();
    assert!(t.serves_user("test_user"));
    assert!(!t.serves_user("other"));
    assert!(t.actor_for("https://tester.org/user/test_user").is_some());
    assert!(t.actor_for("https://tester.org/user/other").is_none());
}

#[test]
fn send_gap() {
    assert_eq!(send_gap_nanos(1), 1_000_000_000);
    assert_eq!(send_gap_nanos(3), 333_333_333);
    assert_eq!(send_gap_nanos(1000), 1_000_000);
}

#[test]
fn run_statistics() {
    let mut t = NoteTimings::new();
    t.record_start("a".to_string(), 1_000_000);
    t.record_start("b".to_string(), 2_000_000);
    t.record_start("c".to_string(), 3_000_000);
    t.record_end("a".to_string(), 5_000_000);
    t.record_end("c".to_string(), 11_000_000);
    // a late duplicate reply replaces the earlier record
    t.record_end("c".to_string(), 13_000_000);
    // a reply whose clock reads earlier than the send counts as zero
    t.record_start("d".to_string(), 9_000_000);
    t.record_end("d".to_string(), 8_000_000);
    let s = t.stats().unwrap();
    assert_eq!(s.successful, 3);
    assert_eq!(s.not_replied, 1);
    assert_eq!(s.total_nanos, 4_000_000 + 10_000_000);
    assert_eq!(s.average_reply_millis(), 14 / 3);
}

#[test]
fn tester_with_given_keys() {
    let t = AmallgamTesterContext::with_keys("t.org", "u", "https://example.com/user/abc/".to_string(), "PRIV".to_string(), "PUB".to_string()).unwrap();
    assert_eq!(t.user.private_key, Some("PRIV".to_string()));
    assert_eq!(t.user.public_key.public_key_pem, "PUB");
    assert_eq!(t.user.id, "https://t.org/user/u");
    assert!(AmallgamTesterContext::with_keys("bad domain", "u", String::new(), String::new(), String::new()).is_none());
}
