use amallgam::activities::{create_with_uuid, note_with_uuid, Mention, Note};
use amallgam::context::{AmallgamConfig, AmallgamContext, UserLookup, UserRecord, record_for_user};
use amallgam::errors::AmallgamError;
use amallgam::model_config::ModelId;
use amallgam::users::{ProtocolUser, PublicKey, User};

fn ctx() -> AmallgamContext {
    AmallgamContext::new(AmallgamConfig {
        domain_name: "example.com".to_string(),
        db_url: "sqlite:///srv/data/data.db".to_string(),
        models_folder: "/srv/models".to_string(),
        max_simultaneous_sessions: 3,
        num_cores_per_session: 2,
    })
    .unwrap()
}

fn note(author: &str, mentions: &[&str]) -> Note {
    Note {
        id: "https://other.org/notes/1".to_string(),
        attributed_to: author.to_string(),
        to: vec![],
        cc: vec![],
        content: "hello".to_string(),
        in_reply_to: None,
        tag: mentions.iter().map(|m| Mention::for_user(m.to_string())).collect(),
    }
}

fn remote_sender() -> User {
    User::Remote(ProtocolUser {
        id: "https://other.org/u/bob".to_string(),
        preferred_username: "bob".to_string(),
        name: "Bob".to_string(),
        inbox: "https://other.org/u/bob/inbox".to_string(),
        outbox: "https://other.org/u/bob/outbox".to_string(),
        public_key: PublicKey {
            id: "k".to_string(),
            owner: "https://other.org/u/bob".to_string(),
            public_key_pem: "P".to_string(),
        },
        endpoints: None,
    })
}

#[test]
fn context_urls() {
    let c = ctx();
    assert_eq!(c.domain_name(), "example.com");
    assert_eq!(c.num_cores_per_session(), 2);
    assert_eq!(c.new_session_slots().len(), 0);
    assert_eq!(c.server_relative_url("./_internal/run_pending_notes"), Some("https://example.com/_internal/run_pending_notes".to_string()));
    assert_eq!(c.user_base_url("abc"), Some("https://example.com/user/abc/".to_string()));
    assert!(AmallgamContext::new(AmallgamConfig {
        domain_name: "bad domain".to_string(),
        db_url: String::new(),
        models_folder: String::new(),
        max_simultaneous_sessions: 1,
        num_cores_per_session: 1,
    })
    .is_none());
}

#[test]
fn database_url_below_root() {
    assert_eq!(AmallgamConfig::database_url("/srv/amallgam"), Some("sqlite:///srv/amallgam/data/data.db".to_string()));
}

#[test]
fn new_bot_user_fields() {
    let c = ctx();
    let u = c.new_bot_user("def", ModelId("m1".to_string()), "sys".to_string()).ok().unwrap();
    match u {
        User::Local { base_url, user_id, display_name, public_key_pem, private_key_pem, model_id, system_prompt } => {
            assert_eq!(base_url, "https://example.com/user/def/");
            assert_eq!(user_id, "def");
            assert_eq!(display_name, "def");
            assert!(public_key_pem.contains("PUBLIC KEY"));
            assert!(private_key_pem.contains("PRIVATE KEY"));
            assert_eq!(model_id.0, "m1");
            assert_eq!(system_prompt, "sys");
        },
        User::Remote(_) => panic!("expected a bot"),
    }
}

#[test]
fn bot_read_back_after_store() {
    let c = ctx();
    let u = User::Local {
        base_url: "https://example.com/user/def/".to_string(),
        user_id: "def".to_string(),
        display_name: "Def".to_string(),
        public_key_pem: "PUB".to_string(),
        private_key_pem: "PRIV".to_string(),
        model_id: ModelId("m1".to_string()),
        system_prompt: "sys".to_string(),
    };
    let row = match record_for_user(u) {
        UserRecord::Persisted(row) => row,
        UserRecord::Cached { .. } => panic!("bots are persisted"),
    };
    assert_eq!(row.id, "def");
    assert_eq!(row.public_key, "PUB");
    assert_eq!(row.private_key, "PRIV");
    let back = c.bot_user_from_row(row).unwrap();
    match back {
        User::Local { base_url, user_id, display_name, model_id, .. } => {
            assert_eq!(base_url, "https://example.com/user/def/");
            assert_eq!(user_id, "def");
            assert_eq!(display_name, "Def");
            assert_eq!(model_id.0, "m1");
        },
        User::Remote(_) => panic!("expected a bot"),
    }
}

#[test]
fn remote_users_are_cached_under_their_id() {
    match record_for_user(remote_sender()) {
        UserRecord::Cached { key, user } => {
            assert_eq!(key, "https://other.org/u/bob");
            assert_eq!(user.name, "Bob");
        },
        UserRecord::Persisted(_) => panic!("remote users are cached"),
    }
}

#[test]
fn user_lookup_by_url() {
    let c = ctx();
    match c.user_lookup("https://example.com/user/abc/") {
        Ok(UserLookup::LocalBot { user_id }) => assert_eq!(user_id, "abc"),
        _ => panic!("expected a local bot"),
    }
    assert!(matches!(c.user_lookup("https://other.org/user/abc/"), Ok(UserLookup::NotLocal)));
    assert!(matches!(c.user_lookup("https://example.com/"), Err(AmallgamError::BadLocalUserUrl)));
}

#[test]
fn reply_to_a_note() {
    let c = ctx();
    let bot = c.new_bot_user("abc", ModelId("m".to_string()), "s".to_string()).ok().unwrap();
    let n = note("https://other.org/u/bob", &["https://example.com/user/abc/"]);
    let p = c.reply_activity(&bot, &n, &remote_sender(), "hi bob".to_string()).unwrap();
    assert_eq!(p.target_inboxes, vec!["https://other.org/u/bob/inbox".to_string()]);
    let a = p.activity;
    assert!(a.id.starts_with("https://example.com/creates/"));
    assert_eq!(a.id.len(), "https://example.com/creates/".len() + 36);
    assert_eq!(a.actor, "https://example.com/user/abc/");
    assert_eq!(a.to, vec!["https://www.w3.org/ns/activitystreams#Public".to_string()]);
    assert!(a.cc.is_empty());
    let r = a.object;
    assert!(r.id.starts_with("https://example.com/notes/"));
    assert_eq!(r.attributed_to, "https://example.com/user/abc/");
    assert_eq!(r.to, vec!["https://www.w3.org/ns/activitystreams#Public".to_string()]);
    assert_eq!(r.cc, vec!["https://other.org/u/bob".to_string()]);
    assert_eq!(r.content, "hi bob");
    assert_eq!(r.in_reply_to, Some("https://other.org/notes/1".to_string()));
    assert_eq!(r.tag.len(), 1);
    assert_eq!(r.tag[0].href, "https://other.org/u/bob");
}

#[test]
fn offload_to_an_alias() {
    let c = ctx();
    let bot = c.new_bot_user("abc", ModelId("m".to_string()), "s".to_string()).ok().unwrap();
    let n = note("https://other.org/u/bob", &["https://example.com/user/abc/"]);
    let p = c.offload_activity(&bot, &n, &remote_sender()).unwrap();
    assert_eq!(p.target_inboxes, vec!["https://other.org/u/bob/inbox".to_string()]);
    assert_eq!(p.activity.actor, "https://example.com/user/abc/");
    assert_eq!(p.activity.object.id, "https://other.org/notes/1");
    assert_eq!(p.activity.object.content, "hello");
}

#[test]
fn local_mentions() {
    let c = ctx();
    assert!(c.is_local("https://example.com/user/abc/"));
    assert!(!c.is_local("https://other.org/user/abc/"));
}

#[test]
fn bot_user_with_given_keys() {
    let c = ctx();
    let u = c.bot_user_with_keys("ghi", ModelId("m2".to_string()), "p".to_string(), "PRIV".to_string(), "PUB".to_string()).unwrap();
    match u {
        User::Local { base_url, user_id, display_name, public_key_pem, private_key_pem, model_id, system_prompt } => {
            assert_eq!(base_url, "https://example.com/user/ghi/");
            assert_eq!(user_id, "ghi");
            assert_eq!(display_name, "ghi");
            assert_eq!(public_key_pem, "PUB");
            assert_eq!(private_key_pem, "PRIV");
            assert_eq!(model_id.0, "m2");
            assert_eq!(system_prompt, "p");
        },
        User::Remote(_) => panic!("expected a bot"),
    }
}

#[test]
fn activities_with_given_ids() {
    let n = note_with_uuid(
        "https://example.com/",
        "0190f4e5-7b6a-7cde-8f01-23456789abcd",
        "https://example.com/user/abc/".to_string(),
        vec![],
        vec![],
        "c".to_string(),
        None,
        vec![],
    )
    .unwrap();
    assert_eq!(n.id, "https://example.com/notes/0190f4e5-7b6a-7cde-8f01-23456789abcd");
    let c = create_with_uuid("https://example.com/", "u1", "https://example.com/user/abc/".to_string(), vec![], vec![], n).unwrap();
    assert_eq!(c.id, "https://example.com/creates/u1");
    assert_eq!(c.object.content, "c");
}
