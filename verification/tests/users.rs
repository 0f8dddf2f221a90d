use amallgam::model_config::ModelId;
use amallgam::users::{Endpoints, ProtocolUser, PublicKey, User};

fn bot() -> User {
    User::Local {
        base_url: "https://example.com/user/abc/".to_string(),
        user_id: "abc".to_string(),
        display_name: "Abc".to_string(),
        public_key_pem: "PUB".to_string(),
        private_key_pem: "PRIV".to_string(),
        model_id: ModelId("qwen".to_string()),
        system_prompt: "be nice".to_string(),
    }
}

fn remote(shared: Option<&str>) -> ProtocolUser {
    ProtocolUser {
        id: "https://other.org/u/bob".to_string(),
        preferred_username: "bob".to_string(),
        name: "Bob".to_string(),
        inbox: "https://other.org/u/bob/inbox".to_string(),
        outbox: "https://other.org/u/bob/outbox".to_string(),
        public_key: PublicKey {
            id: "https://other.org/u/bob#key".to_string(),
            owner: "https://other.org/u/bob".to_string(),
            public_key_pem: "BOBPUB".to_string(),
        },
        endpoints: shared.map(|s| Endpoints { shared_inbox: s.to_string() }),
    }
}

#[test]
fn bot_actor_fields() {
    let b = bot();
    assert_eq!(b.id(), "https://example.com/user/abc/");
    assert_eq!(b.display_name(), "Abc");
    assert_eq!(b.public_key_pem(), "PUB");
    assert_eq!(b.private_key_pem(), Some("PRIV".to_string()));
    assert_eq!(b.inbox(), Some("https://example.com/user/abc/inbox".to_string()));
    assert_eq!(b.shared_inbox(), None);
    assert_eq!(b.shared_inbox_or_inbox(), Some("https://example.com/user/abc/inbox".to_string()));
    let k = b.public_key();
    assert_eq!(k.id, "https://example.com/user/abc/#main-key");
    assert_eq!(k.owner, "https://example.com/user/abc/");
    assert_eq!(k.public_key_pem, "PUB");
}

#[test]
fn remote_actor_fields() {
    let r = User::Remote(remote(Some("https://other.org/inbox")));
    assert_eq!(r.id(), "https://other.org/u/bob");
    assert_eq!(r.display_name(), "Bob");
    assert_eq!(r.public_key_pem(), "BOBPUB");
    assert_eq!(r.private_key_pem(), None);
    assert_eq!(r.inbox(), Some("https://other.org/u/bob/inbox".to_string()));
    assert_eq!(r.shared_inbox_or_inbox(), Some("https://other.org/inbox".to_string()));
    let r = User::Remote(remote(None));
    assert_eq!(r.shared_inbox_or_inbox(), Some("https://other.org/u/bob/inbox".to_string()));
}

#[test]
fn bot_protocol_form() {
    let p = bot().into_json().unwrap();
    assert_eq!(p.id, "https://example.com/user/abc/");
    assert_eq!(p.preferred_username, "abc");
    assert_eq!(p.name, "Abc");
    assert_eq!(p.inbox, "https://example.com/user/abc/inbox");
    assert_eq!(p.outbox, "https://example.com/user/abc/outbox");
    assert_eq!(p.public_key.id, "https://example.com/user/abc/#main-key");
    assert!(p.endpoints.is_none());
}

#[test]
fn remote_user_roundtrips_through_protocol_form() {
    let p = User::from_json(remote(Some("https://other.org/inbox"))).into_json().unwrap();
    assert_eq!(p.id, "https://other.org/u/bob");
    assert_eq!(p.public_key.id, "https://other.org/u/bob#key");
    assert_eq!(p.endpoints.unwrap().shared_inbox, "https://other.org/inbox");
}

#[test]
fn received_users_are_checked_against_their_domain() {
    let p = remote(None);
    assert!(User::verify(&p, "https://other.org/whatever").is_ok());
    assert!(User::verify(&p, "https://example.com/").is_err());
}
