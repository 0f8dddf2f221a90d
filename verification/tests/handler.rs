use amallgam::activities::{Mention, Note};
use amallgam::context::{AmallgamConfig, AmallgamContext};
use amallgam::errors::AmallgamError;
use amallgam::handler::{NoteAction, NoteEvent, NoteHandler};

fn ctx() -> AmallgamContext {
    AmallgamContext::new(AmallgamConfig {
        domain_name: "example.com".to_string(),
        db_url: "sqlite:///srv/data/data.db".to_string(),
        models_folder: "/srv/models".to_string(),
        max_simultaneous_sessions: 1,
        num_cores_per_session: 1,
    })
    .unwrap()
}

fn note(mentions: &[&str]) -> Note {
    Note {
        id: "https://other.org/notes/1".to_string(),
        attributed_to: "https://other.org/u/bob".to_string(),
        to: vec![],
        cc: vec![],
        content: "hello".to_string(),
        in_reply_to: None,
        tag: mentions.iter().map(|m| Mention::for_user(m.to_string())).collect(),
    }
}

#[test]
fn note_without_local_mention_is_dropped_quietly() {
    let c = ctx();
    let n = note(&["https://other.org/u/carol"]);
    let mut h = NoteHandler::new(&c, "https://other.org/u/bob", &n);
    assert!(matches!(h.start(), NoteAction::Finish(Ok(()))));
}

#[test]
fn first_existing_local_mention_gets_the_note() {
    let c = ctx();
    let n = note(&["https://other.org/u/carol", "https://example.com/user/gone/", "https://example.com/user/abc/"]);
    let mut h = NoteHandler::new(&c, "https://other.org/u/bob", &n);
    assert!(matches!(h.start(), NoteAction::LookUpMentionedBot { index: 1 }));
    assert!(matches!(h.step(NoteEvent::MentionedBotMissing), NoteAction::LookUpMentionedBot { index: 2 }));
    let a = h.step(NoteEvent::MentionedBotFound { bot_user_id: Some("abc".to_string()) });
    assert!(matches!(a, NoteAction::QueueReply));
    assert!(matches!(h.step(NoteEvent::Queued(true)), NoteAction::Finish(Ok(()))));
}

#[test]
fn full_pool_offloads_to_aliases_until_one_takes_it() {
    let c = ctx();
    let n = note(&["https://example.com/user/abc/"]);
    let mut h = NoteHandler::new(&c, "https://other.org/u/bob", &n);
    assert!(matches!(h.start(), NoteAction::LookUpMentionedBot { index: 0 }));
    h.step(NoteEvent::MentionedBotFound { bot_user_id: Some("abc".to_string()) });
    match h.step(NoteEvent::Queued(false)) {
        NoteAction::FetchAliases { user_id } => assert_eq!(user_id, "abc"),
        _ => panic!("expected an alias fetch"),
    }
    let aliases = vec!["https://a.org/u/x".to_string(), "https://b.org/u/y".to_string()];
    let first = match h.step(NoteEvent::AliasesFetched(aliases.clone())) {
        NoteAction::LookUpAlias { alias } => alias,
        _ => panic!("expected an alias lookup"),
    };
    assert!(aliases.contains(&first));
    assert!(matches!(h.step(NoteEvent::AliasFound(true)), NoteAction::SendOffload));
    let second = match h.step(NoteEvent::OffloadSent(false)) {
        NoteAction::LookUpAlias { alias } => alias,
        _ => panic!("expected the other alias"),
    };
    assert!(aliases.contains(&second));
    assert_ne!(first, second);
    assert!(matches!(h.step(NoteEvent::AliasFound(true)), NoteAction::SendOffload));
    assert!(matches!(h.step(NoteEvent::OffloadSent(true)), NoteAction::Finish(Ok(()))));
}

#[test]
fn every_alias_busy_means_resources_unavailable() {
    let c = ctx();
    let n = note(&["https://example.com/user/abc/"]);
    let mut h = NoteHandler::new(&c, "https://other.org/u/bob", &n);
    h.start();
    h.step(NoteEvent::MentionedBotFound { bot_user_id: Some("abc".to_string()) });
    h.step(NoteEvent::Queued(false));
    h.step(NoteEvent::AliasesFetched(vec!["https://a.org/u/x".to_string()]));
    let a = h.step(NoteEvent::AliasFound(false));
    assert!(matches!(a, NoteAction::Finish(Err(AmallgamError::ResourcesUnavailable))));
    let n2 = note(&["https://example.com/user/abc/"]);
    let mut h2 = NoteHandler::new(&c, "https://other.org/u/bob", &n2);
    h2.start();
    h2.step(NoteEvent::MentionedBotFound { bot_user_id: Some("abc".to_string()) });
    h2.step(NoteEvent::Queued(false));
    let a2 = h2.step(NoteEvent::AliasesFetched(vec![]));
    assert!(matches!(a2, NoteAction::Finish(Err(AmallgamError::ResourcesUnavailable))));
}

#[test]
fn refusal_for_a_remote_bot_is_not_accepted() {
    let c = ctx();
    let n = note(&["https://example.com/user/abc/"]);
    let mut h = NoteHandler::new(&c, "https://other.org/u/bob", &n);
    h.start();
    h.step(NoteEvent::MentionedBotFound { bot_user_id: None });
    assert!(!h.accepts(&NoteEvent::Queued(false)));
    assert!(h.accepts(&NoteEvent::Queued(true)));
}

#[test]
fn offloaded_note_goes_to_the_alias_bot() {
    let c = ctx();
    let n = note(&[]);
    let mut h = NoteHandler::new(&c, "https://a.org/u/x", &n);
    match h.start() {
        NoteAction::FindOffloadBot { alias } => assert_eq!(alias, "https://a.org/u/x"),
        _ => panic!("expected an offload"),
    }
    assert!(matches!(h.step(NoteEvent::OffloadBotFound(true)), NoteAction::QueueReply));
    assert!(matches!(h.step(NoteEvent::Queued(false)), NoteAction::Finish(Err(AmallgamError::SessionQueueFull))));
}

#[test]
fn offload_without_alias_bot_fails() {
    let c = ctx();
    let n = note(&[]);
    let mut h = NoteHandler::new(&c, "https://a.org/u/x", &n);
    h.start();
    match h.step(NoteEvent::OffloadBotFound(false)) {
        NoteAction::Finish(Err(AmallgamError::OffloadBotNotFound { alias })) => assert_eq!(alias, "https://a.org/u/x"),
        _ => panic!("expected an error"),
    }
}
