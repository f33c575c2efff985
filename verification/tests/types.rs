use dyncord::wrappers::actions::interaction_respond::{
    InteractionRespondWithDeferral, InteractionRespondWithMessage,
};
use dyncord::wrappers::actions::message_create::CreateMessage;
use dyncord::wrappers::types::channels::Channel;
use dyncord::wrappers::types::members::{Member, MemberUpdate, PartialMember};
use dyncord::wrappers::types::roles::Role;
use dyncord::wrappers::types::servers::{PartialServer, Server};
use twilight_model::channel::message::Embed;

fn member() -> Member {
    Member {
        id: 1,
        nickname: Some("nick".to_string()),
        roles: vec![3],
        is_muted: true,
        is_deafened: false,
        is_pending: true,
    }
}

fn embed(title: &str) -> Embed {
    Embed {
        author: None,
        color: None,
        description: None,
        fields: Vec::new(),
        footer: None,
        image: None,
        kind: "rich".to_string(),
        provider: None,
        thumbnail: None,
        timestamp: None,
        title: Some(title.to_string()),
        url: None,
        video: None,
    }
}

#[test]
fn member_update_from_partial() {
    let mut m = member();
    m.update_from_partial(PartialMember { nick: None, roles: vec![4, 5], mute: false, deaf: true });
    assert_eq!(m.id, 1);
    assert_eq!(m.nickname, None);
    assert_eq!(m.roles, vec![4, 5]);
    assert!(!m.is_muted);
    assert!(m.is_deafened);
    assert!(m.is_pending);
}

#[test]
fn member_update_from_event_keeps_unreported_states() {
    let mut m = member();
    m.update_from_event(MemberUpdate {
        nick: Some("new".to_string()),
        roles: vec![],
        mute: None,
        deaf: None,
        pending: false,
    });
    assert_eq!(m.nickname.as_deref(), Some("new"));
    assert!(m.roles.is_empty());
    assert!(m.is_muted);
    assert!(!m.is_deafened);
    assert!(!m.is_pending);
    m.update_from_event(MemberUpdate {
        nick: None,
        roles: vec![9],
        mute: Some(false),
        deaf: Some(true),
        pending: true,
    });
    assert!(!m.is_muted);
    assert!(m.is_deafened);
    assert_eq!(m.id, 1);
}

#[test]
fn member_clone_is_equal() {
    let m = member();
    let c = m.clone();
    assert_eq!(c.id, m.id);
    assert_eq!(c.nickname, m.nickname);
    assert_eq!(c.roles, m.roles);
    assert_eq!((c.is_muted, c.is_deafened, c.is_pending), (m.is_muted, m.is_deafened, m.is_pending));
}

#[test]
fn channel_name_defaults_to_unnamed() {
    assert_eq!(Channel::from_parts(5, None).name, "Unnamed");
    let c = Channel::from_parts(6, Some("general".to_string()));
    assert_eq!((c.id, c.name.as_str()), (6, "general"));
}

#[test]
fn server_update_from_partial() {
    let mut s = Server { id: 2, name: "Old".to_string() };
    s.update_from_partial(PartialServer { name: "New".to_string() });
    assert_eq!((s.id, s.name.as_str()), (2, "New"));
    let r = Role { id: 8 };
    assert_eq!(r.id, 8);
}

#[test]
fn interaction_message_flags() {
    let base = || InteractionRespondWithMessage::new(1, 2, "token".to_string(), "hello");
    let plain = base();
    assert_eq!(plain.content, "hello");
    assert_eq!(plain.message_flags(), 0);
    assert_eq!(base().ephemeral().message_flags(), 1 << 6);
    assert_eq!(base().no_embeds().message_flags(), 1 << 2);
    assert_eq!(base().no_notifications().message_flags(), 1 << 12);
    assert_eq!(
        base().ephemeral().no_embeds().no_notifications().message_flags(),
        (1 << 6) | (1 << 2) | (1 << 12)
    );
    assert_eq!(base().no_notifications().ephemeral().message_flags(), (1 << 6) | (1 << 12));
}

#[test]
fn interaction_deferral_holds_ids() {
    let d = InteractionRespondWithDeferral::new(1, 2, "t".to_string());
    assert_eq!((d.application_id, d.interaction_id, d.interaction_token.as_str()), (1, 2, "t"));
}

#[test]
fn create_message_reply_and_embeds() {
    let m = CreateMessage::new(7, "content");
    assert_eq!((m.channel_id, m.content.as_str(), m.replying_to), (7, "content", None));
    assert!(m.embeds.is_empty());
    let m = m.embed(embed("a")).reply(99).embed(embed("b"));
    assert_eq!(m.replying_to, Some(99));
    let titles: Vec<_> = m.embeds.iter().map(|e| e.title.clone().unwrap()).collect();
    assert_eq!(titles, vec!["a".to_string(), "b".to_string()]);
}
