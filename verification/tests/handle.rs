use dyncord::handle::{
    after_api_call, after_cache_read, after_cache_write, reaction_emoji, start_lookup,
    LookupAction, ReactionEmoji, ReactionError,
};

fn custom(text: &str) -> Option<(u64, Option<String>)> {
    match reaction_emoji(text) {
        Ok(ReactionEmoji::Custom { id, name }) => Some((id, name)),
        _ => None,
    }
}

#[test]
fn reaction_unicode_emoji() {
    match reaction_emoji("🍌") {
        Ok(ReactionEmoji::Unicode(name)) => assert_eq!(name, "🍌"),
        _ => panic!("expected a unicode emoji"),
    }
}

#[test]
fn reaction_unicode_emoji_is_fully_qualified() {
    match reaction_emoji("\u{1f43f}") {
        Ok(ReactionEmoji::Unicode(name)) => assert_eq!(name, "\u{1f43f}\u{fe0f}"),
        _ => panic!("expected a unicode emoji"),
    }
}

#[test]
fn reaction_shortcode() {
    match reaction_emoji("banana") {
        Ok(ReactionEmoji::Unicode(name)) => assert_eq!(name, "🍌"),
        _ => panic!("expected a unicode emoji"),
    }
}

#[test]
fn reaction_custom_mention_animated() {
    assert_eq!(
        custom("<a:animated_banana:1234567890>"),
        Some((1234567890, Some("animated_banana".to_string())))
    );
}

#[test]
fn reaction_custom_mention_still() {
    assert_eq!(custom("<:rarity:123>"), Some((123, Some("rarity".to_string()))));
}

#[test]
fn reaction_bare_id() {
    assert_eq!(custom("1234567890"), Some((1234567890, None)));
    assert_eq!(custom("+42"), Some((42, None)));
    assert_eq!(custom("007"), Some((7, None)));
}

#[test]
fn reaction_invalid_texts() {
    for text in [
        "not an emoji at all",
        "0",
        "-5",
        "+",
        "",
        "18446744073709551616",
        "<a::123>",
        "<:name:abc>",
        "<:name:0>",
        "<name:1>",
        "<:name:1",
        "12a",
    ] {
        assert_eq!(reaction_emoji(text).err(), Some(ReactionError::InvalidEmoji), "{text}");
    }
}

#[test]
fn reaction_largest_id() {
    assert_eq!(custom("18446744073709551615"), Some((u64::MAX, None)));
}

#[test]
fn lookup_start_steps() {
    assert!(matches!(start_lookup::<u8, ()>(true, true), LookupAction::ReadCache));
    assert!(matches!(start_lookup::<u8, ()>(true, false), LookupAction::CallApi));
    assert!(matches!(start_lookup::<u8, ()>(false, true), LookupAction::CallApi));
}

#[test]
fn lookup_cache_hit_finishes() {
    assert!(matches!(after_cache_read::<u8, ()>(Ok(Some(4))), LookupAction::Finish(Ok(4))));
    assert!(matches!(after_cache_read::<u8, ()>(Ok(None)), LookupAction::CallApi));
    assert!(matches!(after_cache_read::<u8, &str>(Err("down")), LookupAction::Finish(Err("down"))));
}

#[test]
fn lookup_fetched_value_is_stored_then_returned() {
    assert!(matches!(after_api_call::<u8, ()>(true, Ok(9)), LookupAction::WriteCache(9)));
    assert!(matches!(after_api_call::<u8, ()>(false, Ok(9)), LookupAction::Finish(Ok(9))));
    assert!(matches!(after_api_call::<u8, &str>(true, Err("http")), LookupAction::Finish(Err("http"))));
    assert!(matches!(after_cache_write::<u8, ()>(9, Ok(())), LookupAction::Finish(Ok(9))));
    assert!(matches!(after_cache_write::<u8, &str>(9, Err("full")), LookupAction::Finish(Err("full"))));
}

#[test]
fn lookup_without_cache_is_api_only() {
    for cache_first in [true, false] {
        assert!(matches!(start_lookup::<u8, ()>(false, cache_first), LookupAction::CallApi));
        assert!(matches!(after_api_call::<u8, ()>(false, Ok(3)), LookupAction::Finish(Ok(3))));
    }
}
