//! The decisions a bot handle makes around the Discord API and the cache.
//!
//! Fetching an entity (a user or a server member) goes to the Discord API and,
//! when a cache backend is configured, stores the result there before handing
//! it back. Getting an entity asks the cache first and only calls the API when
//! the cache has nothing. The functions here decide, from what came back, what
//! the handle does next; the handle performs the calls.
//!
//! Reactions are given as text: a Unicode emoji (`"🍌"`), a GitHub shortcode
//! (`"banana"`), a custom emoji mention (`"<a:animated_banana:1234567890>"`),
//! or a bare custom emoji ID.

use vstd::prelude::*;

verus! {

// ---------------------------------------------------------------------------
// Cache-first lookups
// ---------------------------------------------------------------------------

/// What the handle does next in a lookup.
pub enum LookupAction<T, E> {
    /// Ask the cache for the entity.
    ReadCache,
    /// Ask the Discord API for the entity.
    CallApi,
    /// Store this value in the cache.
    WriteCache(T),
    /// Hand this result to the caller.
    Finish(Result<T, E>),
}

/// The first step of a lookup: a `get_or_fetch_*` lookup with a cache reads
/// the cache; every other lookup calls the API.
pub open spec fn lookup_start<T, E>(has_cache: bool, cache_first: bool) -> LookupAction<T, E> {
    if has_cache && cache_first {
        LookupAction::ReadCache
    } else {
        LookupAction::CallApi
    }
}

/// After the cache answered: a hit is the result, a miss calls the API, and a
/// cache error is the result.
pub open spec fn lookup_after_cache_read<T, E>(answer: Result<Option<T>, E>) -> LookupAction<T, E> {
    match answer {
        Ok(Some(value)) => LookupAction::Finish(Ok(value)),
        Ok(None) => LookupAction::CallApi,
        Err(error) => LookupAction::Finish(Err(error)),
    }
}

/// After the API answered: with a cache the fetched value is stored first,
/// without one it is the result; an API error is the result.
pub open spec fn lookup_after_api_call<T, E>(has_cache: bool, answer: Result<T, E>) -> LookupAction<
    T,
    E,
> {
    match answer {
        Ok(value) => if has_cache {
            LookupAction::WriteCache(value)
        } else {
            LookupAction::Finish(Ok(value))
        },
        Err(error) => LookupAction::Finish(Err(error)),
    }
}

/// After the cache stored the fetched value: the value is the result, unless
/// storing failed.
pub open spec fn lookup_after_cache_write<T, E>(fetched: T, answer: Result<(), E>) -> LookupAction<
    T,
    E,
> {
    match answer {
        Ok(()) => LookupAction::Finish(Ok(fetched)),
        Err(error) => LookupAction::Finish(Err(error)),
    }
}

/// Starts a lookup. `cache_first` is set for `get_or_fetch_*` lookups and
/// clear for `fetch_*` lookups.
pub fn start_lookup<T, E>(has_cache: bool, cache_first: bool) -> (action: LookupAction<T, E>)
    ensures
        action == lookup_start::<T, E>(has_cache, cache_first),
{
    if has_cache && cache_first {
        LookupAction::ReadCache
    } else {
        LookupAction::CallApi
    }
}

/// Decides what follows the cache's answer to a read.
pub fn after_cache_read<T, E>(answer: Result<Option<T>, E>) -> (action: LookupAction<T, E>)
    ensures
        action == lookup_after_cache_read(answer),
{
    match answer {
        Ok(Some(value)) => LookupAction::Finish(Ok(value)),
        Ok(None) => LookupAction::CallApi,
        Err(error) => LookupAction::Finish(Err(error)),
    }
}

/// Decides what follows the API's answer.
pub fn after_api_call<T, E>(has_cache: bool, answer: Result<T, E>) -> (action: LookupAction<T, E>)
    ensures
        action == lookup_after_api_call(has_cache, answer),
{
    match answer {
        Ok(value) => if has_cache {
            LookupAction::WriteCache(value)
        } else {
            LookupAction::Finish(Ok(value))
        },
        Err(error) => LookupAction::Finish(Err(error)),
    }
}

/// Decides what follows the cache's answer to storing `fetched`.
pub fn after_cache_write<T, E>(fetched: T, answer: Result<(), E>) -> (action: LookupAction<T, E>)
    ensures
        action == lookup_after_cache_write(fetched, answer),
{
    match answer {
        Ok(()) => LookupAction::Finish(Ok(fetched)),
        Err(error) => LookupAction::Finish(Err(error)),
    }
}

/// How a whole lookup ends, given the answers the cache and the API would
/// give: the result, whether the API was called, and what was stored in the
/// cache.
pub struct LookupOutcome<T, E> {
    pub result: Result<T, E>,
    pub api_called: bool,
    pub stored: Option<T>,
}

/// Follows a lookup from its start to its end by the step functions.
pub open spec fn lookup_outcome<T, E>(
    has_cache: bool,
    cache_first: bool,
    cache_read: Result<Option<T>, E>,
    api: Result<T, E>,
    cache_write: Result<(), E>,
) -> LookupOutcome<T, E> {
    let after_start = lookup_start::<T, E>(has_cache, cache_first);
    let before_api = match after_start {
        LookupAction::ReadCache => lookup_after_cache_read(cache_read),
        other => other,
    };
    match before_api {
        LookupAction::CallApi => match lookup_after_api_call(has_cache, api) {
            LookupAction::WriteCache(value) => LookupOutcome {
                result: match lookup_after_cache_write(value, cache_write) {
                    LookupAction::Finish(r) => r,
                    _ => api,
                },
                api_called: true,
                stored: Some(value),
            },
            LookupAction::Finish(r) => LookupOutcome { result: r, api_called: true, stored: None },
            _ => LookupOutcome { result: api, api_called: true, stored: None },
        },
        LookupAction::Finish(r) => LookupOutcome { result: r, api_called: false, stored: None },
        _ => LookupOutcome { result: api, api_called: false, stored: None },
    }
}

/// A `get_or_fetch_*` lookup with a cache that holds the entity returns the
/// cached entity and never calls the API.
pub proof fn lemma_cache_hit_skips_api<T, E>(cached: T, api: Result<T, E>, cache_write: Result<(), E>)
    ensures
        lookup_outcome(true, true, Ok(Some(cached)), api, cache_write) == (LookupOutcome::<T, E> {
            result: Ok(cached),
            api_called: false,
            stored: None,
        }),
{
}

/// A lookup that reaches the API with a cache configured stores the fetched
/// entity before returning it; a failed store is the result instead.
pub proof fn lemma_fetched_value_is_stored<T, E>(
    cache_first: bool,
    fetched: T,
    cache_write: Result<(), E>,
)
    ensures
        lookup_outcome(true, cache_first, Ok(None), Ok(fetched), cache_write) == (LookupOutcome {
            result: match cache_write {
                Ok(()) => Ok(fetched),
                Err(error) => Err(error),
            },
            api_called: true,
            stored: Some(fetched),
        }),
{
}

/// Without a cache, every lookup is a single API call whose answer is the
/// result.
pub proof fn lemma_no_cache_is_api_only<T, E>(
    cache_first: bool,
    cache_read: Result<Option<T>, E>,
    api: Result<T, E>,
    cache_write: Result<(), E>,
)
    ensures
        lookup_outcome(false, cache_first, cache_read, api, cache_write) == (LookupOutcome::<T, E> {
            result: api,
            api_called: true,
            stored: None,
        }),
{
}

/// A cache error during the read ends a `get_or_fetch_*` lookup with that
/// error, without calling the API.
pub proof fn lemma_cache_read_error_is_returned<T, E>(
    error: E,
    api: Result<T, E>,
    cache_write: Result<(), E>,
)
    ensures
        lookup_outcome(true, true, Err(error), api, cache_write) == (LookupOutcome::<T, E> {
            result: Err(error),
            api_called: false,
            stored: None,
        }),
{
}

/// An API error ends a lookup with that error and stores nothing.
pub proof fn lemma_api_error_is_returned<T, E>(
    has_cache: bool,
    cache_first: bool,
    error: E,
    cache_write: Result<(), E>,
)
    ensures
        lookup_outcome(has_cache, cache_first, Ok(None::<T>), Err(error), cache_write) == (LookupOutcome::<
            T,
            E,
        > { result: Err(error), api_called: true, stored: None }),
{
}


// ---------------------------------------------------------------------------
// Reaction emojis
// ---------------------------------------------------------------------------

/// The emoji a reaction is made with.
pub enum ReactionEmoji {
    /// A Unicode emoji, in its fully qualified form.
    Unicode(String),
    /// A custom emoji, by ID, with its name when the text gave one.
    Custom { id: u64, name: Option<String> },
}

/// A reaction emoji as the contracts see it.
pub enum ReactionEmojiView {
    Unicode(Seq<char>),
    Custom { id: u64, name: Option<Seq<char>> },
}

impl View for ReactionEmoji {
    type V = ReactionEmojiView;

    open spec fn view(&self) -> ReactionEmojiView {
        match self {
            ReactionEmoji::Unicode(name) => ReactionEmojiView::Unicode(name@),
            ReactionEmoji::Custom { id, name } => ReactionEmojiView::Custom {
                id: *id,
                name: match name {
                    Some(n) => Some(n@),
                    None => None,
                },
            },
        }
    }
}

/// Why a reaction could not be made.
#[derive(Debug, Clone, Copy, PartialEq, Eq, Structural)]
pub enum ReactionError {
    /// The text names no emoji.
    InvalidEmoji,
}

/// The emoji that `emojis::get` finds for a text (an emoji, possibly not
/// fully qualified), as the fully qualified emoji.
pub uninterp spec fn unicode_emoji_lookup(text: Seq<char>) -> Option<Seq<char>>;

/// The emoji that `emojis::get_by_shortcode` finds for a GitHub shortcode.
pub uninterp spec fn shortcode_emoji_lookup(text: Seq<char>) -> Option<Seq<char>>;

/// `emojis::get`: the emoji for a text, as its fully qualified string.
#[verifier::external_body]
fn emoji_by_unicode(text: &str) -> (emoji: Option<String>)
    ensures
        match emoji {
            Some(e) => unicode_emoji_lookup(text@) == Some(e@),
            None => unicode_emoji_lookup(text@) is None,
        },
{
    match emojis::get(text) {
        Some(e) => Some(e.as_str().to_string()),
        None => None,
    }
}

/// `emojis::get_by_shortcode`: the emoji for a shortcode, as its fully
/// qualified string.
#[verifier::external_body]
fn emoji_by_shortcode(text: &str) -> (emoji: Option<String>)
    ensures
        match emoji {
            Some(e) => shortcode_emoji_lookup(text@) == Some(e@),
            None => shortcode_emoji_lookup(text@) is None,
        },
{
    match emojis::get_by_shortcode(text) {
        Some(e) => Some(e.as_str().to_string()),
        None => None,
    }
}

/// The text is made of ASCII decimal digits.
pub open spec fn all_decimal_digits(text: Seq<char>) -> bool {
    forall|i: int| 0 <= i < text.len() ==> '0' <= #[trigger] text[i] <= '9'
}

/// The number that a string of decimal digits spells.
pub open spec fn decimal_value(digits: Seq<char>) -> int
    decreases digits.len(),
{
    if digits.len() == 0 {
        0
    } else {
        decimal_value(digits.drop_last()) * 10 + (digits.last() as int - '0' as int)
    }
}

/// The digits of an unsigned number's text: a single leading `+` is dropped.
pub open spec fn unsigned_digits(text: Seq<char>) -> Seq<char> {
    if text.len() > 0 && text[0] == '+' {
        text.drop_first()
    } else {
        text
    }
}

/// The custom emoji ID a text spells: a non-zero decimal number that fits in
/// 64 bits, with an optional leading `+`.
pub open spec fn emoji_id_value(text: Seq<char>) -> Option<u64> {
    let digits = unsigned_digits(text);
    if digits.len() > 0 && all_decimal_digits(digits) && 0 < decimal_value(digits)
        <= u64::MAX {
        Some(decimal_value(digits) as u64)
    } else {
        None
    }
}

/// `<Id<EmojiMarker> as FromStr>::from_str`, which parses a non-zero `u64`:
/// the ID that the text spells, if it spells one.
#[verifier::external_body]
fn parse_emoji_id(text: &str) -> (id: Option<u64>)
    ensures
        id == emoji_id_value(text@),
{
    match text.parse::<twilight_model::id::Id<twilight_model::id::marker::EmojiMarker>>() {
        Ok(id) => Some(id.get()),
        Err(_) => None,
    }
}

/// The part of a custom emoji mention after its opening marker: `<:` for a
/// still emoji, `<a:` for an animated one. The mention ends with `>`.
pub open spec fn mention_tail(text: Seq<char>) -> Option<Seq<char>> {
    if text.len() >= 4 && text[0] == '<' && text[text.len() - 1] == '>' && text[1] == 'a'
        && text[2] == ':' {
        Some(text.subrange(3, text.len() - 1))
    } else if text.len() >= 3 && text[0] == '<' && text[text.len() - 1] == '>' && text[1]
        == ':' {
        Some(text.subrange(2, text.len() - 1))
    } else {
        None
    }
}

/// `k` is the position of the first `:` of `tail`.
pub open spec fn is_first_colon(tail: Seq<char>, k: int) -> bool {
    &&& 0 <= k < tail.len()
    &&& tail[k] == ':'
    &&& forall|j: int| 0 <= j < k ==> #[trigger] tail[j] != ':'
}

/// `tail` holds a `:`.
pub open spec fn has_colon(tail: Seq<char>) -> bool {
    exists|k: int| is_first_colon(tail, k)
}

/// The position of the first `:` of `tail`, when it holds one.
pub open spec fn first_colon(tail: Seq<char>) -> int {
    choose|k: int| is_first_colon(tail, k)
}

/// The name and the ID text of a custom emoji mention such as
/// `<a:animated_banana:1234567890>`: the name runs up to the first `:` after
/// the opening marker and is not empty; the ID text is the rest.
pub open spec fn custom_emoji_mention(text: Seq<char>) -> Option<(Seq<char>, Seq<char>)> {
    match mention_tail(text) {
        Some(tail) => if has_colon(tail) {
            let k = first_colon(tail);
            if k > 0 {
                Some((tail.take(k), tail.skip(k + 1)))
            } else {
                None
            }
        } else {
            None
        },
        None => None,
    }
}

/// The emoji a reaction text stands for: a Unicode emoji, else a shortcode,
/// else a custom emoji mention with a valid ID, else a bare custom emoji ID.
pub open spec fn reaction_for_text(text: Seq<char>) -> Option<ReactionEmojiView> {
    match unicode_emoji_lookup(text) {
        Some(e) => Some(ReactionEmojiView::Unicode(e)),
        None => match shortcode_emoji_lookup(text) {
            Some(e) => Some(ReactionEmojiView::Unicode(e)),
            None => match custom_emoji_mention(text) {
                Some((name, id_text)) => match emoji_id_value(id_text) {
                    Some(id) => Some(ReactionEmojiView::Custom { id, name: Some(name) }),
                    None => None,
                },
                None => match emoji_id_value(text) {
                    Some(id) => Some(ReactionEmojiView::Custom { id, name: None }),
                    None => None,
                },
            },
        },
    }
}

/// The order in which a reaction text is read: a Unicode emoji wins; a text
/// that is no Unicode emoji but a GitHub shortcode reacts with the
/// shortcode's emoji, whatever else it could be read as; only a text that is
/// neither is read as a custom emoji, and then it reacts with that custom
/// emoji exactly when its ID is valid.
pub proof fn lemma_reaction_text_order(text: Seq<char>)
    ensures
        unicode_emoji_lookup(text) matches Some(e) ==> reaction_for_text(text) == Some(
            ReactionEmojiView::Unicode(e),
        ),
        unicode_emoji_lookup(text) is None ==> (shortcode_emoji_lookup(text) matches Some(e)
            ==> reaction_for_text(text) == Some(ReactionEmojiView::Unicode(e))),
        (unicode_emoji_lookup(text) is None && shortcode_emoji_lookup(text) is None) ==> (
        custom_emoji_mention(text) matches Some((name, id_text)) ==> (forall|id: u64|
            reaction_for_text(text) == Some(ReactionEmojiView::Custom { id, name: Some(name) })
                <==> emoji_id_value(id_text) == Some(id))),
        (unicode_emoji_lookup(text) is None && shortcode_emoji_lookup(text) is None
            && custom_emoji_mention(text) is None) ==> (forall|id: u64|
            reaction_for_text(text) == Some(ReactionEmojiView::Custom { id, name: None })
                <==> emoji_id_value(text) == Some(id)),
        reaction_for_text(text) matches Some(ReactionEmojiView::Custom { id, name }) ==> (
        unicode_emoji_lookup(text) is None && shortcode_emoji_lookup(text) is None && id > 0),
{
}

/// Splits a custom emoji mention into its name and its ID text.
fn split_custom_emoji_mention(text: &str) -> (parts: Option<(String, String)>)
    ensures
        match parts {
            Some((name, id_text)) => custom_emoji_mention(text@) == Some((name@, id_text@)),
            None => custom_emoji_mention(text@) is None,
        },
{
    let n = text.unicode_len();
    if n < 3 || text.get_char(0) != '<' || text.get_char(n - 1) != '>' {
        return None;
    }
    let start: usize = if n >= 4 && text.get_char(1) == 'a' && text.get_char(2) == ':' {
        3
    } else if text.get_char(1) == ':' {
        2
    } else {
        return None;
    };
    let end: usize = n - 1;
    let ghost tail = text@.subrange(start as int, end as int);
    assert(mention_tail(text@) == Some(tail));
    let mut i: usize = start;
    while i < end
        invariant
            start <= i <= end,
            end == n - 1,
            n == text@.len(),
            tail == text@.subrange(start as int, end as int),
            mention_tail(text@) == Some(tail),
            forall|j: int| 0 <= j < i - start ==> #[trigger] tail[j] != ':',
        decreases end - i,
    {
        if text.get_char(i) == ':' {
            proof {
                let k = (i - start) as int;
                assert(is_first_colon(tail, k));
                let c = first_colon(tail);
                if c < k {
                    assert(tail[c] != ':');
                } else if c > k {
                    assert(tail[k] != ':');
                }
                assert(c == k);
            }
            if i == start {
                return None;
            }
            let name = text.substring_char(start, i).to_string();
            let id_text = text.substring_char(i + 1, end).to_string();
            proof {
                let k = (i - start) as int;
                assert(name@ =~= tail.take(k));
                assert(id_text@ =~= tail.skip(k + 1));
                assert(has_colon(tail));
            }
            return Some((name, id_text));
        }
        i = i + 1;
    }
    proof {
        if has_colon(tail) {
            let k = first_colon(tail);
            assert(tail[k] != ':');
        }
    }
    None
}

/// Converts a text into the emoji to react with.
///
/// The text is tried, in order, as a Unicode emoji, as a GitHub shortcode, as
/// a custom emoji mention (`<:name:id>` or `<a:name:id>`) and as a bare custom
/// emoji ID. A text that is none of these is an invalid emoji.
pub fn reaction_emoji(text: &str) -> (emoji: Result<ReactionEmoji, ReactionError>)
    ensures
        match emoji {
            Ok(e) => reaction_for_text(text@) == Some(e@),
            Err(ReactionError::InvalidEmoji) => reaction_for_text(text@) is None,
        },
{
    if let Some(e) = emoji_by_unicode(text) {
        return Ok(ReactionEmoji::Unicode(e));
    }
    if let Some(e) = emoji_by_shortcode(text) {
        return Ok(ReactionEmoji::Unicode(e));
    }
    match split_custom_emoji_mention(text) {
        Some((name, id_text)) => match parse_emoji_id(id_text.as_str()) {
            Some(id) => Ok(ReactionEmoji::Custom { id, name: Some(name) }),
            None => Err(ReactionError::InvalidEmoji),
        },
        None => match parse_emoji_id(text) {
            Some(id) => Ok(ReactionEmoji::Custom { id, name: None }),
            None => Err(ReactionError::InvalidEmoji),
        },
    }
}

} // verus!
