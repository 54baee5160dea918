//! Conversation contexts: what is remembered of the last conversation with
//! the bound user, where it is kept, and how an incoming message is read.
use crate::errors::CliError;
use crate::storage::{join, join_path};
use crate::text::{concat2, concat3, owned, same_text, string_views};
use crate::wechat::models::{GetUpdatesResponse, InboundMessage, InboundMessageItem};
use vstd::prelude::*;

verus! {

/// The last conversation seen with the bound user.
#[derive(Debug)]
pub struct ConversationContext {
    pub target_user_id: String,
    pub context_token: String,
    /// When the context was seen, as an RFC 3339 timestamp.
    pub updated_at: String,
    pub last_text: Option<String>,
    pub item_types: Vec<u64>,
}

/// The location of the cached context of `user_id` under the given home
/// directory: `<home>/.cache/wechat-cli/contexts/<user_id>.json`.
pub fn context_file(home: &str, user_id: &str) -> (r: String)
    ensures
        r@ == join_path(
            join_path(join_path(join_path(home@, ".cache"@), "wechat-cli"@), "contexts"@),
            user_id@ + ".json"@,
        ),
{
    let a = join(home, ".cache");
    let b = join(a.as_str(), "wechat-cli");
    let c = join(b.as_str(), "contexts");
    let file = concat2(user_id, ".json");
    join(c.as_str(), file.as_str())
}

/// The context token to send with: the one given, else the cached one,
/// else a refusal that says how to obtain one.
pub fn resolve_context_token(
    user_id: &str,
    explicit: Option<&str>,
    cached: Option<&ConversationContext>,
) -> (r: Result<String, CliError>)
    ensures
        match (explicit, cached) {
            (Some(t), _) => r matches Ok(s) && s@ == t@,
            (None, Some(c)) => r matches Ok(s) && s@ == c.context_token@,
            (None, None) => r matches Err(CliError::NoCachedContext { user_id: u }) && u@ == user_id@,
        },
{
    if let Some(t) = explicit {
        return Ok(owned(t));
    }
    match cached {
        Some(c) => Ok(c.context_token.clone()),
        None => Err(CliError::NoCachedContext { user_id: owned(user_id) }),
    }
}

/// The other party of a message between the bot `bot_id` and a user.
/// It is the sender of a message to the bot (where the sender is named),
/// else the recipient.
pub open spec fn peer_of(bot_id: Seq<char>, from: Seq<char>, to: Seq<char>) -> Seq<char> {
    if to == bot_id && from.len() > 0 {
        from
    } else {
        to
    }
}

/// The other party of a message between the bot `bot_id` and a user: the
/// sender of a message to the bot, else the recipient.
pub fn conversation_peer_id(bot_id: &str, from_user_id: &str, to_user_id: &str) -> (r: String)
    ensures
        r@ == peer_of(bot_id@, from_user_id@, to_user_id@),
{
    if same_text(to_user_id, bot_id) && !from_user_id.is_empty() {
        owned(from_user_id)
    } else if same_text(from_user_id, bot_id) && !to_user_id.is_empty() {
        owned(to_user_id)
    } else {
        owned(to_user_id)
    }
}

/// The text of one item, where it has any: a body, a text, a voice
/// transcription, or a quote of the text of quoted items prefixed by `> `.
pub open spec fn item_text(item: InboundMessageItem) -> Option<Seq<char>>
    decreases item, 2int,
{
    if item.item_type == 0 {
        match item.body {
            Some(b) => Some(b@),
            None => None,
        }
    } else if item.item_type == 1 {
        match item.text_item {
            Some(t) => Some(t.text@),
            None => None,
        }
    } else if item.item_type == 5 {
        match item.voice_transcription_body {
            Some(v) => Some(v@),
            None => None,
        }
    } else if item.item_type == 7 {
        match item.ref_item_list {
            Some(refs) => {
                let quoted = items_text(refs@);
                if quoted.len() > 0 {
                    Some("> "@ + quoted)
                } else {
                    None
                }
            },
            None => None,
        }
    } else {
        None
    }
}

/// The texts of the items that have one, in order.
pub open spec fn item_texts(items: Seq<InboundMessageItem>) -> Seq<Seq<char>>
    decreases items, 0int,
{
    if items.len() == 0 {
        Seq::empty()
    } else {
        let rest = item_texts(items.drop_last());
        match item_text(items.last()) {
            Some(t) => rest.push(t),
            None => rest,
        }
    }
}

/// `parts` joined by newlines.
pub open spec fn join_lines(parts: Seq<Seq<char>>) -> Seq<char>
    decreases parts.len(),
{
    if parts.len() == 0 {
        Seq::empty()
    } else if parts.len() == 1 {
        parts[0]
    } else {
        join_lines(parts.drop_last()) + "\n"@ + parts.last()
    }
}

/// The text of a list of items: the texts of its items joined by newlines.
pub open spec fn items_text(items: Seq<InboundMessageItem>) -> Seq<char>
    decreases items, 1int,
{
    join_lines(item_texts(items))
}

/// `parts` joined by newlines.
fn join_with_newlines(parts: &Vec<String>) -> (r: String)
    ensures
        r@ == join_lines(string_views(parts@)),
{
    let mut out = String::new();
    let mut i: usize = 0;
    let ghost views = string_views(parts@);
    assert(join_lines(views.take(0)) =~= Seq::<char>::empty()) by {
        assert(views.take(0).len() == 0);
    }
    while i < parts.len()
        invariant
            views == string_views(parts@),
            i <= parts.len(),
            out@ == join_lines(views.take(i as int)),
        decreases parts.len() - i,
    {
        assert(views[i as int] == parts@[i as int]@);
        if i == 0 {
            out = parts[0].clone();
            assert(views.take(1) =~= seq![views[0]]);
        } else {
            let next = concat3(out.as_str(), "\n", parts[i].as_str());
            assert(views.take(i + 1).drop_last() =~= views.take(i as int));
            assert(views.take(i + 1).last() == views[i as int]);
            out = next;
        }
        i = i + 1;
    }
    assert(views.take(i as int) =~= views);
    out
}

/// The text of one item, where it has any (see [`item_text`]).
fn item_text_of(item: &InboundMessageItem) -> (r: Option<String>)
    ensures
        crate::text::opt_view(r) == item_text(*item),
    decreases *item, 2int,
{
    if item.item_type == 0 {
        crate::text::copy_opt(&item.body)
    } else if item.item_type == 1 {
        match &item.text_item {
            Some(t) => Some(t.text.clone()),
            None => None,
        }
    } else if item.item_type == 5 {
        crate::text::copy_opt(&item.voice_transcription_body)
    } else if item.item_type == 7 {
        match &item.ref_item_list {
            Some(refs) => {
                assert(decreases_to!(*item => item.ref_item_list));
                let quoted = body_from_item_list(refs.as_slice());
                if quoted.as_str().is_empty() {
                    None
                } else {
                    Some(concat2("> ", quoted.as_str()))
                }
            },
            None => None,
        }
    } else {
        None
    }
}

/// The text of a list of items: the body, text, voice transcription or
/// quote of each item that has one, joined by newlines.
pub fn body_from_item_list(item_list: &[InboundMessageItem]) -> (r: String)
    ensures
        r@ == items_text(item_list@),
    decreases item_list@, 1int,
{
    let mut parts: Vec<String> = Vec::new();
    let mut i: usize = 0;
    while i < item_list.len()
        invariant
            i <= item_list.len(),
            string_views(parts@) == item_texts(item_list@.take(i as int)),
        decreases item_list.len() - i,
    {
        let item = &item_list[i];
        assert(item_list@.take(i + 1).drop_last() =~= item_list@.take(i as int));
        assert(item_list@.take(i + 1).last() == *item);
        let ghost before = string_views(parts@);
        match item_text_of(item) {
            Some(t) => {
                parts.push(t);
                assert(string_views(parts@) =~= before.push(item_text(*item)->Some_0));
            },
            None => {},
        }
        i = i + 1;
    }
    assert(item_list@.take(i as int) =~= item_list@);
    join_with_newlines(&parts)
}

/// The item types of a message, in order.
pub open spec fn item_types_of(items: Seq<InboundMessageItem>) -> Seq<u64> {
    items.map_values(|item: InboundMessageItem| item.item_type)
}

/// A received message establishes a context with its peer: it has a peer
/// and carries a context token.
pub open spec fn yields_context(bot_id: Seq<char>, message: InboundMessage) -> bool {
    peer_of(bot_id, message.from_user_id@, message.to_user_id@).len() > 0
        && message.context_token@.len() > 0
}

/// `c` is the context that `message` establishes, seen at `updated_at`: its
/// peer, its token, its item types, and its text as the last text where that
/// is not empty.
pub open spec fn is_context_of(
    c: ConversationContext,
    bot_id: Seq<char>,
    message: InboundMessage,
    updated_at: Seq<char>,
) -> bool {
    let text = items_text(message.item_list@);
    &&& c.target_user_id@ == peer_of(bot_id, message.from_user_id@, message.to_user_id@)
    &&& c.context_token@ == message.context_token@
    &&& c.updated_at@ == updated_at
    &&& c.item_types@ == item_types_of(message.item_list@)
    &&& crate::text::opt_view(c.last_text) == (if text.len() == 0 {
        None
    } else {
        Some(text)
    })
}

/// The context that a received message establishes with its peer, seen at
/// `updated_at`: only a message with a peer and a context token makes one.
/// Its last text is the message's text where that is not empty.
pub fn message_context(bot_id: &str, message: &InboundMessage, updated_at: &str) -> (r: Option<
    ConversationContext,
>)
    ensures
        yields_context(bot_id@, *message) ==> (r matches Some(c) && is_context_of(
            c,
            bot_id@,
            *message,
            updated_at@,
        )),
        !yields_context(bot_id@, *message) ==> r is None,
{
    let peer = conversation_peer_id(
        bot_id,
        message.from_user_id.as_str(),
        message.to_user_id.as_str(),
    );
    if peer.as_str().is_empty() || message.context_token.as_str().is_empty() {
        return None;
    }
    let mut item_types: Vec<u64> = Vec::new();
    let mut i: usize = 0;
    while i < message.item_list.len()
        invariant
            i <= message.item_list.len(),
            item_types@ == item_types_of(message.item_list@).take(i as int),
        decreases message.item_list.len() - i,
    {
        item_types.push(message.item_list[i].item_type);
        i = i + 1;
        assert(item_types@ =~= item_types_of(message.item_list@).take(i as int));
    }
    assert(item_types@ =~= item_types_of(message.item_list@));
    let text = body_from_item_list(message.item_list.as_slice());
    let last_text = if text.as_str().is_empty() {
        None
    } else {
        Some(text)
    };
    Some(
        ConversationContext {
            target_user_id: peer,
            context_token: message.context_token.clone(),
            updated_at: owned(updated_at),
            last_text,
            item_types,
        },
    )
}

/// The resume buffer after a poll: the one the response gives, else the
/// one the poll was made with.
pub open spec fn next_updates_buf(buf: Option<Seq<char>>, resp: GetUpdatesResponse) -> Option<
    Seq<char>,
> {
    match resp.get_updates_buf {
        Some(b) => Some(b@),
        None => buf,
    }
}

/// One poll of the watch for a context token, seen at `updated_at`: the
/// buffer to resume from next, and the context of the first message of the
/// response that establishes one, whose token is the one to print.
pub fn watch_step(
    buf: Option<&str>,
    bot_id: &str,
    resp: &GetUpdatesResponse,
    updated_at: &str,
) -> (r: (Option<String>, Option<ConversationContext>))
    ensures
        crate::text::opt_view(r.0) == next_updates_buf(
            match buf {
                Some(b) => Some(b@),
                None => None::<Seq<char>>,
            },
            *resp,
        ),
        match r.1 {
            None => forall|i: int|
                0 <= i < resp.spec_messages().len() ==> !yields_context(
                    bot_id@,
                    #[trigger] resp.spec_messages()[i],
                ),
            Some(c) => exists|i: int|
                0 <= i < resp.spec_messages().len() && yields_context(
                    bot_id@,
                    #[trigger] resp.spec_messages()[i],
                ) && (forall|j: int| 0 <= j < i ==> !yields_context(bot_id@, #[trigger] resp.spec_messages()[j]))
                    && is_context_of(c, bot_id@, resp.spec_messages()[i], updated_at@),
        },
{
    let next = match &resp.get_updates_buf {
        Some(b) => Some(b.clone()),
        None => crate::text::own_opt(buf),
    };
    let messages = resp.messages();
    let mut i: usize = 0;
    while i < messages.len()
        invariant
            messages@ == resp.spec_messages(),
            crate::text::opt_view(next) == next_updates_buf(
                match buf {
                    Some(b) => Some(b@),
                    None => None::<Seq<char>>,
                },
                *resp,
            ),
            i <= messages@.len(),
            forall|j: int| 0 <= j < i ==> !yields_context(bot_id@, #[trigger] messages@[j]),
        decreases messages.len() - i,
    {
        match message_context(bot_id, &messages[i], updated_at) {
            Some(c) => {
                assert(yields_context(bot_id@, messages@[i as int]));
                return (next, Some(c));
            },
            None => {},
        }
        i = i + 1;
    }
    (next, None)
}

/// Whether a received message establishes a context depends only on who
/// it is between and on its token, never on its items: it does exactly when
/// it carries a token and names a peer. The peer is the sender of a message
/// to the bot where the sender is named, and the recipient otherwise.
pub proof fn law_context_from_peer_and_token(bot_id: Seq<char>, m: InboundMessage)
    ensures
        yields_context(bot_id, m) <==> (m.context_token@.len() > 0 && ((m.to_user_id@ == bot_id
            && m.from_user_id@.len() > 0) || m.to_user_id@.len() > 0)),
        m.to_user_id@ == bot_id && m.from_user_id@.len() > 0 ==> peer_of(
            bot_id,
            m.from_user_id@,
            m.to_user_id@,
        ) == m.from_user_id@,
        !(m.to_user_id@ == bot_id && m.from_user_id@.len() > 0) ==> peer_of(
            bot_id,
            m.from_user_id@,
            m.to_user_id@,
        ) == m.to_user_id@,
{
}

} // verus!
