use crate::action::{ActionView, Control};
use crate::bot::{names, quit_warning, BotView, NOT_IN_VOICE, QUIT_DENIED};
use crate::event::{EventView, MessageView, ReceivedView, VoicePresence};
use crate::mirror::{event_guild, guild_with_id, is_user, record_of, GuildView, MirrorView};
use crate::scan::{first_match, lemma_first_match, lemma_first_match_agree, lemma_first_match_is};
use crate::text::{command_rest, command_word, folded, is_whitespace, whitespace_pred, word_len};
use crate::voice::{playing, VoiceAction, VoiceSession};
use vstd::prelude::*;

verus! {

/// The command word holds no white space. A message that holds white space is its
/// command word, one white space and its argument text, in this order; one that holds
/// none is its command word, and its argument text is empty.
pub proof fn law_command_split(text: Seq<char>)
    ensures
        forall|i: int| 0 <= i < command_word(text).len() ==> !is_whitespace(
            #[trigger] command_word(text)[i],
        ),
        word_len(text) < text.len() ==> is_whitespace(text[word_len(text)]) && text
            == command_word(text).push(text[word_len(text)]) + command_rest(text),
        word_len(text) >= text.len() ==> text == command_word(text) && command_rest(text).len()
            == 0,
{
    lemma_first_match(text, whitespace_pred());
    assert forall|i: int| 0 <= i < command_word(text).len() implies !is_whitespace(
        #[trigger] command_word(text)[i],
    ) by {
        assert(!whitespace_pred()(text[i]));
    }
    if word_len(text) < text.len() {
        assert(whitespace_pred()(text[word_len(text)]));
        assert(text =~= command_word(text).push(text[word_len(text)]) + command_rest(text));
    } else {
        assert(text =~= command_word(text));
    }
}

/// A message of the bot itself does nothing: no action, no change of state, neither
/// as a message nor as an event.
pub proof fn law_own_message_ignored(bot: BotView, m: MessageView)
    requires
        m.author == bot.mirror.user,
    ensures
        bot.on_message(m) == bot.quiet(),
        bot.on_event(EventView::MessageCreate(m)) == bot.quiet(),
        bot.on_receive(ReceivedView::Event(EventView::MessageCreate(m))) == bot.quiet(),
{
}

/// The command words differ from one another, whatever the case of their letters.
pub proof fn lemma_command_words_differ(word: Seq<char>)
    ensures
        names(word, "!help") ==> !names(word, "!dj") && !names(word, "!catfacts") && !names(
            word,
            "!cleverbot",
        ) && !names(word, "!quit"),
        names(word, "!dj") ==> !names(word, "!catfacts") && !names(word, "!cleverbot") && !names(
            word,
            "!quit",
        ),
        names(word, "!catfacts") ==> !names(word, "!cleverbot") && !names(word, "!quit"),
        names(word, "!cleverbot") ==> !names(word, "!quit"),
{
    reveal_strlit("!help");
    reveal_strlit("!dj");
    reveal_strlit("!catfacts");
    reveal_strlit("!cleverbot");
    reveal_strlit("!quit");
    if names(word, "!help") && names(word, "!quit") {
        assert(folded(word[1]) == folded("!help"@[1]));
        assert(folded(word[1]) == folded("!quit"@[1]));
    }
}

/// `!dj stop` from a member whose guild has no session that is playing, or who is in
/// no voice channel, does nothing.
pub proof fn law_stop_while_idle(bot: BotView, m: MessageView)
    requires
        m.author != bot.mirror.user,
        names(command_word(m.content), "!dj"),
        names(command_rest(m.content), "stop"),
        bot.mirror.voice_presence(m.author) matches Some((guild, _)) ==> !playing(bot.voice, guild),
    ensures
        bot.on_message(m) == bot.quiet(),
        bot.on_event(EventView::MessageCreate(m)) == bot.quiet(),
{
    lemma_command_words_differ(command_word(m.content));
    match bot.mirror.voice_presence(m.author) {
        Some((guild, _)) => {
            assert(bot.on_dj(m).next.voice =~= bot.voice);
            assert(bot.on_dj(m).step.actions =~= Seq::<ActionView>::empty());
        },
        None => {},
    }
}

/// `!dj` with a source from a member who is in no voice channel is turned away in the
/// channel of the message, and no voice session changes.
pub proof fn law_dj_needs_voice_presence(bot: BotView, m: MessageView)
    requires
        m.author != bot.mirror.user,
        names(command_word(m.content), "!dj"),
        !names(command_rest(m.content), "stop"),
        !names(command_rest(m.content), "quit"),
        bot.mirror.voice_presence(m.author) is None,
    ensures
        bot.on_message(m) == bot.act(
            seq![ActionView::Send { channel: m.channel, text: NOT_IN_VOICE@ }],
        ),
        bot.on_message(m).next == bot,
{
    lemma_command_words_differ(command_word(m.content));
}

/// A message whose first word is no command is ignored.
pub proof fn law_unknown_word_ignored(bot: BotView, m: MessageView)
    requires
        !names(command_word(m.content), "!help"),
        !names(command_word(m.content), "!dj"),
        !names(command_word(m.content), "!catfacts"),
        !names(command_word(m.content), "!cleverbot"),
        !names(command_word(m.content), "!quit"),
    ensures
        bot.on_message(m) == bot.quiet(),
{
}

/// `!quit` from anybody but the owner never ends the loop. Unless the bot itself wrote
/// it, it is answered by exactly one denial and one warning, and changes nothing.
pub proof fn law_quit_needs_owner(bot: BotView, m: MessageView)
    requires
        m.author != bot.owner,
        names(command_word(m.content), "!quit"),
    ensures
        bot.on_message(m).step.control == Control::Continue,
        bot.on_message(m).next == bot,
        m.author != bot.mirror.user ==> bot.on_message(m).step.actions == seq![
            ActionView::Send { channel: m.channel, text: QUIT_DENIED@ },
            ActionView::Warn { text: quit_warning(m.author_name, m.author) },
        ],
        bot.on_event(EventView::MessageCreate(m)) == bot.on_message(m),
{
    lemma_command_words_differ(command_word(m.content));
}

/// Only two things end the loop: `!quit` from the owner, and the platform closing the
/// session.
pub proof fn law_loop_ends(bot: BotView, received: ReceivedView)
    requires
        bot.on_receive(received).step.control == Control::Stop,
    ensures
        received is Closed || (received matches ReceivedView::Event(EventView::MessageCreate(m))
            && m.author == bot.owner && names(command_word(m.content), "!quit")),
{
}

/// A voice-state update after which the mirror shows at most one occupant in the
/// channel that the bot is attached to makes the bot disconnect within that very step:
/// the step asks for the disconnect and no session of the guild is left.
pub proof fn law_left_alone_disconnects(bot: BotView, guild: u64, presence: VoicePresence)
    requires
        bot.left_alone_after(EventView::VoiceStateUpdate { guild, presence }, guild),
    ensures
        bot.on_event(EventView::VoiceStateUpdate { guild, presence }).step.actions == seq![
            ActionView::Voice(VoiceAction::Disconnect { guild }),
        ],
        !bot.on_event(EventView::VoiceStateUpdate { guild, presence }).next.voice.contains_key(
            guild,
        ),
{
}

/// Applying an event changes neither the number nor the identities of the guilds.
pub proof fn lemma_apply_keeps_guilds(m: MirrorView, event: EventView, id: u64)
    ensures
        m.apply(event).user == m.user,
        m.apply(event).guilds.len() == m.guilds.len(),
        m.apply(event).guild_slot(id) == m.guild_slot(id),
        m.apply(event).knows_guild(id) == m.knows_guild(id),
{
    let after = m.apply(event);
    if let Some(about) = event_guild(event) {
        lemma_first_match(m.guilds, guild_with_id(about));
    }
    assert forall|j: int| 0 <= j < m.guilds.len() implies guild_with_id(id)(#[trigger] m.guilds[j])
        == guild_with_id(id)(after.guilds[j]) by {}
    lemma_first_match_agree(m.guilds, after.guilds, guild_with_id(id));
}

/// After a new connection the mirror answers from the snapshot alone: whatever was
/// mirrored before, a lookup of voice presence gives what the snapshot gives.
pub proof fn law_reconnect_forgets(before: BotView, other: BotView, snapshot: MirrorView, user: u64)
    ensures
        before.reconnected(snapshot).mirror == snapshot,
        before.reconnected(snapshot).mirror.voice_presence(user) == snapshot.voice_presence(user),
        before.reconnected(snapshot).mirror.voice_presence(user) == other.reconnected(
            snapshot,
        ).mirror.voice_presence(user),
        before.reconnected(snapshot).voice == Map::<u64, VoiceSession>::empty(),
{
}

/// Recording a voice-state update a second time changes nothing.
pub proof fn lemma_presence_idempotent(g: GuildView, p: VoicePresence)
    ensures
        g.with_presence(p).with_presence(p) == g.with_presence(p),
{
    lemma_first_match(g.voice, record_of(p.user));
    let k = first_match(g.voice, record_of(p.user));
    let once = g.with_presence(p).voice;
    assert forall|j: int| 0 <= j < k implies !record_of(p.user)(#[trigger] once[j]) by {
        assert(once[j] == g.voice[j]);
    }
    lemma_first_match_is(once, record_of(p.user), k);
    assert(g.with_presence(p).with_presence(p).voice =~= once);
}

/// Recording that a member joined a second time changes nothing.
pub proof fn lemma_member_idempotent(g: GuildView, user: u64)
    ensures
        g.with_member(user).with_member(user) == g.with_member(user),
{
    lemma_first_match(g.members, is_user(user));
    let k = first_match(g.members, is_user(user));
    let once = g.with_member(user).members;
    assert forall|j: int| 0 <= j < k implies !is_user(user)(#[trigger] once[j]) by {
        assert(once[j] == g.members[j]);
    }
    lemma_first_match_is(once, is_user(user), k);
}

/// The mirror follows events idempotently: an event applied twice leaves what it
/// leaves applied once.
pub proof fn law_apply_idempotent(m: MirrorView, event: EventView)
    ensures
        m.apply(event).apply(event) == m.apply(event),
{
    match event {
        EventView::VoiceStateUpdate { guild, presence } => {
            lemma_apply_keeps_guilds(m, event, guild);
            lemma_first_match(m.guilds, guild_with_id(guild));
            if m.knows_guild(guild) {
                lemma_presence_idempotent(m.guilds[m.guild_slot(guild)], presence);
                assert(m.apply(event).apply(event).guilds =~= m.apply(event).guilds);
            }
        },
        EventView::MemberJoin { guild, user, .. } => {
            lemma_apply_keeps_guilds(m, event, guild);
            lemma_first_match(m.guilds, guild_with_id(guild));
            if m.knows_guild(guild) {
                lemma_member_idempotent(m.guilds[m.guild_slot(guild)], user);
                assert(m.apply(event).apply(event).guilds =~= m.apply(event).guilds);
            }
        },
        _ => {},
    }
}

/// An event of a kind that the mirror does not follow, and an event about a guild that
/// it does not know, leave it as it is.
pub proof fn law_apply_ignores(m: MirrorView, event: EventView)
    requires
        event is MessageCreate || event is Other || (event matches EventView::VoiceStateUpdate {
            guild,
            ..
        } && !m.knows_guild(guild)) || (event matches EventView::MemberJoin { guild, .. }
            && !m.knows_guild(guild)),
    ensures
        m.apply(event) == m,
{
}

} // verus!
