use crate::scan::{
    count_matches, first_match, lemma_count_positive, lemma_count_step, lemma_first_match,
    lemma_first_match_agree, lemma_first_match_is,
};
use vstd::prelude::*;

verus! {

/// Where a guild's voice session stands.
#[derive(Clone, Copy, Debug, PartialEq, Eq)]
pub enum Phase {
    /// Attached to a channel, nothing is played.
    Idle,
    /// A streaming source is being opened, to be played in `target`.
    Connecting { target: u64 },
    /// Attached, deafened, and playing.
    Playing,
}

/// The voice session of one guild. `channel` is the voice channel that the bot is
/// attached to. `stream` is the handle of the stream that plays: the stream itself
/// belongs to the platform layer, which numbers the streams it opens and finds them
/// again by that number.
#[derive(Clone, Copy, Debug, PartialEq, Eq)]
pub struct VoiceSession {
    pub guild: u64,
    pub channel: Option<u64>,
    pub stream: Option<u64>,
    pub phase: Phase,
    pub deafened: bool,
}

/// What can happen to the voice session of a guild.
#[derive(Clone, Copy, Debug, PartialEq, Eq)]
pub enum VoiceInput {
    /// A member in `channel` asked for a new source.
    Start { channel: u64 },
    /// The source that `Start` asked for is open, as the stream `stream`.
    SourceOpened { stream: u64 },
    /// The source that `Start` asked for could not be opened.
    SourceFailed,
    /// Halt playback, stay attached.
    Stop,
    /// Leave the voice channel.
    Quit,
    /// Only the bot is left in `channel`.
    ChannelVacated { channel: u64 },
}

/// What the platform layer is asked to do for a voice session.
#[derive(Clone, Copy, Debug, PartialEq, Eq)]
pub enum VoiceAction {
    /// Open the streaming source that was asked for, then report how that went.
    Open { guild: u64, channel: u64 },
    SetDeaf { guild: u64, deaf: bool },
    Connect { guild: u64, channel: u64 },
    /// Play the stream with this handle.
    Play { guild: u64, stream: u64 },
    Stop { guild: u64 },
    Disconnect { guild: u64 },
}

/// The state machine of one guild: from the session, if there is one, and an input to
/// the session that follows and the actions to take. No session stands for "idle and
/// attached nowhere".
pub open spec fn session_step(guild: u64, state: Option<VoiceSession>, input: VoiceInput) -> (
    Option<VoiceSession>,
    Seq<VoiceAction>,
) {
    match input {
        VoiceInput::Start { channel } => match state {
            None => (
                Some(
                    VoiceSession {
                        guild,
                        channel: None,
                        stream: None,
                        phase: Phase::Connecting { target: channel },
                        deafened: false,
                    },
                ),
                seq![VoiceAction::Open { guild, channel }],
            ),
            Some(s) => if s.phase is Connecting {
                (state, Seq::empty())
            } else {
                (
                    Some(VoiceSession { phase: Phase::Connecting { target: channel }, ..s }),
                    seq![VoiceAction::Open { guild, channel }],
                )
            },
        },
        VoiceInput::SourceOpened { stream } => match state {
            Some(s) => match s.phase {
                Phase::Connecting { target } => (
                    Some(
                        VoiceSession {
                            channel: Some(target),
                            stream: Some(stream),
                            phase: Phase::Playing,
                            deafened: true,
                            ..s
                        },
                    ),
                    seq![
                        VoiceAction::SetDeaf { guild, deaf: true },
                        VoiceAction::Connect { guild, channel: target },
                        VoiceAction::Play { guild, stream },
                    ],
                ),
                _ => (state, Seq::empty()),
            },
            None => (state, Seq::empty()),
        },
        VoiceInput::SourceFailed => match state {
            Some(s) => if s.phase is Connecting {
                if s.channel is Some {
                    (
                        Some(VoiceSession { stream: None, phase: Phase::Idle, ..s }),
                        seq![VoiceAction::Stop { guild }],
                    )
                } else {
                    (None, Seq::empty())
                }
            } else {
                (state, Seq::empty())
            },
            None => (state, Seq::empty()),
        },
        VoiceInput::Stop => match state {
            Some(s) => if s.phase is Playing {
                (
                    Some(VoiceSession { stream: None, phase: Phase::Idle, ..s }),
                    seq![VoiceAction::Stop { guild }],
                )
            } else {
                (state, Seq::empty())
            },
            None => (state, Seq::empty()),
        },
        VoiceInput::Quit => match state {
            Some(s) => (None, seq![VoiceAction::Disconnect { guild }]),
            None => (state, Seq::empty()),
        },
        VoiceInput::ChannelVacated { channel } => match state {
            Some(s) => if s.channel == Some(channel) {
                (None, seq![VoiceAction::Disconnect { guild }])
            } else {
                (state, Seq::empty())
            },
            None => (state, Seq::empty()),
        },
    }
}

/// Computes `session_step`.
pub fn next_session(guild: u64, state: Option<VoiceSession>, input: VoiceInput) -> (r: (
    Option<VoiceSession>,
    Vec<VoiceAction>,
))
    ensures
        r.0 == session_step(guild, state, input).0,
        r.1@ == session_step(guild, state, input).1,
{
    let mut actions: Vec<VoiceAction> = Vec::new();
    let next = match input {
        VoiceInput::Start { channel } => match state {
            None => {
                actions.push(VoiceAction::Open { guild, channel });
                Some(
                    VoiceSession {
                        guild,
                        channel: None,
                        stream: None,
                        phase: Phase::Connecting { target: channel },
                        deafened: false,
                    },
                )
            },
            Some(s) => match s.phase {
                Phase::Connecting { .. } => state,
                _ => {
                    actions.push(VoiceAction::Open { guild, channel });
                    Some(
                        VoiceSession {
                            guild: s.guild,
                            channel: s.channel,
                            stream: s.stream,
                            phase: Phase::Connecting { target: channel },
                            deafened: s.deafened,
                        },
                    )
                },
            },
        },
        VoiceInput::SourceOpened { stream } => match state {
            Some(s) => match s.phase {
                Phase::Connecting { target } => {
                    actions.push(VoiceAction::SetDeaf { guild, deaf: true });
                    actions.push(VoiceAction::Connect { guild, channel: target });
                    actions.push(VoiceAction::Play { guild, stream });
                    Some(
                        VoiceSession {
                            guild: s.guild,
                            channel: Some(target),
                            stream: Some(stream),
                            phase: Phase::Playing,
                            deafened: true,
                        },
                    )
                },
                _ => state,
            },
            None => state,
        },
        VoiceInput::SourceFailed => match state {
            Some(s) => match s.phase {
                Phase::Connecting { .. } => match s.channel {
                    Some(_) => {
                        actions.push(VoiceAction::Stop { guild });
                        Some(
                            VoiceSession {
                                guild: s.guild,
                                channel: s.channel,
                                stream: None,
                                phase: Phase::Idle,
                                deafened: s.deafened,
                            },
                        )
                    },
                    None => None,
                },
                _ => state,
            },
            None => state,
        },
        VoiceInput::Stop => match state {
            Some(s) => match s.phase {
                Phase::Playing => {
                    actions.push(VoiceAction::Stop { guild });
                    Some(
                        VoiceSession {
                            guild: s.guild,
                            channel: s.channel,
                            stream: None,
                            phase: Phase::Idle,
                            deafened: s.deafened,
                        },
                    )
                },
                _ => state,
            },
            None => state,
        },
        VoiceInput::Quit => match state {
            Some(_) => {
                actions.push(VoiceAction::Disconnect { guild });
                None
            },
            None => state,
        },
        VoiceInput::ChannelVacated { channel } => match state {
            Some(s) => match s.channel {
                Some(c) => if c == channel {
                    actions.push(VoiceAction::Disconnect { guild });
                    None
                } else {
                    state
                },
                None => state,
            },
            None => state,
        },
    };
    assert(actions@ =~= session_step(guild, state, input).1);
    (next, actions)
}

/// What holds of every session that the state machine leaves: one that plays is
/// attached, deafened and has its stream; one that is idle is attached and has none.
pub open spec fn sound(s: VoiceSession) -> bool {
    match s.phase {
        Phase::Playing => s.channel is Some && s.stream is Some && s.deafened,
        Phase::Idle => s.channel is Some && s.stream is None,
        Phase::Connecting { .. } => true,
    }
}

/// The state machine keeps sessions sound, and keeps them with their guild.
pub proof fn law_step_keeps_sound(guild: u64, state: Option<VoiceSession>, input: VoiceInput)
    requires
        state matches Some(s) ==> sound(s) && s.guild == guild,
    ensures
        session_step(guild, state, input).0 matches Some(t) ==> sound(t) && t.guild == guild,
{
}

pub open spec fn of_guild(guild: u64) -> spec_fn(VoiceSession) -> bool {
    |s: VoiceSession| s.guild == guild
}

/// Every session of the sequence is sound.
pub open spec fn all_sound(sessions: Seq<VoiceSession>) -> bool {
    forall|i: int| 0 <= i < sessions.len() ==> sound(#[trigger] sessions[i])
}

/// No two sessions of the sequence belong to one guild.
pub open spec fn one_per_guild(sessions: Seq<VoiceSession>) -> bool {
    forall|i: int, j: int|
        0 <= i < j < sessions.len() ==> (#[trigger] sessions[i]).guild != (
        #[trigger] sessions[j]).guild
}

/// The sessions as a map from the guild to its session.
pub open spec fn by_guild(sessions: Seq<VoiceSession>) -> Map<u64, VoiceSession> {
    Map::new(
        |g: u64| first_match(sessions, of_guild(g)) < sessions.len(),
        |g: u64| sessions[first_match(sessions, of_guild(g))],
    )
}

/// The sessions after the session of `guild` became `state`.
pub open spec fn put(sessions: Map<u64, VoiceSession>, guild: u64, state: Option<VoiceSession>) -> Map<
    u64,
    VoiceSession,
> {
    match state {
        Some(s) => sessions.insert(guild, s),
        None => sessions.remove(guild),
    }
}

/// The session of `guild`, if it has one.
pub open spec fn session_of(sessions: Map<u64, VoiceSession>, guild: u64) -> Option<VoiceSession> {
    if sessions.contains_key(guild) {
        Some(sessions[guild])
    } else {
        None
    }
}

/// The sessions after `input` reached the session of `guild`.
pub open spec fn sessions_after(sessions: Map<u64, VoiceSession>, guild: u64, input: VoiceInput) -> Map<
    u64,
    VoiceSession,
> {
    put(sessions, guild, session_step(guild, session_of(sessions, guild), input).0)
}

/// The actions that `input` to the session of `guild` asks for.
pub open spec fn actions_of(sessions: Map<u64, VoiceSession>, guild: u64, input: VoiceInput) -> Seq<
    VoiceAction,
> {
    session_step(guild, session_of(sessions, guild), input).1
}

/// Where no two sessions belong to one guild, every guild has at most one session, and
/// has one exactly when the map of the sessions holds the guild.
pub proof fn law_one_session_per_guild(sessions: Seq<VoiceSession>, guild: u64)
    requires
        one_per_guild(sessions),
    ensures
        count_matches(sessions, of_guild(guild)) <= 1,
        (count_matches(sessions, of_guild(guild)) == 1) == by_guild(sessions).contains_key(guild),
    decreases sessions.len(),
{
    lemma_count_positive(sessions, of_guild(guild));
    if sessions.len() != 0 {
        let rest = sessions.drop_last();
        assert forall|i: int, j: int| 0 <= i < j < rest.len() implies (#[trigger] rest[i]).guild != (
        #[trigger] rest[j]).guild by {
            assert(rest[i] == sessions[i] && rest[j] == sessions[j]);
        }
        law_one_session_per_guild(rest, guild);
        if of_guild(guild)(sessions.last()) {
            lemma_count_positive(rest, of_guild(guild));
            lemma_first_match(rest, of_guild(guild));
            if first_match(rest, of_guild(guild)) < rest.len() {
                let k = first_match(rest, of_guild(guild));
                assert(rest[k] == sessions[k]);
                assert(sessions[k].guild != sessions[sessions.len() - 1].guild);
            }
        }
    }
}

proof fn lemma_by_guild_update(sessions: Seq<VoiceSession>, k: int, s: VoiceSession)
    requires
        one_per_guild(sessions),
        0 <= k < sessions.len(),
        s.guild == sessions[k].guild,
    ensures
        one_per_guild(sessions.update(k, s)),
        by_guild(sessions.update(k, s)) == by_guild(sessions).insert(s.guild, s),
{
    let after = sessions.update(k, s);
    assert forall|g: u64|
        first_match(after, of_guild(g)) == first_match(sessions, of_guild(g)) by {
        assert forall|j: int| 0 <= j < sessions.len() implies of_guild(g)(#[trigger] sessions[j])
            == of_guild(g)(after[j]) by {}
        lemma_first_match_agree(sessions, after, of_guild(g));
    }
    assert forall|g: u64| #[trigger]
        by_guild(after).contains_key(g) implies by_guild(after)[g] == by_guild(sessions).insert(
        s.guild,
        s,
    )[g] by {
        lemma_first_match(sessions, of_guild(g));
    }
    assert(by_guild(after) =~= by_guild(sessions).insert(s.guild, s)) by {
        lemma_first_match(sessions, of_guild(s.guild));
        lemma_first_match_is(sessions, of_guild(s.guild), k);
    }
}

proof fn lemma_by_guild_push(sessions: Seq<VoiceSession>, s: VoiceSession)
    requires
        one_per_guild(sessions),
        first_match(sessions, of_guild(s.guild)) == sessions.len(),
    ensures
        one_per_guild(sessions.push(s)),
        by_guild(sessions.push(s)) == by_guild(sessions).insert(s.guild, s),
{
    let after = sessions.push(s);
    lemma_first_match(sessions, of_guild(s.guild));
    assert forall|i: int, j: int| 0 <= i < j < after.len() implies (#[trigger] after[i]).guild != (
    #[trigger] after[j]).guild by {
        if j == sessions.len() {
            assert(!of_guild(s.guild)(sessions[i]));
        } else {
            assert(after[i] == sessions[i] && after[j] == sessions[j]);
        }
    }
    let target = by_guild(sessions).insert(s.guild, s);
    assert forall|g: u64|
        #![trigger by_guild(after).dom().contains(g)]
        #![trigger target.dom().contains(g)]
        #![trigger by_guild(after)[g]]
        #![trigger target[g]]
        by_guild(after).dom().contains(g) == target.dom().contains(g) && (target.dom().contains(g)
            ==> by_guild(after)[g] == target[g]) by {
        lemma_first_match(sessions, of_guild(g));
        let k = first_match(sessions, of_guild(g));
        assert forall|j: int| 0 <= j < k implies !of_guild(g)(#[trigger] after[j]) by {
            assert(after[j] == sessions[j]);
        }
        if k < sessions.len() {
            assert(after[k] == sessions[k]);
            lemma_first_match_is(after, of_guild(g), k);
        } else if g == s.guild {
            assert(after[k] == s);
            lemma_first_match_is(after, of_guild(g), k);
        } else {
            assert(after[k] == s);
            lemma_first_match_is(after, of_guild(g), k + 1);
        }
    }
    assert(by_guild(after) =~= target);
}

proof fn lemma_by_guild_remove(sessions: Seq<VoiceSession>, k: int)
    requires
        one_per_guild(sessions),
        0 <= k < sessions.len(),
    ensures
        one_per_guild(sessions.remove(k)),
        by_guild(sessions.remove(k)) == by_guild(sessions).remove(sessions[k].guild),
{
    let after = sessions.remove(k);
    let gone = sessions[k].guild;
    assert forall|j: int| 0 <= j < after.len() implies #[trigger] after[j] == sessions[if j < k {
        j
    } else {
        j + 1
    }] by {}
    assert forall|i: int, j: int| 0 <= i < j < after.len() implies (#[trigger] after[i]).guild != (
    #[trigger] after[j]).guild by {
        let a = if i < k { i } else { i + 1 };
        let b = if j < k { j } else { j + 1 };
        assert(sessions[a].guild != sessions[b].guild);
    }
    let target = by_guild(sessions).remove(gone);
    assert forall|g: u64|
        #![trigger by_guild(after).dom().contains(g)]
        #![trigger target.dom().contains(g)]
        #![trigger by_guild(after)[g]]
        #![trigger target[g]]
        by_guild(after).dom().contains(g) == target.dom().contains(g) && (target.dom().contains(g)
            ==> by_guild(after)[g] == target[g]) by {
        lemma_first_match(sessions, of_guild(g));
        let f = first_match(sessions, of_guild(g));
        if g == gone {
            assert forall|j: int| 0 <= j < after.len() implies !of_guild(g)(#[trigger] after[j]) by {
                let a = if j < k { j } else { j + 1 };
                assert(sessions[a].guild != sessions[k].guild);
            }
            lemma_first_match_is(after, of_guild(g), after.len() as int);
        } else if f < k {
            assert forall|j: int| 0 <= j < f implies !of_guild(g)(#[trigger] after[j]) by {
                assert(!of_guild(g)(sessions[j]));
            }
            assert(after[f] == sessions[f]);
            lemma_first_match_is(after, of_guild(g), f);
        } else {
            assert(f != k);
            assert forall|j: int| 0 <= j < f - 1 implies !of_guild(g)(#[trigger] after[j]) by {
                let a = if j < k { j } else { j + 1 };
                assert(!of_guild(g)(sessions[a]));
            }
            if f < sessions.len() {
                assert(after[f - 1] == sessions[f]);
            }
            lemma_first_match_is(after, of_guild(g), f - 1);
        }
    }
    assert(by_guild(after) =~= target);
}

/// Owns the voice sessions, at most one for each guild.
pub struct VoiceController {
    sessions: Vec<VoiceSession>,
}

impl View for VoiceController {
    type V = Map<u64, VoiceSession>;

    open spec fn view(&self) -> Map<u64, VoiceSession> {
        by_guild(self.held())
    }
}

impl VoiceController {
    /// The sessions that the controller holds.
    pub closed spec fn held(&self) -> Seq<VoiceSession> {
        self.sessions@
    }

    /// The invariant of the type: no guild has two sessions, and every session is sound.
    #[verifier::type_invariant]
    pub closed spec fn one_session_per_guild(&self) -> bool {
        one_per_guild(self.sessions@) && all_sound(self.sessions@)
    }

    /// A controller without sessions.
    pub fn new() -> (r: VoiceController)
        ensures
            r@ == Map::<u64, VoiceSession>::empty(),
    {
        let r = VoiceController { sessions: Vec::new() };
        proof {
            assert(r@ =~= Map::<u64, VoiceSession>::empty());
        }
        r
    }

    /// Discards every session.
    pub fn clear(&mut self)
        ensures
            final(self)@ == Map::<u64, VoiceSession>::empty(),
    {
        self.sessions = Vec::new();
        proof {
            assert(self@ =~= Map::<u64, VoiceSession>::empty());
        }
    }

    fn slot(&self, guild: u64) -> (k: usize)
        ensures
            k == first_match(self.sessions@, of_guild(guild)),
            k <= self.sessions.len(),
            k < self.sessions.len() ==> self.sessions@[k as int].guild == guild,
    {
        let mut i: usize = 0;
        while i < self.sessions.len()
            invariant
                i <= self.sessions.len(),
                forall|j: int| 0 <= j < i ==> !of_guild(guild)(#[trigger] self.sessions@[j]),
            decreases self.sessions.len() - i,
        {
            if self.sessions[i].guild == guild {
                proof {
                    lemma_first_match_is(self.sessions@, of_guild(guild), i as int);
                }
                return i;
            }
            i = i + 1;
        }
        proof {
            lemma_first_match_is(self.sessions@, of_guild(guild), i as int);
        }
        i
    }

    /// The session of `guild`, if it has one.
    pub fn session(&self, guild: u64) -> (r: Option<VoiceSession>)
        ensures
            r == session_of(self@, guild),
            r matches Some(s) ==> s.guild == guild && sound(s),
    {
        proof {
            use_type_invariant(self);
        }
        let k = self.slot(guild);
        if k < self.sessions.len() {
            Some(self.sessions[k])
        } else {
            None
        }
    }

    /// Number of sessions that the controller holds for `guild`: never more than one.
    pub fn live_sessions(&self, guild: u64) -> (n: usize)
        ensures
            n == count_matches(self.held(), of_guild(guild)),
            n <= 1,
            (n == 1) == self@.contains_key(guild),
    {
        proof {
            use_type_invariant(self);
            law_one_session_per_guild(self.sessions@, guild);
        }
        let mut n: usize = 0;
        let mut i: usize = 0;
        while i < self.sessions.len()
            invariant
                i <= self.sessions.len(),
                n == count_matches(self.sessions@.take(i as int), of_guild(guild)),
                n <= i,
            decreases self.sessions.len() - i,
        {
            proof {
                lemma_count_step(self.sessions@, of_guild(guild), i as int);
            }
            if self.sessions[i].guild == guild {
                n = n + 1;
            }
            i = i + 1;
        }
        assert(self.sessions@.take(i as int) =~= self.sessions@);
        n
    }

    /// Hands `input` to the state machine of `guild`, keeps the session that follows
    /// and returns the actions to take.
    pub fn step(&mut self, guild: u64, input: VoiceInput) -> (actions: Vec<VoiceAction>)
        ensures
            final(self)@ == sessions_after(old(self)@, guild, input),
            actions@ == actions_of(old(self)@, guild, input),
    {
        proof {
            use_type_invariant(&*self);
        }
        let k = self.slot(guild);
        let state = if k < self.sessions.len() {
            Some(self.sessions[k])
        } else {
            None
        };
        let (next, actions) = next_session(guild, state, input);
        let mut sessions: Vec<VoiceSession> = Vec::new();
        std::mem::swap(&mut sessions, &mut self.sessions);
        proof {
            lemma_first_match(sessions@, of_guild(guild));
            law_step_keeps_sound(guild, state, input);
        }
        let ghost before = sessions@;
        match next {
            Some(s) => {
                if k < sessions.len() {
                    proof {
                        lemma_by_guild_update(sessions@, k as int, s);
                    }
                    sessions.set(k, s);
                } else {
                    proof {
                        lemma_by_guild_push(sessions@, s);
                    }
                    sessions.push(s);
                }
            },
            None => {
                if k < sessions.len() {
                    proof {
                        lemma_by_guild_remove(sessions@, k as int);
                    }
                    sessions.remove(k);
                } else {
                    assert(by_guild(sessions@).remove(guild) =~= by_guild(sessions@));
                }
            },
        }
        assert(all_sound(sessions@)) by {
            assert forall|i: int| 0 <= i < sessions@.len() implies sound(#[trigger] sessions@[i]) by {
                if next is Some && k < before.len() {
                    assert(i != k ==> sessions@[i] == before[i]);
                } else if next is Some {
                    assert(i < before.len() ==> sessions@[i] == before[i]);
                } else if k < before.len() {
                    assert(sessions@[i] == before[if i < k { i } else { i + 1 }]);
                }
            }
        }
        self.sessions = sessions;
        actions
    }

    /// Asks for a new source to be played in `channel`. From idle or playing the
    /// session goes to connecting and the source is to be opened; the new source will
    /// take the place of the current one. While a source is being opened the request
    /// is turned away and nothing changes.
    pub fn start(&mut self, guild: u64, channel: u64) -> (actions: Vec<VoiceAction>)
        ensures
            final(self)@ == sessions_after(old(self)@, guild, VoiceInput::Start { channel }),
            actions@ == actions_of(old(self)@, guild, VoiceInput::Start { channel }),
            connecting(old(self)@, guild) ==> final(self)@ == old(self)@ && actions@.len() == 0,
            !connecting(old(self)@, guild) ==> connecting(final(self)@, guild) && actions@ == seq![
                VoiceAction::Open { guild, channel },
            ],
    {
        self.step(guild, VoiceInput::Start { channel })
    }

    /// The source that `start` asked for is open, as the stream `stream`: the bot
    /// deafens itself, attaches to the channel and plays. Without a session that is
    /// connecting nothing happens.
    pub fn source_opened(&mut self, guild: u64, stream: u64) -> (actions: Vec<VoiceAction>)
        ensures
            final(self)@ == sessions_after(old(self)@, guild, VoiceInput::SourceOpened { stream }),
            actions@ == actions_of(old(self)@, guild, VoiceInput::SourceOpened { stream }),
            !connecting(old(self)@, guild) ==> final(self)@ == old(self)@ && actions@.len() == 0,
            connecting(old(self)@, guild) ==> playing(final(self)@, guild),
            connecting(old(self)@, guild) ==> final(self)@[guild].deafened,
            connecting(old(self)@, guild) ==> final(self)@[guild].stream == Some(stream),
            connecting(old(self)@, guild) ==> attached_to(
                final(self)@,
                guild,
                old(self)@[guild].phase->target,
            ),
            connecting(old(self)@, guild) ==> actions@ == seq![
                VoiceAction::SetDeaf { guild, deaf: true },
                VoiceAction::Connect { guild, channel: old(self)@[guild].phase->target },
                VoiceAction::Play { guild, stream },
            ],
    {
        self.step(guild, VoiceInput::SourceOpened { stream })
    }

    /// The source that `start` asked for could not be opened: the session is idle again.
    /// One that is attached to a channel stays attached with playback halted, one that
    /// is not is discarded.
    pub fn source_failed(&mut self, guild: u64) -> (actions: Vec<VoiceAction>)
        ensures
            final(self)@ == sessions_after(old(self)@, guild, VoiceInput::SourceFailed),
            actions@ == actions_of(old(self)@, guild, VoiceInput::SourceFailed),
            !connecting(old(self)@, guild) ==> final(self)@ == old(self)@ && actions@.len() == 0,
            connecting(old(self)@, guild) ==> !connecting(final(self)@, guild) && !playing(
                final(self)@,
                guild,
            ),
    {
        self.step(guild, VoiceInput::SourceFailed)
    }

    /// Halts playback and stays attached. Unless the session is playing nothing
    /// happens: no action, no change.
    pub fn stop(&mut self, guild: u64) -> (actions: Vec<VoiceAction>)
        ensures
            final(self)@ == sessions_after(old(self)@, guild, VoiceInput::Stop),
            actions@ == actions_of(old(self)@, guild, VoiceInput::Stop),
            !playing(old(self)@, guild) ==> final(self)@ == old(self)@ && actions@.len() == 0,
            playing(old(self)@, guild) ==> final(self)@ == old(self)@.insert(
                guild,
                VoiceSession { stream: None, phase: Phase::Idle, ..old(self)@[guild] },
            ) && actions@ == seq![VoiceAction::Stop { guild }],
    {
        let ghost before = self@;
        let actions = self.step(guild, VoiceInput::Stop);
        assert(!playing(before, guild) ==> self@ =~= before);
        actions
    }

    /// Leaves the voice channel and discards the session, whatever its phase.
    pub fn quit(&mut self, guild: u64) -> (actions: Vec<VoiceAction>)
        ensures
            final(self)@ == sessions_after(old(self)@, guild, VoiceInput::Quit),
            final(self)@ == old(self)@.remove(guild),
            actions@ == actions_of(old(self)@, guild, VoiceInput::Quit),
            actions@ == if old(self)@.contains_key(guild) {
                seq![VoiceAction::Disconnect { guild }]
            } else {
                Seq::empty()
            },
    {
        self.step(guild, VoiceInput::Quit)
    }

    /// Only the bot is left in `channel`: a session that is attached to it disconnects
    /// and is discarded. Any other session stays as it is.
    pub fn on_channel_vacated(&mut self, guild: u64, channel: u64) -> (actions: Vec<VoiceAction>)
        ensures
            final(self)@ == sessions_after(
                old(self)@,
                guild,
                VoiceInput::ChannelVacated { channel },
            ),
            actions@ == actions_of(old(self)@, guild, VoiceInput::ChannelVacated { channel }),
            attached_to(old(self)@, guild, channel) ==> final(self)@ == old(self)@.remove(guild)
                && actions@ == seq![VoiceAction::Disconnect { guild }],
            !attached_to(old(self)@, guild, channel) ==> final(self)@ == old(self)@
                && actions@.len() == 0,
    {
        let ghost before = self@;
        let actions = self.step(guild, VoiceInput::ChannelVacated { channel });
        assert(!attached_to(before, guild, channel) ==> self@ =~= before);
        actions
    }
}

/// Whether a source is being opened for `guild`.
pub open spec fn connecting(sessions: Map<u64, VoiceSession>, guild: u64) -> bool {
    sessions.contains_key(guild) && sessions[guild].phase is Connecting
}

/// Whether `guild` has a session that is playing.
pub open spec fn playing(sessions: Map<u64, VoiceSession>, guild: u64) -> bool {
    sessions.contains_key(guild) && sessions[guild].phase is Playing
}

/// Whether the session of `guild` is attached to `channel`.
pub open spec fn attached_to(sessions: Map<u64, VoiceSession>, guild: u64, channel: u64) -> bool {
    sessions.contains_key(guild) && sessions[guild].channel == Some(channel)
}

} // verus!
