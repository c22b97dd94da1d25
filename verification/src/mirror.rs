use crate::event::{Event, EventView, VoicePresence};
use crate::scan::{count_matches, first_match, lemma_count_step, lemma_first_match_is};
use vstd::prelude::*;

verus! {

/// What the mirror keeps of one guild.
#[derive(Clone, Debug, PartialEq, Eq)]
pub struct GuildState {
    pub id: u64,
    pub name: String,
    pub members: Vec<u64>,
    pub voice: Vec<VoicePresence>,
}

pub struct GuildView {
    pub id: u64,
    pub name: Seq<char>,
    pub members: Seq<u64>,
    pub voice: Seq<VoicePresence>,
}

impl View for GuildState {
    type V = GuildView;

    open spec fn view(&self) -> GuildView {
        GuildView { id: self.id, name: self.name@, members: self.members@, voice: self.voice@ }
    }
}

pub open spec fn record_of(user: u64) -> spec_fn(VoicePresence) -> bool {
    |p: VoicePresence| p.user == user
}

pub open spec fn in_voice(user: u64) -> spec_fn(VoicePresence) -> bool {
    |p: VoicePresence| p.user == user && p.channel is Some
}

pub open spec fn occupies(channel: u64) -> spec_fn(VoicePresence) -> bool {
    |p: VoicePresence| p.channel == Some(channel)
}

pub open spec fn is_user(user: u64) -> spec_fn(u64) -> bool {
    |m: u64| m == user
}

pub open spec fn guild_with_id(id: u64) -> spec_fn(GuildView) -> bool {
    |g: GuildView| g.id == id
}

pub open spec fn guild_voicing(user: u64) -> spec_fn(GuildView) -> bool {
    |g: GuildView| g.voiced(user) is Some
}

impl GuildView {
    /// The channel of the first record that shows `user` in a voice channel.
    pub open spec fn voiced(self, user: u64) -> Option<u64> {
        let k = first_match(self.voice, in_voice(user));
        if k < self.voice.len() {
            self.voice[k].channel
        } else {
            None
        }
    }

    /// Number of voice records that name `channel`.
    pub open spec fn occupants(self, channel: u64) -> nat {
        count_matches(self.voice, occupies(channel))
    }

    /// The guild after a voice-state update: the first record of the user takes the new
    /// value in place; a user without a record gets one at the end.
    pub open spec fn with_presence(self, p: VoicePresence) -> GuildView {
        let k = first_match(self.voice, record_of(p.user));
        GuildView {
            voice: if k < self.voice.len() {
                self.voice.update(k, p)
            } else {
                self.voice.push(p)
            },
            ..self
        }
    }

    /// The guild after `user` joined: added at the end unless already a member.
    pub open spec fn with_member(self, user: u64) -> GuildView {
        GuildView {
            members: if first_match(self.members, is_user(user)) < self.members.len() {
                self.members
            } else {
                self.members.push(user)
            },
            ..self
        }
    }

    /// What one event does to this guild.
    pub open spec fn apply(self, event: EventView) -> GuildView {
        match event {
            EventView::VoiceStateUpdate { presence, .. } => self.with_presence(presence),
            EventView::MemberJoin { user, .. } => self.with_member(user),
            _ => self,
        }
    }
}

/// The guild that an event is about, if it is about one.
pub open spec fn event_guild(event: EventView) -> Option<u64> {
    match event {
        EventView::VoiceStateUpdate { guild, .. } => Some(guild),
        EventView::MemberJoin { guild, .. } => Some(guild),
        _ => None,
    }
}

/// The state baseline that the platform hands over when a connection is established.
#[derive(Clone, Debug, PartialEq, Eq)]
pub struct Snapshot {
    pub user: u64,
    pub guilds: Vec<GuildState>,
}

/// The mathematical content of a snapshot and of the mirror: the bot's own identity
/// and the guilds in the order in which they are scanned.
pub struct MirrorView {
    pub user: u64,
    pub guilds: Seq<GuildView>,
}

pub open spec fn guild_views(guilds: Seq<GuildState>) -> Seq<GuildView> {
    Seq::new(guilds.len(), |i: int| guilds[i]@)
}

impl View for Snapshot {
    type V = MirrorView;

    open spec fn view(&self) -> MirrorView {
        MirrorView { user: self.user, guilds: guild_views(self.guilds@) }
    }
}

impl MirrorView {
    /// Position of the first guild with identity `id`, the number of guilds if none has it.
    pub open spec fn guild_slot(self, id: u64) -> int {
        first_match(self.guilds, guild_with_id(id))
    }

    pub open spec fn knows_guild(self, id: u64) -> bool {
        self.guild_slot(id) < self.guilds.len()
    }

    /// The first guild with identity `id`.
    pub open spec fn guild(self, id: u64) -> Option<GuildView> {
        if self.knows_guild(id) {
            Some(self.guilds[self.guild_slot(id)])
        } else {
            None
        }
    }

    /// Guild and channel in which `user` is in voice: of the first guild, in scan
    /// order, that holds such a record, and of the first such record in it.
    pub open spec fn voice_presence(self, user: u64) -> Option<(u64, u64)> {
        let k = first_match(self.guilds, guild_voicing(user));
        if k < self.guilds.len() {
            Some((self.guilds[k].id, self.guilds[k].voiced(user)->0))
        } else {
            None
        }
    }

    /// Number of voice records of guild `id` that name `channel`; zero for an unknown guild.
    pub open spec fn occupants(self, id: u64, channel: u64) -> nat {
        match self.guild(id) {
            Some(g) => g.occupants(channel),
            None => 0,
        }
    }

    /// The mirror after one event: the guild that the event is about takes the update,
    /// every other event and an event about an unknown guild change nothing.
    pub open spec fn apply(self, event: EventView) -> MirrorView {
        match event_guild(event) {
            Some(id) if self.knows_guild(id) => MirrorView {
                guilds: self.guilds.update(
                    self.guild_slot(id),
                    self.guilds[self.guild_slot(id)].apply(event),
                ),
                ..self
            },
            _ => self,
        }
    }
}

impl GuildState {
    /// The channel in which `user` is in voice in this guild.
    pub fn voiced(&self, user: u64) -> (r: Option<u64>)
        ensures
            r == self@.voiced(user),
    {
        let mut i: usize = 0;
        while i < self.voice.len()
            invariant
                i <= self.voice.len(),
                forall|j: int| 0 <= j < i ==> !in_voice(user)(#[trigger] self.voice@[j]),
            decreases self.voice.len() - i,
        {
            if self.voice[i].user == user {
                if let Some(channel) = self.voice[i].channel {
                    proof {
                        lemma_first_match_is(self.voice@, in_voice(user), i as int);
                    }
                    return Some(channel);
                }
            }
            i = i + 1;
        }
        proof {
            lemma_first_match_is(self.voice@, in_voice(user), i as int);
        }
        None
    }

    /// Number of voice records that name `channel`.
    pub fn occupants(&self, channel: u64) -> (r: usize)
        ensures
            r == self@.occupants(channel),
    {
        let mut n: usize = 0;
        let mut i: usize = 0;
        while i < self.voice.len()
            invariant
                i <= self.voice.len(),
                n == count_matches(self.voice@.take(i as int), occupies(channel)),
                n <= i,
            decreases self.voice.len() - i,
        {
            proof {
                lemma_count_step(self.voice@, occupies(channel), i as int);
            }
            if let Some(c) = self.voice[i].channel {
                if c == channel {
                    n = n + 1;
                }
            }
            i = i + 1;
        }
        assert(self.voice@.take(i as int) =~= self.voice@);
        n
    }

    /// Records a voice-state update.
    pub fn set_presence(&mut self, p: VoicePresence)
        ensures
            final(self)@ == old(self)@.with_presence(p),
    {
        let mut i: usize = 0;
        while i < self.voice.len()
            invariant
                i <= self.voice.len(),
                *self == *old(self),
                forall|j: int| 0 <= j < i ==> !record_of(p.user)(#[trigger] self.voice@[j]),
            decreases self.voice.len() - i,
        {
            if self.voice[i].user == p.user {
                proof {
                    lemma_first_match_is(self.voice@, record_of(p.user), i as int);
                }
                self.voice.set(i, p);
                return ;
            }
            i = i + 1;
        }
        proof {
            lemma_first_match_is(self.voice@, record_of(p.user), i as int);
        }
        self.voice.push(p);
    }

    /// Records that `user` joined.
    pub fn add_member(&mut self, user: u64)
        ensures
            final(self)@ == old(self)@.with_member(user),
    {
        let mut i: usize = 0;
        while i < self.members.len()
            invariant
                i <= self.members.len(),
                *self == *old(self),
                forall|j: int| 0 <= j < i ==> !is_user(user)(#[trigger] self.members@[j]),
            decreases self.members.len() - i,
        {
            if self.members[i] == user {
                proof {
                    lemma_first_match_is(self.members@, is_user(user), i as int);
                }
                return ;
            }
            i = i + 1;
        }
        proof {
            lemma_first_match_is(self.members@, is_user(user), i as int);
        }
        self.members.push(user);
    }
}

/// The local view of guilds, members and voice presence. It is valid for one connection:
/// `reset` replaces it whole, `apply` follows the event stream.
pub struct Mirror {
    user: u64,
    guilds: Vec<GuildState>,
}

impl View for Mirror {
    type V = MirrorView;

    closed spec fn view(&self) -> MirrorView {
        MirrorView { user: self.user, guilds: guild_views(self.guilds@) }
    }
}

impl Mirror {
    /// A mirror that holds exactly what the snapshot holds.
    pub fn new(snapshot: Snapshot) -> (r: Mirror)
        ensures
            r@ == snapshot@,
    {
        Mirror { user: snapshot.user, guilds: snapshot.guilds }
    }

    /// Replaces all state by the snapshot: nothing of the earlier state is left.
    pub fn reset(&mut self, snapshot: Snapshot)
        ensures
            final(self)@ == snapshot@,
    {
        self.user = snapshot.user;
        self.guilds = snapshot.guilds;
    }

    /// The bot's own identity.
    pub fn user(&self) -> (r: u64)
        ensures
            r == self@.user,
    {
        self.user
    }

    /// Whether `user` is the bot itself.
    pub fn is_self(&self, user: u64) -> (r: bool)
        ensures
            r == (user == self@.user),
    {
        user == self.user
    }

    fn guild_slot(&self, id: u64) -> (r: usize)
        ensures
            r == self@.guild_slot(id),
            r <= self.guilds.len(),
    {
        let mut i: usize = 0;
        while i < self.guilds.len()
            invariant
                i <= self.guilds.len(),
                forall|j: int| 0 <= j < i ==> !guild_with_id(id)(#[trigger] self@.guilds[j]),
            decreases self.guilds.len() - i,
        {
            if self.guilds[i].id == id {
                proof {
                    lemma_first_match_is(self@.guilds, guild_with_id(id), i as int);
                }
                return i;
            }
            i = i + 1;
        }
        proof {
            lemma_first_match_is(self@.guilds, guild_with_id(id), i as int);
        }
        i
    }

    /// The first guild with identity `id`.
    pub fn guild_by_id(&self, id: u64) -> (r: Option<&GuildState>)
        ensures
            r is Some == self@.knows_guild(id),
            r matches Some(g) ==> Some(g@) == self@.guild(id),
    {
        let k = self.guild_slot(id);
        if k < self.guilds.len() {
            Some(&self.guilds[k])
        } else {
            None
        }
    }

    /// Scans the guilds for `user` in a voice channel and returns the first match.
    pub fn find_voice_presence(&self, user: u64) -> (r: Option<(u64, u64)>)
        ensures
            r == self@.voice_presence(user),
    {
        let mut i: usize = 0;
        while i < self.guilds.len()
            invariant
                i <= self.guilds.len(),
                forall|j: int| 0 <= j < i ==> !guild_voicing(user)(#[trigger] self@.guilds[j]),
            decreases self.guilds.len() - i,
        {
            if let Some(channel) = self.guilds[i].voiced(user) {
                proof {
                    lemma_first_match_is(self@.guilds, guild_voicing(user), i as int);
                }
                return Some((self.guilds[i].id, channel));
            }
            i = i + 1;
        }
        proof {
            lemma_first_match_is(self@.guilds, guild_voicing(user), i as int);
        }
        None
    }

    /// Number of members that the mirror shows in `channel` of guild `id`.
    pub fn occupants(&self, id: u64, channel: u64) -> (r: usize)
        ensures
            r == self@.occupants(id, channel),
    {
        let k = self.guild_slot(id);
        if k < self.guilds.len() {
            self.guilds[k].occupants(channel)
        } else {
            0
        }
    }

    /// Follows one event of the stream.
    pub fn apply(&mut self, event: &Event)
        ensures
            final(self)@ == old(self)@.apply(event@),
    {
        match event {
            Event::VoiceStateUpdate { guild, presence } => {
                let k = self.guild_slot(*guild);
                if k < self.guilds.len() {
                    self.guilds[k].set_presence(*presence);
                    assert(self@.guilds =~= old(self)@.guilds.update(
                        k as int,
                        old(self)@.guilds[k as int].apply(event@),
                    ));
                }
            },
            Event::MemberJoin { guild, user, .. } => {
                let k = self.guild_slot(*guild);
                if k < self.guilds.len() {
                    self.guilds[k].add_member(*user);
                    assert(self@.guilds =~= old(self)@.guilds.update(
                        k as int,
                        old(self)@.guilds[k as int].apply(event@),
                    ));
                }
            },
            _ => {},
        }
    }
}

} // verus!
