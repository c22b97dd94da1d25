use crate::action::{
    action_views, emit, lift_into, lifted_all, no_actions, voice_only, wrap_voice, Action,
    ActionView, Control, Step, StepView,
};
use crate::event::{Event, EventView, Message, MessageView, Received, ReceivedView};
use crate::laws::{
    law_left_alone_disconnects, law_quit_needs_owner, law_stop_while_idle,
};
use crate::mirror::{Mirror, MirrorView, Snapshot};
use crate::text::{
    command_rest, command_word, decimal, eq_ignore_ascii_case, mention, push_decimal,
    push_mention, same_ignoring_ascii_case, split_command,
};
use crate::voice::{
    actions_of, playing, session_of, sessions_after, VoiceAction, VoiceController, VoiceInput,
    VoiceSession,
};
use vstd::prelude::*;
use vstd::string::*;

verus! {

/// The general help up to the mention of the member who asked.
pub const HELP_HEAD: &'static str = "Here's the help that ";

/// The general help after the mention: the list of commands.
pub const HELP_TAIL: &'static str =
    " wanted:\n\n``!dj`` Plays YouTube videos in Voice Chat. See ``!help dj`` for more info\n\n``!catfacts`` Lists a random fact about cats.\n\n``!help`` Shows this output.";

/// The help for `!dj`.
pub const DJ_HELP: &'static str =
    "``!dj`` Plays YouTube videos in Voice Chat:\n\n``!dj stop`` Stops the current playing song.\n``!dj quit`` Stops the current playing song, and exits the Voice Chat.";

/// The answer to `!dj` with a source from a member who is in no voice channel.
pub const NOT_IN_VOICE: &'static str = "must be in a voice channel to use this";

/// The answer to `!quit` from the owner.
pub const QUIT_ACK: &'static str = "Shutting Down...";

/// The answer to `!quit` from anybody else.
pub const QUIT_DENIED: &'static str = "Your not authorized to do that";

/// What is fixed for the lifetime of the process.
#[derive(Clone, Debug, PartialEq, Eq)]
pub struct Config {
    /// The one identity that may shut the bot down.
    pub owner: u64,
    /// The text that ends every welcome message.
    pub welcome: String,
}

/// The one context that every handler works on: the configuration, the state mirror
/// and the voice sessions.
pub struct Bot {
    config: Config,
    mirror: Mirror,
    voice: VoiceController,
}

/// The mathematical content of the bot.
pub struct BotView {
    pub owner: u64,
    pub welcome: Seq<char>,
    pub mirror: MirrorView,
    pub voice: Map<u64, VoiceSession>,
}

/// The state after a step together with what the step asks for.
pub struct Outcome {
    pub next: BotView,
    pub step: StepView,
}

impl View for Bot {
    type V = BotView;

    closed spec fn view(&self) -> BotView {
        BotView {
            owner: self.config.owner,
            welcome: self.config.welcome@,
            mirror: self.mirror@,
            voice: self.voice@,
        }
    }
}

/// Whether `word` names the command `name`, whatever the case of its ASCII letters.
pub open spec fn names(word: Seq<char>, name: &str) -> bool {
    same_ignoring_ascii_case(word, name@)
}

/// The general help as `author` gets it.
pub open spec fn full_help(author: u64) -> Seq<char> {
    HELP_HEAD@ + mention(author) + HELP_TAIL@
}

/// The log line for a shutdown that the owner, called `name`, asked for.
pub open spec fn quit_info(name: Seq<char>) -> Seq<char> {
    name + " has told me to quit."@
}

/// The log line for a shutdown that was refused: it names the member and the identity.
pub open spec fn quit_warning(name: Seq<char>, id: u64) -> Seq<char> {
    name + " with the UserId("@ + decimal(id as nat) + ") tried to kill me."@
}

/// The welcome for `member`, who joined `guild`, ending in the configured text.
pub open spec fn welcome_text(member: Seq<char>, guild: Seq<char>, welcome: Seq<char>) -> Seq<char> {
    "Welcome "@ + member + " to "@ + guild + "! "@ + welcome
}

impl BotView {
    /// Nothing changes and nothing is asked for.
    pub open spec fn quiet(self) -> Outcome {
        Outcome { next: self, step: StepView { control: Control::Continue, actions: Seq::empty() } }
    }

    /// Nothing changes but for the actions taken.
    pub open spec fn act(self, actions: Seq<ActionView>) -> Outcome {
        Outcome { next: self, step: StepView { control: Control::Continue, actions } }
    }

    /// `!dj`: the argument `stop` or `quit`, or else a source to play, goes to the
    /// voice session of the guild in which the author is in voice.
    pub open spec fn on_dj(self, m: MessageView) -> Outcome {
        let rest = command_rest(m.content);
        match self.mirror.voice_presence(m.author) {
            Some((guild, channel)) => {
                let input = if names(rest, "stop") {
                    VoiceInput::Stop
                } else if names(rest, "quit") {
                    VoiceInput::Quit
                } else {
                    VoiceInput::Start { channel }
                };
                Outcome {
                    next: BotView { voice: sessions_after(self.voice, guild, input), ..self },
                    step: StepView {
                        control: Control::Continue,
                        actions: lifted_all(actions_of(self.voice, guild, input), m.channel, rest),
                    },
                }
            },
            None => if names(rest, "stop") || names(rest, "quit") {
                self.quiet()
            } else {
                self.act(seq![ActionView::Send { channel: m.channel, text: NOT_IN_VOICE@ }])
            },
        }
    }

    /// `!quit`: the owner stops the loop, anybody else is turned away and reported.
    pub open spec fn on_quit(self, m: MessageView) -> Outcome {
        if m.author == self.owner {
            Outcome {
                next: self,
                step: StepView {
                    control: Control::Stop,
                    actions: seq![
                        ActionView::Send { channel: m.channel, text: QUIT_ACK@ },
                        ActionView::Info { text: quit_info(m.author_name) },
                    ],
                },
            }
        } else {
            self.act(
                seq![
                    ActionView::Send { channel: m.channel, text: QUIT_DENIED@ },
                    ActionView::Warn { text: quit_warning(m.author_name, m.author) },
                ],
            )
        }
    }

    /// What a message does: nothing if the bot wrote it, else what its command word
    /// stands for, and nothing if that is no command.
    pub open spec fn on_message(self, m: MessageView) -> Outcome {
        let word = command_word(m.content);
        if m.author == self.mirror.user {
            self.quiet()
        } else if names(word, "!help") {
            self.act(
                seq![
                    ActionView::Send {
                        channel: m.channel,
                        text: if names(command_rest(m.content), "dj") {
                            DJ_HELP@
                        } else {
                            full_help(m.author)
                        },
                    },
                ],
            )
        } else if names(word, "!dj") {
            self.on_dj(m)
        } else if names(word, "!catfacts") {
            self.act(seq![ActionView::FetchFact { reply_to: m.channel, author: m.author }])
        } else if names(word, "!cleverbot") {
            self.act(seq![ActionView::AskChat { reply_to: m.channel, text: m.content }])
        } else if names(word, "!quit") {
            self.on_quit(m)
        } else {
            self.quiet()
        }
    }

    /// Whether the bot is attached to a voice channel of `guild` in which the mirror
    /// shows at most one occupant.
    pub open spec fn left_alone(self, guild: u64) -> bool {
        &&& session_of(self.voice, guild) matches Some(s)
        &&& s.channel matches Some(channel)
        &&& self.mirror.knows_guild(guild)
        &&& self.mirror.occupants(guild, channel) <= 1
    }

    /// Whether, once the mirror holds `event`, the bot is attached to a voice channel
    /// of `guild` in which the mirror shows at most one occupant.
    pub open spec fn left_alone_after(self, event: EventView, guild: u64) -> bool {
        (BotView { mirror: self.mirror.apply(event), ..self }).left_alone(guild)
    }

    /// What a voice-state update in `guild` does once the mirror holds it: a bot that is
    /// left alone in its channel disconnects.
    pub open spec fn on_voice_update(self, guild: u64) -> Outcome {
        if self.left_alone(guild) {
            Outcome {
                next: BotView { voice: self.voice.remove(guild), ..self },
                step: StepView {
                    control: Control::Continue,
                    actions: seq![ActionView::Voice(VoiceAction::Disconnect { guild })],
                },
            }
        } else {
            self.quiet()
        }
    }

    /// What a new member of `guild` does once the mirror holds it: a welcome in the
    /// guild's main channel, whose identity is the guild's.
    pub open spec fn on_member_join(self, guild: u64, name: Seq<char>) -> Outcome {
        match self.mirror.guild(guild) {
            Some(g) => self.act(
                seq![
                    ActionView::Send {
                        channel: guild,
                        text: welcome_text(name, g.name, self.welcome),
                    },
                ],
            ),
            None => self.quiet(),
        }
    }

    /// The state on a new connection: the mirror holds the snapshot and nothing else,
    /// and the voice sessions of the connection that was lost are gone.
    pub open spec fn reconnected(self, snapshot: MirrorView) -> BotView {
        BotView { mirror: snapshot, voice: Map::empty(), ..self }
    }

    /// The source that was asked for in `guild` is open, as the stream `stream`.
    pub open spec fn on_source_opened(self, guild: u64, stream: u64) -> Outcome {
        Outcome {
            next: BotView {
                voice: sessions_after(self.voice, guild, VoiceInput::SourceOpened { stream }),
                ..self
            },
            step: StepView {
                control: Control::Continue,
                actions: voice_only(
                    actions_of(self.voice, guild, VoiceInput::SourceOpened { stream }),
                ),
            },
        }
    }

    /// The source that was asked for in `guild` could not be opened: the error is
    /// answered in `reply_to`, and the session is idle again.
    pub open spec fn on_source_failed(self, guild: u64, reply_to: u64, error: Seq<char>) -> Outcome {
        Outcome {
            next: BotView {
                voice: sessions_after(self.voice, guild, VoiceInput::SourceFailed),
                ..self
            },
            step: StepView {
                control: Control::Continue,
                actions: seq![ActionView::Send { channel: reply_to, text: "Error: "@ + error }]
                    + voice_only(actions_of(self.voice, guild, VoiceInput::SourceFailed)),
            },
        }
    }

    /// What the loop does with what it pulled from the connection: an event is
    /// handled; every failure is reported, after which a transient one asks for a new
    /// connection, a permanent one ends the loop, and any other is skipped.
    pub open spec fn on_receive(self, received: ReceivedView) -> Outcome {
        match received {
            ReceivedView::Event(event) => self.on_event(event),
            ReceivedView::Transient { error } => Outcome {
                next: self,
                step: StepView {
                    control: Control::Reconnect,
                    actions: seq![ActionView::Warn { text: "Receive error: "@ + error }],
                },
            },
            ReceivedView::Closed { error } => Outcome {
                next: self,
                step: StepView {
                    control: Control::Stop,
                    actions: seq![ActionView::Warn { text: "Receive error: "@ + error }],
                },
            },
            ReceivedView::Failed { error } => Outcome {
                next: self,
                step: StepView {
                    control: Control::Continue,
                    actions: seq![ActionView::Warn { text: "Receive error: "@ + error }],
                },
            },
        }
    }

    /// One event: the mirror follows it, then the handler of its kind runs.
    pub open spec fn on_event(self, event: EventView) -> Outcome {
        let held = BotView { mirror: self.mirror.apply(event), ..self };
        match event {
            EventView::MessageCreate(m) => held.on_message(m),
            EventView::VoiceStateUpdate { guild, .. } => held.on_voice_update(guild),
            EventView::MemberJoin { guild, name, .. } => held.on_member_join(guild, name),
            EventView::Other => held.quiet(),
        }
    }
}

fn full_help_text(author: u64) -> (r: String)
    ensures
        r@ == full_help(author),
{
    let mut r = String::from_str(HELP_HEAD);
    push_mention(&mut r, author);
    r.append(HELP_TAIL);
    r
}

fn quit_info_text(name: &str) -> (r: String)
    ensures
        r@ == quit_info(name@),
{
    let mut r = String::from_str(name);
    r.append(" has told me to quit.");
    r
}

fn quit_warning_text(name: &str, id: u64) -> (r: String)
    ensures
        r@ == quit_warning(name@, id),
{
    let mut r = String::from_str(name);
    r.append(" with the UserId(");
    push_decimal(&mut r, id);
    r.append(") tried to kill me.");
    r
}

/// The welcome for `member`, who joined `guild`, ending in the configured text.
pub fn welcome_message(member: &str, guild: &str, welcome: &str) -> (r: String)
    ensures
        r@ == welcome_text(member@, guild@, welcome@),
{
    let mut r = String::from_str("Welcome ");
    r.append(member);
    r.append(" to ");
    r.append(guild);
    r.append("! ");
    r.append(welcome);
    r
}

impl Bot {
    /// A bot on a fresh connection: the mirror holds the snapshot, no voice session exists.
    pub fn new(config: Config, snapshot: Snapshot) -> (bot: Bot)
        ensures
            bot@ == (BotView {
                owner: config.owner,
                welcome: config.welcome@,
                mirror: snapshot@,
                voice: Map::empty(),
            }),
    {
        Bot { config, mirror: Mirror::new(snapshot), voice: VoiceController::new() }
    }

    /// The configuration.
    pub fn config(&self) -> (r: &Config)
        ensures
            r.owner == self@.owner,
            r.welcome@ == self@.welcome,
    {
        &self.config
    }

    /// The state mirror.
    pub fn mirror(&self) -> (r: &Mirror)
        ensures
            r@ == self@.mirror,
    {
        &self.mirror
    }

    /// The voice sessions.
    pub fn voice(&self) -> (r: &VoiceController)
        ensures
            r@ == self@.voice,
    {
        &self.voice
    }

    fn dj(&mut self, m: &Message, rest: &str) -> (step: Step)
        requires
            rest@ == command_rest(m@.content),
        ensures
            final(self)@ == old(self)@.on_dj(m@).next,
            step@ == old(self)@.on_dj(m@).step,
    {
        let mut actions = no_actions();
        let stop = eq_ignore_ascii_case(rest, "stop");
        let quit = eq_ignore_ascii_case(rest, "quit");
        match self.mirror.find_voice_presence(m.author) {
            Some((guild, channel)) => {
                let asked = if stop {
                    self.voice.stop(guild)
                } else if quit {
                    self.voice.quit(guild)
                } else {
                    self.voice.start(guild, channel)
                };
                lift_into(&mut actions, &asked, m.channel, rest);
                assert(action_views(actions@) =~= lifted_all(asked@, m.channel, rest@));
            },
            None => {
                if !stop && !quit {
                    emit(
                        &mut actions,
                        Action::Send { channel: m.channel, text: String::from_str(NOT_IN_VOICE) },
                    );
                }
            },
        }
        Step { control: Control::Continue, actions }
    }

    /// Interprets one text message. A message of the bot itself is ignored before
    /// anything else is looked at: no action, no change. `!quit` from anybody but the
    /// owner never stops the loop and changes nothing, and unless the bot wrote it, it is
    /// answered by one denial and one warning. `!dj stop` does nothing unless the session
    /// of the author's guild is playing.
    pub fn dispatch(&mut self, m: &Message) -> (step: Step)
        ensures
            final(self)@ == old(self)@.on_message(m@).next,
            step@ == old(self)@.on_message(m@).step,
            m.author == old(self)@.mirror.user ==> final(self)@ == old(self)@
                && step.control == Control::Continue && step.actions@.len() == 0,
            m.author != old(self)@.owner && names(command_word(m@.content), "!quit")
                ==> final(self)@ == old(self)@ && step.control == Control::Continue,
            m.author != old(self)@.owner && m.author != old(self)@.mirror.user && names(
                command_word(m@.content),
                "!quit",
            ) ==> step@.actions == seq![
                ActionView::Send { channel: m.channel, text: QUIT_DENIED@ },
                ActionView::Warn { text: quit_warning(m.author_name@, m.author) },
            ],
            names(command_word(m@.content), "!dj") && names(command_rest(m@.content), "stop") && (
            old(self)@.mirror.voice_presence(m.author) matches Some((guild, _)) ==> !playing(
                old(self)@.voice,
                guild,
            )) ==> final(self)@ == old(self)@ && step.control == Control::Continue
                && step.actions@.len() == 0,
    {
        proof {
            if m.author != self@.owner && names(command_word(m@.content), "!quit") {
                law_quit_needs_owner(self@, m@);
            }
            if m.author != self@.mirror.user && names(command_word(m@.content), "!dj") && names(
                command_rest(m@.content),
                "stop",
            ) && (self@.mirror.voice_presence(m.author) matches Some((guild, _)) ==> !playing(
                self@.voice,
                guild,
            )) {
                law_stop_while_idle(self@, m@);
            }
        }
        if self.mirror.is_self(m.author) {
            return Step { control: Control::Continue, actions: no_actions() };
        }
        let command = split_command(m.content.as_str());
        let mut actions = no_actions();
        let mut control = Control::Continue;
        if eq_ignore_ascii_case(command.word, "!help") {
            let text = if eq_ignore_ascii_case(command.rest, "dj") {
                String::from_str(DJ_HELP)
            } else {
                full_help_text(m.author)
            };
            emit(&mut actions, Action::Send { channel: m.channel, text });
        } else if eq_ignore_ascii_case(command.word, "!dj") {
            let step = self.dj(m, command.rest);
            assert(step@.actions.len() == step.actions@.len());
            return step;
        } else if eq_ignore_ascii_case(command.word, "!catfacts") {
            emit(&mut actions, Action::FetchFact { reply_to: m.channel, author: m.author });
        } else if eq_ignore_ascii_case(command.word, "!cleverbot") {
            emit(&mut actions, Action::AskChat { reply_to: m.channel, text: m.content.clone() });
        } else if eq_ignore_ascii_case(command.word, "!quit") {
            if m.author == self.config.owner {
                emit(
                    &mut actions,
                    Action::Send { channel: m.channel, text: String::from_str(QUIT_ACK) },
                );
                emit(&mut actions, Action::Info { text: quit_info_text(m.author_name.as_str()) });
                control = Control::Stop;
            } else {
                emit(
                    &mut actions,
                    Action::Send { channel: m.channel, text: String::from_str(QUIT_DENIED) },
                );
                emit(
                    &mut actions,
                    Action::Warn { text: quit_warning_text(m.author_name.as_str(), m.author) },
                );
            }
        }
        assert(action_views(actions@) =~= old(self)@.on_message(m@).step.actions);
        Step { control, actions }
    }

    /// Follows one event in the mirror, then runs the handler of its kind. After a
    /// voice-state update that leaves at most one occupant in the channel that the bot is
    /// attached to, the step asks for the disconnect and the session is gone.
    pub fn handle_event(&mut self, event: &Event) -> (step: Step)
        ensures
            final(self)@ == old(self)@.on_event(event@).next,
            step@ == old(self)@.on_event(event@).step,
            final(self)@.mirror == old(self)@.mirror.apply(event@),
            event matches Event::VoiceStateUpdate { guild, .. } ==> (old(self)@.left_alone_after(
                event@,
                *guild,
            ) ==> step@.actions == seq![
                ActionView::Voice(VoiceAction::Disconnect { guild: *guild }),
            ] && !final(self)@.voice.contains_key(*guild)),
    {
        proof {
            if let Event::VoiceStateUpdate { guild, presence } = event {
                if self@.left_alone_after(event@, *guild) {
                    law_left_alone_disconnects(self@, *guild, *presence);
                }
            }
        }
        self.mirror.apply(event);
        match event {
            Event::MessageCreate(m) => self.dispatch(m),
            Event::VoiceStateUpdate { guild, .. } => {
                let mut actions = no_actions();
                if let Some(session) = self.voice.session(*guild) {
                    if let Some(channel) = session.channel {
                        if self.mirror.guild_by_id(*guild).is_some() && self.mirror.occupants(
                            *guild,
                            channel,
                        ) <= 1 {
                            let asked = self.voice.on_channel_vacated(*guild, channel);
                            wrap_voice(&mut actions, &asked);
                            assert(action_views(actions@) =~= seq![
                                ActionView::Voice(VoiceAction::Disconnect { guild: *guild }),
                            ]);
                        }
                    }
                }
                Step { control: Control::Continue, actions }
            },
            Event::MemberJoin { guild, name, .. } => {
                let mut actions = no_actions();
                if let Some(g) = self.mirror.guild_by_id(*guild) {
                    let text = welcome_message(
                        name.as_str(),
                        g.name.as_str(),
                        self.config.welcome.as_str(),
                    );
                    emit(&mut actions, Action::Send { channel: *guild, text });
                }
                Step { control: Control::Continue, actions }
            },
            Event::Other => Step { control: Control::Continue, actions: no_actions() },
        }
    }

    /// One iteration of the event loop, on what was pulled from the connection.
    pub fn handle(&mut self, received: &Received) -> (step: Step)
        ensures
            final(self)@ == old(self)@.on_receive(received@).next,
            step@ == old(self)@.on_receive(received@).step,
    {
        match received {
            Received::Event(event) => self.handle_event(event),
            Received::Transient { error } => receive_failure(Control::Reconnect, error.as_str()),
            Received::Closed { error } => receive_failure(Control::Stop, error.as_str()),
            Received::Failed { error } => receive_failure(Control::Continue, error.as_str()),
        }
    }

    /// Takes up a new connection: the mirror is replaced by the snapshot, and the
    /// voice sessions, which belonged to the old connection, are discarded.
    pub fn connected(&mut self, snapshot: Snapshot)
        ensures
            final(self)@ == old(self)@.reconnected(snapshot@),
            final(self)@.mirror == snapshot@,
            final(self)@.voice == Map::<u64, VoiceSession>::empty(),
    {
        self.mirror.reset(snapshot);
        self.voice.clear();
    }

    /// Tells the bot that the source asked for in `guild` is open, and under which
    /// handle the platform layer holds the stream.
    pub fn source_opened(&mut self, guild: u64, stream: u64) -> (step: Step)
        ensures
            final(self)@ == old(self)@.on_source_opened(guild, stream).next,
            step@ == old(self)@.on_source_opened(guild, stream).step,
    {
        let mut actions = no_actions();
        let asked = self.voice.source_opened(guild, stream);
        wrap_voice(&mut actions, &asked);
        assert(action_views(actions@) =~= voice_only(asked@));
        Step { control: Control::Continue, actions }
    }

    /// Tells the bot that the source asked for in `guild` could not be opened, and why.
    pub fn source_failed(&mut self, guild: u64, reply_to: u64, error: &str) -> (step: Step)
        ensures
            final(self)@ == old(self)@.on_source_failed(guild, reply_to, error@).next,
            step@ == old(self)@.on_source_failed(guild, reply_to, error@).step,
    {
        let mut actions = no_actions();
        let mut text = String::from_str("Error: ");
        text.append(error);
        emit(&mut actions, Action::Send { channel: reply_to, text });
        let asked = self.voice.source_failed(guild);
        wrap_voice(&mut actions, &asked);
        assert(action_views(actions@) =~= seq![
            ActionView::Send { channel: reply_to, text: "Error: "@ + error@ },
        ] + voice_only(asked@));
        Step { control: Control::Continue, actions }
    }
}

fn receive_failure(control: Control, error: &str) -> (step: Step)
    ensures
        step@ == (StepView {
            control,
            actions: seq![ActionView::Warn { text: "Receive error: "@ + error@ }],
        }),
{
    let mut actions = no_actions();
    let mut text = String::from_str("Receive error: ");
    text.append(error);
    emit(&mut actions, Action::Warn { text });
    assert(action_views(actions@) =~= seq![
        ActionView::Warn { text: "Receive error: "@ + error@ },
    ]);
    Step { control, actions }
}

} // verus!
