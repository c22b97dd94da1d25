use vstd::prelude::*;

verus! {

/// A member's occupancy of a voice channel: no channel means "not in voice".
#[derive(Clone, Copy, Debug, PartialEq, Eq)]
pub struct VoicePresence {
    pub user: u64,
    pub channel: Option<u64>,
}

/// A text message as it arrives from the platform.
#[derive(Clone, Debug, PartialEq, Eq)]
pub struct Message {
    pub author: u64,
    pub author_name: String,
    pub channel: u64,
    pub content: String,
}

pub struct MessageView {
    pub author: u64,
    pub author_name: Seq<char>,
    pub channel: u64,
    pub content: Seq<char>,
}

impl View for Message {
    type V = MessageView;

    open spec fn view(&self) -> MessageView {
        MessageView {
            author: self.author,
            author_name: self.author_name@,
            channel: self.channel,
            content: self.content@,
        }
    }
}

/// The inbound events, one variant for each kind that the bot reacts to.
#[derive(Clone, Debug, PartialEq, Eq)]
pub enum Event {
    MessageCreate(Message),
    VoiceStateUpdate { guild: u64, presence: VoicePresence },
    MemberJoin { guild: u64, user: u64, name: String },
    Other,
}

pub enum EventView {
    MessageCreate(MessageView),
    VoiceStateUpdate { guild: u64, presence: VoicePresence },
    MemberJoin { guild: u64, user: u64, name: Seq<char> },
    Other,
}

impl View for Event {
    type V = EventView;

    open spec fn view(&self) -> EventView {
        match self {
            Event::MessageCreate(m) => EventView::MessageCreate(m@),
            Event::VoiceStateUpdate { guild, presence } => EventView::VoiceStateUpdate {
                guild: *guild,
                presence: *presence,
            },
            Event::MemberJoin { guild, user, name } => EventView::MemberJoin {
                guild: *guild,
                user: *user,
                name: name@,
            },
            Event::Other => EventView::Other,
        }
    }
}

/// What pulling the next event from the connection gave. `error` describes the failure
/// for the operator's log.
#[derive(Clone, Debug, PartialEq, Eq)]
pub enum Received {
    Event(Event),
    /// The connection dropped and can be established again.
    Transient { error: String },
    /// The platform closed the session for good.
    Closed { error: String },
    /// Any other receive error: the event is lost, the connection stands.
    Failed { error: String },
}

pub enum ReceivedView {
    Event(EventView),
    Transient { error: Seq<char> },
    Closed { error: Seq<char> },
    Failed { error: Seq<char> },
}

impl View for Received {
    type V = ReceivedView;

    open spec fn view(&self) -> ReceivedView {
        match self {
            Received::Event(e) => ReceivedView::Event(e@),
            Received::Transient { error } => ReceivedView::Transient { error: error@ },
            Received::Closed { error } => ReceivedView::Closed { error: error@ },
            Received::Failed { error } => ReceivedView::Failed { error: error@ },
        }
    }
}

} // verus!
