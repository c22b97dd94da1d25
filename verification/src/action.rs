use crate::voice::VoiceAction;
use vstd::prelude::*;
use vstd::string::*;

verus! {

/// What the bot asks the platform layer to do. The layer performs the actions of a
/// step in order.
#[derive(Clone, Debug, PartialEq, Eq)]
pub enum Action {
    /// Deliver `text` to `channel`.
    Send { channel: u64, text: String },
    /// An informational line for the operator's log.
    Info { text: String },
    /// A warning for the operator's log.
    Warn { text: String },
    /// Open the streaming source `source` for `guild`, then report to the bot whether
    /// that succeeded; a failure is answered in `reply_to`.
    OpenSource { guild: u64, channel: u64, reply_to: u64, source: String },
    /// An operation on the voice connection of a guild.
    Voice(VoiceAction),
    /// Look up a fact and answer `author` with it in `reply_to`.
    FetchFact { reply_to: u64, author: u64 },
    /// Hand `text` to the conversation service and send its answer to `reply_to`.
    AskChat { reply_to: u64, text: String },
}

pub enum ActionView {
    Send { channel: u64, text: Seq<char> },
    Info { text: Seq<char> },
    Warn { text: Seq<char> },
    OpenSource { guild: u64, channel: u64, reply_to: u64, source: Seq<char> },
    Voice(VoiceAction),
    FetchFact { reply_to: u64, author: u64 },
    AskChat { reply_to: u64, text: Seq<char> },
}

impl View for Action {
    type V = ActionView;

    open spec fn view(&self) -> ActionView {
        match self {
            Action::Send { channel, text } => ActionView::Send { channel: *channel, text: text@ },
            Action::Info { text } => ActionView::Info { text: text@ },
            Action::Warn { text } => ActionView::Warn { text: text@ },
            Action::OpenSource { guild, channel, reply_to, source } => ActionView::OpenSource {
                guild: *guild,
                channel: *channel,
                reply_to: *reply_to,
                source: source@,
            },
            Action::Voice(a) => ActionView::Voice(*a),
            Action::FetchFact { reply_to, author } => ActionView::FetchFact {
                reply_to: *reply_to,
                author: *author,
            },
            Action::AskChat { reply_to, text } => ActionView::AskChat {
                reply_to: *reply_to,
                text: text@,
            },
        }
    }
}

pub open spec fn action_views(actions: Seq<Action>) -> Seq<ActionView> {
    Seq::new(actions.len(), |i: int| actions[i]@)
}

/// How the event loop goes on after a step.
#[derive(Clone, Copy, Debug, PartialEq, Eq)]
pub enum Control {
    /// Pull the next event.
    Continue,
    /// Establish a new connection, hand its snapshot to the bot, then pull the next event.
    Reconnect,
    /// Leave the loop.
    Stop,
}

/// The result of one iteration of the event loop.
#[derive(Clone, Debug, PartialEq, Eq)]
pub struct Step {
    pub control: Control,
    pub actions: Vec<Action>,
}

pub struct StepView {
    pub control: Control,
    pub actions: Seq<ActionView>,
}

impl View for Step {
    type V = StepView;

    open spec fn view(&self) -> StepView {
        StepView { control: self.control, actions: action_views(self.actions@) }
    }
}

/// The actions of a step that only operates on voice connections.
pub open spec fn voice_only(actions: Seq<VoiceAction>) -> Seq<ActionView> {
    Seq::new(actions.len(), |i: int| ActionView::Voice(actions[i]))
}

/// An empty list of actions.
pub fn no_actions() -> (out: Vec<Action>)
    ensures
        out@.len() == 0,
        action_views(out@) == Seq::<ActionView>::empty(),
{
    let out: Vec<Action> = Vec::new();
    assert(action_views(out@) =~= Seq::<ActionView>::empty());
    out
}

/// Appends one action.
pub fn emit(out: &mut Vec<Action>, action: Action)
    ensures
        action_views(final(out)@) == action_views(old(out)@).push(action@),
{
    out.push(action);
    assert(action_views(out@) =~= action_views(old(out)@).push(action@));
}

/// The action that stands for a voice action in a step: a request to open a source
/// carries the source and the channel to answer in, every other one passes as it is.
pub open spec fn lifted(a: VoiceAction, reply_to: u64, source: Seq<char>) -> ActionView {
    match a {
        VoiceAction::Open { guild, channel } => ActionView::OpenSource {
            guild,
            channel,
            reply_to,
            source,
        },
        _ => ActionView::Voice(a),
    }
}

pub open spec fn lifted_all(actions: Seq<VoiceAction>, reply_to: u64, source: Seq<char>) -> Seq<
    ActionView,
> {
    Seq::new(actions.len(), |i: int| lifted(actions[i], reply_to, source))
}

/// Appends to `out` what stands for `actions` in a step.
pub fn lift_into(out: &mut Vec<Action>, actions: &Vec<VoiceAction>, reply_to: u64, source: &str)
    ensures
        action_views(final(out)@) == action_views(old(out)@) + lifted_all(
            actions@,
            reply_to,
            source@,
        ),
{
    let mut i: usize = 0;
    while i < actions.len()
        invariant
            i <= actions.len(),
            action_views(out@) == action_views(old(out)@) + lifted_all(
                actions@.take(i as int),
                reply_to,
                source@,
            ),
        decreases actions.len() - i,
    {
        let ghost before = out@;
        let a = actions[i];
        let lifted_action = match a {
            VoiceAction::Open { guild, channel } => Action::OpenSource {
                guild,
                channel,
                reply_to,
                source: String::from_str(source),
            },
            _ => Action::Voice(a),
        };
        out.push(lifted_action);
        assert(action_views(out@) =~= action_views(before).push(
            lifted(a, reply_to, source@),
        ));
        assert(lifted_all(actions@.take(i + 1), reply_to, source@) =~= lifted_all(
            actions@.take(i as int),
            reply_to,
            source@,
        ).push(lifted(a, reply_to, source@)));
        i = i + 1;
    }
    assert(actions@.take(i as int) =~= actions@);
}

/// Appends `actions` to `out` as actions of a step.
pub fn wrap_voice(out: &mut Vec<Action>, actions: &Vec<VoiceAction>)
    ensures
        action_views(final(out)@) == action_views(old(out)@) + voice_only(actions@),
{
    let mut i: usize = 0;
    while i < actions.len()
        invariant
            i <= actions.len(),
            action_views(out@) == action_views(old(out)@) + voice_only(actions@.take(i as int)),
        decreases actions.len() - i,
    {
        let ghost before = out@;
        out.push(Action::Voice(actions[i]));
        assert(action_views(out@) =~= action_views(before).push(ActionView::Voice(actions@[i as int])));
        assert(voice_only(actions@.take(i + 1)) =~= voice_only(actions@.take(i as int)).push(
            ActionView::Voice(actions@[i as int]),
        ));
        i = i + 1;
    }
    assert(actions@.take(i as int) =~= actions@);
}

} // verus!
