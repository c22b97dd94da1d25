use discord_bot::voice::{
    next_session, Phase, VoiceAction, VoiceController, VoiceInput, VoiceSession,
};

fn playing(guild: u64, channel: u64) -> VoiceSession {
    VoiceSession {
        guild,
        channel: Some(channel),
        stream: Some(7),
        phase: Phase::Playing,
        deafened: true,
    }
}

fn controller_playing(guild: u64, channel: u64) -> VoiceController {
    let mut c = VoiceController::new();
    c.start(guild, channel);
    c.source_opened(guild, 7);
    c
}

#[test]
fn new_controller_has_no_sessions() {
    let c = VoiceController::new();
    assert_eq!(c.session(1), None);
    assert_eq!(c.live_sessions(1), 0);
}

#[test]
fn start_from_idle_opens_the_source() {
    let mut c = VoiceController::new();
    assert_eq!(c.start(1, 10), vec![VoiceAction::Open { guild: 1, channel: 10 }]);
    assert_eq!(
        c.session(1),
        Some(VoiceSession {
            guild: 1,
            channel: None,
            stream: None,
            phase: Phase::Connecting { target: 10 },
            deafened: false,
        })
    );
}

#[test]
fn opened_source_is_played_deafened() {
    let mut c = VoiceController::new();
    c.start(1, 10);
    assert_eq!(
        c.source_opened(1, 7),
        vec![
            VoiceAction::SetDeaf { guild: 1, deaf: true },
            VoiceAction::Connect { guild: 1, channel: 10 },
            VoiceAction::Play { guild: 1, stream: 7 },
        ]
    );
    assert_eq!(c.session(1), Some(playing(1, 10)));
}

#[test]
fn failed_source_leaves_a_fresh_guild_without_session() {
    let mut c = VoiceController::new();
    c.start(1, 10);
    assert_eq!(c.source_failed(1), vec![]);
    assert_eq!(c.session(1), None);
}

#[test]
fn failed_replacement_halts_and_stays_attached() {
    let mut c = controller_playing(1, 10);
    assert_eq!(c.start(1, 11), vec![VoiceAction::Open { guild: 1, channel: 11 }]);
    assert_eq!(c.source_failed(1), vec![VoiceAction::Stop { guild: 1 }]);
    assert_eq!(
        c.session(1),
        Some(VoiceSession {
            guild: 1,
            channel: Some(10),
            stream: None,
            phase: Phase::Idle,
            deafened: true,
        })
    );
}

#[test]
fn new_source_replaces_the_current_one() {
    let mut c = controller_playing(1, 10);
    assert_eq!(c.start(1, 11), vec![VoiceAction::Open { guild: 1, channel: 11 }]);
    assert_eq!(c.live_sessions(1), 1);
    assert_eq!(
        c.source_opened(1, 7),
        vec![
            VoiceAction::SetDeaf { guild: 1, deaf: true },
            VoiceAction::Connect { guild: 1, channel: 11 },
            VoiceAction::Play { guild: 1, stream: 7 },
        ]
    );
    assert_eq!(c.session(1), Some(playing(1, 11)));
    assert_eq!(c.live_sessions(1), 1);
}

#[test]
fn start_while_connecting_is_turned_away() {
    let mut c = VoiceController::new();
    c.start(1, 10);
    let before = c.session(1);
    assert_eq!(c.start(1, 11), vec![]);
    assert_eq!(c.session(1), before);
}

#[test]
fn stop_halts_and_stays_attached() {
    let mut c = controller_playing(1, 10);
    assert_eq!(c.stop(1), vec![VoiceAction::Stop { guild: 1 }]);
    assert_eq!(
        c.session(1),
        Some(VoiceSession {
            guild: 1,
            channel: Some(10),
            stream: None,
            phase: Phase::Idle,
            deafened: true,
        })
    );
}

#[test]
fn stop_while_idle_does_nothing() {
    let mut c = VoiceController::new();
    assert_eq!(c.stop(1), vec![]);
    assert_eq!(c.session(1), None);
    let mut c = controller_playing(1, 10);
    c.stop(1);
    let before = c.session(1);
    assert_eq!(c.stop(1), vec![]);
    assert_eq!(c.session(1), before);
    let mut c = VoiceController::new();
    c.start(1, 10);
    let before = c.session(1);
    assert_eq!(c.stop(1), vec![]);
    assert_eq!(c.session(1), before);
}

#[test]
fn quit_disconnects_from_any_phase() {
    let mut c = controller_playing(1, 10);
    assert_eq!(c.quit(1), vec![VoiceAction::Disconnect { guild: 1 }]);
    assert_eq!(c.session(1), None);
    let mut c = controller_playing(1, 10);
    c.stop(1);
    assert_eq!(c.quit(1), vec![VoiceAction::Disconnect { guild: 1 }]);
    assert_eq!(c.session(1), None);
    let mut c = VoiceController::new();
    c.start(1, 10);
    assert_eq!(c.quit(1), vec![VoiceAction::Disconnect { guild: 1 }]);
    assert_eq!(c.session(1), None);
    assert_eq!(c.source_opened(1, 7), vec![]);
    assert_eq!(c.session(1), None);
    let mut c = VoiceController::new();
    assert_eq!(c.quit(1), vec![]);
}

#[test]
fn vacated_channel_disconnects() {
    let mut c = controller_playing(1, 10);
    assert_eq!(c.on_channel_vacated(1, 11), vec![]);
    assert_eq!(c.session(1), Some(playing(1, 10)));
    assert_eq!(c.on_channel_vacated(2, 10), vec![]);
    assert_eq!(c.on_channel_vacated(1, 10), vec![VoiceAction::Disconnect { guild: 1 }]);
    assert_eq!(c.session(1), None);
}

#[test]
fn source_result_without_request_is_ignored() {
    let mut c = controller_playing(1, 10);
    assert_eq!(c.source_opened(1, 7), vec![]);
    assert_eq!(c.source_failed(1), vec![]);
    assert_eq!(c.session(1), Some(playing(1, 10)));
    assert_eq!(c.source_opened(2, 7), vec![]);
    assert_eq!(c.source_failed(2), vec![]);
    assert_eq!(c.session(2), None);
}

#[test]
fn guilds_have_sessions_of_their_own() {
    let mut c = VoiceController::new();
    c.start(1, 10);
    c.start(2, 20);
    c.start(3, 30);
    c.source_opened(2, 7);
    c.quit(1);
    assert_eq!(c.session(1), None);
    assert_eq!(c.session(2), Some(playing(2, 20)));
    assert_eq!(
        c.session(3),
        Some(VoiceSession {
            guild: 3,
            channel: None,
            stream: None,
            phase: Phase::Connecting { target: 30 },
            deafened: false,
        })
    );
    c.quit(2);
    assert_eq!(c.session(3).map(|s| s.guild), Some(3));
    assert_eq!(c.session(2), None);
}

#[test]
fn never_more_than_one_session_for_a_guild() {
    let mut c = VoiceController::new();
    let inputs = [
        VoiceInput::Start { channel: 10 },
        VoiceInput::Start { channel: 11 },
        VoiceInput::SourceOpened { stream: 7 },
        VoiceInput::Start { channel: 12 },
        VoiceInput::SourceFailed,
        VoiceInput::Stop,
        VoiceInput::Start { channel: 10 },
        VoiceInput::SourceOpened { stream: 7 },
        VoiceInput::ChannelVacated { channel: 10 },
        VoiceInput::Quit,
        VoiceInput::Start { channel: 13 },
    ];
    for input in inputs.iter() {
        for guild in [1, 2, 3] {
            c.step(guild, *input);
            for g in [1, 2, 3, 4] {
                assert!(c.live_sessions(g) <= 1);
                assert_eq!(c.live_sessions(g) == 1, c.session(g).is_some());
            }
        }
    }
    c.clear();
    for g in [1, 2, 3, 4] {
        assert_eq!(c.live_sessions(g), 0);
    }
}

#[test]
fn state_machine_of_one_guild() {
    assert_eq!(
        next_session(1, Some(playing(1, 10)), VoiceInput::Stop),
        (
            Some(VoiceSession {
            guild: 1,
            channel: Some(10),
            stream: None,
            phase: Phase::Idle,
            deafened: true,
        }),
            vec![VoiceAction::Stop { guild: 1 }]
        )
    );
    assert_eq!(next_session(1, None, VoiceInput::Stop), (None, vec![]));
    assert_eq!(
        next_session(1, None, VoiceInput::ChannelVacated { channel: 10 }),
        (None, vec![])
    );
}
