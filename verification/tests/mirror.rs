use discord_bot::event::{Event, Message, VoicePresence};
use discord_bot::mirror::{GuildState, Mirror, Snapshot};

fn guild(id: u64, name: &str, voice: Vec<(u64, Option<u64>)>) -> GuildState {
    GuildState {
        id,
        name: name.to_string(),
        members: voice.iter().map(|p| p.0).collect(),
        voice: voice.into_iter().map(|(user, channel)| VoicePresence { user, channel }).collect(),
    }
}

fn snapshot() -> Snapshot {
    Snapshot {
        user: 1,
        guilds: vec![
            guild(100, "First", vec![(1, None), (2, Some(110)), (3, Some(110))]),
            guild(200, "Second", vec![(4, Some(210)), (2, Some(220))]),
        ],
    }
}

fn voice_update(guild: u64, user: u64, channel: Option<u64>) -> Event {
    Event::VoiceStateUpdate { guild, presence: VoicePresence { user, channel } }
}

#[test]
fn mirror_holds_the_snapshot() {
    let mirror = Mirror::new(snapshot());
    assert_eq!(mirror.user(), 1);
    assert!(mirror.is_self(1));
    assert!(!mirror.is_self(2));
    assert_eq!(mirror.guild_by_id(100), Some(&snapshot().guilds[0]));
    assert_eq!(mirror.guild_by_id(200).map(|g| g.name.clone()), Some("Second".to_string()));
    assert_eq!(mirror.guild_by_id(300), None);
}

#[test]
fn voice_presence_is_the_first_match_in_scan_order() {
    let mirror = Mirror::new(snapshot());
    assert_eq!(mirror.find_voice_presence(2), Some((100, 110)));
    assert_eq!(mirror.find_voice_presence(4), Some((200, 210)));
    assert_eq!(mirror.find_voice_presence(1), None);
    assert_eq!(mirror.find_voice_presence(99), None);
}

#[test]
fn voice_presence_skips_records_without_a_channel() {
    let mirror = Mirror::new(Snapshot {
        user: 1,
        guilds: vec![
            guild(100, "First", vec![(5, None)]),
            guild(200, "Second", vec![(5, None), (5, Some(210))]),
        ],
    });
    assert_eq!(mirror.find_voice_presence(5), Some((200, 210)));
}

#[test]
fn occupants_are_counted_by_channel() {
    let mirror = Mirror::new(snapshot());
    assert_eq!(mirror.occupants(100, 110), 2);
    assert_eq!(mirror.occupants(100, 111), 0);
    assert_eq!(mirror.occupants(200, 210), 1);
    assert_eq!(mirror.occupants(300, 110), 0);
    assert_eq!(snapshot().guilds[0].occupants(110), 2);
    assert_eq!(snapshot().guilds[0].voiced(3), Some(110));
    assert_eq!(snapshot().guilds[0].voiced(1), None);
}

#[test]
fn voice_update_changes_the_record_in_place() {
    let mut mirror = Mirror::new(snapshot());
    mirror.apply(&voice_update(100, 2, Some(111)));
    assert_eq!(mirror.find_voice_presence(2), Some((100, 111)));
    assert_eq!(mirror.occupants(100, 110), 1);
    assert_eq!(mirror.occupants(100, 111), 1);
    let expected = guild(100, "First", vec![(1, None), (2, Some(111)), (3, Some(110))]);
    assert_eq!(mirror.guild_by_id(100), Some(&expected));
}

#[test]
fn leaving_voice_keeps_the_record_without_channel() {
    let mut mirror = Mirror::new(snapshot());
    mirror.apply(&voice_update(100, 2, None));
    assert_eq!(mirror.find_voice_presence(2), Some((200, 220)));
    assert_eq!(
        mirror.guild_by_id(100).map(|g| g.voice.clone()),
        Some(vec![
            VoicePresence { user: 1, channel: None },
            VoicePresence { user: 2, channel: None },
            VoicePresence { user: 3, channel: Some(110) },
        ])
    );
}

#[test]
fn voice_update_of_a_new_user_adds_a_record() {
    let mut mirror = Mirror::new(snapshot());
    mirror.apply(&voice_update(200, 9, Some(210)));
    assert_eq!(mirror.find_voice_presence(9), Some((200, 210)));
    assert_eq!(mirror.occupants(200, 210), 2);
    assert_eq!(mirror.guild_by_id(200).map(|g| g.voice.len()), Some(3));
}

#[test]
fn applying_an_event_twice_is_applying_it_once() {
    let events = vec![
        voice_update(100, 2, Some(111)),
        voice_update(200, 9, Some(210)),
        voice_update(100, 3, None),
        Event::MemberJoin { guild: 100, user: 77, name: "Ann".to_string() },
        Event::MemberJoin { guild: 100, user: 2, name: "Bob".to_string() },
    ];
    for event in events.iter() {
        let mut once = Mirror::new(snapshot());
        once.apply(event);
        let mut twice = Mirror::new(snapshot());
        twice.apply(event);
        twice.apply(event);
        for id in [100, 200] {
            assert_eq!(once.guild_by_id(id), twice.guild_by_id(id));
        }
    }
}

#[test]
fn member_join_adds_the_member_once() {
    let mut mirror = Mirror::new(snapshot());
    let join = Event::MemberJoin { guild: 200, user: 77, name: "Ann".to_string() };
    mirror.apply(&join);
    assert_eq!(mirror.guild_by_id(200).map(|g| g.members.clone()), Some(vec![4, 2, 77]));
    mirror.apply(&join);
    assert_eq!(mirror.guild_by_id(200).map(|g| g.members.clone()), Some(vec![4, 2, 77]));
}

#[test]
fn events_about_unknown_guilds_and_other_kinds_change_nothing() {
    let mut mirror = Mirror::new(snapshot());
    mirror.apply(&voice_update(300, 2, Some(310)));
    mirror.apply(&Event::MemberJoin { guild: 300, user: 77, name: "Ann".to_string() });
    mirror.apply(&Event::Other);
    mirror.apply(&Event::MessageCreate(Message {
        author: 2,
        author_name: "Bob".to_string(),
        channel: 110,
        content: "!help".to_string(),
    }));
    assert_eq!(mirror.user(), 1);
    assert_eq!(mirror.guild_by_id(100), Some(&snapshot().guilds[0]));
    assert_eq!(mirror.guild_by_id(200), Some(&snapshot().guilds[1]));
    assert_eq!(mirror.guild_by_id(300), None);
}

#[test]
fn reset_replaces_everything() {
    let mut mirror = Mirror::new(snapshot());
    mirror.apply(&voice_update(100, 2, Some(111)));
    mirror.reset(Snapshot { user: 8, guilds: vec![guild(500, "Fresh", vec![(3, Some(510))])] });
    assert_eq!(mirror.user(), 8);
    assert_eq!(mirror.find_voice_presence(2), None);
    assert_eq!(mirror.find_voice_presence(4), None);
    assert_eq!(mirror.find_voice_presence(3), Some((500, 510)));
    assert_eq!(mirror.guild_by_id(100), None);
    assert_eq!(mirror.guild_by_id(200), None);
}

#[test]
fn guild_records_are_updated_directly() {
    let mut g = guild(100, "First", vec![(2, Some(110))]);
    g.set_presence(VoicePresence { user: 2, channel: Some(111) });
    g.set_presence(VoicePresence { user: 3, channel: None });
    g.add_member(3);
    g.add_member(3);
    g.add_member(2);
    assert_eq!(g, GuildState {
        id: 100,
        name: "First".to_string(),
        members: vec![2, 3],
        voice: vec![
            VoicePresence { user: 2, channel: Some(111) },
            VoicePresence { user: 3, channel: None },
        ],
    });
}
