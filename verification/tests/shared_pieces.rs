use sendspin_tui::shared::{
    build_hello, device_matches, first_matching_device, parse_device_query, parse_usize, player_command_action, Backoff,
    DeviceQuery, PlayerAction, PlayerCommand, PlayerCommandKind,
};

#[test]
fn backoff_doubles_to_cap() {
    let mut b = Backoff::new();
    let delays: Vec<u128> = (0..11).map(|_| b.next_delay().as_millis()).collect();
    assert_eq!(
        delays,
        vec![100, 200, 400, 800, 1600, 3200, 6400, 12800, 25600, 30000, 30000]
    );
    b.reset();
    assert_eq!(b.next_delay().as_millis(), 100);
    assert_eq!(b.next_delay().as_millis(), 200);
}

#[test]
fn delay_after_session() {
    let mut b = Backoff::new();
    assert_eq!(b.delay_after_session(false).as_millis(), 100);
    assert_eq!(b.delay_after_session(false).as_millis(), 200);
    assert_eq!(b.delay_after_session(true).as_millis(), 100);
    assert_eq!(b.delay_after_session(false).as_millis(), 200);
}

#[test]
fn hello_message() {
    let h = build_hello("Living Room", "Sendspin TUI");
    assert_eq!(h.name, "Living Room");
    assert_eq!(h.version, 1);
    assert_eq!(h.supported_roles, vec!["player@v1", "controller@v1", "metadata@v1"]);
    let d = h.device_info.as_ref().unwrap();
    assert_eq!(d.product_name.as_deref(), Some("Sendspin TUI"));
    assert_eq!(d.manufacturer.as_deref(), Some("Sendspin"));
    assert_eq!(d.software_version.as_deref(), Some("0.1.0"));
    let p = h.player_v1_support.as_ref().unwrap();
    assert_eq!(p.buffer_capacity, 50 * 1024 * 1024);
    assert_eq!(p.supported_commands, vec!["volume", "mute"]);
    assert_eq!(p.supported_formats.len(), 2);
    assert_eq!(p.supported_formats[0].bit_depth, 24);
    assert_eq!(p.supported_formats[1].bit_depth, 16);
    for f in &p.supported_formats {
        assert_eq!(f.codec, "pcm");
        assert_eq!((f.channels, f.sample_rate), (2, 48000));
    }
}

#[test]
fn client_id_is_random_v4_uuid() {
    let a = build_hello("a", "b").client_id;
    let b = build_hello("a", "b").client_id;
    assert_ne!(a, b);
    let chars: Vec<char> = a.chars().collect();
    assert_eq!(chars.len(), 36);
    for (i, c) in chars.iter().enumerate() {
        if [8, 13, 18, 23].contains(&i) {
            assert_eq!(*c, '-');
        } else {
            assert!(c.is_ascii_digit() || ('a'..='f').contains(c));
        }
    }
    assert_eq!(chars[14], '4');
    assert!(['8', '9', 'a', 'b'].contains(&chars[19]));
}

#[test]
fn parse_usize_follows_std() {
    for s in ["0", "7", "+12", "007", "18446744073709551615", "18446744073709551616", "", "+", "-1", "1a", " 1", "++1", "٣"] {
        assert_eq!(parse_usize(s), s.parse::<usize>().ok(), "input {s:?}");
    }
}

#[test]
fn device_queries() {
    let q = parse_device_query("2");
    assert!(matches!(q, DeviceQuery::Index(2)));
    assert!(device_matches(&q, 2, "anything"));
    assert!(!device_matches(&q, 1, "2"));
    let q = parse_device_query("alsa:hw:0");
    assert!(matches!(&q, DeviceQuery::Id(id) if id == "alsa:hw:0"));
    assert!(device_matches(&q, 0, "alsa:hw:0"));
    assert!(!device_matches(&q, 0, "alsa:hw:1"));
    for i in [0usize, 9, 10, 123] {
        assert!(matches!(parse_device_query(&i.to_string()), DeviceQuery::Index(j) if j == i));
    }
}

#[test]
fn player_commands() {
    let vol = PlayerCommand { command: PlayerCommandKind::Volume, volume: Some(40), mute: None };
    assert_eq!(player_command_action(&vol), PlayerAction::SetVolume(40));
    let vol_missing = PlayerCommand { command: PlayerCommandKind::Volume, volume: None, mute: Some(true) };
    assert_eq!(player_command_action(&vol_missing), PlayerAction::Nothing);
    let mute = PlayerCommand { command: PlayerCommandKind::Mute, volume: Some(3), mute: Some(true) };
    assert_eq!(player_command_action(&mute), PlayerAction::SetMute(true));
    let other = PlayerCommand { command: PlayerCommandKind::Other, volume: Some(3), mute: Some(true) };
    assert_eq!(player_command_action(&other), PlayerAction::Nothing);
}

#[test]
fn default_backoff_matches_new() {
    let mut b = Backoff::default();
    assert_eq!(b.next_delay().as_millis(), 100);
    assert_eq!(b.next_delay().as_millis(), 200);
}

#[test]
fn first_matching_device_by_position() {
    let ids = vec![String::new(), String::new(), String::new()];
    assert_eq!(first_matching_device(&DeviceQuery::Index(1), &ids), Some(1));
    assert_eq!(first_matching_device(&DeviceQuery::Index(3), &ids), None);
}

#[test]
fn first_matching_device_by_id_takes_the_first() {
    let ids = vec!["hw:0".to_string(), "hw:1".to_string(), "hw:1".to_string()];
    assert_eq!(first_matching_device(&DeviceQuery::Id("hw:1".to_string()), &ids), Some(1));
    assert_eq!(first_matching_device(&DeviceQuery::Id("hw:9".to_string()), &ids), None);
    assert_eq!(first_matching_device(&DeviceQuery::Id("hw:0".to_string()), &Vec::new()), None);
}
