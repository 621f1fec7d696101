use now_playing_osc::config::Config;
use now_playing_osc::relay::{tick, Action, OscArg, Packet};
use now_playing_osc::status::{PlaybackState, Track};

#[test]
fn chatbox_packet_layout() {
    let p = Packet::chatbox("hi".to_string());
    assert_eq!(p.address, "/chatbox/input");
    assert_eq!(p.args, vec![OscArg::Str("hi".to_string()), OscArg::Bool(true), OscArg::Bool(false)]);
}

#[test]
fn end_to_end_playing_track() {
    let c = Config {
        send_address: None,
        send_port: None,
        small_bubble: Some(false),
        sleep_time: Some(500),
        program: None,
    };
    let s = c.settings();
    let t = Track {
        status: PlaybackState::Playing,
        artists: Some(vec!["Radiohead".to_string()]),
        title: Some("Karma Police".to_string()),
        position_secs: 10,
        length_secs: 260,
    };
    match tick(&s, Some(t)) {
        Action::Send { packet, sleep_ms } => {
            assert_eq!(packet.address, "/chatbox/input");
            assert_eq!(
                packet.args,
                vec![
                    OscArg::Str("Radiohead - Karma Police\n00:10/04:20".to_string()),
                    OscArg::Bool(true),
                    OscArg::Bool(false),
                ]
            );
            assert_eq!(sleep_ms, 500);
        }
        Action::Retry => panic!("expected a send"),
    }
    assert_eq!(s.target_address(), "127.0.0.1:9000");
}

#[test]
fn no_player_retries_at_once() {
    let c = Config { send_address: None, send_port: None, small_bubble: None, sleep_time: None, program: None };
    let s = c.settings();
    assert!(matches!(tick(&s, None), Action::Retry));
}

#[test]
fn stopped_player_sends_empty_text() {
    let c = Config { send_address: None, send_port: None, small_bubble: None, sleep_time: None, program: None };
    let s = c.settings();
    let t = Track { status: PlaybackState::Stopped, artists: None, title: None, position_secs: 0, length_secs: 0 };
    match tick(&s, Some(t)) {
        Action::Send { packet, sleep_ms } => {
            assert_eq!(packet.args[0], OscArg::Str(String::new()));
            assert_eq!(sleep_ms, 1500);
        }
        Action::Retry => panic!("expected a send"),
    }
}
