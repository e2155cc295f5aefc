use std::collections::VecDeque;

use bobby_tabots::preplay::{
    chance_passes, check_preplay_request, enabled_reply, is_youtube_video_url,
    move_matching_to_next, parse_u8, stop_reply, transition_should_insert, PrePlayConfig,
    PreplayRequest, DEFAULT_PREPLAY_CHANCE_PERCENT,
};

#[test]
fn config_defaults_chance_to_seventy_five_percent() {
    let config = PrePlayConfig::parse(None, None).expect("default config should be valid");

    assert_eq!(config.chance_percent, DEFAULT_PREPLAY_CHANCE_PERCENT);
    assert!(config.default_url.is_none());
}

#[test]
fn config_accepts_chance_boundaries() {
    assert_eq!(
        PrePlayConfig::parse(None, Some("0".to_string()))
            .unwrap()
            .chance_percent,
        0
    );
    assert_eq!(
        PrePlayConfig::parse(None, Some("100".to_string()))
            .unwrap()
            .chance_percent,
        100
    );
}

#[test]
fn config_rejects_invalid_chances() {
    assert!(PrePlayConfig::parse(None, Some("101".to_string())).is_err());
    assert!(PrePlayConfig::parse(None, Some("abc".to_string())).is_err());
    assert!(PrePlayConfig::parse(None, Some("-1".to_string())).is_err());
}

#[test]
fn config_trims_values_and_reports_errors() {
    let config = PrePlayConfig::parse(
        Some("  https://youtu.be/abc123  ".to_string()),
        Some(" +42 ".to_string()),
    )
    .unwrap();
    assert_eq!(config.default_url.as_deref(), Some("https://youtu.be/abc123"));
    assert_eq!(config.chance_percent, 42);

    let blank = PrePlayConfig::parse(Some("   ".to_string()), None).unwrap();
    assert!(blank.default_url.is_none());

    assert_eq!(
        PrePlayConfig::parse(
            Some("https://www.youtube.com/playlist?list=PL1".to_string()),
            None
        ),
        Err("PREPLAY_URL must be a single-video YouTube URL, not a playlist".to_string())
    );
    assert_eq!(
        PrePlayConfig::parse(None, Some("256".to_string())),
        Err("PREPLAY_CHANCE_PERCENT must be an integer from 0 to 100".to_string())
    );
}

#[test]
fn default_config_matches_parse_of_nothing() {
    assert_eq!(PrePlayConfig::default(), PrePlayConfig::parse(None, None).unwrap());
}

#[test]
fn parse_u8_follows_std_rules() {
    for text in ["0", "7", "+7", "007", "255", "256", "", "+", "-0", "1a", " 1", "99999"] {
        assert_eq!(parse_u8(text), text.parse::<u8>().ok(), "input {text:?}");
    }
}

#[test]
fn validates_supported_youtube_video_urls() {
    assert!(is_youtube_video_url("https://youtu.be/abc123"));
    assert!(is_youtube_video_url(
        "https://www.youtube.com/watch?v=abc123"
    ));
    assert!(is_youtube_video_url(
        "https://music.youtube.com/watch?v=abc123"
    ));
    assert!(is_youtube_video_url(
        "https://www.youtube.com/shorts/abc123"
    ));
    assert!(!is_youtube_video_url(
        "https://www.youtube.com/playlist?list=PL123"
    ));
    assert!(!is_youtube_video_url(
        "https://www.youtube.com/watch?v=abc123&list=PL123"
    ));
    assert!(!is_youtube_video_url("https://example.com/watch?v=abc123"));
    assert!(!is_youtube_video_url("not-a-url"));
}

#[test]
fn video_url_edge_cases() {
    assert!(is_youtube_video_url("HTTPS://YOUTU.BE/abc"));
    assert!(!is_youtube_video_url("https://youtu.be/"));
    assert!(!is_youtube_video_url("https://youtu.be//abc"));
    assert!(is_youtube_video_url("https://www.youtube.com/live/xyz/"));
    assert!(is_youtube_video_url("https://www.youtube.com/embed/xyz"));
    assert!(!is_youtube_video_url("https://www.youtube.com/shorts/"));
    assert!(is_youtube_video_url("https://www.youtube.com/watch/?v=abc"));
    assert!(!is_youtube_video_url("https://www.youtube.com/watch?v="));
    assert!(is_youtube_video_url("https://www.youtube.com/watch?v=abc&list="));
    assert!(!is_youtube_video_url("ftp://youtu.be/abc"));
    assert!(!is_youtube_video_url("https://notyoutube.com/watch?v=abc"));
}

#[test]
fn chance_boundaries_are_deterministic() {
    assert!(!chance_passes(0, 0));
    assert!(chance_passes(75, 74));
    assert!(!chance_passes(75, 75));
    assert!(chance_passes(100, 99));
}

#[test]
fn chance_lets_exactly_that_many_rolls_pass() {
    for chance in [0u8, 1, 50, 75, 100] {
        let passing = (0u8..100).filter(|roll| chance_passes(chance, *roll)).count();
        assert_eq!(passing, chance as usize);
    }
}

#[test]
fn transition_requires_enabled_state_and_two_music_tracks() {
    assert!(transition_should_insert(true, true, true, 100, 99));
    assert!(!transition_should_insert(false, true, true, 100, 0));
    assert!(!transition_should_insert(true, false, true, 100, 0));
    assert!(!transition_should_insert(true, true, false, 100, 0));
    assert!(!transition_should_insert(true, true, true, 0, 0));
}

#[test]
fn appended_preplay_item_moves_ahead_of_next_music() {
    let mut queue = VecDeque::from(["current", "next", "preplay"]);

    assert!(move_matching_to_next(&mut queue, |item| *item == "preplay"));
    assert_eq!(
        queue.into_iter().collect::<Vec<_>>(),
        vec!["current", "preplay", "next"]
    );
}

#[test]
fn missing_preplay_item_leaves_queue_unchanged() {
    let mut queue = VecDeque::from(["current", "next"]);

    assert!(!move_matching_to_next(&mut queue, |item| *item == "preplay"));
    assert_eq!(
        queue.into_iter().collect::<Vec<_>>(),
        vec!["current", "next"]
    );
}

#[test]
fn front_match_is_not_moved_and_first_match_wins() {
    let mut queue = VecDeque::from(["preplay", "next"]);
    assert!(!move_matching_to_next(&mut queue, |item| *item == "preplay"));
    assert_eq!(queue.into_iter().collect::<Vec<_>>(), vec!["preplay", "next"]);

    let mut queue = VecDeque::from(["current", "a", "b", "p1", "p2"]);
    assert!(move_matching_to_next(&mut queue, |item| item.starts_with('p')));
    assert_eq!(
        queue.into_iter().collect::<Vec<_>>(),
        vec!["current", "p1", "a", "b", "p2"]
    );
}

#[test]
fn preplay_request_prefers_supplied_link() {
    let default = Some("https://youtu.be/default".to_string());
    assert_eq!(
        check_preplay_request(Some("  https://youtu.be/given "), &default),
        PreplayRequest::Ready("https://youtu.be/given".to_string())
    );
    assert_eq!(
        check_preplay_request(Some("   "), &default),
        PreplayRequest::Ready("https://youtu.be/default".to_string())
    );
    assert_eq!(check_preplay_request(None, &None), PreplayRequest::Missing);
    assert_eq!(
        check_preplay_request(Some("https://www.youtube.com/playlist?list=PL1"), &default),
        PreplayRequest::NotAVideo
    );
}

#[test]
fn preplay_replies() {
    assert_eq!(enabled_reply(75), "✅ Pre-play enabled with a 75% chance between tracks.");
    assert_eq!(enabled_reply(0), "✅ Pre-play enabled with a 0% chance between tracks.");
    assert_eq!(stop_reply(true), "🛑 Pre-play disabled.");
    assert_eq!(stop_reply(false), "ℹ️ Pre-play was already disabled.");
}
