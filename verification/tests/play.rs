use bobby_tabots::guild_state::Track;
use bobby_tabots::play::{
    is_url, not_found_message, play_reply, playlist_failed_message, playlist_request,
    single_track_request, source_url_for_query, ResolvedPlayRequest,
};
use bobby_tabots::youtube_playlist::{YoutubePlaylist, YoutubePlaylistTrack};

fn request(titles: &[&str], playlist_title: Option<&str>) -> ResolvedPlayRequest {
    ResolvedPlayRequest {
        tracks: titles
            .iter()
            .map(|t| Track { title: t.to_string(), url: format!("u/{t}"), requested_by: 9 })
            .collect(),
        playlist_title: playlist_title.map(str::to_string),
    }
}

#[test]
fn urls_are_recognised_by_scheme_prefix() {
    assert!(is_url("http://x"));
    assert!(is_url("https://youtu.be/abc"));
    assert!(!is_url("never gonna give you up"));
    assert!(!is_url("ftp://x"));
    assert!(!is_url("HTTPS://x"));
}

#[test]
fn queries_become_sources() {
    assert_eq!(source_url_for_query("https://youtu.be/abc"), "https://youtu.be/abc");
    assert_eq!(source_url_for_query("lofi beats"), "ytsearch1:lofi beats");
}

#[test]
fn single_track_prefers_metadata() {
    let r = single_track_request(
        "lofi",
        "ytsearch1:lofi".to_string(),
        Some("Lofi Girl".to_string()),
        Some("https://www.youtube.com/watch?v=x".to_string()),
        5,
    );
    assert_eq!(r.tracks, vec![Track { title: "Lofi Girl".into(), url: "https://www.youtube.com/watch?v=x".into(), requested_by: 5 }]);
    assert!(r.playlist_title.is_none());

    let r = single_track_request("lofi", "ytsearch1:lofi".to_string(), None, Some(String::new()), 5);
    assert_eq!(r.tracks[0].title, "lofi");
    assert_eq!(r.tracks[0].url, "ytsearch1:lofi");
}

#[test]
fn playlist_request_keeps_order_and_requester() {
    let playlist = YoutubePlaylist {
        title: "Mix".to_string(),
        tracks: vec![
            YoutubePlaylistTrack { title: "a".into(), url: "ua".into() },
            YoutubePlaylistTrack { title: "b".into(), url: "ub".into() },
        ],
    };
    let r = playlist_request(playlist, 3);
    assert_eq!(r.playlist_title.as_deref(), Some("Mix"));
    assert_eq!(
        r.tracks,
        vec![
            Track { title: "a".into(), url: "ua".into(), requested_by: 3 },
            Track { title: "b".into(), url: "ub".into(), requested_by: 3 },
        ]
    );
}

#[test]
fn error_messages() {
    assert_eq!(
        playlist_failed_message(),
        "❌ Could not load that YouTube playlist. It may be private, unavailable, or empty."
    );
    assert_eq!(
        not_found_message("xyz"),
        "❌ Could not find `xyz`. The link may be private, geo-blocked, or invalid."
    );
}

#[test]
fn play_replies_cover_all_four_cases() {
    let r = play_reply(&request(&["One", "Two", "Three"], Some("Mix")), true, 42);
    assert_eq!(r.title, "🎵 Now Playing");
    assert_eq!(r.description, "**One**\nPlaylist: **Mix**\n2 more track(s) queued\nRequested by <@42>");
    assert_eq!(r.colour, 0x57F287);

    let r = play_reply(&request(&["One", "Two", "Three"], Some("Mix")), false, 42);
    assert_eq!(r.title, "➕ Playlist Added to Queue");
    assert_eq!(r.description, "**Mix**\n3 track(s) added\nRequested by <@42>");
    assert_eq!(r.colour, 0x5865F2);

    let r = play_reply(&request(&["Solo"], None), true, 7);
    assert_eq!(r.title, "🎵 Now Playing");
    assert_eq!(r.description, "**Solo**\nRequested by <@7>");
    assert_eq!(r.colour, 0x57F287);

    let r = play_reply(&request(&["Solo"], None), false, 1234567890123);
    assert_eq!(r.title, "➕ Added to Queue");
    assert_eq!(r.description, "**Solo**\nRequested by <@1234567890123>");
    assert_eq!(r.colour, 0x5865F2);
}
