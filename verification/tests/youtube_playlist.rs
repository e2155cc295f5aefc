use bobby_tabots::youtube_playlist::{
    extraction_failed, is_youtube_playlist_url, parse_flat_playlist, playlist_command_args,
    title_from_listing, track_from_entry, FlatPlaylist, FlatPlaylistEntry, PlaylistResolveError, MAX_PLAYLIST_TRACKS,
};
use serde_json::Value;

/// Reads the fields of a `yt-dlp` flat listing from its JSON text.
fn flat_from_json(bytes: &[u8]) -> FlatPlaylist {
    let value: Value = serde_json::from_slice(bytes).expect("test JSON");
    let text = |v: Option<&Value>| v.and_then(Value::as_str).map(str::to_string);
    FlatPlaylist {
        title: text(value.get("title")),
        entries: value
            .get("entries")
            .and_then(Value::as_array)
            .map(|entries| {
                entries
                    .iter()
                    .map(|entry| FlatPlaylistEntry {
                        id: text(entry.get("id")),
                        title: text(entry.get("title")),
                    })
                    .collect()
            })
            .unwrap_or_default(),
    }
}

#[test]
fn recognizes_only_explicit_youtube_playlist_urls() {
    assert!(is_youtube_playlist_url(
        "https://www.youtube.com/playlist?list=PL123"
    ));
    assert!(is_youtube_playlist_url(
        "https://music.youtube.com/playlist/?list=PL123"
    ));
    assert!(!is_youtube_playlist_url(
        "https://www.youtube.com/watch?v=video&list=PL123"
    ));
    assert!(!is_youtube_playlist_url(
        "https://example.com/playlist?list=PL123"
    ));
    assert!(!is_youtube_playlist_url(
        "https://www.youtube.com/playlist?list="
    ));
}

#[test]
fn playlist_url_edge_cases() {
    assert!(is_youtube_playlist_url("HTTP://YouTube.com/playlist?x=1&list=PL"));
    assert!(!is_youtube_playlist_url("not a url"));
    assert!(!is_youtube_playlist_url("ftp://youtube.com/playlist?list=PL"));
    assert!(!is_youtube_playlist_url("https://youtube.com.evil.com/playlist?list=PL"));
    assert!(is_youtube_playlist_url("https://www.youtube.com/playlist?list=a%20b"));
}

#[test]
fn parses_valid_entries_in_source_order_and_skips_malformed_ones() {
    let playlist = parse_flat_playlist(flat_from_json(
        br#"{
            "title": "Mix",
            "entries": [
                {"id": "first", "title": "First video"},
                {"id": "", "title": "Missing id"},
                {"title": "Also missing id"},
                {"id": "third", "title": ""}
            ]
        }"#,
    ))
    .expect("playlist should parse");

    assert_eq!(playlist.title, "Mix");
    assert_eq!(playlist.tracks.len(), 2);
    assert_eq!(playlist.tracks[0].title, "First video");
    assert_eq!(
        playlist.tracks[0].url,
        "https://www.youtube.com/watch?v=first"
    );
    assert_eq!(playlist.tracks[1].title, "third");
    assert_eq!(
        playlist.tracks[1].url,
        "https://www.youtube.com/watch?v=third"
    );
}

#[test]
fn rejects_a_playlist_without_playable_entries() {
    let error = parse_flat_playlist(flat_from_json(br#"{"entries": [{"title": "Unavailable"}]}"#))
        .expect_err("playlist should be empty");

    assert!(matches!(error, PlaylistResolveError::Empty));
}

#[test]
fn limits_playlists_to_one_hundred_tracks() {
    let entries = (0..=MAX_PLAYLIST_TRACKS)
        .map(|index| format!(r#"{{"id":"video-{index}","title":"Video {index}"}}"#))
        .collect::<Vec<_>>()
        .join(",");
    let playlist = parse_flat_playlist(flat_from_json(format!(r#"{{"entries":[{entries}]}}"#).as_bytes()))
        .expect("playlist should parse");

    assert_eq!(playlist.tracks.len(), MAX_PLAYLIST_TRACKS);
    assert_eq!(
        playlist.tracks.last().map(|track| track.title.as_str()),
        Some("Video 99")
    );
}

#[test]
fn ids_and_titles_are_trimmed_or_defaulted() {
    let playlist = parse_flat_playlist(FlatPlaylist {
        title: Some("   ".to_string()),
        entries: vec![
            FlatPlaylistEntry { id: Some("  abc \n".to_string()), title: None },
            FlatPlaylistEntry { id: Some("   ".to_string()), title: Some("blank id".to_string()) },
            FlatPlaylistEntry { id: Some("def".to_string()), title: Some(" Spaced ".to_string()) },
        ],
    })
    .unwrap();
    assert_eq!(playlist.title, "YouTube playlist");
    assert_eq!(playlist.tracks.len(), 2);
    assert_eq!(playlist.tracks[0].title, "abc");
    assert_eq!(playlist.tracks[0].url, "https://www.youtube.com/watch?v=abc");
    assert_eq!(playlist.tracks[1].title, " Spaced ");
}

#[test]
fn playlist_keeps_source_order_across_many_entries() {
    let entries = (0..150)
        .map(|i| FlatPlaylistEntry {
            id: if i % 3 == 0 { None } else { Some(format!("v{i}")) },
            title: None,
        })
        .collect();
    let playlist = parse_flat_playlist(FlatPlaylist { title: None, entries }).unwrap();
    let expected: Vec<String> = (0..150)
        .filter(|i| i % 3 != 0)
        .take(MAX_PLAYLIST_TRACKS)
        .map(|i| format!("v{i}"))
        .collect();
    let titles: Vec<String> = playlist.tracks.iter().map(|t| t.title.clone()).collect();
    assert_eq!(titles, expected);
}

#[test]
fn command_line_lists_at_most_the_cap() {
    assert_eq!(
        playlist_command_args("https://www.youtube.com/playlist?list=PL1"),
        vec![
            "--flat-playlist",
            "--dump-single-json",
            "--no-warnings",
            "--playlist-end",
            "100",
            "--",
            "https://www.youtube.com/playlist?list=PL1",
        ]
    );
}

#[test]
fn extraction_failure_uses_stderr_or_status() {
    match extraction_failed("  ERROR: private\n", "exit status: 1") {
        PlaylistResolveError::ExtractionFailed(m) => assert_eq!(m, "ERROR: private"),
        other => panic!("unexpected {other:?}"),
    }
    match extraction_failed(" \n", "exit status: 1") {
        PlaylistResolveError::ExtractionFailed(m) => assert_eq!(m, "exit status: 1"),
        other => panic!("unexpected {other:?}"),
    }
}

#[test]
fn entry_parts_make_tracks() {
    assert!(track_from_entry("", Some("x".to_string()), true).is_none());
    let t = track_from_entry("abc", Some("Title".to_string()), true).unwrap();
    assert_eq!((t.title.as_str(), t.url.as_str()), ("Title", "https://www.youtube.com/watch?v=abc"));
    let t = track_from_entry("abc", Some("  ".to_string()), false).unwrap();
    assert_eq!(t.title, "abc");
    let t = track_from_entry("abc", None, false).unwrap();
    assert_eq!(t.title, "abc");
    assert_eq!(title_from_listing(Some("Mix".to_string()), true), "Mix");
    assert_eq!(title_from_listing(Some(" ".to_string()), false), "YouTube playlist");
    assert_eq!(title_from_listing(None, false), "YouTube playlist");
}

#[test]
fn error_messages_name_their_cause() {
    assert_eq!(PlaylistResolveError::Empty.message(), "the playlist has no playable videos");
    assert_eq!(
        PlaylistResolveError::ExtractionFailed("ERROR: gone".to_string()).message(),
        "yt-dlp could not read the playlist: ERROR: gone"
    );
    let io = std::io::Error::new(std::io::ErrorKind::NotFound, "no such program");
    assert_eq!(
        PlaylistResolveError::Command(io).message(),
        "could not start yt-dlp: no such program"
    );
    let json = serde_json::from_slice::<Value>(b"{").unwrap_err();
    let expected = format!("yt-dlp returned invalid playlist metadata: {json}");
    assert_eq!(PlaylistResolveError::InvalidOutput(json).message(), expected);
}
