use bobby_tabots::replies::{clear_reply, guild_only_reply, leave_reply, pause_reply};
use bobby_tabots::text::{chars_of, decimal_string, ends_with, starts_with, string_of, to_string, trim_end_char};

#[test]
fn clear_reply_counts_and_pluralises() {
    assert_eq!(clear_reply(0), "📭 There are no upcoming tracks to clear.");
    assert_eq!(clear_reply(1), "🧹 Cleared 1 upcoming track from the queue.");
    assert_eq!(clear_reply(12), "🧹 Cleared 12 upcoming tracks from the queue.");
}

#[test]
fn pause_reply_follows_the_checks() {
    assert_eq!(
        pause_reply(false, false, None),
        ("❌ The bot is not currently in a voice channel.".to_string(), true)
    );
    assert_eq!(
        pause_reply(true, true, None),
        ("❌ There is nothing playing in the queue.".to_string(), true)
    );
    assert_eq!(pause_reply(true, false, None), ("⏸️ Playback paused.".to_string(), false));
    assert_eq!(
        pause_reply(true, false, Some("track ended")),
        ("❌ Failed to pause playback: track ended".to_string(), true)
    );
}

#[test]
fn leave_and_guild_only_replies() {
    assert_eq!(
        leave_reply(true),
        ("👋 Left the voice channel and cleared the queue.".to_string(), false)
    );
    assert_eq!(leave_reply(false), ("❌ Failed to leave the voice channel.".to_string(), true));
    assert_eq!(guild_only_reply(), "❌ This command can only be used in a server.");
}

#[test]
fn decimal_notation_matches_display() {
    for n in [0u64, 7, 10, 99, 100, 12345, u64::MAX] {
        assert_eq!(decimal_string(n), n.to_string());
    }
    assert_eq!(string_of(&chars_of("héllo")), "héllo");
    assert_eq!(to_string("ünï"), "ünï");
    let path = chars_of("/playlist//");
    assert_eq!(string_of(&trim_end_char(&path, '/')), "/playlist");
    assert!(starts_with(&path, "/play"));
    assert!(!starts_with(&path, "/playlists"));
    assert!(ends_with(&path, "list//"));
    assert!(!ends_with(&chars_of("a"), "ba"));
}
