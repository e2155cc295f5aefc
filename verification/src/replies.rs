//! Reply texts of the queue and voice commands.

use vstd::prelude::*;

use crate::text::{append_str, decimal, push_decimal, to_string};

verus! {

/// The reply to a command used outside a server.
pub fn guild_only_reply() -> (r: String)
    ensures
        r@ == "❌ This command can only be used in a server."@,
{
    to_string("❌ This command can only be used in a server.")
}

pub open spec fn cleared_text(cleared: nat) -> Seq<char> {
    if cleared == 0 {
        "📭 There are no upcoming tracks to clear."@
    } else {
        "🧹 Cleared "@ + decimal(cleared) + (if cleared == 1 {
            " upcoming track from the queue."@
        } else {
            " upcoming tracks from the queue."@
        })
    }
}

/// The reply to `/clear` after `cleared` upcoming tracks were removed.
pub fn clear_reply(cleared: usize) -> (r: String)
    ensures
        r@ == cleared_text(cleared as nat),
{
    if cleared == 0 {
        return to_string("📭 There are no upcoming tracks to clear.");
    }
    let mut s = to_string("🧹 Cleared ");
    push_decimal(&mut s, cleared as u64);
    if cleared == 1 {
        append_str(&mut s, " upcoming track from the queue.");
    } else {
        append_str(&mut s, " upcoming tracks from the queue.");
    }
    s
}

/// The reply to `/pause` and whether only the caller sees it: the bot must
/// be in a voice channel with something queued; `pause_error` is the text of
/// the player's error when pausing failed.
pub fn pause_reply(in_voice: bool, queue_empty: bool, pause_error: Option<&str>) -> (r: (String, bool))
    ensures
        !in_voice ==> r.0@ == "❌ The bot is not currently in a voice channel."@ && r.1,
        in_voice && queue_empty ==> r.0@ == "❌ There is nothing playing in the queue."@ && r.1,
        in_voice && !queue_empty ==> match pause_error {
            None => r.0@ == "⏸️ Playback paused."@ && !r.1,
            Some(e) => r.0@ == "❌ Failed to pause playback: "@ + e@ && r.1,
        },
{
    if !in_voice {
        return (to_string("❌ The bot is not currently in a voice channel."), true);
    }
    if queue_empty {
        return (to_string("❌ There is nothing playing in the queue."), true);
    }
    match pause_error {
        None => (to_string("⏸️ Playback paused."), false),
        Some(e) => {
            let mut s = to_string("❌ Failed to pause playback: ");
            append_str(&mut s, e);
            (s, true)
        },
    }
}

/// The reply to `/leave` and whether only the caller sees it.
pub fn leave_reply(left: bool) -> (r: (String, bool))
    ensures
        left ==> r.0@ == "👋 Left the voice channel and cleared the queue."@ && !r.1,
        !left ==> r.0@ == "❌ Failed to leave the voice channel."@ && r.1,
{
    if left {
        (to_string("👋 Left the voice channel and cleared the queue."), false)
    } else {
        (to_string("❌ Failed to leave the voice channel."), true)
    }
}

} // verus!
