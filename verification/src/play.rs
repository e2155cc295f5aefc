//! `/play`: turning a query into tracks and describing the result.

use vstd::prelude::*;

use crate::guild_state::Track;
use crate::text::{append_str, chars_of, decimal, is_prefix, push_decimal, starts_with, to_string};
use crate::youtube_playlist::{YoutubePlaylist, YoutubePlaylistTrack};

verus! {

/// Whether `input` starts with `http://` or `https://`.
pub fn is_url(input: &str) -> (r: bool)
    ensures
        r == (is_prefix("http://"@, input@) || is_prefix("https://"@, input@)),
{
    let cs = chars_of(input);
    starts_with(&cs, "http://") || starts_with(&cs, "https://")
}

/// The tracks a `/play` query resolved to, and the playlist title when the
/// query was a playlist link.
pub struct ResolvedPlayRequest {
    pub tracks: Vec<Track>,
    pub playlist_title: Option<String>,
}

/// The source handed to yt-dlp for a query: a link as it is, other text as a
/// one-result YouTube search.
pub open spec fn source_for(query: Seq<char>) -> Seq<char> {
    if is_prefix("http://"@, query) || is_prefix("https://"@, query) {
        query
    } else {
        "ytsearch1:"@ + query
    }
}

/// URLs are sent to yt-dlp as-is; search text resolves to one YouTube result.
pub fn source_url_for_query(query: &str) -> (r: String)
    ensures
        r@ == source_for(query@),
{
    if is_url(query) {
        to_string(query)
    } else {
        let mut s = to_string("ytsearch1:");
        append_str(&mut s, query);
        s
    }
}

/// The single track of a non-playlist query, from the metadata yt-dlp
/// returned: titled by the metadata title or else the query, streamed from
/// the metadata source URL when it is non-empty or else from `source_url`.
pub fn single_track_request(
    query: &str,
    source_url: String,
    metadata_title: Option<String>,
    metadata_source_url: Option<String>,
    requested_by: u64,
) -> (r: ResolvedPlayRequest)
    ensures
        r.playlist_title is None,
        r.tracks@.len() == 1,
        r.tracks@[0].title@ == match metadata_title {
            Some(t) => t@,
            None => query@,
        },
        r.tracks@[0].url@ == match metadata_source_url {
            Some(u) => if u@.len() > 0 { u@ } else { source_url@ },
            None => source_url@,
        },
        r.tracks@[0].requested_by == requested_by,
{
    let title = match metadata_title {
        Some(t) => t,
        None => to_string(query),
    };
    let url = match metadata_source_url {
        Some(u) => if !u.as_str().is_empty() { u } else { source_url },
        None => source_url,
    };
    let mut tracks = Vec::new();
    tracks.push(Track { title, url, requested_by });
    ResolvedPlayRequest { tracks, playlist_title: None }
}

/// The tracks of an expanded playlist, in playlist order, each attributed to
/// `requested_by`.
pub fn playlist_request(playlist: YoutubePlaylist, requested_by: u64) -> (r: ResolvedPlayRequest)
    ensures
        r.playlist_title == Some(playlist.title),
        r.tracks@.len() == playlist.tracks@.len(),
        forall|i: int|
            #![trigger r.tracks@[i]]
            0 <= i < r.tracks@.len() ==> r.tracks@[i].title == playlist.tracks@[i].title
                && r.tracks@[i].url == playlist.tracks@[i].url
                && r.tracks@[i].requested_by == requested_by,
{
    let ghost src = playlist.tracks@;
    let mut tracks: Vec<Track> = Vec::new();
    for t in it: playlist.tracks.into_iter()
        invariant
            it.seq() == src,
            tracks@.len() == it.index(),
            forall|i: int|
                #![trigger tracks@[i]]
                0 <= i < tracks@.len() ==> tracks@[i].title == src[i].title
                    && tracks@[i].url == src[i].url
                    && tracks@[i].requested_by == requested_by,
    {
        let YoutubePlaylistTrack { title, url } = t;
        tracks.push(Track { title, url, requested_by });
    }
    ResolvedPlayRequest { tracks, playlist_title: Some(playlist.title) }
}

pub open spec fn playlist_failed_text() -> Seq<char> {
    "❌ Could not load that YouTube playlist. It may be private, unavailable, or empty."@
}

/// The reply when a playlist link could not be expanded.
pub fn playlist_failed_message() -> (r: String)
    ensures
        r@ == playlist_failed_text(),
{
    to_string("❌ Could not load that YouTube playlist. It may be private, unavailable, or empty.")
}

pub open spec fn not_found_text(query: Seq<char>) -> Seq<char> {
    "❌ Could not find `"@ + query + "`. The link may be private, geo-blocked, or invalid."@
}

/// The reply when yt-dlp found nothing for `query`.
pub fn not_found_message(query: &str) -> (r: String)
    ensures
        r@ == not_found_text(query@),
{
    let mut s = to_string("❌ Could not find `");
    append_str(&mut s, query);
    append_str(&mut s, "`. The link may be private, geo-blocked, or invalid.");
    s
}

/// An embed reply: title, description and colour.
pub struct EmbedReply {
    pub title: String,
    pub description: String,
    pub colour: u32,
}

pub open spec fn mention(user: u64) -> Seq<char> {
    "<@"@ + decimal(user as nat) + ">"@
}

pub open spec fn now_playing_colour() -> u32 {
    0x57F287
}

pub open spec fn queued_colour() -> u32 {
    0x5865F2
}

/// The embed that answers a `/play` request whose first track is titled
/// `first`, with `count` tracks, asked for by `user`.
pub open spec fn play_embed(
    first: Seq<char>,
    playlist_title: Option<Seq<char>>,
    count: nat,
    was_idle: bool,
    user: u64,
) -> (Seq<char>, Seq<char>, u32) {
    match playlist_title {
        Some(pt) => if was_idle {
            (
                "🎵 Now Playing"@,
                "**"@ + first + "**\nPlaylist: **"@ + pt + "**\n"@ + decimal((count - 1) as nat)
                    + " more track(s) queued\nRequested by "@ + mention(user),
                now_playing_colour(),
            )
        } else {
            (
                "➕ Playlist Added to Queue"@,
                "**"@ + pt + "**\n"@ + decimal(count) + " track(s) added\nRequested by "@ + mention(user),
                queued_colour(),
            )
        },
        None => if was_idle {
            ("🎵 Now Playing"@, "**"@ + first + "**\nRequested by "@ + mention(user), now_playing_colour())
        } else {
            ("➕ Added to Queue"@, "**"@ + first + "**\nRequested by "@ + mention(user), queued_colour())
        },
    }
}

fn append_mention(s: &mut String, user: u64)
    ensures
        final(s)@ == old(s)@ + mention(user),
{
    append_str(s, "<@");
    push_decimal(s, user);
    append_str(s, ">");
    assert(final(s)@ =~= old(s)@ + mention(user));
}

/// The reply to a resolved `/play` request; `was_idle` tells whether the
/// first track started at once.
pub fn play_reply(request: &ResolvedPlayRequest, was_idle: bool, user: u64) -> (r: EmbedReply)
    requires
        request.tracks@.len() > 0,
    ensures
        (r.title@, r.description@, r.colour) == play_embed(
            request.tracks@[0].title@,
            match request.playlist_title {
                Some(t) => Some(t@),
                None => None,
            },
            request.tracks@.len(),
            was_idle,
            user,
        ),
{
    let first = &request.tracks[0];
    let count = request.tracks.len();
    let mut d = String::new();
    let title;
    let colour;
    match &request.playlist_title {
        Some(pt) => {
            if was_idle {
                title = to_string("🎵 Now Playing");
                append_str(&mut d, "**");
                append_str(&mut d, first.title.as_str());
                append_str(&mut d, "**\nPlaylist: **");
                append_str(&mut d, pt.as_str());
                append_str(&mut d, "**\n");
                push_decimal(&mut d, (count - 1) as u64);
                append_str(&mut d, " more track(s) queued\nRequested by ");
                append_mention(&mut d, user);
                colour = 0x57F287;
            } else {
                title = to_string("➕ Playlist Added to Queue");
                append_str(&mut d, "**");
                append_str(&mut d, pt.as_str());
                append_str(&mut d, "**\n");
                push_decimal(&mut d, count as u64);
                append_str(&mut d, " track(s) added\nRequested by ");
                append_mention(&mut d, user);
                colour = 0x5865F2;
            }
        },
        None => {
            title = if was_idle { to_string("🎵 Now Playing") } else { to_string("➕ Added to Queue") };
            append_str(&mut d, "**");
            append_str(&mut d, first.title.as_str());
            append_str(&mut d, "**\nRequested by ");
            append_mention(&mut d, user);
            colour = if was_idle { 0x57F287 } else { 0x5865F2 };
        },
    }
    EmbedReply { title, description: d, colour }
}

} // verus!
