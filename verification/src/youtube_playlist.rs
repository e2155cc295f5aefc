//! Explicit YouTube playlist links and the flat playlist listing of `yt-dlp`.

use vstd::prelude::*;

use crate::text::{opt_text, append_str, decimal, decimal_string, to_string, trim, trimmed, trim_end, trim_end_char, chars_of, chars_eq_str};
use crate::url_parts::{has_nonempty_param, has_param, host_within, is_host_within, is_web_scheme, parse_url, parsed_url, web_scheme, UrlParts, UrlPartsView};

verus! {

/// Maximum number of videos a single playlist request may enqueue.
pub const MAX_PLAYLIST_TRACKS: usize = 100;

/// A YouTube playlist and its playable video entries, in source order.
#[derive(Debug, Clone, PartialEq, Eq)]
pub struct YoutubePlaylist {
    pub title: String,
    pub tracks: Vec<YoutubePlaylistTrack>,
}

/// Metadata needed to create one audio input from a playlist entry.
#[derive(Debug, Clone, PartialEq, Eq)]
pub struct YoutubePlaylistTrack {
    pub title: String,
    pub url: String,
}

#[verifier::external_type_specification]
#[verifier::external_body]
pub struct ExIoError(std::io::Error);

#[verifier::external_type_specification]
#[verifier::external_body]
pub struct ExJsonError(serde_json::Error);

/// Why a playlist could not be expanded.
#[derive(Debug)]
pub enum PlaylistResolveError {
    Command(std::io::Error),
    ExtractionFailed(String),
    InvalidOutput(serde_json::Error),
    Empty,
}

impl PlaylistResolveError {
    /// The text shown for the error: a fixed lead-in followed, except for
    /// `Empty`, by the text of the cause (`Display` of the I/O or JSON error,
    /// or the extraction message).
    pub fn message(&self) -> (r: String)
        ensures
            match self {
                PlaylistResolveError::Command(e) => exists|t: String|
                    vstd::string::to_string_from_display_ensures(e, t)
                        && r@ == "could not start yt-dlp: "@ + t@,
                PlaylistResolveError::ExtractionFailed(m) => r@ == "yt-dlp could not read the playlist: "@ + m@,
                PlaylistResolveError::InvalidOutput(e) => exists|t: String|
                    vstd::string::to_string_from_display_ensures(e, t)
                        && r@ == "yt-dlp returned invalid playlist metadata: "@ + t@,
                PlaylistResolveError::Empty => r@ == "the playlist has no playable videos"@,
            },
    {
        match self {
            PlaylistResolveError::Command(e) => {
                let t = e.to_string();
                let mut s = to_string("could not start yt-dlp: ");
                append_str(&mut s, t.as_str());
                s
            },
            PlaylistResolveError::ExtractionFailed(m) => {
                let mut s = to_string("yt-dlp could not read the playlist: ");
                append_str(&mut s, m.as_str());
                s
            },
            PlaylistResolveError::InvalidOutput(e) => {
                let t = e.to_string();
                let mut s = to_string("yt-dlp returned invalid playlist metadata: ");
                append_str(&mut s, t.as_str());
                s
            },
            PlaylistResolveError::Empty => to_string("the playlist has no playable videos"),
        }
    }
}

/// One entry of the flat listing that `yt-dlp --flat-playlist` prints.
pub struct FlatPlaylistEntry {
    pub id: Option<String>,
    pub title: Option<String>,
}

/// The flat listing that `yt-dlp --flat-playlist --dump-single-json` prints.
pub struct FlatPlaylist {
    pub title: Option<String>,
    pub entries: Vec<FlatPlaylistEntry>,
}

impl View for YoutubePlaylistTrack {
    /// `(title, url)`
    type V = (Seq<char>, Seq<char>);

    open spec fn view(&self) -> (Seq<char>, Seq<char>) {
        (self.title@, self.url@)
    }
}

impl View for YoutubePlaylist {
    /// `(title, tracks)`
    type V = (Seq<char>, Seq<(Seq<char>, Seq<char>)>);

    open spec fn view(&self) -> (Seq<char>, Seq<(Seq<char>, Seq<char>)>) {
        (self.title@, self.tracks@.map_values(|t: YoutubePlaylistTrack| t@))
    }
}

impl View for FlatPlaylistEntry {
    /// `(id, title)`
    type V = (Option<Seq<char>>, Option<Seq<char>>);

    open spec fn view(&self) -> (Option<Seq<char>>, Option<Seq<char>>) {
        (opt_text(self.id), opt_text(self.title))
    }
}

impl View for FlatPlaylist {
    /// `(title, entries)`
    type V = (Option<Seq<char>>, Seq<(Option<Seq<char>>, Option<Seq<char>>)>);

    open spec fn view(&self) -> (Option<Seq<char>>, Seq<(Option<Seq<char>>, Option<Seq<char>>)>) {
        (opt_text(self.title), self.entries@.map_values(|e: FlatPlaylistEntry| e@))
    }
}

/// An explicit YouTube playlist link: an `http`/`https` URL on `youtube.com`
/// or a subdomain, whose path without trailing slashes is `/playlist`, with a
/// non-empty `list` query parameter.
pub open spec fn playlist_link(p: UrlPartsView) -> bool {
    &&& p.host matches Some(h) && host_within(h, "youtube.com"@)
    &&& web_scheme(p.scheme)
    &&& trim_end(p.path, '/') == "/playlist"@
    &&& has_param(p.query, "list"@)
}

/// Every `http`/`https` URL whose host is `youtube.com` or any subdomain of
/// it (any ASCII case), whose path is `/playlist` followed by any number of
/// slashes, and that has some non-empty `list` query value, is a playlist link.
pub proof fn lemma_playlist_links_accepted(p: UrlPartsView, slashes: nat, i: int)
    requires
        p.host matches Some(h) && (crate::text::ascii_lowercase(h) == "youtube.com"@
            || crate::text::is_suffix(".youtube.com"@, crate::text::ascii_lowercase(h))),
        p.scheme == "http"@ || p.scheme == "https"@,
        p.path == "/playlist"@ + crate::text::repeated('/', slashes),
        0 <= i < p.query.len(),
        p.query[i].0 == "list"@,
        p.query[i].1.len() > 0,
    ensures
        playlist_link(p),
{
    reveal_strlit("/playlist");
    crate::url_parts::lemma_host_within_youtube(p.host->0);
    crate::text::lemma_trim_end_of_run("/playlist"@, '/', slashes);
}

/// Conversely, a playlist link has an `http`/`https` scheme, a host that is
/// `youtube.com` or a subdomain of it, a path that is `/playlist` followed
/// only by slashes, and a non-empty `list` query value.
pub proof fn lemma_playlist_links_only(p: UrlPartsView)
    requires
        playlist_link(p),
    ensures
        p.scheme == "http"@ || p.scheme == "https"@,
        p.host matches Some(h) && (crate::text::ascii_lowercase(h) == "youtube.com"@
            || crate::text::is_suffix(".youtube.com"@, crate::text::ascii_lowercase(h))),
        exists|n: nat| p.path == "/playlist"@ + crate::text::repeated('/', n),
        exists|i: int| 0 <= i < p.query.len() && p.query[i].0 == "list"@ && p.query[i].1.len() > 0,
{
    crate::url_parts::lemma_host_within_youtube(p.host->0);
    crate::text::lemma_trim_end_splits(p.path, '/');
}

/// Whether the parsed URL `parts` is an explicit YouTube playlist link.
pub fn is_playlist_link(parts: &UrlParts) -> (r: bool)
    ensures
        r == playlist_link(parts@),
{
    let host_ok = match &parts.host {
        Some(h) => is_host_within(h.as_str(), "youtube.com"),
        None => false,
    };
    if !host_ok || !is_web_scheme(parts) {
        return false;
    }
    let path = trim_end_char(&chars_of(parts.path.as_str()), '/');
    chars_eq_str(&path, "/playlist") && has_nonempty_param(parts, "list")
}

/// Returns true only for an explicit YouTube `/playlist?list=...` URL.
pub fn is_youtube_playlist_url(input: &str) -> (r: bool)
    ensures
        r == match parsed_url(input@) {
            Some(p) => playlist_link(p),
            None => false,
        },
{
    match parse_url(input) {
        Some(parts) => is_playlist_link(&parts),
        None => false,
    }
}

/// The watch page of the video with id `id`.
pub open spec fn watch_url(id: Seq<char>) -> Seq<char> {
    "https://www.youtube.com/watch?v="@ + id
}

/// Text that is not empty once surrounding white space is trimmed.
pub open spec fn nonblank(t: Seq<char>) -> bool {
    trimmed(t).len() > 0
}

/// The track of an entry whose id, once trimmed, is `id`: none when `id` is
/// empty; else the watch page of `id`, titled by `title` when that is present
/// and `title_nonblank`, else by `id`.
pub open spec fn track_of(id: Seq<char>, title: Option<Seq<char>>, title_nonblank: bool) -> Option<(Seq<char>, Seq<char>)> {
    if id.len() == 0 {
        None
    } else {
        let t = match title {
            Some(t) => if title_nonblank { t } else { id },
            None => id,
        };
        Some((t, watch_url(id)))
    }
}

/// The track a flat entry yields: none without an id or with a blank id;
/// else the trimmed id's watch page, titled by the entry's title unless that
/// is missing or blank, in which case by the trimmed id.
pub open spec fn entry_track(e: (Option<Seq<char>>, Option<Seq<char>>)) -> Option<(Seq<char>, Seq<char>)> {
    match e.0 {
        None => None,
        Some(raw) => track_of(
            trimmed(raw),
            e.1,
            match e.1 {
                Some(t) => nonblank(t),
                None => false,
            },
        ),
    }
}

/// What one entry yields, stated over its raw fields: nothing without an id
/// or with an id that is blank once trimmed; otherwise one track that streams
/// the watch page of the trimmed id and is titled by the entry's own title
/// when that has non-space text, else by the trimmed id.
pub proof fn lemma_entry_track_fields(id: Option<Seq<char>>, title: Option<Seq<char>>)
    ensures
        id is None ==> entry_track((id, title)) is None,
        (id matches Some(raw) && trimmed(raw).len() == 0) ==> entry_track((id, title)) is None,
        (id matches Some(raw) && trimmed(raw).len() > 0) ==> {
            let t = entry_track((id, title))->0;
            &&& entry_track((id, title)) is Some
            &&& t.1 == "https://www.youtube.com/watch?v="@ + trimmed(id->0)
            &&& (title matches Some(x) && trimmed(x).len() > 0) ==> t.0 == title->0
            &&& !(title matches Some(x) && trimmed(x).len() > 0) ==> t.0 == trimmed(id->0)
        },
{
}

/// A listing keeps its own title when that has non-space text; otherwise it
/// is called `YouTube playlist`.
pub proof fn lemma_playlist_title_choice(title: Option<Seq<char>>)
    ensures
        (title matches Some(t) && trimmed(t).len() > 0) ==> playlist_title(title) == title->0,
        !(title matches Some(t) && trimmed(t).len() > 0) ==> playlist_title(title) == "YouTube playlist"@,
{
}

/// The tracks of all playable entries, in source order.
pub open spec fn playable(entries: Seq<(Option<Seq<char>>, Option<Seq<char>>)>) -> Seq<(Seq<char>, Seq<char>)>
    decreases entries.len(),
{
    if entries.len() == 0 {
        Seq::empty()
    } else {
        let rest = playable(entries.drop_last());
        match entry_track(entries.last()) {
            Some(t) => rest.push(t),
            None => rest,
        }
    }
}

/// At most the first `MAX_PLAYLIST_TRACKS` of `tracks`.
pub open spec fn capped(tracks: Seq<(Seq<char>, Seq<char>)>) -> Seq<(Seq<char>, Seq<char>)> {
    if tracks.len() > MAX_PLAYLIST_TRACKS {
        tracks.take(MAX_PLAYLIST_TRACKS as int)
    } else {
        tracks
    }
}

/// The tracks a flat listing yields: its first playable entries, in source
/// order, at most `MAX_PLAYLIST_TRACKS` of them.
pub open spec fn playlist_tracks(entries: Seq<(Option<Seq<char>>, Option<Seq<char>>)>) -> Seq<(Seq<char>, Seq<char>)> {
    capped(playable(entries))
}

/// Expanding a listing keeps source order: the tracks of two consecutive
/// runs of entries are the tracks of the first run followed by those of the
/// second.
pub proof fn lemma_playable_keeps_source_order(
    first: Seq<(Option<Seq<char>>, Option<Seq<char>>)>,
    second: Seq<(Option<Seq<char>>, Option<Seq<char>>)>,
)
    ensures
        playable(first + second) == playable(first) + playable(second),
    decreases second.len(),
{
    if second.len() == 0 {
        assert(first + second =~= first);
        assert(playable(first) + playable(second) =~= playable(first));
    } else {
        let init = second.drop_last();
        lemma_playable_keeps_source_order(first, init);
        assert((first + second).drop_last() =~= first + init);
        assert((first + second).last() == second.last());
        match entry_track(second.last()) {
            Some(t) => {
                assert(playable(first) + playable(init).push(t) =~= (playable(first) + playable(init)).push(t));
            },
            None => {},
        }
    }
}

/// A playlist holds at most `MAX_PLAYLIST_TRACKS` tracks, and they are the
/// leading playable entries: the `k`-th track is the `k`-th playable entry.
pub proof fn lemma_playlist_is_leading_playable_entries(
    entries: Seq<(Option<Seq<char>>, Option<Seq<char>>)>,
    k: int,
)
    requires
        0 <= k < playlist_tracks(entries).len(),
    ensures
        playlist_tracks(entries).len() <= MAX_PLAYLIST_TRACKS,
        playlist_tracks(entries).len() == if playable(entries).len() > MAX_PLAYLIST_TRACKS {
            MAX_PLAYLIST_TRACKS as nat
        } else {
            playable(entries).len()
        },
        playlist_tracks(entries)[k] == playable(entries)[k],
{
}

/// The listing's title unless missing or blank, else `YouTube playlist`.
pub open spec fn playlist_title(title: Option<Seq<char>>) -> Seq<char> {
    match title {
        Some(t) => if nonblank(t) { t } else { "YouTube playlist"@ },
        None => "YouTube playlist"@,
    }
}

fn is_nonblank(t: &String) -> (r: bool)
    ensures
        r == nonblank(t@),
{
    !trim(t.as_str()).is_empty()
}

/// The track of an entry whose trimmed id is `id` and whose title is `title`
/// (`title_nonblank` tells whether that title has non-space text).
pub fn track_from_entry(id: &str, title: Option<String>, title_nonblank: bool) -> (r: Option<YoutubePlaylistTrack>)
    ensures
        match r {
            Some(t) => track_of(id@, opt_text(title), title_nonblank) == Some(t@),
            None => track_of(id@, opt_text(title), title_nonblank) is None,
        },
{
    if id.is_empty() {
        return None;
    }
    let title = match title {
        Some(t) => if title_nonblank { t } else { to_string(id) },
        None => to_string(id),
    };
    let mut url = to_string("https://www.youtube.com/watch?v=");
    append_str(&mut url, id);
    Some(YoutubePlaylistTrack { title, url })
}

fn entry_to_track(entry: &FlatPlaylistEntry) -> (r: Option<YoutubePlaylistTrack>)
    ensures
        match r {
            Some(t) => entry_track(entry@) == Some(t@),
            None => entry_track(entry@) is None,
        },
{
    match &entry.id {
        None => None,
        Some(raw) => {
            let title_nonblank = match &entry.title {
                Some(t) => is_nonblank(t),
                None => false,
            };
            track_from_entry(trim(raw.as_str()), entry.title.clone(), title_nonblank)
        },
    }
}

/// The title of a listing titled `title` (`title_nonblank` tells whether that
/// title has non-space text).
pub fn title_from_listing(title: Option<String>, title_nonblank: bool) -> (r: String)
    ensures
        r@ == match opt_text(title) {
            Some(t) => if title_nonblank { t } else { "YouTube playlist"@ },
            None => "YouTube playlist"@,
        },
{
    match title {
        Some(t) => if title_nonblank { t } else { to_string("YouTube playlist") },
        None => to_string("YouTube playlist"),
    }
}

/// Builds the playlist from the flat listing that `yt-dlp` printed: the first
/// `MAX_PLAYLIST_TRACKS` playable entries in source order, or `Empty` when no
/// entry is playable.
pub fn parse_flat_playlist(flat: FlatPlaylist) -> (r: Result<YoutubePlaylist, PlaylistResolveError>)
    ensures
        playlist_tracks(flat@.1).len() == 0 <==> r is Err,
        match r {
            Ok(p) => p@ == (playlist_title(flat@.0), playlist_tracks(flat@.1)),
            Err(e) => e is Empty,
        },
{
    let ghost entries = flat@.1;
    let mut tracks: Vec<YoutubePlaylistTrack> = Vec::new();
    let mut i: usize = 0;
    while i < flat.entries.len()
        invariant
            i <= flat.entries.len(),
            entries == flat@.1,
            entries.len() == flat.entries@.len(),
            tracks@.map_values(|t: YoutubePlaylistTrack| t@) == capped(playable(entries.take(i as int))),
        decreases flat.entries.len() - i,
    {
        let entry = &flat.entries[i];
        assert(entries[i as int] == entry@);
        assert(entries.take(i + 1).drop_last() =~= entries.take(i as int));
        let ghost before = playable(entries.take(i as int));
        let item = entry_to_track(entry);
        match item {
            Some(t) => {
                if tracks.len() < MAX_PLAYLIST_TRACKS {
                    let ghost old_tracks = tracks@;
                    assert(before.len() < MAX_PLAYLIST_TRACKS) by {
                        if before.len() > MAX_PLAYLIST_TRACKS {
                            assert(capped(before).len() == MAX_PLAYLIST_TRACKS);
                        }
                    }
                    tracks.push(t);
                    assert(tracks@.map_values(|t: YoutubePlaylistTrack| t@) =~= old_tracks.map_values(|t: YoutubePlaylistTrack| t@).push(t@));
                    assert(tracks@.map_values(|t: YoutubePlaylistTrack| t@) =~= capped(before.push(t@)));
                } else {
                    assert(capped(before.push(t@)) =~= capped(before));
                }
            },
            None => {},
        }
        i = i + 1;
    }
    assert(entries.take(flat.entries.len() as int) =~= entries);
    if tracks.len() == 0 {
        return Err(PlaylistResolveError::Empty);
    }
    let title_nonblank = match &flat.title {
        Some(t) => is_nonblank(t),
        None => false,
    };
    let title = title_from_listing(flat.title, title_nonblank);
    Ok(YoutubePlaylist { title, tracks })
}

/// The arguments of the `yt-dlp` call that lists a playlist without resolving
/// media streams: at most `MAX_PLAYLIST_TRACKS` entries, `url` last, after `--`.
pub open spec fn playlist_command(url: Seq<char>) -> Seq<Seq<char>> {
    seq![
        "--flat-playlist"@,
        "--dump-single-json"@,
        "--no-warnings"@,
        "--playlist-end"@,
        decimal(MAX_PLAYLIST_TRACKS as nat),
        "--"@,
        url,
    ]
}

/// The `yt-dlp` arguments that expand the playlist at `url`.
pub fn playlist_command_args(url: &str) -> (r: Vec<String>)
    ensures
        r@.map_values(|a: String| a@) == playlist_command(url@),
{
    let mut args: Vec<String> = Vec::new();
    args.push(to_string("--flat-playlist"));
    args.push(to_string("--dump-single-json"));
    args.push(to_string("--no-warnings"));
    args.push(to_string("--playlist-end"));
    args.push(decimal_string(MAX_PLAYLIST_TRACKS as u64));
    args.push(to_string("--"));
    args.push(to_string(url));
    assert(args@.map_values(|a: String| a@) =~= playlist_command(url@));
    args
}

/// The error for a `yt-dlp` run that exited unsuccessfully: its trimmed
/// error output, or the exit status when that output is blank.
pub fn extraction_failed(stderr: &str, status: &str) -> (r: PlaylistResolveError)
    ensures
        r matches PlaylistResolveError::ExtractionFailed(m) && m@ == if trimmed(stderr@).len() == 0 {
            status@
        } else {
            trimmed(stderr@)
        },
{
    let t = trim(stderr);
    if t.is_empty() {
        PlaylistResolveError::ExtractionFailed(to_string(status))
    } else {
        PlaylistResolveError::ExtractionFailed(to_string(t))
    }
}

} // verus!
