//! Between-track ("pre-play") audio: configuration, the insertion decision and
//! the single-video link rule.

use std::collections::VecDeque;

use vstd::prelude::*;

use crate::text::{opt_text, append_str, decimal, push_decimal, chars_eq_str, chars_of, is_prefix, starts_with, to_string, trim, trim_end, trim_end_char, trimmed};
use crate::youtube_playlist::playlist_link;
use crate::url_parts::{has_nonempty_param, has_param, host_within, is_host_within, is_web_scheme, parse_url, parsed_url, web_scheme, UrlParts, UrlPartsView};

verus! {

pub const DEFAULT_PREPLAY_CHANCE_PERCENT: u8 = 75;

/// Immutable process-wide defaults loaded from the environment.
#[derive(Clone, Debug, PartialEq, Eq)]
pub struct PrePlayConfig {
    pub default_url: Option<String>,
    pub chance_percent: u8,
}

impl View for PrePlayConfig {
    /// `(default_url, chance_percent)`
    type V = (Option<Seq<char>>, u8);

    open spec fn view(&self) -> (Option<Seq<char>>, u8) {
        (opt_text(self.default_url), self.chance_percent)
    }
}

impl Default for PrePlayConfig {
    fn default() -> (r: Self)
        ensures
            r@ == (None::<Seq<char>>, DEFAULT_PREPLAY_CHANCE_PERCENT),
    {
        PrePlayConfig { default_url: None, chance_percent: DEFAULT_PREPLAY_CHANCE_PERCENT }
    }
}

/// `c` is an ASCII decimal digit.
pub open spec fn is_digit(c: char) -> bool {
    '0' <= c <= '9'
}

/// The value of a string of decimal digits.
pub open spec fn digits_value(s: Seq<char>) -> nat
    decreases s.len(),
{
    if s.len() == 0 {
        0
    } else {
        digits_value(s.drop_last()) * 10 + ((s.last() as int) - 48) as nat
    }
}

/// What `str::parse::<u8>` accepts: an optional `+` followed by at least one
/// ASCII digit and nothing else, of value at most 255.
pub open spec fn parsed_u8(s: Seq<char>) -> Option<u8> {
    let d = unsigned_digits(s);
    if d.len() > 0 && all_digits(d) && digits_value(d) <= 255 {
        Some(digits_value(d) as u8)
    } else {
        None
    }
}

/// `s` without one leading `+`.
pub open spec fn unsigned_digits(s: Seq<char>) -> Seq<char> {
    if s.len() > 0 && s[0] == '+' { s.drop_first() } else { s }
}

/// Every character of `d` is an ASCII digit.
pub open spec fn all_digits(d: Seq<char>) -> bool {
    forall|i: int| 0 <= i < d.len() ==> is_digit(d[i])
}

proof fn lemma_decimal_digits(n: nat)
    ensures
        crate::text::decimal(n).len() > 0,
        all_digits(crate::text::decimal(n)),
        digits_value(crate::text::decimal(n)) == n,
    decreases n,
{
    let d = crate::text::decimal(n);
    assert(d.last() == crate::text::digit_char(n % 10));
    assert((d.last() as int) == n % 10 + 48);
    if n >= 10 {
        lemma_decimal_digits(n / 10);
        assert(n == (n / 10) * 10 + n % 10);
        let p = crate::text::decimal(n / 10);
        assert(d.drop_last() =~= p);
        assert(digits_value(d) == digits_value(d.drop_last()) * 10 + ((d.last() as int) - 48) as nat);
        assert forall|i: int| 0 <= i < d.len() implies is_digit(d[i]) by {
            if i < d.len() - 1 {
                assert(d[i] == p[i]);
            }
        }
    } else {
        assert(d.drop_last() =~= Seq::<char>::empty());
        assert(digits_value(d) == digits_value(d.drop_last()) * 10 + ((d.last() as int) - 48) as nat);
    }
}

/// Reading back the decimal notation of any `n <= 255`, with or without a
/// leading `+`, gives `n`.
pub proof fn lemma_parse_u8_reads_decimal(n: u8)
    ensures
        parsed_u8(crate::text::decimal(n as nat)) == Some(n),
        parsed_u8(seq!['+'] + crate::text::decimal(n as nat)) == Some(n),
{
    let d = crate::text::decimal(n as nat);
    lemma_decimal_digits(n as nat);
    assert(d[0] != '+');
    assert(unsigned_digits(d) == d);
    assert(unsigned_digits(seq!['+'] + d) =~= d);
}

/// Decimal `u8` parsing with the rules of `str::parse::<u8>`.
pub fn parse_u8(s: &str) -> (r: Option<u8>)
    ensures
        r == parsed_u8(s@),
{
    let cs = chars_of(s);
    let start: usize = if cs.len() > 0 && cs[0] == '+' { 1 } else { 0 };
    let ghost d = cs@.subrange(start as int, cs@.len() as int);
    assert(d =~= unsigned_digits(s@));
    if start == cs.len() {
        return None;
    }
    let mut v: u32 = 0;
    let mut k: usize = start;
    assert(d.take(0) =~= Seq::<char>::empty());
    while k < cs.len()
        invariant
            start <= k <= cs.len(),
            cs@ == s@,
            d == cs@.subrange(start as int, cs@.len() as int),
            d == unsigned_digits(s@),
            forall|i: int| 0 <= i < k - start ==> is_digit(d[i]),
            v == (if digits_value(d.take(k - start)) > 256 { 256 } else { digits_value(d.take(k - start)) }),
        decreases cs.len() - k,
    {
        let c = cs[k];
        assert(d[k - start] == c);
        if !('0' <= c && c <= '9') {
            assert(!is_digit(d[k - start]));
            return None;
        }
        let dig = (c as u32) - 48;
        let nv = v * 10 + dig;
        v = if nv > 256 { 256 } else { nv };
        assert(d.take(k - start + 1).drop_last() =~= d.take(k - start));
        k = k + 1;
    }
    assert(d.take(k - start) =~= d);
    if v > 255 {
        None
    } else {
        Some(v as u8)
    }
}

/// A single-video YouTube link (`youtu.be/<id>`, or on `youtube.com` a
/// `/watch` page with a `v` parameter and no `list` parameter, or a
/// `/shorts/`, `/live/` or `/embed/` path with an id).
pub open spec fn video_link(p: UrlPartsView) -> bool {
    &&& web_scheme(p.scheme)
    &&& match p.host {
        None => false,
        Some(h) => if host_within(h, "youtu.be"@) {
            first_segment_nonempty(p.path)
        } else if !host_within(h, "youtube.com"@) {
            false
        } else {
            let path = trim_end(p.path, '/');
            if path == "/watch"@ {
                has_param(p.query, "v"@) && !has_param(p.query, "list"@)
            } else {
                id_after(path, "/shorts/"@) || id_after(path, "/live/"@) || id_after(path, "/embed/"@)
            }
        },
    }
}

/// The first `/`-separated path segment is non-empty (the path segments of a
/// URL are its path after the leading `/`, split at each `/`).
pub open spec fn first_segment_nonempty(path: Seq<char>) -> bool {
    path.len() >= 2 && path[0] == '/' && path[1] != '/'
}

/// `path` is `prefix` followed by at least one character.
pub open spec fn id_after(path: Seq<char>, prefix: Seq<char>) -> bool {
    is_prefix(prefix, path) && path.len() > prefix.len()
}

/// `text` parses as a URL that is a single-video YouTube link.
pub open spec fn video_url_text(text: Seq<char>) -> bool {
    match parsed_url(text) {
        Some(p) => video_link(p),
        None => false,
    }
}

fn has_id_after(path: &Vec<char>, prefix: &str) -> (r: bool)
    ensures
        r == id_after(path@, prefix@),
{
    starts_with(path, prefix) && path.len() > chars_of(prefix).len()
}

/// Whether the parsed URL `parts` is a single-video YouTube link.
pub fn is_video_link(parts: &UrlParts) -> (r: bool)
    ensures
        r == video_link(parts@),
{
    if !is_web_scheme(parts) {
        return false;
    }
    let host = match &parts.host {
        Some(h) => h,
        None => return false,
    };
    let raw_path = chars_of(parts.path.as_str());
    if is_host_within(host.as_str(), "youtu.be") {
        return raw_path.len() >= 2 && raw_path[0] == '/' && raw_path[1] != '/';
    }
    if !is_host_within(host.as_str(), "youtube.com") {
        return false;
    }
    let path = trim_end_char(&raw_path, '/');
    if chars_eq_str(&path, "/watch") {
        return has_nonempty_param(parts, "v") && !has_nonempty_param(parts, "list");
    }
    has_id_after(&path, "/shorts/") || has_id_after(&path, "/live/") || has_id_after(&path, "/embed/")
}

/// Whether `input` is a single-video YouTube URL (not a playlist).
pub fn is_youtube_video_url(input: &str) -> (r: bool)
    ensures
        r == video_url_text(input@),
{
    match parse_url(input) {
        Some(parts) => is_video_link(&parts),
        None => false,
    }
}

/// The rolls in `0..100` that pass a chance of `chance_percent`.
pub open spec fn passing_rolls(chance_percent: u8) -> Set<int> {
    Set::new(|roll: int| 0 <= roll < 100 && roll < chance_percent)
}

/// A chance of `c` percent lets exactly `c` of the 100 possible rolls pass.
pub proof fn lemma_chance_is_a_percentage(chance_percent: u8)
    requires
        chance_percent <= 100,
    ensures
        passing_rolls(chance_percent).finite(),
        passing_rolls(chance_percent).len() == chance_percent,
{
    vstd::set_lib::lemma_int_range(0, chance_percent as int);
    assert(passing_rolls(chance_percent) =~= vstd::set_lib::set_int_range(0, chance_percent as int));
}

/// A playlist link is never taken for a single-video link, so playlists
/// cannot be configured as pre-play audio.
pub proof fn lemma_playlist_link_is_not_a_video(p: UrlPartsView)
    requires
        playlist_link(p),
    ensures
        !video_link(p),
{
    reveal_strlit("youtube.com");
    reveal_strlit("youtu.be");
    reveal_strlit("/playlist");
    reveal_strlit("/watch");
    reveal_strlit("/shorts/");
    reveal_strlit("/live/");
    reveal_strlit("/embed/");
    let h = crate::text::ascii_lowercase(p.host->0);
    let path = trim_end(p.path, '/');
    assert(path.len() == 9);
    if crate::url_parts::host_within(p.host->0, "youtu.be"@) {
        let d = seq!['.'] + "youtube.com"@;
        let e = seq!['.'] + "youtu.be"@;
        assert(h.last() == 'm') by {
            if h == "youtube.com"@ {
            } else {
                assert(h.subrange(h.len() - d.len(), h.len() as int) == d);
                assert(h[h.len() - 1] == h.subrange(h.len() - d.len(), h.len() as int)[d.len() - 1]);
            }
        }
        assert(h.last() == 'e') by {
            if h == "youtu.be"@ {
            } else {
                assert(h.subrange(h.len() - e.len(), h.len() as int) == e);
                assert(h[h.len() - 1] == h.subrange(h.len() - e.len(), h.len() as int)[e.len() - 1]);
            }
        }
    }
    assert(path != "/watch"@);
    assert(!is_prefix("/shorts/"@, path)) by {
        if is_prefix("/shorts/"@, path) {
            assert(path.subrange(0, 8)[1] == path[1]);
        }
    }
    assert(!is_prefix("/live/"@, path)) by {
        if is_prefix("/live/"@, path) {
            assert(path.subrange(0, 6)[1] == path[1]);
        }
    }
    assert(!is_prefix("/embed/"@, path)) by {
        if is_prefix("/embed/"@, path) {
            assert(path.subrange(0, 7)[1] == path[1]);
        }
    }
}

/// Every `http`/`https` link on `youtube.com` or any subdomain of it (any
/// ASCII case) whose path is `/watch` followed by any number of slashes, with
/// a non-empty `v` query value and no non-empty `list` query value, is a
/// single-video link.
pub proof fn lemma_watch_links_accepted(p: UrlPartsView, slashes: nat, i: int)
    requires
        p.host matches Some(h) && (crate::text::ascii_lowercase(h) == "youtube.com"@
            || crate::text::is_suffix(".youtube.com"@, crate::text::ascii_lowercase(h))),
        p.scheme == "http"@ || p.scheme == "https"@,
        p.path == "/watch"@ + crate::text::repeated('/', slashes),
        0 <= i < p.query.len(),
        p.query[i].0 == "v"@,
        p.query[i].1.len() > 0,
        forall|j: int| 0 <= j < p.query.len() && p.query[j].0 == "list"@ ==> p.query[j].1.len() == 0,
    ensures
        video_link(p),
{
    reveal_strlit("/watch");
    crate::url_parts::lemma_host_within_youtube(p.host->0);
    crate::url_parts::lemma_youtube_hosts_are_distinct(p.host->0);
    crate::text::lemma_trim_end_of_run("/watch"@, '/', slashes);
}

/// Every `http`/`https` link on `youtu.be` or any subdomain of it (any ASCII
/// case) whose path starts with `/` and a character other than `/` is a
/// single-video link.
pub proof fn lemma_short_links_accepted(p: UrlPartsView)
    requires
        p.host matches Some(h) && (crate::text::ascii_lowercase(h) == "youtu.be"@
            || crate::text::is_suffix(".youtu.be"@, crate::text::ascii_lowercase(h))),
        p.scheme == "http"@ || p.scheme == "https"@,
        p.path.len() >= 2,
        p.path[0] == '/',
        p.path[1] != '/',
    ensures
        video_link(p),
{
    crate::url_parts::lemma_host_within_youtube(p.host->0);
}

/// Every `http`/`https` link on `youtube.com` or any subdomain of it whose
/// path is `/shorts/`, `/live/` or `/embed/` followed by an id not ending in a
/// slash (and then any number of slashes) is a single-video link.
pub proof fn lemma_id_path_links_accepted(p: UrlPartsView, prefix: Seq<char>, id: Seq<char>, slashes: nat)
    requires
        p.host matches Some(h) && (crate::text::ascii_lowercase(h) == "youtube.com"@
            || crate::text::is_suffix(".youtube.com"@, crate::text::ascii_lowercase(h))),
        p.scheme == "http"@ || p.scheme == "https"@,
        prefix == "/shorts/"@ || prefix == "/live/"@ || prefix == "/embed/"@,
        id.len() > 0,
        id.last() != '/',
        p.path == prefix + id + crate::text::repeated('/', slashes),
    ensures
        video_link(p),
{
    reveal_strlit("/shorts/");
    reveal_strlit("/live/");
    reveal_strlit("/embed/");
    reveal_strlit("/watch");
    crate::url_parts::lemma_host_within_youtube(p.host->0);
    crate::url_parts::lemma_youtube_hosts_are_distinct(p.host->0);
    let base = prefix + id;
    assert(base.last() == id.last());
    crate::text::lemma_trim_end_of_run(base, '/', slashes);
    assert(base.subrange(0, prefix.len() as int) =~= prefix);
    assert(base != "/watch"@) by {
        if base == "/watch"@ {
            assert(base[1] == prefix[1]);
        }
    }
}

/// Only `http`/`https` links on YouTube's domains (`youtube.com`, `youtu.be`
/// or their subdomains) are single-video links.
pub proof fn lemma_video_links_only(p: UrlPartsView)
    requires
        video_link(p),
    ensures
        p.scheme == "http"@ || p.scheme == "https"@,
        p.host matches Some(h) && (host_within(h, "youtube.com"@) || host_within(h, "youtu.be"@)),
{
}

/// A `/watch` link that carries a non-empty `list` value is never a
/// single-video link, whatever its host.
pub proof fn lemma_watch_with_list_rejected(p: UrlPartsView, i: int)
    requires
        crate::text::trim_end(p.path, '/') == "/watch"@,
        0 <= i < p.query.len(),
        p.query[i].0 == "list"@,
        p.query[i].1.len() > 0,
        !(p.host matches Some(h) && host_within(h, "youtu.be"@)),
    ensures
        !video_link(p),
{
}

/// The configured default link: the given text trimmed, absent when blank.
pub open spec fn config_url(default_url: Option<Seq<char>>) -> Option<Seq<char>> {
    match default_url {
        Some(u) => if trimmed(u).len() > 0 { Some(trimmed(u)) } else { None },
        None => None,
    }
}

/// The configured chance: the trimmed text parsed as `u8`, the default when
/// absent; `None` when the text does not parse.
pub open spec fn config_chance(chance_percent: Option<Seq<char>>) -> Option<u8> {
    match chance_percent {
        Some(v) => parsed_u8(trimmed(v)),
        None => Some(DEFAULT_PREPLAY_CHANCE_PERCENT),
    }
}

pub open spec fn url_error_text() -> Seq<char> {
    "PREPLAY_URL must be a single-video YouTube URL, not a playlist"@
}

pub open spec fn chance_error_text() -> Seq<char> {
    "PREPLAY_CHANCE_PERCENT must be an integer from 0 to 100"@
}

impl PrePlayConfig {
    /// Reads the configuration from the raw values of `PREPLAY_URL` and
    /// `PREPLAY_CHANCE_PERCENT`.
    pub fn parse(default_url: Option<String>, chance_percent: Option<String>) -> (r: Result<Self, String>)
        ensures
            ({
                let url = config_url(opt_text(default_url));
                let chance = config_chance(opt_text(chance_percent));
                if url matches Some(u) && !video_url_text(u) {
                    r matches Err(e) && e@ == url_error_text()
                } else if chance is None || chance->0 > 100 {
                    r matches Err(e) && e@ == chance_error_text()
                } else {
                    r matches Ok(c) && c@ == (url, chance->0)
                }
            }),
            r matches Ok(c) ==> c.chance_percent <= 100 && (c@.0 matches Some(u) ==> video_url_text(u)),
    {
        let default_url = match default_url {
            Some(u) => {
                let t = trim(u.as_str());
                if t.is_empty() { None } else { Some(to_string(t)) }
            },
            None => None,
        };
        if let Some(url) = &default_url {
            if !is_youtube_video_url(url.as_str()) {
                return Err(to_string("PREPLAY_URL must be a single-video YouTube URL, not a playlist"));
            }
        }
        let chance_percent = match chance_percent {
            Some(value) => match parse_u8(trim(value.as_str())) {
                Some(n) => n,
                None => return Err(to_string("PREPLAY_CHANCE_PERCENT must be an integer from 0 to 100")),
            },
            None => DEFAULT_PREPLAY_CHANCE_PERCENT,
        };
        if chance_percent > 100 {
            return Err(to_string("PREPLAY_CHANCE_PERCENT must be an integer from 0 to 100"));
        }
        Ok(PrePlayConfig { default_url, chance_percent })
    }
}

/// Return whether a roll in the range 0..100 passes the configured percentage.
pub fn chance_passes(chance_percent: u8, roll: u8) -> (r: bool)
    requires
        chance_percent <= 100,
        roll < 100,
    ensures
        r == (roll < chance_percent),
{
    roll < chance_percent
}

/// Whether pre-play audio goes in before the next track: pre-play is enabled,
/// another music track follows, the player has a next item, and the roll
/// passes the chance.
pub fn transition_should_insert(
    enabled: bool,
    has_next_music: bool,
    songbird_has_next: bool,
    chance_percent: u8,
    roll: u8,
) -> (r: bool)
    requires
        chance_percent <= 100,
        roll < 100,
    ensures
        r == (enabled && has_next_music && songbird_has_next && roll < chance_percent),
{
    enabled && has_next_music && songbird_has_next && chance_passes(chance_percent, roll)
}

/// Move the first queue item that `predicate` accepts directly behind the
/// current (front) item. Returns false, leaving the queue unchanged, when no
/// item is accepted or the accepted one is already at the front.
pub fn move_matching_to_next<T>(queue: &mut VecDeque<T>, predicate: impl Fn(&T) -> bool) -> (r: bool)
    requires
        forall|i: int| 0 <= i < old(queue)@.len() ==> predicate.requires((&old(queue)@[i],)),
    ensures
        r ==> exists|k: int|
            #![trigger old(queue)@[k]]
            1 <= k < old(queue)@.len()
            && predicate.ensures((&old(queue)@[k],), true)
            && (forall|j: int| 0 <= j < k ==> predicate.ensures((&old(queue)@[j],), false))
            && final(queue)@ == old(queue)@.remove(k).insert(1, old(queue)@[k]),
        !r ==> final(queue)@ == old(queue)@ && (
            (forall|j: int| 0 <= j < old(queue)@.len() ==> predicate.ensures((&old(queue)@[j],), false))
            || predicate.ensures((&old(queue)@[0],), true)),
{
    let ghost q = queue@;
    let mut i: usize = 0;
    let mut found = false;
    while i < queue.len()
        invariant_except_break
            !found,
        invariant
            i <= queue.len(),
            queue@ == q,
            forall|j: int| 0 <= j < q.len() ==> predicate.requires((&q[j],)),
            forall|j: int| 0 <= j < i ==> predicate.ensures((&q[j],), false),
        ensures
            found ==> i < q.len() && predicate.ensures((&q[i as int],), true),
            !found ==> i == q.len(),
        decreases queue.len() - i,
    {
        if predicate(&queue[i]) {
            found = true;
            break;
        }
        i = i + 1;
    }
    if !found || i == 0 {
        return false;
    }
    match queue.remove(i) {
        Some(item) => {
            queue.insert(1, item);
            assert(1 <= i < q.len());
            true
        },
        None => false,
    }
}

/// What `/preplay` asks for, before the link is loaded.
#[derive(Debug, PartialEq, Eq)]
pub enum PreplayRequest {
    /// Neither a link nor a configured default.
    Missing,
    /// The chosen link is not a single-video YouTube URL.
    NotAVideo,
    /// The link to verify and enable.
    Ready(String),
}

/// The link `/preplay` uses: the supplied one, trimmed, unless blank or
/// absent, in which case the configured default.
pub open spec fn chosen_link(supplied: Option<Seq<char>>, default_url: Option<Seq<char>>) -> Option<Seq<char>> {
    match supplied {
        Some(u) => if trimmed(u).len() > 0 { Some(trimmed(u)) } else { default_url },
        None => default_url,
    }
}

/// The link chosen for `/preplay`: with no link supplied, or a blank one, it
/// is the configured default (whatever that is); with a non-blank link
/// supplied, it is that link trimmed, whatever the default is.
pub proof fn lemma_chosen_link(supplied: Option<Seq<char>>, default_url: Option<Seq<char>>)
    ensures
        supplied is None ==> chosen_link(supplied, default_url) == default_url,
        (supplied matches Some(u) && trimmed(u).len() == 0) ==> chosen_link(supplied, default_url) == default_url,
        (supplied matches Some(u) && trimmed(u).len() > 0) ==> chosen_link(supplied, default_url) == Some(trimmed(supplied->0)),
{
}

/// Decides what `/preplay [url]` does with the supplied option and the
/// configured default.
pub fn check_preplay_request(supplied: Option<&str>, default_url: &Option<String>) -> (r: PreplayRequest)
    ensures
        match chosen_link(
            match supplied {
                Some(s) => Some(s@),
                None => None,
            },
            opt_text(*default_url),
        ) {
            None => r is Missing,
            Some(u) => if video_url_text(u) {
                r matches PreplayRequest::Ready(v) && v@ == u
            } else {
                r is NotAVideo
            },
        },
{
    let chosen = match supplied {
        Some(s) => {
            let t = trim(s);
            if t.is_empty() {
                match default_url {
                    Some(d) => Some(d.clone()),
                    None => None,
                }
            } else {
                Some(to_string(t))
            }
        },
        None => match default_url {
            Some(d) => Some(d.clone()),
            None => None,
        },
    };
    match chosen {
        None => PreplayRequest::Missing,
        Some(url) => if is_youtube_video_url(url.as_str()) {
            PreplayRequest::Ready(url)
        } else {
            PreplayRequest::NotAVideo
        },
    }
}

pub open spec fn enabled_text(chance_percent: u8) -> Seq<char> {
    "✅ Pre-play enabled with a "@ + decimal(chance_percent as nat) + "% chance between tracks."@
}

/// The reply once pre-play is enabled.
pub fn enabled_reply(chance_percent: u8) -> (r: String)
    ensures
        r@ == enabled_text(chance_percent),
{
    let mut s = to_string("✅ Pre-play enabled with a ");
    push_decimal(&mut s, chance_percent as u64);
    append_str(&mut s, "% chance between tracks.");
    s
}

/// The reply to `/stop-preplay`.
pub fn stop_reply(was_enabled: bool) -> (r: String)
    ensures
        r@ == if was_enabled { "🛑 Pre-play disabled."@ } else { "ℹ️ Pre-play was already disabled."@ },
{
    if was_enabled {
        to_string("🛑 Pre-play disabled.")
    } else {
        to_string("ℹ️ Pre-play was already disabled.")
    }
}

} // verus!
