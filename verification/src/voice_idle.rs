//! Leaving voice channels that stay without human listeners.
//!
//! The registry of empty-channel timers decides when a timer starts, is kept,
//! is cancelled, and whether an expired timer may disconnect; spawning and
//! aborting the timer tasks, and reading the voice state, stay with the caller.

use std::collections::HashMap;

use vstd::prelude::*;

verus! {

broadcast use vstd::std_specs::hash::group_hash_axioms;

/// How long, in seconds, a voice channel may remain without human listeners
/// before leaving.
pub const EMPTY_VOICE_CHANNEL_TIMEOUT_SECS: u64 = 600;

/// Which timer this is: a generation number unique among recent timers, and
/// the channel it watches.
#[derive(Clone, Copy, Debug, PartialEq, Eq, Structural)]
pub struct TimerIdentity {
    pub generation: u64,
    pub channel_id: u64,
}

/// Who occupies a voice channel, as far as the cache tells.
#[derive(Debug, PartialEq, Eq)]
pub struct CachedOccupancy {
    pub human_present: bool,
    /// Members in the channel whose bot flag the cache does not know.
    pub unknown_members: Vec<u64>,
}

impl CachedOccupancy {
    /// Unknown members conservatively keep the channel occupied.
    pub fn is_occupied(&self) -> (r: bool)
        ensures
            r == (self.human_present || self.unknown_members@.len() > 0),
    {
        self.human_present || self.unknown_members.len() > 0
    }
}

/// A voice-state entry: user id, the channel the user is in, and whether the
/// user is a bot (`None` when the cache does not know).
pub type Occupant = (u64, Option<u64>, Option<bool>);

/// The occupant is someone other than the bot, in `channel_id`.
pub open spec fn in_channel(o: Occupant, channel_id: u64, bot_user_id: u64) -> bool {
    o.0 != bot_user_id && o.1 == Some(channel_id)
}

/// Some other member in the channel is known to be human.
pub open spec fn human_in(occupants: Seq<Occupant>, channel_id: u64, bot_user_id: u64) -> bool {
    exists|i: int|
        0 <= i < occupants.len() && in_channel(occupants[i], channel_id, bot_user_id)
            && occupants[i].2 == Some(false)
}

/// The ids, in order, of the other members in the channel whose bot flag is unknown.
pub open spec fn unknown_in(occupants: Seq<Occupant>, channel_id: u64, bot_user_id: u64) -> Seq<u64>
    decreases occupants.len(),
{
    if occupants.len() == 0 {
        Seq::empty()
    } else {
        let rest = unknown_in(occupants.drop_last(), channel_id, bot_user_id);
        let o = occupants.last();
        if in_channel(o, channel_id, bot_user_id) && o.2 is None {
            rest.push(o.0)
        } else {
            rest
        }
    }
}

/// Any other member in the channel who is known to be human makes it
/// occupied, wherever that member stands among the occupants and whoever
/// else is there.
pub proof fn lemma_known_human_occupies(occupants: Seq<Occupant>, channel_id: u64, bot_user_id: u64, i: int)
    requires
        0 <= i < occupants.len(),
        occupants[i].0 != bot_user_id,
        occupants[i].1 == Some(channel_id),
        occupants[i].2 == Some(false),
    ensures
        human_in(occupants, channel_id, bot_user_id),
{
    assert(in_channel(occupants[i], channel_id, bot_user_id));
}

/// Without such a member, nobody makes the channel occupied: the bot itself,
/// members elsewhere and known bots never count.
pub proof fn lemma_no_known_human_is_empty(occupants: Seq<Occupant>, channel_id: u64, bot_user_id: u64)
    requires
        forall|i: int| 0 <= i < occupants.len() && occupants[i].0 != bot_user_id
            && occupants[i].1 == Some(channel_id) ==> occupants[i].2 != Some(false),
    ensures
        !human_in(occupants, channel_id, bot_user_id),
{
}

/// The members listed as unknown are exactly the other members in the
/// channel whose bot flag is unknown, regardless of who else is present.
pub proof fn lemma_unknown_members_exact(occupants: Seq<Occupant>, channel_id: u64, bot_user_id: u64)
    ensures
        forall|i: int|
            #![trigger occupants[i]]
            0 <= i < occupants.len() && occupants[i].0 != bot_user_id && occupants[i].1 == Some(channel_id)
                && occupants[i].2 is None ==> unknown_in(occupants, channel_id, bot_user_id).contains(occupants[i].0),
        forall|x: u64|
            unknown_in(occupants, channel_id, bot_user_id).contains(x) ==> exists|i: int|
                0 <= i < occupants.len() && occupants[i].0 == x && x != bot_user_id
                    && occupants[i].1 == Some(channel_id) && occupants[i].2 is None,
    decreases occupants.len(),
{
    if occupants.len() > 0 {
        let init = occupants.drop_last();
        lemma_unknown_members_exact(init, channel_id, bot_user_id);
        let u = unknown_in(occupants, channel_id, bot_user_id);
        let ui = unknown_in(init, channel_id, bot_user_id);
        assert forall|i: int|
            #![trigger occupants[i]]
            0 <= i < occupants.len() && occupants[i].0 != bot_user_id && occupants[i].1 == Some(channel_id)
                && occupants[i].2 is None implies u.contains(occupants[i].0) by {
            if i < occupants.len() - 1 {
                assert(init[i] == occupants[i]);
                let k = choose|k: int| 0 <= k < ui.len() && ui[k] == occupants[i].0;
                assert(u[k] == ui[k]);
            } else {
                assert(u[u.len() - 1] == occupants[i].0);
            }
        }
        assert forall|x: u64| u.contains(x) implies exists|i: int|
            0 <= i < occupants.len() && occupants[i].0 == x && x != bot_user_id
                && occupants[i].1 == Some(channel_id) && occupants[i].2 is None by {
            let k = choose|k: int| 0 <= k < u.len() && u[k] == x;
            let last = occupants.last();
            if k < ui.len() {
                assert(ui[k] == x);
                assert(ui.contains(x));
                let i = choose|i: int|
                    0 <= i < init.len() && init[i].0 == x && x != bot_user_id
                        && init[i].1 == Some(channel_id) && init[i].2 is None;
                assert(occupants[i] == init[i]);
            } else {
                assert(in_channel(last, channel_id, bot_user_id) && last.2 is None);
                assert(last.0 == x);
                assert(occupants[occupants.len() - 1] == last);
            }
        }
    }
}

/// Unknown members are listed in the order they appear: the list for two
/// consecutive runs of occupants is the list for the first run followed by
/// the list for the second.
pub proof fn lemma_unknown_members_in_order(
    first: Seq<Occupant>,
    second: Seq<Occupant>,
    channel_id: u64,
    bot_user_id: u64,
)
    ensures
        unknown_in(first + second, channel_id, bot_user_id)
            == unknown_in(first, channel_id, bot_user_id) + unknown_in(second, channel_id, bot_user_id),
    decreases second.len(),
{
    if second.len() == 0 {
        assert(first + second =~= first);
        assert(unknown_in(first, channel_id, bot_user_id) + unknown_in(second, channel_id, bot_user_id)
            =~= unknown_in(first, channel_id, bot_user_id));
    } else {
        let init = second.drop_last();
        lemma_unknown_members_in_order(first, init, channel_id, bot_user_id);
        assert((first + second).drop_last() =~= first + init);
        assert((first + second).last() == second.last());
        let a = unknown_in(first, channel_id, bot_user_id);
        let b = unknown_in(init, channel_id, bot_user_id);
        assert(a + b.push(second.last().0) =~= (a + b).push(second.last().0));
    }
}

/// Classifies the cached occupants of `channel_id`, ignoring the bot itself:
/// a known human makes the channel occupied (and nothing else is collected);
/// otherwise the members of unknown kind are listed.
pub fn classify_cached_occupancy(
    channel_id: u64,
    bot_user_id: u64,
    occupants: &[Occupant],
) -> (r: CachedOccupancy)
    ensures
        r.human_present == human_in(occupants@, channel_id, bot_user_id),
        r.unknown_members@ == if r.human_present {
            Seq::empty()
        } else {
            unknown_in(occupants@, channel_id, bot_user_id)
        },
{
    let mut unknown_members: Vec<u64> = Vec::new();
    let mut i: usize = 0;
    while i < occupants.len()
        invariant
            i <= occupants@.len(),
            !human_in(occupants@.take(i as int), channel_id, bot_user_id),
            unknown_members@ == unknown_in(occupants@.take(i as int), channel_id, bot_user_id),
        decreases occupants.len() - i,
    {
        let (user_id, occupant_channel_id, is_bot) = occupants[i];
        let ghost prefix = occupants@.take(i as int);
        let ghost next = occupants@.take(i + 1);
        assert(next.drop_last() =~= prefix);
        assert(next.last() == occupants@[i as int]);
        let here = match occupant_channel_id {
            Some(c) => c == channel_id,
            None => false,
        };
        if user_id != bot_user_id && here {
            match is_bot {
                Some(true) => {},
                Some(false) => {
                    assert(in_channel(occupants@[i as int], channel_id, bot_user_id));
                    return CachedOccupancy { human_present: true, unknown_members: Vec::new() };
                },
                None => unknown_members.push(user_id),
            }
        }
        assert(!human_in(next, channel_id, bot_user_id)) by {
            if human_in(next, channel_id, bot_user_id) {
                let j = choose|j: int|
                    0 <= j < next.len() && in_channel(next[j], channel_id, bot_user_id)
                        && next[j].2 == Some(false);
                if j < i {
                    assert(prefix[j] == next[j]);
                }
            }
        }
        i = i + 1;
    }
    assert(occupants@.take(occupants@.len() as int) =~= occupants@);
    CachedOccupancy { human_present: false, unknown_members }
}

/// Whether a member counts as a bot: the member record of the voice state,
/// else the guild's member cache.
pub fn occupant_is_bot(from_voice_state: Option<bool>, from_member_cache: Option<bool>) -> (r: Option<bool>)
    ensures
        r == match from_voice_state {
            Some(b) => Some(b),
            None => from_member_cache,
        },
{
    match from_voice_state {
        Some(b) => Some(b),
        None => from_member_cache,
    }
}

/// Whether the channel keeps a human listener: true when the guild is not
/// cached (`None`), else when the cached occupancy is occupied.
pub fn channel_has_human_listener(
    channel_id: u64,
    bot_user_id: u64,
    guild_occupants: Option<&[Occupant]>,
) -> (r: bool)
    ensures
        r == match guild_occupants {
            None => true,
            Some(o) => human_in(o@, channel_id, bot_user_id)
                || unknown_in(o@, channel_id, bot_user_id).len() > 0,
        },
{
    match guild_occupants {
        None => true,
        Some(occupants) => classify_cached_occupancy(channel_id, bot_user_id, occupants).is_occupied(),
    }
}

/// A timer must be (re)started unless one already watches this channel.
pub open spec fn needs_new(existing: Option<TimerIdentity>, channel_id: u64) -> bool {
    match existing {
        None => true,
        Some(identity) => identity.channel_id != channel_id,
    }
}

pub fn needs_new_timer(existing: Option<TimerIdentity>, channel_id: u64) -> (r: bool)
    ensures
        r == needs_new(existing, channel_id),
{
    match existing {
        None => true,
        Some(identity) => identity.channel_id != channel_id,
    }
}

/// When the timer fires, leave only if the bot is still in the scheduled
/// channel, the voice connection is there too, and no human joined.
pub fn timeout_should_disconnect(
    current_channel: Option<u64>,
    scheduled_channel: u64,
    songbird_connected: bool,
    human_present: bool,
) -> (r: bool)
    ensures
        r == (current_channel == Some(scheduled_channel) && songbird_connected && !human_present),
{
    let same = match current_channel {
        Some(c) => c == scheduled_channel,
        None => false,
    };
    same && songbird_connected && !human_present
}

/// What a voice-state change asks of the timer registry.
#[derive(Debug, PartialEq, Eq, Structural)]
pub enum TimerAction {
    /// Drop any pending timer.
    Cancel,
    /// Make sure a timer watches this channel.
    Start(u64),
}

/// The bot sits in `bot_channel`, the voice connection is there, and no human
/// listens: watch the channel; otherwise cancel.
pub fn refresh_action(bot_channel: Option<u64>, songbird_connected: bool, human_present: bool) -> (r: TimerAction)
    ensures
        r == match bot_channel {
            Some(c) => if songbird_connected && !human_present { TimerAction::Start(c) } else { TimerAction::Cancel },
            None => TimerAction::Cancel,
        },
{
    match bot_channel {
        Some(c) => if songbird_connected && !human_present { TimerAction::Start(c) } else { TimerAction::Cancel },
        None => TimerAction::Cancel,
    }
}

/// The generation after `g`, wrapping to 0 after `u64::MAX`.
pub open spec fn next_generation(g: u64) -> u64 {
    if g == u64::MAX { 0 } else { (g + 1) as u64 }
}

/// The identity of the timer registered for `guild`, if any.
pub open spec fn identity_of<T>(timers: Map<u64, (TimerIdentity, T)>, guild: u64) -> Option<TimerIdentity> {
    if timers.contains_key(guild) { Some(timers[guild].0) } else { None }
}

/// A timer that gets replaced goes stale: once a timer for another channel
/// is registered for the guild, the replaced identity is no longer current.
pub proof fn lemma_replaced_timer_is_stale<T>(
    timers: Map<u64, (TimerIdentity, T)>,
    guild: u64,
    replaced: TimerIdentity,
    generation: u64,
    channel_id: u64,
    task: T,
)
    requires
        identity_of(timers, guild) == Some(replaced),
        needs_new(identity_of(timers, guild), channel_id),
    ensures
        identity_of(timers.insert(guild, (TimerIdentity { generation, channel_id }, task)), guild)
            != Some(replaced),
{
}

/// The identity of the next timer started for `channel_id`.
pub open spec fn fresh_identity(last_generation: u64, channel_id: u64) -> TimerIdentity {
    TimerIdentity { generation: next_generation(last_generation), channel_id }
}

/// Until the generation counter wraps, a newly started timer's generation
/// differs from that of every timer issued before it, so an old timer task on
/// the same channel cannot pass for the new one.
pub proof fn lemma_new_generation_is_fresh(last_generation: u64, earlier: TimerIdentity)
    requires
        earlier.generation <= last_generation,
        last_generation < u64::MAX,
    ensures
        next_generation(last_generation) > earlier.generation,
        forall|channel_id: u64| fresh_identity(last_generation, channel_id) != earlier,
{
}

/// A timer already watching the channel is reused, not restarted.
pub proof fn lemma_same_channel_timer_is_reused<T>(
    timers: Map<u64, (TimerIdentity, T)>,
    guild: u64,
    identity: TimerIdentity,
)
    requires
        identity_of(timers, guild) == Some(identity),
    ensures
        !needs_new(identity_of(timers, guild), identity.channel_id),
{
}

/// Once a guild's timer is removed (finished or cancelled) no identity is
/// current for the guild, so a late expiry of that timer does nothing.
pub proof fn lemma_removed_timer_is_not_current<T>(
    timers: Map<u64, (TimerIdentity, T)>,
    guild: u64,
    identity: TimerIdentity,
)
    ensures
        identity_of(timers.remove(guild), guild) != Some(identity),
{
}

/// The pending empty-channel timer of each guild, with its task.
pub struct TimerRegistry<T> {
    timers: HashMap<u64, (TimerIdentity, T)>,
    last_generation: u64,
}

/// What [`TimerRegistry::start`] did.
pub enum StartOutcome<T> {
    /// A timer already watches the channel; nothing changed.
    Kept,
    /// A new timer was registered; `replaced` is the task of the timer it
    /// replaced, which must be aborted.
    Started { identity: TimerIdentity, replaced: Option<T> },
}

impl<T> TimerRegistry<T> {
    /// The registered timers, by guild id.
    pub closed spec fn timers(&self) -> Map<u64, (TimerIdentity, T)> {
        self.timers@
    }

    /// The generation of the most recently started timer (0 before any).
    pub closed spec fn last_generation(&self) -> u64 {
        self.last_generation
    }

    pub fn new() -> (r: Self)
        ensures
            r.timers() == Map::<u64, (TimerIdentity, T)>::empty(),
            r.last_generation() == 0,
    {
        TimerRegistry { timers: HashMap::new(), last_generation: 0 }
    }

    /// Whether `identity` is the timer registered for `guild`.
    pub fn is_current(&self, guild: u64, identity: TimerIdentity) -> (r: bool)
        ensures
            r == (identity_of(self.timers(), guild) == Some(identity)),
    {
        match self.timers.get(&guild) {
            Some(entry) => entry.0 == identity,
            None => false,
        }
    }

    /// Removes the guild's pending timer; returns its task, to be aborted.
    pub fn cancel(&mut self, guild: u64) -> (r: Option<T>)
        ensures
            final(self).timers() == old(self).timers().remove(guild),
            final(self).last_generation() == old(self).last_generation(),
            r == if old(self).timers().contains_key(guild) {
                Some(old(self).timers()[guild].1)
            } else {
                None
            },
    {
        match self.timers.remove(&guild) {
            Some(entry) => Some(entry.1),
            None => None,
        }
    }

    /// Make sure a timer watches `channel_id` for `guild`. A timer already
    /// watching that channel is kept. Otherwise the next generation is taken,
    /// `spawn` makes the task for the new identity, and the new timer replaces
    /// any previous one.
    pub fn start<F: FnOnce(TimerIdentity) -> T>(&mut self, guild: u64, channel_id: u64, spawn: F) -> (r: StartOutcome<T>)
        requires
            forall|id: TimerIdentity| spawn.requires((id,)),
        ensures
            !needs_new(identity_of(old(self).timers(), guild), channel_id) ==> {
                &&& r is Kept
                &&& final(self).timers() == old(self).timers()
                &&& final(self).last_generation() == old(self).last_generation()
            },
            needs_new(identity_of(old(self).timers(), guild), channel_id) ==> {
                let id = fresh_identity(old(self).last_generation(), channel_id);
                &&& r matches StartOutcome::Started { identity, replaced } && identity == id
                    && replaced == (if old(self).timers().contains_key(guild) {
                        Some(old(self).timers()[guild].1)
                    } else {
                        None
                    })
                &&& final(self).last_generation() == id.generation
                &&& final(self).timers().contains_key(guild)
                &&& final(self).timers() == old(self).timers().insert(guild, (id, final(self).timers()[guild].1))
                &&& spawn.ensures((id,), final(self).timers()[guild].1)
            },
    {
        let existing = match self.timers.get(&guild) {
            Some(entry) => Some(entry.0),
            None => None,
        };
        if !needs_new_timer(existing, channel_id) {
            return StartOutcome::Kept;
        }
        let replaced = match self.timers.remove(&guild) {
            Some(entry) => Some(entry.1),
            None => None,
        };
        let generation = if self.last_generation == u64::MAX { 0 } else { self.last_generation + 1 };
        self.last_generation = generation;
        let identity = TimerIdentity { generation, channel_id };
        let task = spawn(identity);
        self.timers.insert(guild, (identity, task));
        assert(self.timers@ =~= old(self).timers@.insert(guild, (identity, task)));
        StartOutcome::Started { identity, replaced }
    }

    /// Removes the guild's timer if `identity` is still the registered one;
    /// returns whether it was.
    pub fn finish(&mut self, guild: u64, identity: TimerIdentity) -> (r: bool)
        ensures
            r == (identity_of(old(self).timers(), guild) == Some(identity)),
            final(self).timers() == if r { old(self).timers().remove(guild) } else { old(self).timers() },
            final(self).last_generation() == old(self).last_generation(),
    {
        let is_current = self.is_current(guild, identity);
        if is_current {
            self.timers.remove(&guild);
        }
        is_current
    }

    /// An expired timer ends: it is removed if still registered, and the bot
    /// should disconnect only if it was still registered and the channel is
    /// still empty.
    pub fn finish_timeout(&mut self, guild: u64, identity: TimerIdentity, still_empty: bool) -> (r: bool)
        ensures
            r == (still_empty && identity_of(old(self).timers(), guild) == Some(identity)),
            final(self).timers() == if identity_of(old(self).timers(), guild) == Some(identity) {
                old(self).timers().remove(guild)
            } else {
                old(self).timers()
            },
            final(self).last_generation() == old(self).last_generation(),
    {
        let was_current = self.finish(guild, identity);
        still_empty && was_current
    }
}

} // verus!
