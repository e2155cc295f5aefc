use std::time::Duration;

use bobby_tabots::voice_idle::{
    channel_has_human_listener, classify_cached_occupancy, needs_new_timer, occupant_is_bot,
    refresh_action, timeout_should_disconnect, CachedOccupancy, StartOutcome, TimerAction,
    TimerIdentity, TimerRegistry, EMPTY_VOICE_CHANNEL_TIMEOUT_SECS,
};

const BOT: u64 = 1;
const CHANNEL: u64 = 10;
const OTHER_CHANNEL: u64 = 11;

#[test]
fn timeout_is_ten_minutes() {
    assert_eq!(
        Duration::from_secs(EMPTY_VOICE_CHANNEL_TIMEOUT_SECS),
        Duration::from_secs(600)
    );
}

#[test]
fn bot_alone_is_empty() {
    let occupancy = classify_cached_occupancy(CHANNEL, BOT, &[(BOT, Some(CHANNEL), Some(true))]);

    assert_eq!(
        occupancy,
        CachedOccupancy {
            human_present: false,
            unknown_members: vec![],
        }
    );
}

#[test]
fn other_bots_do_not_keep_channel_occupied() {
    let occupancy = classify_cached_occupancy(
        CHANNEL,
        BOT,
        &[(BOT, Some(CHANNEL), Some(true)), (2, Some(CHANNEL), Some(true))],
    );

    assert!(!occupancy.human_present);
    assert!(occupancy.unknown_members.is_empty());
}

#[test]
fn human_in_same_channel_keeps_it_occupied() {
    let occupancy = classify_cached_occupancy(
        CHANNEL,
        BOT,
        &[(BOT, Some(CHANNEL), Some(true)), (2, Some(CHANNEL), Some(false))],
    );

    assert!(occupancy.human_present);
}

#[test]
fn human_in_another_channel_does_not_count() {
    let occupancy = classify_cached_occupancy(
        CHANNEL,
        BOT,
        &[(BOT, Some(CHANNEL), Some(true)), (2, Some(OTHER_CHANNEL), Some(false))],
    );

    assert!(!occupancy.human_present);
}

#[test]
fn unknown_members_are_treated_as_occupied_without_lookup() {
    let unknown_user = 2;
    let occupancy = classify_cached_occupancy(CHANNEL, BOT, &[(unknown_user, Some(CHANNEL), None)]);

    assert_eq!(occupancy.unknown_members, vec![unknown_user]);
    assert!(occupancy.is_occupied());
}

#[test]
fn human_found_drops_unknown_list() {
    let occupancy = classify_cached_occupancy(
        CHANNEL,
        BOT,
        &[(3, Some(CHANNEL), None), (4, None, Some(false)), (2, Some(CHANNEL), Some(false)), (5, Some(CHANNEL), None)],
    );
    assert_eq!(occupancy, CachedOccupancy { human_present: true, unknown_members: vec![] });
    let occupancy = classify_cached_occupancy(
        CHANNEL,
        BOT,
        &[(3, Some(CHANNEL), None), (BOT, Some(CHANNEL), None), (5, Some(CHANNEL), None)],
    );
    assert_eq!(occupancy.unknown_members, vec![3, 5]);
}

#[test]
fn listener_check_is_conservative() {
    assert!(channel_has_human_listener(CHANNEL, BOT, None));
    assert!(!channel_has_human_listener(CHANNEL, BOT, Some(&[(BOT, Some(CHANNEL), Some(true))])));
    assert!(channel_has_human_listener(CHANNEL, BOT, Some(&[(7, Some(CHANNEL), None)])));
    assert_eq!(occupant_is_bot(Some(false), Some(true)), Some(false));
    assert_eq!(occupant_is_bot(None, Some(true)), Some(true));
    assert_eq!(occupant_is_bot(None, None), None);
}

#[test]
fn active_timer_is_reused_only_for_the_same_channel() {
    let identity = TimerIdentity {
        generation: 1,
        channel_id: CHANNEL,
    };

    assert!(!needs_new_timer(Some(identity), CHANNEL));
    assert!(needs_new_timer(Some(identity), OTHER_CHANNEL));
    assert!(needs_new_timer(None, CHANNEL));
}

#[test]
fn timer_generation_rejects_stale_identity() {
    let current = TimerIdentity {
        generation: 2,
        channel_id: CHANNEL,
    };
    let stale = TimerIdentity {
        generation: 1,
        channel_id: CHANNEL,
    };

    assert_ne!(current, stale);
}

#[test]
fn timeout_revalidation_accepts_unchanged_empty_channel() {
    assert!(timeout_should_disconnect(Some(CHANNEL), CHANNEL, true, false));
}

#[test]
fn timeout_revalidation_rejects_repopulated_channel() {
    assert!(!timeout_should_disconnect(Some(CHANNEL), CHANNEL, true, true));
}

#[test]
fn timeout_revalidation_rejects_moved_or_disconnected_bot() {
    assert!(!timeout_should_disconnect(Some(OTHER_CHANNEL), CHANNEL, true, false));
    assert!(!timeout_should_disconnect(None, CHANNEL, false, false));
}

#[test]
fn refresh_starts_only_for_an_empty_connected_channel() {
    assert_eq!(refresh_action(Some(CHANNEL), true, false), TimerAction::Start(CHANNEL));
    assert_eq!(refresh_action(Some(CHANNEL), true, true), TimerAction::Cancel);
    assert_eq!(refresh_action(Some(CHANNEL), false, false), TimerAction::Cancel);
    assert_eq!(refresh_action(None, true, false), TimerAction::Cancel);
}

#[test]
fn registry_reuses_replaces_and_finishes_timers() {
    let mut registry: TimerRegistry<&'static str> = TimerRegistry::new();
    let first = match registry.start(7, CHANNEL, |_| "task-1") {
        StartOutcome::Started { identity, replaced } => {
            assert_eq!(identity, TimerIdentity { generation: 1, channel_id: CHANNEL });
            assert_eq!(replaced, None);
            identity
        }
        StartOutcome::Kept => panic!("expected a new timer"),
    };
    assert!(registry.is_current(7, first));
    assert!(matches!(registry.start(7, CHANNEL, |_| "task-x"), StartOutcome::Kept));

    let second = match registry.start(7, OTHER_CHANNEL, |_| "task-2") {
        StartOutcome::Started { identity, replaced } => {
            assert_eq!(replaced, Some("task-1"));
            assert_eq!(identity.generation, 2);
            identity
        }
        StartOutcome::Kept => panic!("expected a replacement"),
    };
    assert!(!registry.is_current(7, first));
    assert!(!registry.finish_timeout(7, first, true));
    assert!(registry.is_current(7, second));
    assert!(registry.finish_timeout(7, second, true));
    assert!(!registry.is_current(7, second));
    assert!(!registry.finish(7, second));
}

#[test]
fn registry_cancel_and_busy_timeout() {
    let mut registry: TimerRegistry<u32> = TimerRegistry::new();
    let identity = match registry.start(3, CHANNEL, |id| id.generation as u32 * 10) {
        StartOutcome::Started { identity, .. } => identity,
        StartOutcome::Kept => panic!("expected a new timer"),
    };
    assert_eq!(registry.cancel(3), Some(10));
    assert_eq!(registry.cancel(3), None);
    assert!(!registry.finish_timeout(3, identity, true));

    let identity = match registry.start(3, CHANNEL, |_| 0) {
        StartOutcome::Started { identity, .. } => identity,
        StartOutcome::Kept => panic!("expected a new timer"),
    };
    assert!(!registry.finish_timeout(3, identity, false));
    assert!(!registry.is_current(3, identity));
}
