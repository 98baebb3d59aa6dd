use whitenoise::whitenoise::error::WhitenoiseError;
use whitenoise::whitenoise::event_processor::event_handlers::account_list::AccountList;
use whitenoise::whitenoise::event_processor::event_handlers::handle_contact_list::{
    catch_up_kinds, handle_contact_list, queue_discovery_catch_up_error, BatchReply, CatchUp,
    ContactListOutcome, CONTACT_LIST_CATCH_UP_BATCH_SIZE, CONTACT_LIST_CATCH_UP_TIMEOUT,
};
use whitenoise::whitenoise::event_processor::event_handlers::handle_metadata::{
    apply_metadata, handle_metadata, metadata_result, read_metadata, UserMetadata,
};
use whitenoise::whitenoise::event_processor::event_handlers::handle_mute_list::{
    handle_mute_list, invites_to_decline, mute_list_guard_error, MuteListOutcome, PendingInvite,
};
use whitenoise::whitenoise::event_processor::event_handlers::handle_relay_list::{
    handle_relay_list, handle_subscriptions_refresh, RelayListStep,
};
use whitenoise::whitenoise::nostr::{
    sort_and_dedup, Event, EventId, PublicKey, KIND_CONTACT_LIST, KIND_INBOX_RELAYS, KIND_RELAY_LIST,
};
use whitenoise::whitenoise::utils::{timestamp_to_datetime, LAST_SECOND};

const NOW: u64 = 1_700_000_000;

fn key(byte: u8) -> PublicKey {
    PublicKey { bytes: [byte; 32] }
}

fn numbered_key(n: u32) -> PublicKey {
    let mut bytes = [0u8; 32];
    bytes[28..].copy_from_slice(&n.to_be_bytes());
    PublicKey { bytes }
}

fn list_event(id: u8, author: u8, created_at: u64) -> Event {
    Event {
        id: EventId { bytes: [id; 32] },
        pubkey: key(author),
        created_at,
        kind: KIND_CONTACT_LIST,
        tags: vec![],
        content: String::new(),
    }
}

fn has(list: &AccountList, user: PublicKey) -> bool {
    list.users.iter().any(|u| *u == user)
}

fn contact(list: &mut AccountList, id: u8, at: u64, users: &[PublicKey]) -> ContactListOutcome {
    handle_contact_list(list, Some(1), &list_event(id, 1, at), &users.to_vec()).unwrap()
}

fn mute(list: &mut AccountList, id: u8, at: u64, users: &[PublicKey]) -> MuteListOutcome {
    let event = list_event(id, 1, at);
    handle_mute_list(list, Some(1), &key(1), &event, &users.to_vec(), Ok(None)).unwrap()
}

// -- Contact lists -------------------------------------------------------

#[test]
fn test_handle_contact_list_success() {
    let mut follows = AccountList::new();
    let outcome = contact(&mut follows, 1, NOW, &[key(11), key(12), key(11)]);
    assert_eq!(outcome, ContactListOutcome::Updated { catch_up: true });
    assert_eq!(follows.users.len(), 2, "Duplicates should be deduplicated");
    assert!(has(&follows, key(11)) && has(&follows, key(12)));
    assert!(follows.should_skip(&EventId { bytes: [1; 32] }, NOW).unwrap());
    assert_eq!(follows.newest, Some(timestamp_to_datetime(NOW).unwrap()));
}

#[test]
fn test_handle_contact_list_idempotency() {
    let mut follows = AccountList::new();
    contact(&mut follows, 1, NOW, &[key(11)]);
    assert_eq!(contact(&mut follows, 1, NOW, &[key(11)]), ContactListOutcome::Skipped);
    assert_eq!(follows.users.len(), 1);
}

#[test]
fn test_handle_contact_list_stale_events_ignored() {
    let mut follows = AccountList::new();
    contact(&mut follows, 1, NOW, &[key(11)]);
    assert_eq!(contact(&mut follows, 2, NOW - 3600, &[key(12)]), ContactListOutcome::Skipped);
    assert_eq!(follows.users.len(), 1);
    assert!(has(&follows, key(11)), "Older event ignored");
    assert_eq!(contact(&mut follows, 3, NOW, &[key(13)]), ContactListOutcome::Skipped);
    assert!(has(&follows, key(11)), "Same-timestamp event ignored");
    assert!(follows.is_stale(NOW).unwrap());
    assert!(!follows.is_stale(NOW + 1).unwrap());
}

#[test]
fn test_handle_contact_list_newer_event_replaces() {
    let mut follows = AccountList::new();
    contact(&mut follows, 1, NOW - 3600, &[key(11)]);
    assert_eq!(follows.users.len(), 1);
    contact(&mut follows, 2, NOW, &[key(12)]);
    assert_eq!(follows.users.len(), 1);
    assert!(has(&follows, key(12)));
    assert_eq!(
        contact(&mut follows, 3, NOW + 1, &[]),
        ContactListOutcome::Updated { catch_up: false }
    );
    assert!(follows.users.is_empty(), "Empty contact list should clear follows");
}

#[test]
fn test_handle_contact_list_accounts_are_independent() {
    let mut first = AccountList::new();
    let mut second = AccountList::new();
    contact(&mut first, 1, NOW, &[key(11)]);
    contact(&mut second, 2, NOW, &[key(12)]);
    assert_eq!(first.users.len(), 1);
    assert_eq!(second.users.len(), 1);
    assert!(has(&first, key(11)) && has(&second, key(12)));
}

#[test]
fn test_handle_contact_list_requires_saved_account() {
    let mut follows = AccountList::new();
    let result = handle_contact_list(&mut follows, None, &list_event(1, 1, NOW), &vec![key(11)]);
    assert!(matches!(result, Err(WhitenoiseError::AccountNotFound)));
    assert!(follows.users.is_empty());
}

#[test]
fn order_of_arrival_does_not_matter() {
    let mut first = AccountList::new();
    contact(&mut first, 1, NOW, &[key(11)]);
    contact(&mut first, 2, NOW + 5, &[key(12)]);
    let mut second = AccountList::new();
    contact(&mut second, 2, NOW + 5, &[key(12)]);
    contact(&mut second, 1, NOW, &[key(11)]);
    assert!(has(&first, key(12)) && has(&second, key(12)));
    assert_eq!(first.newest, second.newest);
}

#[test]
fn times_outside_the_calendar_are_refused() {
    assert_eq!(timestamp_to_datetime(NOW).unwrap(), 1_700_000_000_000);
    let last = LAST_SECOND as u64;
    assert_eq!(timestamp_to_datetime(last).unwrap(), LAST_SECOND * 1000);
    for late in [last + 1, u64::MAX] {
        assert!(matches!(
            timestamp_to_datetime(late),
            Err(WhitenoiseError::InvalidTimestamp)
        ));
        let mut follows = AccountList::new();
        let result = handle_contact_list(&mut follows, Some(1), &list_event(1, 1, late), &vec![]);
        assert!(matches!(result, Err(WhitenoiseError::InvalidTimestamp)));
        assert!(matches!(
            follows.track_processed(&EventId { bytes: [1; 32] }, late),
            Err(WhitenoiseError::InvalidTimestamp)
        ));
    }
}

#[test]
fn users_are_listed_in_hexadecimal_order() {
    let listed = sort_and_dedup(&vec![key(0xb0), key(0x0b), key(0xb0), key(0x9f)]);
    assert_eq!(listed.len(), 3);
    assert!(listed[0] == key(0x0b) && listed[1] == key(0x9f) && listed[2] == key(0xb0));
}

#[test]
fn catching_up_asks_in_batches() {
    assert_eq!(CONTACT_LIST_CATCH_UP_BATCH_SIZE, 500);
    assert_eq!(CONTACT_LIST_CATCH_UP_TIMEOUT, 5);
    assert_eq!(catch_up_kinds(), vec![0, 10002, 10050, 10051]);
    let users: Vec<PublicKey> = (0..1201).map(numbered_key).collect();
    let mut catch_up = CatchUp::fetch_users_batch(&users, true);
    let mut sizes = vec![];
    let mut asked = vec![];
    while let Some(batch) = catch_up.next_batch() {
        sizes.push(batch.len());
        asked.extend(batch);
        catch_up.report(BatchReply::Queued);
    }
    assert_eq!(sizes, vec![500, 500, 201]);
    assert_eq!(catch_up.queued_user_count(), 1201);
    for n in 0..1201u32 {
        assert!(asked[n as usize] == numbered_key(n));
    }
}

#[test]
fn failed_batches_do_not_count() {
    let users: Vec<PublicKey> = (0..1200).map(numbered_key).collect();
    let mut catch_up = CatchUp::fetch_users_batch(&users, true);
    for reply in [BatchReply::FetchFailed, BatchReply::QueueFailed, BatchReply::Queued] {
        assert!(catch_up.next_batch().is_some());
        catch_up.report(reply);
    }
    assert!(catch_up.next_batch().is_none());
    assert_eq!(catch_up.queued_user_count(), 200);
}

#[test]
fn catching_up_stops_when_cancelled() {
    let users: Vec<PublicKey> = (0..1200).map(numbered_key).collect();
    let mut catch_up = CatchUp::fetch_users_batch(&users, true);
    catch_up.report(BatchReply::Queued);
    catch_up.report(BatchReply::Cancelled);
    assert!(catch_up.next_batch().is_none());
    assert_eq!(catch_up.queued_user_count(), 500);
    let idle = CatchUp::fetch_users_batch(&users, false);
    assert!(idle.next_batch().is_none());
    assert_eq!(idle.queued_user_count(), 0);
    assert_eq!(
        queue_discovery_catch_up_error("closed").message(),
        "Event handler error: Failed to enqueue discovery catch-up event: closed"
    );
}

// -- Mute lists ----------------------------------------------------------

#[test]
fn test_handle_mute_list_success() {
    let mut muted = AccountList::new();
    let outcome = mute(&mut muted, 1, NOW, &[key(11), key(12)]);
    assert!(matches!(outcome, MuteListOutcome::Updated { decline } if decline.is_empty()));
    assert!(has(&muted, key(11)) && has(&muted, key(12)));
    assert!(muted.should_skip(&EventId { bytes: [1; 32] }, NOW).unwrap());
    assert_eq!(muted.newest, Some(timestamp_to_datetime(NOW).unwrap()));
}

#[test]
fn test_handle_mute_list_stale_ignored() {
    let mut muted = AccountList::new();
    mute(&mut muted, 1, NOW, &[key(11)]);
    assert!(matches!(
        mute(&mut muted, 2, NOW - 3600, &[key(12)]),
        MuteListOutcome::Skipped
    ));
    assert!(has(&muted, key(11)) && !has(&muted, key(12)));
}

#[test]
fn test_handle_mute_list_newer_replaces() {
    let mut muted = AccountList::new();
    mute(&mut muted, 1, NOW - 3600, &[key(11)]);
    mute(&mut muted, 2, NOW, &[key(12)]);
    assert!(!has(&muted, key(11)) && has(&muted, key(12)));
}

#[test]
fn test_handle_mute_list_empty_clears() {
    let mut muted = AccountList::new();
    mute(&mut muted, 1, NOW - 100, &[key(11)]);
    mute(&mut muted, 2, NOW, &[]);
    assert!(muted.users.is_empty());
}

#[test]
fn test_handle_mute_list_wrong_author_ignored() {
    let mut muted = AccountList::new();
    let event = list_event(1, 2, NOW);
    let result =
        handle_mute_list(&mut muted, Some(1), &key(1), &event, &vec![key(11)], Ok(None));
    assert!(matches!(result, Ok(MuteListOutcome::NotOurs)));
    assert!(!has(&muted, key(11)));
}

#[test]
fn test_handle_mute_list_requires_saved_account() {
    let mut muted = AccountList::new();
    let event = list_event(1, 1, NOW);
    let result = handle_mute_list(&mut muted, None, &key(1), &event, &vec![key(11)], Ok(None));
    assert!(matches!(result, Err(WhitenoiseError::AccountNotFound)));
    assert_eq!(
        mute_list_guard_error().message(),
        "Mute list error: Failed to acquire mute list processing permit"
    );
}

fn invite(group: u8, welcomer: Option<u8>) -> PendingInvite {
    PendingInvite { mls_group_id: vec![group; 32], welcomer: welcomer.map(key) }
}

/// The invitations to decline after a list that mutes `key(11)`.
fn declined_after_muting(pending: Option<Vec<PendingInvite>>) -> Vec<PendingInvite> {
    let mut muted = AccountList::new();
    let event = list_event(1, 1, NOW);
    match handle_mute_list(&mut muted, Some(1), &key(1), &event, &vec![key(11)], Ok(pending)) {
        Ok(MuteListOutcome::Updated { decline }) => decline,
        other => panic!("unexpected outcome {other:?}"),
    }
}

#[test]
fn test_handle_mute_list_declines_pending_invites_for_muted_welcomer() {
    let pending = || vec![invite(7, Some(11)), invite(8, Some(12)), invite(9, None)];
    for declined in [
        declined_after_muting(Some(pending())),
        invites_to_decline(&vec![key(11)], pending()),
    ] {
        assert_eq!(declined.len(), 1);
        assert_eq!(declined[0].mls_group_id, vec![7u8; 32]);
    }
}

#[test]
fn test_handle_mute_list_skips_decline_when_refuse_invites_disabled() {
    assert!(declined_after_muting(None).is_empty());
}

#[test]
fn muted_without_the_invitations_but_not_taken_in() {
    let mut muted = AccountList::new();
    let event = list_event(1, 1, NOW);
    let failed = Err(WhitenoiseError::GroupNotFound);
    let result = handle_mute_list(&mut muted, Some(1), &key(1), &event, &vec![key(11)], failed);
    assert!(matches!(result, Err(WhitenoiseError::GroupNotFound)));
    assert!(has(&muted, key(11)));
    assert!(!muted.should_skip(&event.id, NOW).unwrap());
}

// -- Relay lists ---------------------------------------------------------

fn relay_list(processed: bool, changed: bool) -> Vec<RelayListStep> {
    let mut step = RelayListStep::CheckProcessed;
    let mut steps = vec![];
    while step != RelayListStep::Done {
        let reply = match step {
            RelayListStep::CheckProcessed => processed,
            RelayListStep::SyncRelays { .. } => changed,
            _ => true,
        };
        step = handle_relay_list(step, KIND_RELAY_LIST, NOW, Ok(reply)).unwrap();
        steps.push(step);
    }
    steps
}

#[test]
fn relay_list_event_creates_user_with_relays() {
    let kind = KIND_RELAY_LIST;
    let time = 1_700_000_000_000;
    assert_eq!(
        relay_list(false, true),
        vec![
            RelayListStep::FindUser,
            RelayListStep::SyncRelays { kind, time },
            RelayListStep::RefreshSubscriptions { kind, time },
            RelayListStep::Record { kind, time },
            RelayListStep::Done,
        ]
    );
    assert_eq!(relay_list(false, false).len(), 4);
}

#[test]
fn duplicate_relay_list_event_is_idempotent() {
    assert_eq!(relay_list(true, true), vec![RelayListStep::Done]);
}

#[test]
fn relay_list_errors_end_the_work() {
    let kind = KIND_INBOX_RELAYS;
    assert!(matches!(
        handle_relay_list(RelayListStep::FindUser, kind, u64::MAX, Ok(true)),
        Err(WhitenoiseError::InvalidTimestamp)
    ));
    let failed = || Err(WhitenoiseError::UserNotFound);
    let step = RelayListStep::SyncRelays { kind, time: 5 };
    assert!(handle_relay_list(step, kind, NOW, failed()).is_err());
    let step = RelayListStep::RefreshSubscriptions { kind, time: 5 };
    assert_eq!(
        handle_relay_list(step, kind, NOW, failed()).unwrap(),
        RelayListStep::Record { kind, time: 5 }
    );
}

#[test]
fn relays_are_synced_for_the_kind_of_the_list() {
    for kind in [KIND_RELAY_LIST, KIND_INBOX_RELAYS] {
        let next = handle_relay_list(RelayListStep::FindUser, kind, 1, Ok(true)).unwrap();
        assert_eq!(next, RelayListStep::SyncRelays { kind, time: 1000 });
    }
}

#[test]
fn account_subscriptions_are_refreshed_for_local_users() {
    let refresh = handle_subscriptions_refresh(&Ok(1));
    assert!(refresh.rebuild_discovery && refresh.refresh_account);
    let missing: Result<u8, WhitenoiseError> = Err(WhitenoiseError::AccountNotFound);
    let refresh = handle_subscriptions_refresh(&missing);
    assert!(refresh.rebuild_discovery && !refresh.refresh_account);
}

// -- Metadata ------------------------------------------------------------

fn unknown_user() -> UserMetadata {
    UserMetadata { metadata: "{}".to_string(), metadata_known_at: None }
}

#[test]
fn valid_blank_kind0_marks_metadata_as_known() {
    let mut user = unknown_user();
    assert!(handle_metadata(&mut user, "{}", Ok(true), 5).unwrap());
    assert_eq!(user.metadata, "{}");
    assert_eq!(user.metadata_known_at, Some(5));
}

#[test]
fn newer_valid_kind0_updates_metadata_and_known_timestamp() {
    let mut user = unknown_user();
    handle_metadata(&mut user, r#"{"name":"older"}"#, Ok(true), 5).unwrap();
    assert!(handle_metadata(&mut user, r#"{ "name" : "newer" }"#, Ok(true), 15).unwrap());
    assert_eq!(user.metadata, r#"{"name":"newer"}"#);
    assert_eq!(user.metadata_known_at, Some(15));
}

#[test]
fn older_valid_kind0_does_not_overwrite_newer_processed_metadata() {
    let mut user = unknown_user();
    handle_metadata(&mut user, r#"{"name":"newer"}"#, Ok(true), 5).unwrap();
    assert!(!handle_metadata(&mut user, r#"{"name":"older"}"#, Ok(false), 15).unwrap());
    assert_eq!(user.metadata, r#"{"name":"newer"}"#);
    assert_eq!(user.metadata_known_at, Some(5));
}

#[test]
fn metadata_that_cannot_be_read_is_an_error() {
    let mut user = unknown_user();
    let result = handle_metadata(&mut user, "not json", Ok(true), 5);
    assert!(matches!(result, Err(WhitenoiseError::EventProcessor(_))));
    assert_eq!(user.metadata_known_at, None);
    assert_eq!(read_metadata(r#"{"about":"me"}"#).unwrap(), r#"{"about":"me"}"#);
    assert!(matches!(
        metadata_result(Err("why".to_string())),
        Err(WhitenoiseError::EventProcessor(e)) if e == "why"
    ));
    assert!(apply_metadata(&mut user, "{}".to_string(), true, 9));
    assert_eq!(user.metadata_known_at, Some(9));
}

#[test]
fn metadata_waits_where_it_is_unknown_whether_it_is_due() {
    let mut user = UserMetadata { metadata: "{}".to_string(), metadata_known_at: None };
    let failed = Err(WhitenoiseError::UserNotFound);
    let result = handle_metadata(&mut user, r#"{"name":"new"}"#, failed, 5);
    assert!(matches!(result, Err(WhitenoiseError::UserNotFound)));
    assert_eq!(user.metadata_known_at, None);
    let failed = Err(WhitenoiseError::UserNotFound);
    assert!(matches!(
        handle_metadata(&mut user, "not json", failed, 5),
        Err(WhitenoiseError::EventProcessor(_))
    ));
}
