use whitenoise::whitenoise::error::WhitenoiseError;
use whitenoise::whitenoise::event_processor::account_event_processor::{
    account_from_event_source, check_giftwrap_target, extract_pubkey_from_subscription_id,
    handler_outcome, needs_published_check, route_account_event_for_processing,
    should_skip_account_event_processing, validate_giftwrap_target, AccountEventProcess,
    EventSource, Handler, HandlerOutcome, HashedAccount, ProcessEnd, ProcessReply, ProcessStep,
    SkipReason,
};
use whitenoise::whitenoise::event_processor::event_handlers::handle_giftwrap::{
    after_decryption, handle_giftwrap, GiftwrapNext,
};
use whitenoise::whitenoise::event_processor::giftwrap_throttle::{
    GiftwrapThrottle, PARTS_PER_TOKEN,
};
use whitenoise::whitenoise::nostr::{
    Event, EventId, PublicKey, Tag, KIND_CONTACT_LIST, KIND_GIFT_WRAP, KIND_MLS_GROUP_MESSAGE,
    KIND_MUTE_LIST,
};

fn key(byte: u8) -> PublicKey {
    PublicKey { bytes: [byte; 32] }
}

fn tag(items: &[&str]) -> Tag {
    Tag { items: items.iter().map(|i| i.to_string()).collect() }
}

fn event(kind: u16, author: u8, tags: Vec<Tag>) -> Event {
    Event {
        id: EventId { bytes: [9; 32] },
        pubkey: key(author),
        created_at: 1_700_000_000,
        kind,
        tags,
        content: String::new(),
    }
}

fn process(kind: u16, should_retry: bool) -> AccountEventProcess {
    AccountEventProcess { kind, created_at: 1_700_000_000, should_retry }
}

/// Which steps were taken, and the values that they carried.
#[derive(Debug, Default)]
struct Trace {
    handled: bool,
    recorded: bool,
    synced: Option<i64>,
    retried_after: Option<String>,
}

/// Runs an event through to its end. The lookups answer with the given
/// values, and the handler ends with `result`.
fn run(
    p: &AccountEventProcess,
    account: bool,
    session: bool,
    result: Result<(), WhitenoiseError>,
) -> (ProcessEnd, Trace) {
    let mut outcome = Some(handler_outcome(result));
    let mut trace = Trace::default();
    let mut step = p.start();
    loop {
        match &step {
            ProcessStep::Handle => trace.handled = true,
            ProcessStep::Record => trace.recorded = true,
            ProcessStep::AdvanceSync(millis) => trace.synced = Some(*millis),
            ProcessStep::ScheduleRetry(error) => trace.retried_after = Some(error.message()),
            _ => {}
        }
        let reply = match &step {
            ProcessStep::FindAccount => ProcessReply::Found(account),
            ProcessStep::FindSession => ProcessReply::Found(session),
            ProcessStep::CheckProcessed | ProcessStep::CheckPublished => {
                ProcessReply::Answer(Some(false))
            }
            ProcessStep::Handle => ProcessReply::Outcome(outcome.take().unwrap()),
            ProcessStep::Record | ProcessStep::AdvanceSync(_) | ProcessStep::ScheduleRetry(_) => {
                ProcessReply::Carried
            }
            ProcessStep::Done(end) => return (*end, trace),
        };
        step = p.process_account_event(step, reply, 1_800_000_000);
    }
}

#[test]
fn test_extract_pubkey_from_subscription_id() {
    let accounts = vec![];
    for id in ["abc123_user_events", "no_underscore", "abc123_user_events_extra"] {
        assert!(extract_pubkey_from_subscription_id(id, &accounts).is_err());
    }
}

#[test]
fn test_extract_pubkey_from_subscription_id_no_underscore() {
    let error = extract_pubkey_from_subscription_id("nounderscore", &vec![]).unwrap_err();
    assert!(error.message().contains("Invalid"));
    assert_eq!(error.message(), "Invalid event: Invalid subscription ID: nounderscore");
}

#[test]
fn test_extract_pubkey_from_subscription_id_matches_account() {
    let accounts = vec![
        HashedAccount { hash: "000000000000".to_string(), pubkey: key(1) },
        HashedAccount { hash: "abcdef012345".to_string(), pubkey: key(2) },
    ];
    let found = extract_pubkey_from_subscription_id("abcdef012345_user_events", &accounts);
    assert!(found.unwrap() == key(2));
}

#[test]
fn account_comes_from_the_subscription() {
    let source = EventSource::RelaySubscription { account_pubkey: Some(key(3)) };
    assert!(account_from_event_source(&source).unwrap() == key(3));
    let source = EventSource::RelaySubscription { account_pubkey: None };
    assert!(matches!(
        account_from_event_source(&source),
        Err(WhitenoiseError::InvalidEvent(_))
    ));
}

#[test]
fn test_route_account_event_unhandled_kind() {
    let route = route_account_event_for_processing(&key(1), &event(1, 1, vec![]));
    assert_eq!(route.unwrap(), Handler::Unhandled);
}

#[test]
fn test_group_relay_fanout_preserves_account_scoped_processing() {
    for account in [1u8, 2] {
        let wire = event(KIND_MLS_GROUP_MESSAGE, 1, vec![]);
        let route = route_account_event_for_processing(&key(account), &wire).unwrap();
        assert_eq!(route, Handler::MlsMessage);
        let (end, trace) =
            run(&process(KIND_MLS_GROUP_MESSAGE, true), true, true, Ok(()));
        assert_eq!(end, ProcessEnd::Processed);
        assert!(trace.recorded);
    }
}

#[test]
fn test_account_mute_list_stream_routes_to_account_event_processor() {
    let list = event(KIND_MUTE_LIST, 1, vec![]);
    assert_eq!(
        route_account_event_for_processing(&key(1), &list).unwrap(),
        Handler::MuteList
    );
    let (end, trace) = run(&process(KIND_MUTE_LIST, true), true, true, Ok(()));
    assert_eq!(end, ProcessEnd::Processed);
    assert!(trace.recorded);
}

#[test]
fn test_validate_giftwrap_target_missing_p_tag() {
    let error = validate_giftwrap_target(&key(1), &vec![]).unwrap_err();
    assert!(error.message().contains("No valid target pubkey"));
}

#[test]
fn giftwrap_target_has_to_be_the_account() {
    let hex = key(1).to_hex();
    assert_eq!(hex, "01".repeat(32));
    assert!(validate_giftwrap_target(&key(1), &vec![tag(&["p", &hex])]).is_ok());
    let error = validate_giftwrap_target(&key(2), &vec![tag(&["p", &hex])]).unwrap_err();
    assert!(error.message().contains(&hex));
    assert!(error.message().contains(&key(2).to_hex()));
    assert!(validate_giftwrap_target(&key(1), &vec![tag(&["p", "not a key"])]).is_err());
    assert!(check_giftwrap_target(&key(1), Some(key(1))).is_ok());
    assert!(check_giftwrap_target(&key(1), Some(key(2))).is_err());
    assert!(check_giftwrap_target(&key(1), None).is_err());
}

#[test]
fn giftwrap_for_somebody_else_is_not_routed() {
    let wrap = event(KIND_GIFT_WRAP, 5, vec![tag(&["p", &key(1).to_hex()])]);
    assert_eq!(
        route_account_event_for_processing(&key(1), &wrap).unwrap(),
        Handler::GiftWrap
    );
    assert!(route_account_event_for_processing(&key(2), &wrap).is_err());
}

#[test]
fn test_process_account_event_discards_when_session_missing() {
    let (end, trace) =
        run(&process(KIND_CONTACT_LIST, true), true, false, Ok(()));
    assert_eq!(end, ProcessEnd::NoSession);
    assert!(!trace.recorded);
    assert!(!trace.handled);
}

#[test]
fn unknown_account_ends_the_work() {
    let (end, _) = run(&process(KIND_CONTACT_LIST, true), false, true, Ok(()));
    assert_eq!(end, ProcessEnd::NoAccount);
}

#[test]
fn test_throttled_giftwrap_is_not_recorded_as_processed() {
    let mut throttle = GiftwrapThrottle::default_for_account(0);
    while throttle.try_acquire(0) {}
    let result = handle_giftwrap(&key(1), true, &mut throttle, 0);
    assert!(matches!(result, Err(WhitenoiseError::GiftwrapThrottled)));
    let (end, trace) = run(&process(KIND_GIFT_WRAP, true), true, true, result);
    assert_eq!(end, ProcessEnd::Deferred);
    assert!(!trace.recorded);
    assert!(trace.retried_after.is_none());
}

#[test]
fn test_undecryptable_giftwrap_is_terminal_not_retried() {
    let mut throttle = GiftwrapThrottle::default_for_account(0);
    let before = throttle.tokens();
    handle_giftwrap(&key(1), true, &mut throttle, 0).unwrap();
    let decrypted = after_decryption(None, true);
    assert!(matches!(decrypted, Ok(GiftwrapNext::Undecryptable)));
    let (end, trace) =
        run(&process(KIND_GIFT_WRAP, true), true, true, decrypted.map(|_| ()));
    assert_eq!(end, ProcessEnd::Processed);
    assert!(trace.recorded);
    assert!(trace.retried_after.is_none());
    assert_eq!(before - throttle.tokens(), PARTS_PER_TOKEN);
}

#[test]
fn test_external_signer_decrypt_failure_is_deferred_not_terminal() {
    let result = after_decryption(None, false).map(|_| ());
    assert!(matches!(result, Err(WhitenoiseError::GiftwrapDeferred)));
    let (end, trace) = run(&process(KIND_GIFT_WRAP, true), true, true, result);
    assert_eq!(end, ProcessEnd::Deferred);
    assert!(!trace.recorded);
    assert!(trace.retried_after.is_none());
}

#[test]
fn giftwrap_without_a_signer_takes_no_token() {
    let mut throttle = GiftwrapThrottle::default_for_account(0);
    let result = handle_giftwrap(&key(1), false, &mut throttle, 0);
    assert!(matches!(result, Err(WhitenoiseError::SignerUnavailable(k)) if k == key(1)));
    assert_eq!(throttle.tokens(), 60 * PARTS_PER_TOKEN);
}

#[test]
fn failures_are_retried_while_attempts_are_left() {
    assert!(matches!(
        handler_outcome(Err(WhitenoiseError::GroupNotFound)),
        HandlerOutcome::Failed(WhitenoiseError::GroupNotFound)
    ));
    let failed = || Err(WhitenoiseError::GroupNotFound);
    let (end, trace) = run(&process(KIND_CONTACT_LIST, true), true, true, failed());
    assert_eq!(end, ProcessEnd::Retried);
    assert_eq!(trace.retried_after, Some(WhitenoiseError::GroupNotFound.message()));
    let (end, trace) = run(&process(KIND_CONTACT_LIST, false), true, true, failed());
    assert_eq!(end, ProcessEnd::GivenUp);
    assert!(trace.retried_after.is_none());
}

#[test]
fn known_events_are_skipped() {
    assert_eq!(
        should_skip_account_event_processing(1, Some(true), None),
        Some(SkipReason::AlreadyProcessed)
    );
    assert_eq!(
        should_skip_account_event_processing(1, Some(false), Some(true)),
        Some(SkipReason::SelfPublished)
    );
    assert_eq!(should_skip_account_event_processing(1, None, None), None);
    assert!(!needs_published_check(1, Some(true)));
    assert!(needs_published_check(1, Some(false)));
    assert!(!needs_published_check(KIND_MLS_GROUP_MESSAGE, Some(false)));
    assert_eq!(
        should_skip_account_event_processing(KIND_MLS_GROUP_MESSAGE, Some(false), Some(true)),
        None
    );
    assert_eq!(SkipReason::AlreadyProcessed.as_str(), "already processed");
    assert_eq!(SkipReason::SelfPublished.as_str(), "self-published event");
}

#[test]
fn sync_time_follows_the_event_but_not_the_future() {
    let (_, trace) = run(&process(KIND_CONTACT_LIST, true), true, true, Ok(()));
    assert_eq!(trace.synced, Some(1_700_000_000_000));
    let late = AccountEventProcess {
        kind: KIND_CONTACT_LIST,
        created_at: 1_900_000_000,
        should_retry: true,
    };
    let (_, trace) = run(&late, true, true, Ok(()));
    assert_eq!(trace.synced, Some(1_800_000_000_000));
    let (_, trace) = run(&process(KIND_GIFT_WRAP, true), true, true, Ok(()));
    assert_eq!(trace.synced, None);
}
