use whitenoise::whitenoise::error::WhitenoiseError;
use whitenoise::whitenoise::event_processor::event_handlers::handle_mls_message::{
    collect_marmot_message_route, collect_marmot_publish_work_routes,
    ensure_marmot_inbound_publish_succeeded, finish_marmot_mls_message,
    handle_deletion_application_message, handle_marmot_application_message,
    handle_marmot_group_event, handle_marmot_member_removed, handle_mls_message,
    handle_standard_marmot_application_message, ingest_marmot_mls_message,
    marmot_publish_routes_for_session_effects, marmot_sender_push_leaf_index,
    marmot_transport_message_from_event, publish_marmot_welcome_effects, recipient_pubkey,
    refresh_marmot_group_projection_after_event, require_session_for_cache,
    require_session_for_routes,
    ApplicationStep, ChatListUpdateTrigger, Emission, GroupEvent, GroupEventAction,
    IngestOutcome, IngestReply, IngestStep, MemberLeaf, PendingResolution, PublishWork,
    PublishedEffects, RefreshStep, Routes, StaleReason, TransportEnvelope,
};
use whitenoise::whitenoise::event_processor::event_handlers::message_cache::{
    extract_deletion_target_ids, extract_reaction_target_id, ChatMessage, DeliveryStatus,
    MarmotMessage, MessageCache, UpdateTrigger,
};
use whitenoise::whitenoise::nostr::{
    PublicKey, Tag, KIND_CHAT_MESSAGE, KIND_EVENT_DELETION, KIND_REACTION,
};

fn key(byte: u8) -> PublicKey {
    PublicKey { bytes: [byte; 32] }
}

fn tag(items: &[&str]) -> Tag {
    Tag { items: items.iter().map(|i| i.to_string()).collect() }
}

fn message(id: &str, author: u8, kind: u16, targets: &[&str], content: &str) -> MarmotMessage {
    MarmotMessage {
        id: id.to_string(),
        pubkey: key(author),
        created_at: 1_700_000_000,
        kind,
        tags: targets.iter().map(|t| tag(&["e", t])).collect(),
        content: content.to_string(),
        emoji: if kind == KIND_REACTION && !content.is_empty() {
            Some(content.to_string())
        } else {
            None
        },
    }
}

fn chat(id: &str, author: u8, content: &str) -> MarmotMessage {
    message(id, author, KIND_CHAT_MESSAGE, &[], content)
}

fn reaction(id: &str, author: u8, target: &str, content: &str) -> MarmotMessage {
    message(id, author, KIND_REACTION, &[target], content)
}

fn deletion(id: &str, author: u8, targets: &[&str]) -> MarmotMessage {
    message(id, author, KIND_EVENT_DELETION, targets, "")
}

fn shown(cache: &MessageCache, id: &str) -> ChatMessage {
    cache.find_by_id(id).unwrap()
}

fn handle(cache: &mut MessageCache, m: MarmotMessage) -> Vec<Emission> {
    handle_standard_marmot_application_message(Ok(()), cache, &m, None).unwrap()
}

#[test]
fn test_helper_methods() {
    let target = extract_reaction_target_id(&vec![tag(&["e", "test_event_id"])]).unwrap();
    assert_eq!(target, "test_event_id");
    assert!(extract_reaction_target_id(&vec![]).is_err());
    let targets = extract_deletion_target_ids(&vec![
        tag(&["e", "id1"]),
        tag(&["e", "id2"]),
        tag(&["p", "some_pubkey"]),
    ]);
    assert_eq!(targets.len(), 2);
    assert!(targets.contains(&"id1".to_string()));
    assert!(targets.contains(&"id2".to_string()));
}

#[test]
fn test_handle_mls_message_different_types() {
    let mut cache = MessageCache::new();
    let told = handle(&mut cache, chat("m1", 1, "hello"));
    assert!(matches!(
        &told[..],
        [
            Emission::Notification(a),
            Emission::Message(b),
            Emission::ChatList(ChatListUpdateTrigger::NewLastMessage)
        ] if a.content == "hello" && b.trigger == UpdateTrigger::NewMessage
    ));
    let told = handle(&mut cache, reaction("r1", 2, "m1", "+"));
    assert!(matches!(
        &told[..],
        [Emission::Message(u)] if u.trigger == UpdateTrigger::ReactionAdded && u.message.reactions.len() == 1
    ));
    let told = handle_deletion_application_message(
        &mut cache,
        &deletion("d1", 1, &["m1"]),
        Some(&"m1".to_string()),
    );
    assert!(matches!(
        &told[..],
        [
            Emission::Message(u),
            Emission::ChatList(ChatListUpdateTrigger::LastMessageDeleted)
        ] if u.trigger == UpdateTrigger::MessageDeleted && u.message.id == "m1"
    ));
    assert!(shown(&cache, "m1").is_deleted());
    let told = handle(&mut cache, message("x", 1, 30_078, &[], "other"));
    assert!(told.is_empty());
}

#[test]
fn deleting_an_older_message_leaves_the_chat_list() {
    let mut cache = MessageCache::new();
    handle(&mut cache, chat("m1", 1, "older"));
    handle(&mut cache, chat("m2", 1, "newer"));
    let told = handle_deletion_application_message(
        &mut cache,
        &deletion("d1", 1, &["m1"]),
        Some(&"m2".to_string()),
    );
    assert_eq!(told.len(), 1);
}

#[test]
fn test_handle_darkmatter_duplicate_message_is_idempotent() {
    let mut cache = MessageCache::new();
    cache.cache_chat_message(&chat("m1", 1, "once"));
    cache.cache_reaction(&reaction("r1", 2, "m1", "+")).unwrap();
    let first = shown(&cache, "m1");
    cache.cache_chat_message(&chat("m1", 1, "once"));
    let second = shown(&cache, "m1");
    assert_eq!(first.content, second.content);
    assert_eq!(first.reactions.len(), second.reactions.len());
}

#[test]
fn test_handle_mls_message_rejects_cross_author_deletion() {
    let mut cache = MessageCache::new();
    cache.cache_chat_message(&chat("m1", 1, "Protected admin message"));
    let updates = cache.cache_deletion(&deletion("d1", 3, &["m1"]));
    assert!(updates.is_empty());
    assert!(!shown(&cache, "m1").is_deleted());
}

#[test]
fn test_handle_mls_message_rejects_cross_author_orphaned_deletion() {
    let mut cache = MessageCache::new();
    cache.cache_deletion(&deletion("d1", 3, &["m1"]));
    let late = cache.cache_chat_message(&chat("m1", 1, "Late protected admin message"));
    assert!(!late.is_deleted());
    assert!(!shown(&cache, "m1").is_deleted());
}

#[test]
fn deletion_by_the_author_may_come_first() {
    let mut cache = MessageCache::new();
    cache.cache_deletion(&deletion("d1", 1, &["m1"]));
    assert!(cache.cache_chat_message(&chat("m1", 1, "gone")).is_deleted());
}

#[test]
fn test_handle_mls_message_rejects_cross_author_reaction_deletion() {
    let mut cache = MessageCache::new();
    cache.cache_chat_message(&chat("m1", 1, "Reaction parent"));
    cache.cache_reaction(&reaction("r1", 1, "m1", "+")).unwrap();
    cache.cache_deletion(&deletion("d1", 3, &["r1"]));
    assert_eq!(shown(&cache, "m1").reactions.len(), 1);
    let updates = cache.cache_deletion(&deletion("d2", 1, &["r1"]));
    assert_eq!(updates.len(), 1);
    assert_eq!(updates[0].trigger, UpdateTrigger::ReactionRemoved);
    assert!(shown(&cache, "m1").reactions.is_empty());
}

#[test]
fn test_cache_chat_message_preserves_existing_delivery_status() {
    let mut cache = MessageCache::new();
    let m = chat("m1", 1, "Echo status preservation");
    assert_eq!(cache.cache_chat_message(&m).delivery_status, None);
    cache.update_delivery_status("m1", DeliveryStatus::Sent(1));
    let second = cache.cache_chat_message(&m);
    assert_eq!(second.delivery_status, Some(DeliveryStatus::Sent(1)));
    assert_eq!(shown(&cache, "m1").delivery_status, Some(DeliveryStatus::Sent(1)));
}

#[test]
fn test_handle_mls_message_orphaned_reactions_and_deletions() {
    let mut cache = MessageCache::new();
    assert!(handle(&mut cache, reaction("r1", 1, "m1", "+")).is_empty());
    handle(&mut cache, chat("m1", 1, "Late message"));
    assert_eq!(shown(&cache, "m1").reactions.len(), 1);
    assert_eq!(shown(&cache, "m1").reactions[0].emoji, "+");
}

#[test]
fn test_invalid_orphaned_reactions_are_skipped() {
    let mut cache = MessageCache::new();
    handle(&mut cache, reaction("r1", 1, "m1", "\u{1F44D}"));
    handle(&mut cache, reaction("r2", 1, "m1", ""));
    handle(&mut cache, chat("m1", 1, "Target message"));
    assert_eq!(shown(&cache, "m1").reactions.len(), 1);
}

#[test]
fn reaction_that_names_nothing_is_an_error() {
    let mut cache = MessageCache::new();
    let mut m = reaction("r1", 1, "m1", "+");
    m.tags = vec![];
    let result = handle_standard_marmot_application_message(Ok(()), &mut cache, &m, None);
    assert!(matches!(result, Err(WhitenoiseError::MessageAggregation(_))));
    cache.cache_chat_message(&chat("m1", 1, "hello"));
    let result = handle_standard_marmot_application_message(
        Ok(()),
        &mut cache,
        &reaction("r2", 1, "m1", ""),
        None,
    );
    assert!(matches!(result, Err(WhitenoiseError::MessageAggregation(_))));
}

#[test]
fn echoes_of_own_events_change_nothing() {
    let mut cache = MessageCache::new();
    cache.cache_chat_message(&chat("m1", 1, "hello"));
    cache.note_outgoing("r1".to_string());
    assert!(cache.has_delivery_status("r1"));
    assert!(!cache.has_delivery_status("r2"));
    assert!(cache.cache_reaction(&reaction("r1", 1, "m1", "+")).unwrap().is_none());
    assert!(shown(&cache, "m1").reactions.is_empty());
}

#[test]
fn test_handle_mls_message_cache_integration() {
    let mut cache = MessageCache::new();
    for i in 1..=3 {
        handle(&mut cache, chat(&format!("m{i}"), 1, &format!("Message {i}")));
    }
    for i in 1..=3 {
        assert_eq!(shown(&cache, &format!("m{i}")).content, format!("Message {i}"));
    }
    assert!(cache.find_by_id("m4").is_none());
}

#[test]
fn session_of_another_account_is_refused() {
    assert!(handle_mls_message(&key(1), &key(1)).is_ok());
    assert!(matches!(
        handle_mls_message(&key(1), &key(2)),
        Err(WhitenoiseError::AccountNotFound)
    ));
}

#[test]
fn test_handle_mls_message_error_handling() {
    let read: Result<Result<u8, String>, String> = Err("bad event".to_string());
    let error = marmot_transport_message_from_event(read).unwrap_err();
    assert_eq!(error.message(), "Invalid event: invalid Darkmatter Nostr event: bad event");
    let read: Result<Result<u8, String>, String> = Ok(Err("bad message".to_string()));
    let error = marmot_transport_message_from_event(read).unwrap_err();
    assert_eq!(
        error.message(),
        "Invalid event: invalid Darkmatter transport event: bad message"
    );
    assert_eq!(marmot_transport_message_from_event(Ok(Ok(7u8))).unwrap(), 7);
    let next =
        ingest_marmot_mls_message(IngestStep::Decode, Err(WhitenoiseError::MessageNotFound));
    assert!(matches!(next, Err(WhitenoiseError::MessageNotFound)));
}

#[test]
fn test_handle_mls_message_darkmatter_route_miss_does_not_fall_back_to_obsolete_mls_storage() {
    let next =
        ingest_marmot_mls_message(IngestStep::Recognize, Ok(IngestReply::Recognized(false)));
    assert_eq!(next.unwrap(), IngestStep::Ignored);
    for reason in [StaleReason::UnknownGroup, StaleReason::PeelFailed, StaleReason::NotForThisClient] {
        let reply = IngestReply::Outcome(IngestOutcome::Stale(reason));
        let next = ingest_marmot_mls_message(IngestStep::Ingest, Ok(reply));
        assert_eq!(next.unwrap(), IngestStep::Ignored);
    }
}

#[test]
fn test_handle_mls_message_darkmatter_event_without_marmot_does_not_fall_back_to_obsolete_mls_storage(
) {
    let missing = WhitenoiseError::MarmotSessionUnavailable(key(1));
    assert!(matches!(
        ingest_marmot_mls_message(IngestStep::FindSession, Err(missing)),
        Err(WhitenoiseError::MarmotSessionUnavailable(k)) if k == key(1)
    ));
}

#[test]
fn other_messages_are_taken_in() {
    let mut step = IngestStep::Decode;
    for reply in [IngestReply::Done, IngestReply::Done, IngestReply::Recognized(true)] {
        step = ingest_marmot_mls_message(step, Ok(reply)).unwrap();
    }
    assert_eq!(step, IngestStep::Ingest);
    for outcome in [
        IngestOutcome::Processed,
        IngestOutcome::Buffered,
        IngestOutcome::Stale(StaleReason::Other),
    ] {
        let next = ingest_marmot_mls_message(step, Ok(IngestReply::Outcome(outcome)));
        assert_eq!(next.unwrap(), IngestStep::Processed);
    }
}

fn effects(pending: Vec<PendingResolution>, failures: &[&str], queued: u64) -> PublishedEffects {
    PublishedEffects {
        pending,
        failures: failures.iter().map(|f| f.to_string()).collect(),
        queued,
    }
}

fn failure(e: WhitenoiseError) -> String {
    match e {
        WhitenoiseError::MarmotPublishFailed(reason) => reason,
        other => panic!("unexpected error {other:?}"),
    }
}

#[test]
fn rolled_back_changes_fail_the_publication() {
    let rolled = effects(vec![PendingResolution::Confirmed, PendingResolution::RolledBack], &[], 0);
    let e = ensure_marmot_inbound_publish_succeeded(&rolled).unwrap_err();
    assert_eq!(failure(e), "Darkmatter inbound pending state was rolled back");
    let rolled = effects(vec![PendingResolution::RolledBack], &["relay down", "later"], 0);
    let e = ensure_marmot_inbound_publish_succeeded(&rolled).unwrap_err();
    assert_eq!(failure(e), "relay down");
    let e = finish_marmot_mls_message(&rolled, 3, 0, Ok(())).unwrap_err();
    assert_eq!(failure(e), "relay down");
}

#[test]
fn failures_beside_confirmed_changes_are_let_pass() {
    let failed = effects(vec![], &["relay down"], 0);
    let e = ensure_marmot_inbound_publish_succeeded(&failed).unwrap_err();
    assert_eq!(failure(e), "relay down");
    let confirmed = effects(vec![PendingResolution::Confirmed], &["relay down"], 0);
    assert!(ensure_marmot_inbound_publish_succeeded(&confirmed).is_ok());
    assert!(ensure_marmot_inbound_publish_succeeded(&effects(vec![], &[], 0)).is_ok());
}

#[test]
fn welcome_may_leave_nothing_queued() {
    assert!(publish_marmot_welcome_effects(&effects(vec![], &[], 0)).is_ok());
    let e = publish_marmot_welcome_effects(&effects(vec![], &[], 12)).unwrap_err();
    match e {
        WhitenoiseError::Internal(m) => assert_eq!(
            m,
            "Darkmatter welcome queued 12 follow-up intent(s); queued intent driver is not implemented"
        ),
        other => panic!("unexpected error {other:?}"),
    }
}

#[test]
fn group_events_are_handled_in_order() {
    let published = effects(vec![PendingResolution::Confirmed], &[], 0);
    assert_eq!(finish_marmot_mls_message(&published, 2, 0, Ok(())).unwrap(), Some(0));
    assert_eq!(finish_marmot_mls_message(&published, 2, 1, Ok(())).unwrap(), Some(1));
    assert_eq!(finish_marmot_mls_message(&published, 2, 2, Ok(())).unwrap(), None);
    let stopped =
        finish_marmot_mls_message(&published, 2, 1, Err(WhitenoiseError::GroupNotFound));
    assert!(matches!(stopped, Err(WhitenoiseError::GroupNotFound)));
}

fn to_group(id: u8) -> TransportEnvelope {
    TransportEnvelope::GroupMessage { transport_group_id: vec![id; 4] }
}

fn to_inbox(id: u8) -> TransportEnvelope {
    TransportEnvelope::Welcome { recipient: vec![id; 32] }
}

#[test]
fn routes_are_collected_once_each() {
    let publish = vec![
        PublishWork::ApplicationMessage { msg: to_group(1) },
        PublishWork::GroupEvolution { msg: to_group(1), welcomes: vec![to_inbox(8), to_inbox(7)] },
        PublishWork::GroupCreated { welcomes: vec![to_inbox(8)] },
        PublishWork::Proposal { msg: to_group(2) },
        PublishWork::AutoPublish { msg: to_group(1) },
    ];
    let routes = marmot_publish_routes_for_session_effects(&publish);
    assert_eq!(routes.transport_group_ids, vec![vec![1u8; 4], vec![2u8; 4]]);
    assert_eq!(routes.inbox_recipients, vec![vec![8u8; 32], vec![7u8; 32]]);
    assert!(require_session_for_routes(&routes, true, &key(1)).is_ok());
    assert!(matches!(
        require_session_for_routes(&routes, false, &key(1)),
        Err(WhitenoiseError::MarmotSessionUnavailable(_))
    ));
}

#[test]
fn routes_can_be_added_to() {
    let mut routes = Routes { transport_group_ids: vec![], inbox_recipients: vec![vec![8; 32]] };
    collect_marmot_message_route(&to_inbox(8), &mut routes);
    assert_eq!(routes.inbox_recipients.len(), 1);
    collect_marmot_publish_work_routes(
        &PublishWork::GroupCreated { welcomes: vec![to_inbox(9)] },
        &mut routes,
    );
    assert_eq!(routes.inbox_recipients.len(), 2);
    assert!(require_session_for_routes(&routes, false, &key(1)).is_ok());
}

#[test]
fn recipients_are_keys() {
    assert!(recipient_pubkey(&vec![5; 32]).unwrap() == key(5));
    let e = recipient_pubkey(&vec![5; 31]).unwrap_err();
    assert_eq!(
        e.message(),
        "Invalid input: invalid Marmot welcome recipient identity: Invalid public key"
    );
}

#[test]
fn group_events_call_for_their_action() {
    let me = vec![1u8; 32];
    for (event, action) in [
        (
            GroupEvent::MessageReceived { sender: vec![], payload: vec![] },
            GroupEventAction::HandleMessage,
        ),
        (GroupEvent::MemberAdded, GroupEventAction::RefreshProjection),
        (GroupEvent::EpochChanged, GroupEventAction::RefreshProjection),
        (GroupEvent::ForkRecovered, GroupEventAction::RefreshProjection),
        (GroupEvent::GroupCreated, GroupEventAction::RefreshProjection),
        (GroupEvent::GroupJoined, GroupEventAction::RefreshProjection),
        (
            GroupEvent::MemberRemoved { member: vec![2; 32] },
            GroupEventAction::RefreshProjection,
        ),
        (
            GroupEvent::MemberRemoved { member: vec![1; 32] },
            GroupEventAction::MarkRemovedAndRefresh,
        ),
        (GroupEvent::AppMessageInvalidated, GroupEventAction::Nothing),
        (GroupEvent::GroupUnrecoverable, GroupEventAction::Nothing),
    ] {
        let decided = handle_marmot_group_event(&event, &key(9), Some(&me));
        assert_eq!(decided.unwrap(), action, "{event:?}");
    }
    assert_eq!(
        handle_marmot_member_removed(&me, &key(9), Some(&me)).unwrap(),
        GroupEventAction::MarkRemovedAndRefresh
    );
}

#[test]
fn only_removals_need_the_group_session() {
    let removed = GroupEvent::MemberRemoved { member: vec![2; 32] };
    assert!(matches!(
        handle_marmot_group_event(&removed, &key(9), None),
        Err(WhitenoiseError::MarmotSessionUnavailable(k)) if k == key(9)
    ));
    let added = handle_marmot_group_event(&GroupEvent::MemberAdded, &key(9), None);
    assert_eq!(added.unwrap(), GroupEventAction::RefreshProjection);
}

#[test]
fn refresh_goes_on_without_tokens_but_not_without_the_group() {
    let f = refresh_marmot_group_projection_after_event;
    assert_eq!(f(RefreshStep::FindAccountGroup, Ok(false)).unwrap(), RefreshStep::Done);
    let mut step = RefreshStep::FindAccountGroup;
    let mut steps = vec![];
    while step != RefreshStep::Done {
        step = f(step, Ok(true)).unwrap();
        steps.push(step);
    }
    assert_eq!(
        steps,
        vec![
            RefreshStep::Project,
            RefreshStep::Store,
            RefreshStep::ReconcileTokens,
            RefreshStep::RefreshSubscriptions,
            RefreshStep::SyncImage,
            RefreshStep::Done,
        ]
    );
    assert_eq!(
        f(RefreshStep::ReconcileTokens, Err(WhitenoiseError::GroupNotFound)).unwrap(),
        RefreshStep::RefreshSubscriptions
    );
    assert!(f(RefreshStep::Store, Err(WhitenoiseError::GroupNotFound)).is_err());
}

#[test]
fn application_messages_are_told_apart() {
    let f = handle_marmot_application_message;
    assert_eq!(f(ApplicationStep::FindAccountGroup, Ok(false)).unwrap(), ApplicationStep::Done);
    assert_eq!(f(ApplicationStep::FindAccountGroup, Ok(true)).unwrap(), ApplicationStep::ReadEpoch);
    assert_eq!(f(ApplicationStep::ReadEpoch, Ok(true)).unwrap(), ApplicationStep::Decode);
    assert_eq!(f(ApplicationStep::Decode, Ok(false)).unwrap(), ApplicationStep::HandleStandard);
    assert_eq!(f(ApplicationStep::Decode, Ok(true)).unwrap(), ApplicationStep::FindSenderLeaf);
    assert_eq!(f(ApplicationStep::FindSenderLeaf, Ok(true)).unwrap(), ApplicationStep::HandlePush);
    for last in [ApplicationStep::HandlePush, ApplicationStep::HandleStandard] {
        assert_eq!(f(last, Ok(true)).unwrap(), ApplicationStep::Done);
    }
    let failed = f(ApplicationStep::HandlePush, Err(WhitenoiseError::GroupNotFound));
    assert_eq!(failed.unwrap(), ApplicationStep::Done);
    for step in [ApplicationStep::ReadEpoch, ApplicationStep::FindSenderLeaf] {
        assert!(matches!(
            f(step, Err(WhitenoiseError::GroupNotFound)),
            Err(WhitenoiseError::GroupNotFound)
        ));
    }
}

#[test]
fn message_that_cannot_be_stored_is_not_shown() {
    let mut cache = MessageCache::new();
    let result = handle_standard_marmot_application_message(
        Err(WhitenoiseError::GroupNotFound),
        &mut cache,
        &chat("m1", 1, "hello"),
        None,
    );
    assert!(matches!(result, Err(WhitenoiseError::GroupNotFound)));
    assert!(cache.find_by_id("m1").is_none());
}

#[test]
fn push_sender_is_found_among_the_leaves() {
    let leaves = vec![
        MemberLeaf { index: 0, pubkey: key(1) },
        MemberLeaf { index: 4, pubkey: key(2) },
        MemberLeaf { index: 6, pubkey: key(2) },
    ];
    let find = |sender: u8, len: usize| {
        marmot_sender_push_leaf_index(&vec![sender; len], &key(9), Some(&leaves))
    };
    assert_eq!(find(2, 32).unwrap(), Some(4));
    assert_eq!(find(3, 32).unwrap(), None);
    assert_eq!(
        find(2, 33).unwrap_err().message(),
        "Invalid input: invalid Darkmatter push sender pubkey: Invalid public key"
    );
    assert!(matches!(
        marmot_sender_push_leaf_index(&vec![2; 32], &key(9), None),
        Err(WhitenoiseError::MarmotSessionUnavailable(k)) if k == key(9)
    ));
}

#[test]
fn deletions_leave_their_event() {
    let mut cache = MessageCache::new();
    cache.cache_chat_message(&chat("m1", 1, "hello"));
    assert_eq!(shown(&cache, "m1").deletion_event_id, None);
    assert!(cache.apply_single_deletion(&key(1), "unknown", "d0").is_none());
    assert!(cache.apply_single_deletion(&key(2), "m1", "d0").is_none());
    assert_eq!(shown(&cache, "m1").deletion_event_id, None);
    let update = cache.apply_single_deletion(&key(1), "m1", "d1").unwrap();
    assert_eq!(update.trigger, UpdateTrigger::MessageDeleted);
    assert_eq!(update.message.deletion_event_id.as_deref(), Some("d1"));
    assert_eq!(shown(&cache, "m1").deletion_event_id.as_deref(), Some("d1"));
}

#[test]
fn deletion_that_came_first_leaves_its_event() {
    let mut cache = MessageCache::new();
    cache.cache_deletion(&deletion("d1", 2, &["m1"]));
    cache.cache_deletion(&deletion("d2", 1, &["m0", "m1"]));
    let late = cache.cache_chat_message(&chat("m1", 1, "late"));
    assert_eq!(late.deletion_event_id.as_deref(), Some("d2"));
}

#[test]
fn deleted_reactions_are_deleted_once() {
    let mut cache = MessageCache::new();
    cache.cache_chat_message(&chat("m1", 1, "hello"));
    cache.cache_reaction(&reaction("r1", 2, "m1", "+")).unwrap();
    let update = cache.apply_single_deletion(&key(2), "r1", "d1").unwrap();
    assert_eq!(update.trigger, UpdateTrigger::ReactionRemoved);
    assert!(update.message.reactions.is_empty());
    assert!(!update.message.is_deleted());
    assert!(cache.apply_single_deletion(&key(2), "r1", "d2").is_none());
}

#[test]
fn shown_messages_need_a_session() {
    for kind in [KIND_CHAT_MESSAGE, KIND_REACTION, KIND_EVENT_DELETION] {
        assert!(require_session_for_cache(kind, true).is_ok());
        assert!(matches!(
            require_session_for_cache(kind, false),
            Err(WhitenoiseError::AccountNotFound)
        ));
    }
    assert!(require_session_for_cache(30_078, false).is_ok());
}

#[test]
fn test_handle_mls_message_accepts_darkmatter_app_message() {
    let mut step = IngestStep::Decode;
    for reply in [
        IngestReply::Done,
        IngestReply::Done,
        IngestReply::Recognized(true),
        IngestReply::Outcome(IngestOutcome::Processed),
    ] {
        step = ingest_marmot_mls_message(step, Ok(reply)).unwrap();
    }
    assert_eq!(step, IngestStep::Processed);

    let event = GroupEvent::MessageReceived { sender: vec![1; 32], payload: vec![] };
    let action = handle_marmot_group_event(&event, &key(2), Some(&vec![2; 32])).unwrap();
    assert_eq!(action, GroupEventAction::HandleMessage);

    let mut cache = MessageCache::new();
    let mut app_message = chat("m1", 1, "hello through darkmatter ingest");
    app_message.tags.push(tag(&["imeta", "m image/png", "filename darkmatter-media.png"]));
    handle(&mut cache, app_message);
    let cached = shown(&cache, "m1");
    assert_eq!(cached.content, "hello through darkmatter ingest");
    assert!(cached.author == key(1));
}

#[test]
fn test_handle_mls_message_publishes_darkmatter_selfremove_auto_commit() {
    let group = vec![4u8; 32];
    let publish = vec![PublishWork::AutoPublish {
        msg: TransportEnvelope::GroupMessage { transport_group_id: group.clone() },
    }];
    let routes = marmot_publish_routes_for_session_effects(&publish);
    assert_eq!(routes.transport_group_ids, vec![group]);
    assert!(routes.inbox_recipients.is_empty());
    assert!(require_session_for_routes(&routes, true, &key(1)).is_ok());

    let published = effects(vec![PendingResolution::Confirmed], &[], 0);
    assert_eq!(finish_marmot_mls_message(&published, 1, 0, Ok(())).unwrap(), Some(0));
    assert_eq!(finish_marmot_mls_message(&published, 1, 1, Ok(())).unwrap(), None);
    let bob_left = GroupEvent::MemberRemoved { member: vec![2; 32] };
    let action = handle_marmot_group_event(&bob_left, &key(1), Some(&vec![1; 32])).unwrap();
    assert_eq!(action, GroupEventAction::RefreshProjection);
}

#[test]
fn test_handle_mls_message_emits_removed_from_group_after_darkmatter_removal_commit() {
    let carol = vec![3u8; 32];
    let removed = GroupEvent::MemberRemoved { member: carol.clone() };
    let action = handle_marmot_group_event(&removed, &key(3), Some(&carol)).unwrap();
    assert_eq!(action, GroupEventAction::MarkRemovedAndRefresh);
}

/// What a cached message shows: its deletion, and each reaction with its author.
fn state(cache: &MessageCache, id: &str) -> (Option<String>, Vec<(String, [u8; 32])>) {
    let m = shown(cache, id);
    let reactions = m.reactions.iter().map(|r| (r.emoji.clone(), r.author.bytes)).collect();
    (m.deletion_event_id, reactions)
}

#[test]
fn deletion_of_several_events_may_come_first() {
    let start = || {
        let mut cache = MessageCache::new();
        cache.cache_chat_message(&chat("m0", 1, "other"));
        cache.cache_reaction(&reaction("r0", 1, "m0", "+")).unwrap();
        cache.cache_reaction(&reaction("r1", 1, "m1", "+")).unwrap();
        cache.cache_reaction(&reaction("r2", 2, "m1", "-")).unwrap();
        cache
    };
    let deletes = || deletion("d1", 1, &["m0", "r0", "m1", "r1", "r2", "unknown"]);
    let mut deletion_first = start();
    deletion_first.cache_deletion(&deletes());
    deletion_first.cache_chat_message(&chat("m1", 1, "late"));
    let mut message_first = start();
    message_first.cache_chat_message(&chat("m1", 1, "late"));
    message_first.cache_deletion(&deletes());
    for id in ["m0", "m1"] {
        assert_eq!(state(&deletion_first, id), state(&message_first, id));
        assert_eq!(state(&deletion_first, id).0.as_deref(), Some("d1"));
    }
    assert_eq!(state(&deletion_first, "m1").1, vec![("-".to_string(), [2; 32])]);
}

#[test]
fn reaction_that_cannot_be_shown_may_come_first() {
    let bad = || reaction("r1", 2, "m1", "");
    let mut reaction_first = MessageCache::new();
    assert!(reaction_first.cache_reaction(&bad()).unwrap().is_none());
    reaction_first.cache_chat_message(&chat("m1", 1, "late"));
    let mut message_first = MessageCache::new();
    message_first.cache_chat_message(&chat("m1", 1, "late"));
    assert!(message_first.cache_reaction(&bad()).is_err());
    assert_eq!(state(&reaction_first, "m1"), state(&message_first, "m1"));
    assert!(state(&message_first, "m1").1.is_empty());
}
