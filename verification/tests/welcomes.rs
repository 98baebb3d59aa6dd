use whitenoise::whitenoise::error::WhitenoiseError;
use whitenoise::whitenoise::event_processor::event_handlers::handle_giftwrap::{
    after_decryption, finalize_welcome_with_instance, independent_operations,
    marmot_welcome_transport_message_from_event, process_marmot_welcome, process_welcome,
    require_marmot, review_key_package, review_reference, review_sender, rotate_key_package,
    FinalizeStep, GiftwrapNext, IndependentOperation, JoinStep, PublishedKeyPackage, RotateStep,
    WelcomeSkip, WelcomeStep, SUPPORTED_PACKAGE_VERSION,
};
use whitenoise::whitenoise::nostr::{EventId, PublicKey, Tag, KIND_MLS_WELCOME};

fn id() -> EventId {
    EventId { bytes: [7; 32] }
}

fn tag(items: &[&str]) -> Tag {
    Tag { items: items.iter().map(|i| i.to_string()).collect() }
}

fn package(deleted: bool, version: i64) -> PublishedKeyPackage {
    PublishedKeyPackage { key_material_deleted: deleted, package_version: version }
}

#[test]
fn test_handle_giftwrap_welcome_missing_e_tag_skipped() {
    assert!(matches!(
        process_welcome(&vec![tag(&["p", "abc"])]),
        WelcomeStep::Skip(WelcomeSkip::MissingReference)
    ));
    assert!(matches!(
        review_reference(None),
        WelcomeStep::Skip(WelcomeSkip::MissingReference)
    ));
}

#[test]
fn test_handle_giftwrap_welcome_malformed_e_tag_skipped() {
    assert!(matches!(
        process_welcome(&vec![tag(&["e", "not-an-event-id"])]),
        WelcomeStep::Skip(WelcomeSkip::MalformedReference)
    ));
    assert!(matches!(
        review_reference(Some(None)),
        WelcomeStep::Skip(WelcomeSkip::MalformedReference)
    ));
}

#[test]
fn welcome_names_its_key_package() {
    assert_eq!(id().to_hex(), "07".repeat(32));
    match process_welcome(&vec![tag(&["p", "abc"]), tag(&["e", &id().to_hex()])]) {
        WelcomeStep::FindKeyPackage(found) => assert!(found == id()),
        other => panic!("unexpected step {other:?}"),
    }
    assert!(matches!(review_reference(Some(Some(id()))), WelcomeStep::FindKeyPackage(_)));
}

#[test]
fn test_handle_giftwrap_legacy_welcome_does_not_create_legacy_group() {
    assert!(matches!(
        review_sender(id(), SUPPORTED_PACKAGE_VERSION - 1, Ok(false)),
        WelcomeStep::Skip(WelcomeSkip::LegacyPackage)
    ));
}

#[test]
fn test_handle_giftwrap_accepts_darkmatter_welcome_without_legacy_group() {
    let found = review_key_package(id(), Ok(Some(package(false, SUPPORTED_PACKAGE_VERSION))));
    let package_version = match found {
        WelcomeStep::CheckSender { key_package, package_version } => {
            assert!(key_package == id());
            package_version
        }
        other => panic!("unexpected step {other:?}"),
    };
    assert!(matches!(
        review_sender(id(), package_version, Ok(false)),
        WelcomeStep::Join(k) if k == id()
    ));
}

#[test]
fn unusable_key_packages_are_passed_over() {
    assert!(matches!(
        review_key_package(id(), Ok(None)),
        WelcomeStep::Skip(WelcomeSkip::UnknownKeyPackage)
    ));
    assert!(matches!(
        review_key_package(id(), Ok(Some(package(true, SUPPORTED_PACKAGE_VERSION)))),
        WelcomeStep::Skip(WelcomeSkip::KeyMaterialDeleted)
    ));
}

#[test]
fn blocked_senders_are_passed_over() {
    assert!(matches!(
        review_sender(id(), SUPPORTED_PACKAGE_VERSION, Ok(true)),
        WelcomeStep::Skip(WelcomeSkip::BlockedSender)
    ));
}

#[test]
fn test_handle_giftwrap_welcome_db_error_rejects() {
    let error = WhitenoiseError::Database("no such table".to_string());
    assert!(matches!(
        review_key_package(id(), Err(error)),
        WelcomeStep::Fail(WhitenoiseError::Database(_))
    ));
}

#[test]
fn test_handle_giftwrap_non_welcome_ok() {
    assert_eq!(after_decryption(Some(1), true).unwrap(), GiftwrapNext::Ignore);
    assert_eq!(
        after_decryption(Some(KIND_MLS_WELCOME), false).unwrap(),
        GiftwrapNext::ProcessWelcome
    );
}

#[test]
fn test_handle_giftwrap_creates_account_group_synchronously() {
    let mut step = JoinStep::Decode;
    let mut steps = vec![];
    while step != JoinStep::Done {
        step = process_marmot_welcome(step, Ok(true)).unwrap();
        steps.push(step);
    }
    let project = steps.iter().position(|s| *s == JoinStep::Project).unwrap();
    let finalize = steps.iter().position(|s| *s == JoinStep::Finalize).unwrap();
    assert!(project < finalize);
    assert_eq!(steps.len(), 9);
}

#[test]
fn welcome_for_somebody_else_is_an_error() {
    let error = process_marmot_welcome(JoinStep::Recognize, Ok(false)).unwrap_err();
    assert_eq!(
        error.message(),
        "Invalid event: Darkmatter welcome is not addressed to this account"
    );
    assert!(process_marmot_welcome(JoinStep::Publish, Err(WhitenoiseError::GroupNotFound)).is_err());
}

#[test]
fn welcome_transport_errors_are_told_apart() {
    let read: Result<Result<u8, String>, String> = Err("x".to_string());
    assert_eq!(
        marmot_welcome_transport_message_from_event(read).unwrap_err().message(),
        "Invalid event: invalid Darkmatter welcome event: x"
    );
    let read: Result<Result<u8, String>, String> = Ok(Err("y".to_string()));
    assert_eq!(
        marmot_welcome_transport_message_from_event(read).unwrap_err().message(),
        "Invalid event: invalid Darkmatter welcome transport: y"
    );
    assert_eq!(marmot_welcome_transport_message_from_event(Ok(Ok(3u8))).unwrap(), 3);
}

#[test]
fn group_session_is_required() {
    let account = PublicKey { bytes: [1; 32] };
    assert_eq!(require_marmot(Some(5), &account).unwrap(), 5);
    let missing: Result<u8, WhitenoiseError> = require_marmot(None, &account);
    assert!(matches!(missing, Err(WhitenoiseError::MarmotSessionUnavailable(k)) if k == account));
}

#[test]
fn test_finalize_welcome_with_instance_completes() {
    for succeeded in [true, false] {
        let mut step = FinalizeStep::Subscribe;
        let mut steps = vec![step];
        while step != FinalizeStep::Done {
            step = finalize_welcome_with_instance(step, succeeded);
            steps.push(step);
        }
        assert!(steps.contains(&FinalizeStep::RunIndependent));
        assert_eq!(steps.contains(&FinalizeStep::EmitNewGroup), succeeded);
    }
    assert_eq!(
        independent_operations(),
        vec![
            IndependentOperation::CreateGroupInfo,
            IndependentOperation::RotateKeyPackage,
            IndependentOperation::SyncGroupImage,
            IndependentOperation::EnsureWelcomerUser,
        ]
    );
}

/// Replaces a key package where the steps end as given.
fn rotate(
    marked: Result<(), WhitenoiseError>,
    published: Result<(), WhitenoiseError>,
    deleted: Result<(), WhitenoiseError>,
) -> (Result<(), WhitenoiseError>, Vec<RotateStep>) {
    let mut replies = vec![deleted, published, marked];
    let mut step = RotateStep::MarkConsumed;
    let mut steps = vec![];
    while step != RotateStep::Done {
        steps.push(step);
        step = match rotate_key_package(step, replies.pop().unwrap()) {
            Ok(next) => next,
            Err(e) => return (Err(e), steps),
        };
    }
    (Ok(()), steps)
}

#[test]
fn test_finalize_welcome_no_signer_completes_gracefully() {
    let unavailable = WhitenoiseError::SignerUnavailable(PublicKey { bytes: [1; 32] });
    let (end, steps) = rotate(Ok(()), Err(unavailable), Ok(()));
    assert!(matches!(end, Err(WhitenoiseError::SignerUnavailable(_))));
    assert_eq!(steps, vec![RotateStep::MarkConsumed, RotateStep::PublishNew]);
    let mut step = FinalizeStep::RunIndependent;
    let mut steps = vec![];
    while step != FinalizeStep::Done {
        step = finalize_welcome_with_instance(step, true);
        steps.push(step);
    }
    assert_eq!(
        steps,
        vec![FinalizeStep::EmitNewGroup, FinalizeStep::NotifyInvite, FinalizeStep::Done]
    );
}

#[test]
fn only_the_publication_decides_how_a_rotation_ends() {
    let all = vec![RotateStep::MarkConsumed, RotateStep::PublishNew, RotateStep::DeleteUsed];
    let failed = || Err(WhitenoiseError::GroupNotFound);
    for (marked, deleted) in [(Ok(()), Ok(())), (failed(), Ok(())), (Ok(()), failed())] {
        let (end, steps) = rotate(marked, Ok(()), deleted);
        assert!(end.is_ok());
        assert_eq!(steps, all);
    }
    let (end, _) = rotate(failed(), Err(WhitenoiseError::UserNotFound), failed());
    assert!(matches!(end, Err(WhitenoiseError::UserNotFound)));
}

#[test]
fn test_finalize_welcome_with_instance_idempotent() {
    let finalize = || {
        let mut step = FinalizeStep::BeginOperation;
        let mut steps = vec![step];
        while step != FinalizeStep::Done {
            step = finalize_welcome_with_instance(step, true);
            steps.push(step);
        }
        steps
    };
    let first = finalize();
    assert_eq!(first, finalize());
    assert_eq!(first.iter().filter(|step| **step == FinalizeStep::EmitNewGroup).count(), 1);
}
