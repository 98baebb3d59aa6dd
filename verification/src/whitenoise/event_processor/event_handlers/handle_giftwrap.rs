//! Gift wraps, and the invitations to groups that they carry.

use vstd::prelude::*;
use vstd::string::StringExecFns;

use crate::whitenoise::error::{Result, WhitenoiseError};
use crate::whitenoise::event_processor::account_event_processor::{
    outcome_of, AccountEventProcess, ProcessEnd, ProcessReply, ProcessStep,
};
use crate::whitenoise::event_processor::giftwrap_throttle::GiftwrapThrottle;
use crate::whitenoise::nostr::{
    find_tag_content, first_tag_content, first_tag_decides, nostr_event_id, parse_event_id, EventId, PublicKey, Tag,
    KIND_MLS_WELCOME,
};

verus! {

/// Decides whether a gift wrap may be decrypted now.
///
/// Without a signer it stays unprocessed until one is registered. With one,
/// each attempt costs a token, taken before any work is done on the content.
pub fn handle_giftwrap(
    account: &PublicKey,
    has_signer: bool,
    throttle: &mut GiftwrapThrottle,
    now: u64,
) -> (permit: Result<()>)
    ensures
        !has_signer ==> {
            &&& permit == Err::<(), WhitenoiseError>(WhitenoiseError::SignerUnavailable(*account))
            &&& final(throttle)@ == old(throttle)@
        },
        has_signer ==> {
            &&& permit is Ok <==> old(throttle)@.grants(now as nat)
            &&& permit matches Err(e) ==> e is GiftwrapThrottled
            &&& final(throttle)@ == old(throttle)@.after(now as nat)
        },
        permit is Ok ==> has_signer && final(throttle)@.level + 1_000_000_000_000_000
            == old(throttle)@.level_at(now as nat),
        permit is Err && has_signer ==> final(throttle)@.level == old(throttle)@.level_at(now as nat),
        permit matches Err(WhitenoiseError::SignerUnavailable(key)) ==> !has_signer && key == *account,
{
    if !has_signer {
        return Err(WhitenoiseError::SignerUnavailable(*account));
    }
    if throttle.try_acquire(now) {
        Ok(())
    } else {
        Err(WhitenoiseError::GiftwrapThrottled)
    }
}

/// What follows the decryption of a gift wrap.
#[derive(Clone, Copy, PartialEq, Eq, Structural, Debug)]
pub enum GiftwrapNext {
    /// The content is an invitation to a group.
    ProcessWelcome,
    /// The content is of a kind that nothing handles.
    Ignore,
    /// The content cannot be decrypted and never will be.
    Undecryptable,
}

/// Decides what follows, given the kind of the content; none where it could
/// not be decrypted.
///
/// With keys held locally a failure is final. With any other signer the
/// failure may be the signer's, so the gift wrap is put off.
pub fn after_decryption(content_kind: Option<u16>, keys_are_local: bool) -> (next: Result<GiftwrapNext>)
    ensures
        match content_kind {
            Some(kind) => next == Ok::<GiftwrapNext, WhitenoiseError>(
                if kind == KIND_MLS_WELCOME {
                    GiftwrapNext::ProcessWelcome
                } else {
                    GiftwrapNext::Ignore
                },
            ),
            None => if keys_are_local {
                next == Ok::<GiftwrapNext, WhitenoiseError>(GiftwrapNext::Undecryptable)
            } else {
                next matches Err(WhitenoiseError::GiftwrapDeferred)
            },
        },
        next == Ok::<GiftwrapNext, WhitenoiseError>(GiftwrapNext::ProcessWelcome) <==> content_kind
            == Some(444u16),
        next == Ok::<GiftwrapNext, WhitenoiseError>(GiftwrapNext::Undecryptable) <==> content_kind is None
            && keys_are_local,
        next is Err <==> content_kind is None && !keys_are_local,
{
    match content_kind {
        Some(kind) => if kind == KIND_MLS_WELCOME {
            Ok(GiftwrapNext::ProcessWelcome)
        } else {
            Ok(GiftwrapNext::Ignore)
        },
        None => if keys_are_local {
            Ok(GiftwrapNext::Undecryptable)
        } else {
            Err(WhitenoiseError::GiftwrapDeferred)
        },
    }
}

/// A gift wrap that is put off, for want of a token or of its signer, is
/// neither recorded nor retried, so that its relay can deliver it again.
pub proof fn put_off_gift_wraps_stay_deliverable(p: AccountEventProcess, error: WhitenoiseError, now: u64)
    requires
        error is GiftwrapThrottled || error is GiftwrapDeferred,
    ensures
        p.spec_next(
            ProcessStep::Handle,
            ProcessReply::Outcome(outcome_of(Err::<(), WhitenoiseError>(error))),
            now,
        ) == ProcessStep::Done(ProcessEnd::Deferred),
{
}

/// A gift wrap that was dealt with is recorded, also where it could not be
/// decrypted with local keys: it costs one token, once.
pub proof fn dealt_with_gift_wraps_are_recorded(p: AccountEventProcess, now: u64)
    ensures
        p.spec_next(
            ProcessStep::Handle,
            ProcessReply::Outcome(outcome_of(Ok::<(), WhitenoiseError>(()))),
            now,
        ) is Record,
{
}

/// The transport message of an invitation: the outer failure is that of reading
/// the event, the inner one that of reading the message in it.
pub fn marmot_welcome_transport_message_from_event<M>(
    read: core::result::Result<core::result::Result<M, String>, String>,
) -> (message: Result<M>)
    ensures
        match read {
            Ok(Ok(m)) => message == Ok::<M, WhitenoiseError>(m),
            Ok(Err(e)) => message matches Err(WhitenoiseError::InvalidEvent(m)) && m@
                == "invalid Darkmatter welcome transport: "@ + e@,
            Err(e) => message matches Err(WhitenoiseError::InvalidEvent(m)) && m@
                == "invalid Darkmatter welcome event: "@ + e@,
        },
{
    match read {
        Ok(Ok(message)) => Ok(message),
        Ok(Err(error)) => {
            let mut text = String::from_str("invalid Darkmatter welcome transport: ");
            text.append(error.as_str());
            Err(WhitenoiseError::InvalidEvent(text))
        },
        Err(error) => {
            let mut text = String::from_str("invalid Darkmatter welcome event: ");
            text.append(error.as_str());
            Err(WhitenoiseError::InvalidEvent(text))
        },
    }
}

/// What the account knows of a key package that it published.
#[derive(Clone, Copy, PartialEq, Eq, Structural, Debug)]
pub struct PublishedKeyPackage {
    pub key_material_deleted: bool,
    pub package_version: i64,
}

/// The version of key packages that invitations are accepted for.
pub const SUPPORTED_PACKAGE_VERSION: i64 = 2;

/// Why an invitation is passed over. None of these is an error.
#[derive(Clone, Copy, PartialEq, Eq, Structural, Debug)]
pub enum WelcomeSkip {
    MissingReference,
    MalformedReference,
    UnknownKeyPackage,
    KeyMaterialDeleted,
    BlockedSender,
    LegacyPackage,
}

/// What is to be done next with an invitation.
#[derive(Debug)]
pub enum WelcomeStep {
    /// Look the key package up that the invitation refers to.
    FindKeyPackage(EventId),
    /// Look up whether the sender is blocked.
    CheckSender { key_package: EventId, package_version: i64 },
    /// Join the group.
    Join(EventId),
    Skip(WelcomeSkip),
    Fail(WhitenoiseError),
}

/// Decides on the key package that an invitation refers to: none where it
/// refers to none, and a none inside where the reference does not read as an
/// event identifier.
pub fn review_reference(reference: Option<Option<EventId>>) -> (step: WelcomeStep)
    ensures
        match reference {
            None => step == WelcomeStep::Skip(WelcomeSkip::MissingReference),
            Some(None) => step == WelcomeStep::Skip(WelcomeSkip::MalformedReference),
            Some(Some(id)) => step == WelcomeStep::FindKeyPackage(id),
        },
        step matches WelcomeStep::FindKeyPackage(id) ==> reference == Some(Some(id)),
        step == WelcomeStep::Skip(WelcomeSkip::MissingReference) <==> reference is None,
        step == WelcomeStep::Skip(WelcomeSkip::MalformedReference) <==> reference == Some(
            None::<EventId>,
        ),
{
    match reference {
        None => WelcomeStep::Skip(WelcomeSkip::MissingReference),
        Some(None) => WelcomeStep::Skip(WelcomeSkip::MalformedReference),
        Some(Some(id)) => WelcomeStep::FindKeyPackage(id),
    }
}

/// Begins with an invitation: its first `e` tag refers to the key package
/// that was used.
pub fn process_welcome(tags: &Vec<Tag>) -> (step: WelcomeStep)
    ensures
        match first_tag_content(tags@, "e"@) {
            None => step == WelcomeStep::Skip(WelcomeSkip::MissingReference),
            Some(content) => match nostr_event_id(content) {
                None => step == WelcomeStep::Skip(WelcomeSkip::MalformedReference),
                Some(bytes) => step matches WelcomeStep::FindKeyPackage(id) && id.bytes@ == bytes,
            },
        },
{
    match find_tag_content(tags, "e") {
        None => review_reference(None),
        Some(content) => review_reference(Some(parse_event_id(content.as_str()))),
    }
}

/// Where the look-up of the key package leads.
pub open spec fn reviewed_key_package(
    id: EventId,
    found: Result<Option<PublishedKeyPackage>>,
) -> WelcomeStep {
    match found {
        Err(e) => WelcomeStep::Fail(e),
        Ok(None) => WelcomeStep::Skip(WelcomeSkip::UnknownKeyPackage),
        Ok(Some(package)) => if package.key_material_deleted {
            WelcomeStep::Skip(WelcomeSkip::KeyMaterialDeleted)
        } else {
            WelcomeStep::CheckSender { key_package: id, package_version: package.package_version }
        },
    }
}

/// Takes in the look-up of the key package. Without its key material there is
/// no point in any further work.
pub fn review_key_package(id: EventId, found: Result<Option<PublishedKeyPackage>>) -> (step: WelcomeStep)
    ensures
        step == reviewed_key_package(id, found),
{
    match found {
        Err(e) => WelcomeStep::Fail(e),
        Ok(None) => WelcomeStep::Skip(WelcomeSkip::UnknownKeyPackage),
        Ok(Some(package)) => if package.key_material_deleted {
            WelcomeStep::Skip(WelcomeSkip::KeyMaterialDeleted)
        } else {
            WelcomeStep::CheckSender { key_package: id, package_version: package.package_version }
        },
    }
}

/// Where the look-up of the sender leads.
pub open spec fn reviewed_sender(id: EventId, package_version: i64, blocked: Result<bool>) -> WelcomeStep {
    match blocked {
        Err(e) => WelcomeStep::Fail(e),
        Ok(true) => WelcomeStep::Skip(WelcomeSkip::BlockedSender),
        Ok(false) => if package_version == SUPPORTED_PACKAGE_VERSION {
            WelcomeStep::Join(id)
        } else {
            WelcomeStep::Skip(WelcomeSkip::LegacyPackage)
        },
    }
}

/// Takes in whether the sender is blocked. Nothing of the group is stored for
/// a blocked sender.
pub fn review_sender(id: EventId, package_version: i64, blocked: Result<bool>) -> (step: WelcomeStep)
    ensures
        step == reviewed_sender(id, package_version, blocked),
{
    match blocked {
        Err(e) => WelcomeStep::Fail(e),
        Ok(blocked) => if blocked {
            WelcomeStep::Skip(WelcomeSkip::BlockedSender)
        } else if package_version == SUPPORTED_PACKAGE_VERSION {
            WelcomeStep::Join(id)
        } else {
            WelcomeStep::Skip(WelcomeSkip::LegacyPackage)
        },
    }
}

/// An invitation is accepted exactly when its key package is known, still has
/// its key material and is of the supported version, and its sender is not
/// blocked. No group is joined on anything else.
pub proof fn joined_only_with_live_key_package_from_unblocked_sender(
    id: EventId,
    package: Option<PublishedKeyPackage>,
    blocked: bool,
)
    ensures
        ({
            let joins = match reviewed_key_package(
                id,
                Ok::<Option<PublishedKeyPackage>, WhitenoiseError>(package),
            ) {
                WelcomeStep::CheckSender { key_package, package_version } => reviewed_sender(
                    key_package,
                    package_version,
                    Ok::<bool, WhitenoiseError>(blocked),
                ) == WelcomeStep::Join(id),
                _ => false,
            };
            joins <==> (package matches Some(p) && !p.key_material_deleted && p.package_version
                == SUPPORTED_PACKAGE_VERSION && !blocked)
        }),
{
}

/// Why an invitation goes no further: its key package is not known, has lost
/// its key material, or is not of version 2, or its sender is blocked. A
/// look-up that fails ends it with that error. The key package that is looked
/// up is the one that is joined with, in the version that was found.
pub proof fn an_invitation_is_passed_over_for_a_reason(
    id: EventId,
    found: Result<Option<PublishedKeyPackage>>,
    package_version: i64,
    blocked: Result<bool>,
)
    ensures
        reviewed_key_package(id, found) == WelcomeStep::Skip(WelcomeSkip::UnknownKeyPackage) <==> found
            == Ok::<Option<PublishedKeyPackage>, WhitenoiseError>(None),
        reviewed_key_package(id, found) == WelcomeStep::Skip(WelcomeSkip::KeyMaterialDeleted)
            <==> found is Ok && found->Ok_0 is Some && found->Ok_0->0.key_material_deleted,
        found is Err ==> reviewed_key_package(id, found) == WelcomeStep::Fail(found->Err_0),
        found is Ok && found->Ok_0 is Some && !found->Ok_0->0.key_material_deleted ==> {
            let step = reviewed_key_package(id, found);
            &&& step is CheckSender
            &&& step->CheckSender_key_package == id
            &&& step->CheckSender_package_version == found->Ok_0->0.package_version
        },
        blocked is Err ==> reviewed_sender(id, package_version, blocked) == WelcomeStep::Fail(
            blocked->Err_0,
        ),
        reviewed_sender(id, package_version, blocked) == WelcomeStep::Skip(WelcomeSkip::BlockedSender)
            <==> blocked == Ok::<bool, WhitenoiseError>(true),
        reviewed_sender(id, package_version, blocked) == WelcomeStep::Join(id) <==> blocked == Ok::<
            bool,
            WhitenoiseError,
        >(false) && package_version == 2,
        reviewed_sender(id, package_version, blocked) == WelcomeStep::Skip(WelcomeSkip::LegacyPackage)
            <==> blocked == Ok::<bool, WhitenoiseError>(false) && package_version != 2,
{
}

/// Without an `e` tag an invitation refers to no key package; with one, what
/// follows the name of the first is the reference.
pub proof fn an_invitation_refers_by_its_first_e_tag(tags: Seq<Tag>, k: int)
    ensures
        0 <= k < tags.len() && tags[k].items@.len() >= 2 && tags[k].items@[0]@ == "e"@ && (forall|j: int|
            0 <= j < k ==> (#[trigger] tags[j]).items@.len() == 0 || tags[j].items@[0]@ != "e"@)
            ==> first_tag_content(tags, "e"@) == Some(tags[k].items@[1]@),
        (forall|j: int|
            0 <= j < tags.len() ==> (#[trigger] tags[j]).items@.len() == 0 || tags[j].items@[0]@ != "e"@)
            ==> first_tag_content(tags, "e"@) is None,
{
    first_tag_decides(tags, "e"@, k);
}

/// The account's group session; an error where it has none.
pub fn require_marmot<T>(session: Option<T>, account: &PublicKey) -> (found: Result<T>)
    ensures
        match session {
            Some(s) => found == Ok::<T, WhitenoiseError>(s),
            None => found == Err::<T, WhitenoiseError>(
                WhitenoiseError::MarmotSessionUnavailable(*account),
            ),
        },
{
    match session {
        Some(s) => Ok(s),
        None => Err(WhitenoiseError::MarmotSessionUnavailable(*account)),
    }
}

/// The work of joining a group, in order.
#[derive(Clone, Copy, PartialEq, Eq, Structural, Debug)]
pub enum JoinStep {
    /// Read the event as a transport message.
    Decode,
    FindSession,
    /// Ask the session whether the message is addressed to it.
    Recognize,
    /// Join with the session.
    Join,
    CollectRoutes,
    /// Publish what joining gave rise to.
    Publish,
    /// Store the group for the account.
    Project,
    /// Handle the group events that joining gave rise to.
    HandleEvents,
    /// Leave the rest to a background task.
    Finalize,
    Done,
}

impl JoinStep {
    /// How many steps come before this one.
    pub open spec fn position(self) -> int {
        match self {
            JoinStep::Decode => 0,
            JoinStep::FindSession => 1,
            JoinStep::Recognize => 2,
            JoinStep::Join => 3,
            JoinStep::CollectRoutes => 4,
            JoinStep::Publish => 5,
            JoinStep::Project => 6,
            JoinStep::HandleEvents => 7,
            JoinStep::Finalize => 8,
            JoinStep::Done => 9,
        }
    }
}

/// What follows `step` in joining a group. `reply` is how the step ended; its
/// value matters only where the message is to be recognized.
///
/// The first error ends the work. A message that is addressed to somebody
/// else is one.
pub fn process_marmot_welcome(step: JoinStep, reply: Result<bool>) -> (next: Result<JoinStep>)
    ensures
        match reply {
            Err(e) => next == Err::<JoinStep, WhitenoiseError>(e),
            Ok(yes) => if step is Recognize && !yes {
                next matches Err(WhitenoiseError::InvalidEvent(m)) && m@
                    == "Darkmatter welcome is not addressed to this account"@
            } else {
                &&& next matches Ok(n)
                &&& n.position() == (if step is Done {
                    9
                } else {
                    step.position() + 1
                })
            },
        },
        step is Decode && reply is Ok ==> next == Ok::<JoinStep, WhitenoiseError>(
            JoinStep::FindSession,
        ),
        step is FindSession && reply is Ok ==> next == Ok::<JoinStep, WhitenoiseError>(
            JoinStep::Recognize,
        ),
        step is Recognize && reply == Ok::<bool, WhitenoiseError>(true) ==> next == Ok::<JoinStep, WhitenoiseError>(
            JoinStep::Join,
        ),
        step is Join && reply is Ok ==> next == Ok::<JoinStep, WhitenoiseError>(
            JoinStep::CollectRoutes,
        ),
        step is CollectRoutes && reply is Ok ==> next == Ok::<JoinStep, WhitenoiseError>(
            JoinStep::Publish,
        ),
        step is Publish && reply is Ok ==> next == Ok::<JoinStep, WhitenoiseError>(
            JoinStep::Project,
        ),
        step is Project && reply is Ok ==> next == Ok::<JoinStep, WhitenoiseError>(
            JoinStep::HandleEvents,
        ),
        step is HandleEvents && reply is Ok ==> next == Ok::<JoinStep, WhitenoiseError>(
            JoinStep::Finalize,
        ),
        step is Finalize && reply is Ok ==> next == Ok::<JoinStep, WhitenoiseError>(
            JoinStep::Done,
        ),
        step is Done && reply is Ok ==> next == Ok::<JoinStep, WhitenoiseError>(
            JoinStep::Done,
        ),
        step is Recognize && reply == Ok::<bool, WhitenoiseError>(false) ==> next is Err,
        reply is Err ==> next is Err && next->Err_0 == reply->Err_0,
{
    let yes = match reply {
        Ok(yes) => yes,
        Err(e) => {
            return Err(e);
        },
    };
    Ok(
        match step {
            JoinStep::Decode => JoinStep::FindSession,
            JoinStep::FindSession => JoinStep::Recognize,
            JoinStep::Recognize => {
                if !yes {
                    return Err(
                        WhitenoiseError::InvalidEvent(
                            String::from_str("Darkmatter welcome is not addressed to this account"),
                        ),
                    );
                }
                JoinStep::Join
            },
            JoinStep::Join => JoinStep::CollectRoutes,
            JoinStep::CollectRoutes => JoinStep::Publish,
            JoinStep::Publish => JoinStep::Project,
            JoinStep::Project => JoinStep::HandleEvents,
            JoinStep::HandleEvents => JoinStep::Finalize,
            JoinStep::Finalize => JoinStep::Done,
            JoinStep::Done => JoinStep::Done,
        },
    )
}

/// The background work after a group was joined.
#[derive(Clone, Copy, PartialEq, Eq, Structural, Debug)]
pub enum FinalizeStep {
    /// Keep the session open for the work.
    BeginOperation,
    /// Subscribe to the group, before anything else.
    Subscribe,
    /// Run the operations that do not depend on each other, all of them.
    RunIndependent,
    EmitNewGroup,
    NotifyInvite,
    Done,
}

/// An operation that runs whatever becomes of the others.
#[derive(Clone, Copy, PartialEq, Eq, Structural, Debug)]
pub enum IndependentOperation {
    CreateGroupInfo,
    RotateKeyPackage,
    SyncGroupImage,
    EnsureWelcomerUser,
}

/// The operations of [`FinalizeStep::RunIndependent`].
pub fn independent_operations() -> (operations: Vec<IndependentOperation>)
    ensures
        operations@ == seq![
            IndependentOperation::CreateGroupInfo,
            IndependentOperation::RotateKeyPackage,
            IndependentOperation::SyncGroupImage,
            IndependentOperation::EnsureWelcomerUser,
        ],
{
    let mut operations: Vec<IndependentOperation> = Vec::new();
    operations.push(IndependentOperation::CreateGroupInfo);
    operations.push(IndependentOperation::RotateKeyPackage);
    operations.push(IndependentOperation::SyncGroupImage);
    operations.push(IndependentOperation::EnsureWelcomerUser);
    assert(operations@ =~= seq![
        IndependentOperation::CreateGroupInfo,
        IndependentOperation::RotateKeyPackage,
        IndependentOperation::SyncGroupImage,
        IndependentOperation::EnsureWelcomerUser,
    ]);
    operations
}

pub open spec fn finalize_next(step: FinalizeStep, succeeded: bool) -> FinalizeStep {
    match step {
        FinalizeStep::BeginOperation => if succeeded {
            FinalizeStep::Subscribe
        } else {
            FinalizeStep::Done
        },
        FinalizeStep::Subscribe => FinalizeStep::RunIndependent,
        FinalizeStep::RunIndependent => if succeeded {
            FinalizeStep::EmitNewGroup
        } else {
            FinalizeStep::Done
        },
        FinalizeStep::EmitNewGroup => FinalizeStep::NotifyInvite,
        _ => FinalizeStep::Done,
    }
}

/// What follows `step`. For the independent operations `succeeded` tells of
/// the group information: the group is announced only once that is there.
/// Nothing is done for a session that is closing, and no other failure stops
/// the rest.
pub fn finalize_welcome_with_instance(step: FinalizeStep, succeeded: bool) -> (next: FinalizeStep)
    ensures
        next == finalize_next(step, succeeded),
{
    match step {
        FinalizeStep::BeginOperation => if succeeded {
            FinalizeStep::Subscribe
        } else {
            FinalizeStep::Done
        },
        FinalizeStep::Subscribe => FinalizeStep::RunIndependent,
        FinalizeStep::RunIndependent => if succeeded {
            FinalizeStep::EmitNewGroup
        } else {
            FinalizeStep::Done
        },
        FinalizeStep::EmitNewGroup => FinalizeStep::NotifyInvite,
        FinalizeStep::NotifyInvite => FinalizeStep::Done,
        FinalizeStep::Done => FinalizeStep::Done,
    }
}

/// The background work goes through its steps in order. It ends early only
/// where the session cannot be kept open or the group information could not be
/// stored.
pub proof fn finalization_goes_through_its_steps(step: FinalizeStep, succeeded: bool)
    ensures
        step is BeginOperation ==> (finalize_next(step, succeeded) is Subscribe <==> succeeded),
        step is BeginOperation ==> (finalize_next(step, succeeded) is Done <==> !succeeded),
        step is Subscribe ==> finalize_next(step, succeeded) is RunIndependent,
        step is RunIndependent ==> (finalize_next(step, succeeded) is EmitNewGroup <==> succeeded),
        step is RunIndependent ==> (finalize_next(step, succeeded) is Done <==> !succeeded),
        step is EmitNewGroup ==> finalize_next(step, succeeded) is NotifyInvite,
        step is NotifyInvite || step is Done ==> finalize_next(step, succeeded) is Done,
{
}

/// A failed subscription does not keep the independent operations from
/// running, and the group is announced exactly when its information was
/// stored.
pub proof fn finalization_survives_failures(subscribed: bool, group_info_stored: bool)
    ensures
        finalize_next(FinalizeStep::Subscribe, subscribed) == FinalizeStep::RunIndependent,
        finalize_next(FinalizeStep::RunIndependent, group_info_stored) is EmitNewGroup
            <==> group_info_stored,
{
}

/// The work of replacing a used key package, in order.
#[derive(Clone, Copy, PartialEq, Eq, Structural, Debug)]
pub enum RotateStep {
    /// Mark the used key package as consumed.
    MarkConsumed,
    /// Publish a new one.
    PublishNew,
    /// Delete the used one from the relays.
    DeleteUsed,
    Done,
}

/// What follows `step`, given how it ended. Only a new key package that cannot
/// be published is an error.
pub open spec fn rotate_next(step: RotateStep, reply: Result<()>) -> Result<RotateStep> {
    match step {
        RotateStep::MarkConsumed => Ok(RotateStep::PublishNew),
        RotateStep::PublishNew => match reply {
            Ok(_) => Ok(RotateStep::DeleteUsed),
            Err(e) => Err(e),
        },
        RotateStep::DeleteUsed | RotateStep::Done => Ok(RotateStep::Done),
    }
}

/// What follows `step`. A mark that fails is no reason to stop, and neither
/// is a deletion that fails; both are caught up with later. Where no new key
/// package can be published the work ends with that error, and the used one
/// stays available.
pub fn rotate_key_package(step: RotateStep, reply: Result<()>) -> (next: Result<RotateStep>)
    ensures
        next == rotate_next(step, reply),
{
    match step {
        RotateStep::MarkConsumed => Ok(RotateStep::PublishNew),
        RotateStep::PublishNew => match reply {
            Ok(()) => Ok(RotateStep::DeleteUsed),
            Err(e) => Err(e),
        },
        RotateStep::DeleteUsed => Ok(RotateStep::Done),
        RotateStep::Done => Ok(RotateStep::Done),
    }
}

/// The used key package is deleted only after a new one was published: the
/// account is never left without one on its relays.
pub proof fn never_without_a_key_package(step: RotateStep, reply: Result<()>)
    ensures
        rotate_next(step, reply) == Ok::<RotateStep, WhitenoiseError>(RotateStep::DeleteUsed)
            <==> step is PublishNew && reply is Ok,
{
}

/// Replacing a key package comes down to publishing a new one: it fails with
/// the error of that, and succeeds whatever becomes of the rest.
pub proof fn rotation_ends_as_the_publication(
    marked: Result<()>,
    published: Result<()>,
    deleted: Result<()>,
)
    ensures
        rotate_next(RotateStep::MarkConsumed, marked) == Ok::<RotateStep, WhitenoiseError>(
            RotateStep::PublishNew,
        ),
        published matches Err(e) ==> rotate_next(RotateStep::PublishNew, published) == Err::<
            RotateStep,
            WhitenoiseError,
        >(e),
        published is Ok ==> rotate_next(RotateStep::PublishNew, published) == Ok::<
            RotateStep,
            WhitenoiseError,
        >(RotateStep::DeleteUsed),
        rotate_next(RotateStep::DeleteUsed, deleted) == Ok::<RotateStep, WhitenoiseError>(
            RotateStep::Done,
        ),
        rotate_next(RotateStep::Done, deleted) == Ok::<RotateStep, WhitenoiseError>(RotateStep::Done),
{
}

} // verus!
