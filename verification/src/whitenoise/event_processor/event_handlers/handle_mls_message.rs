//! Group messages: taking them in, publishing what they give rise to, and
//! showing what they change.

use vstd::prelude::*;
use vstd::string::StringExecFns;

use super::message_cache::{
    update_views, CacheV, ChatMessage, MarmotMessage, MessageCache, MessageV, Update, UpdateTrigger,
    UpdateV, reaction_target,
};
use crate::whitenoise::error::{Result, WhitenoiseError};
use crate::whitenoise::nostr::{
    public_key_from_slice, PublicKey, KIND_CHAT_MESSAGE, KIND_EVENT_DELETION, KIND_REACTION,
};
use crate::whitenoise::text::{decimal, decimal_text, same_bytes, same_text};

verus! {

/// Refuses a message whose session belongs to another account.
pub fn handle_mls_message(session: &PublicKey, account: &PublicKey) -> (checked: Result<()>)
    ensures
        checked is Ok <==> *session == *account,
        checked matches Err(e) ==> e is AccountNotFound,
{
    if *session != *account {
        Err(WhitenoiseError::AccountNotFound)
    } else {
        Ok(())
    }
}

// ---------------------------------------------------------------------------
// Taking a message in
// ---------------------------------------------------------------------------

/// The transport message of a group event: the outer failure is that of reading
/// the event, the inner one that of reading the message in it.
pub fn marmot_transport_message_from_event<M>(
    read: core::result::Result<core::result::Result<M, String>, String>,
) -> (message: Result<M>)
    ensures
        match read {
            Ok(Ok(m)) => message == Ok::<M, WhitenoiseError>(m),
            Ok(Err(e)) => message matches Err(WhitenoiseError::InvalidEvent(m)) && m@
                == "invalid Darkmatter transport event: "@ + e@,
            Err(e) => message matches Err(WhitenoiseError::InvalidEvent(m)) && m@
                == "invalid Darkmatter Nostr event: "@ + e@,
        },
{
    match read {
        Ok(Ok(message)) => Ok(message),
        Ok(Err(error)) => {
            let mut text = String::from_str("invalid Darkmatter transport event: ");
            text.append(error.as_str());
            Err(WhitenoiseError::InvalidEvent(text))
        },
        Err(error) => {
            let mut text = String::from_str("invalid Darkmatter Nostr event: ");
            text.append(error.as_str());
            Err(WhitenoiseError::InvalidEvent(text))
        },
    }
}

/// Why a message came too late.
#[derive(Clone, Copy, PartialEq, Eq, Structural, Debug)]
pub enum StaleReason {
    UnknownGroup,
    PeelFailed,
    NotForThisClient,
    /// Any other reason: the message is of a group that is known here.
    Other,
}

/// What the group session made of a message.
#[derive(Clone, Copy, PartialEq, Eq, Structural, Debug)]
pub enum IngestOutcome {
    Processed,
    /// Kept until the group is stable again.
    Buffered,
    Stale(StaleReason),
}

/// The work of taking a group message in, in order.
#[derive(Clone, Copy, PartialEq, Eq, Structural, Debug)]
pub enum IngestStep {
    /// Read the event as a transport message.
    Decode,
    FindSession,
    /// Ask the session whether it knows the message's route.
    Recognize,
    Ingest,
    /// The message was taken in: its effects have to be published.
    Processed,
    /// The message is of no concern here.
    Ignored,
}

/// What a step came back with.
#[derive(Clone, Copy, PartialEq, Eq, Structural, Debug)]
pub enum IngestReply {
    Done,
    Recognized(bool),
    Outcome(IngestOutcome),
}

impl IngestStep {
    pub open spec fn takes(self, reply: IngestReply) -> bool {
        match self {
            IngestStep::Decode | IngestStep::FindSession => reply is Done,
            IngestStep::Recognize => reply is Recognized,
            IngestStep::Ingest => reply is Outcome,
            _ => false,
        }
    }

    pub open spec fn spec_next(self, reply: IngestReply) -> IngestStep {
        match (self, reply) {
            (IngestStep::Decode, _) => IngestStep::FindSession,
            (IngestStep::FindSession, _) => IngestStep::Recognize,
            (IngestStep::Recognize, IngestReply::Recognized(known)) => if known {
                IngestStep::Ingest
            } else {
                IngestStep::Ignored
            },
            (IngestStep::Ingest, IngestReply::Outcome(outcome)) => match outcome {
                IngestOutcome::Stale(reason) => if reason is Other {
                    IngestStep::Processed
                } else {
                    IngestStep::Ignored
                },
                _ => IngestStep::Processed,
            },
            _ => self,
        }
    }
}

/// What follows `step` in taking a message in. The first error ends the work.
/// A message that no local group is addressed by is ignored, which is no error.
pub fn ingest_marmot_mls_message(step: IngestStep, reply: Result<IngestReply>) -> (next: Result<IngestStep>)
    requires
        reply matches Ok(r) ==> step.takes(r),
    ensures
        match reply {
            Err(e) => next == Err::<IngestStep, WhitenoiseError>(e),
            Ok(r) => next == Ok::<IngestStep, WhitenoiseError>(step.spec_next(r)),
        },
{
    let reply = match reply {
        Ok(reply) => reply,
        Err(e) => {
            return Err(e);
        },
    };
    Ok(
        match reply {
            IngestReply::Done => match step {
                IngestStep::Decode => IngestStep::FindSession,
                _ => IngestStep::Recognize,
            },
            IngestReply::Recognized(known) => if known {
                IngestStep::Ingest
            } else {
                IngestStep::Ignored
            },
            IngestReply::Outcome(outcome) => match outcome {
                IngestOutcome::Stale(reason) => match reason {
                    StaleReason::Other => IngestStep::Processed,
                    _ => IngestStep::Ignored,
                },
                _ => IngestStep::Processed,
            },
        },
    )
}

// ---------------------------------------------------------------------------
// Publishing what a message gives rise to
// ---------------------------------------------------------------------------

/// What became of a change that waited for its publication.
#[derive(Clone, Copy, PartialEq, Eq, Structural, Debug)]
pub enum PendingResolution {
    Confirmed,
    RolledBack,
}

/// What came of publishing the effects of a message.
#[derive(Debug)]
pub struct PublishedEffects {
    pub pending: Vec<PendingResolution>,
    /// Why publications failed, in order.
    pub failures: Vec<String>,
    /// How many further intents were queued.
    pub queued: u64,
}

impl PublishedEffects {
    pub open spec fn rolled_back(self) -> bool {
        self.pending@.contains(PendingResolution::RolledBack)
    }

    /// Why publishing counts as failed, if it does: something was rolled
    /// back, or there was nothing pending and a publication failed.
    pub open spec fn failure(self) -> Option<Seq<char>> {
        if self.rolled_back() {
            if self.failures.len() > 0 {
                Some(self.failures[0]@)
            } else {
                Some("Darkmatter inbound pending state was rolled back"@)
            }
        } else if self.pending.len() == 0 && self.failures.len() > 0 {
            Some(self.failures[0]@)
        } else {
            None
        }
    }
}

pub fn ensure_marmot_inbound_publish_succeeded(published: &PublishedEffects) -> (checked: Result<()>)
    ensures
        match published.failure() {
            None => checked is Ok,
            Some(reason) => checked matches Err(WhitenoiseError::MarmotPublishFailed(m)) && m@ == reason,
        },
{
    let mut rolled_back = false;
    let mut i: usize = 0;
    while i < published.pending.len()
        invariant
            i <= published.pending.len(),
            rolled_back ==> published.rolled_back(),
            !rolled_back ==> forall|k: int|
                0 <= k < i ==> published.pending[k] != PendingResolution::RolledBack,
        decreases published.pending.len() - i,
    {
        if published.pending[i] == PendingResolution::RolledBack {
            assert(published.pending@[i as int] == PendingResolution::RolledBack);
            rolled_back = true;
        }
        i = i + 1;
    }
    if rolled_back {
        if published.failures.len() > 0 {
            return Err(WhitenoiseError::MarmotPublishFailed(published.failures[0].clone()));
        }
        return Err(
            WhitenoiseError::MarmotPublishFailed(
                String::from_str("Darkmatter inbound pending state was rolled back"),
            ),
        );
    }
    if published.pending.len() == 0 && published.failures.len() > 0 {
        return Err(WhitenoiseError::MarmotPublishFailed(published.failures[0].clone()));
    }
    Ok(())
}

/// Checks what came of publishing the effects of an invitation: besides what
/// holds for any message, nothing may be left queued.
pub fn publish_marmot_welcome_effects(published: &PublishedEffects) -> (checked: Result<()>)
    ensures
        match published.failure() {
            Some(reason) => checked matches Err(WhitenoiseError::MarmotPublishFailed(m)) && m@ == reason,
            None => if published.queued > 0 {
                checked matches Err(WhitenoiseError::Internal(m)) && m@ == "Darkmatter welcome queued "@
                    + decimal(published.queued as nat)
                    + " follow-up intent(s); queued intent driver is not implemented"@
            } else {
                checked is Ok
            },
        },
{
    match ensure_marmot_inbound_publish_succeeded(published) {
        Ok(()) => {},
        Err(e) => {
            return Err(e);
        },
    }
    if published.queued > 0 {
        let mut message = String::from_str("Darkmatter welcome queued ");
        message.append(decimal_text(published.queued).as_str());
        message.append(" follow-up intent(s); queued intent driver is not implemented");
        return Err(WhitenoiseError::Internal(message));
    }
    Ok(())
}

/// What follows in the work on a message that was taken in, whose effects are
/// `published` and gave rise to `events` group events: the number of the group
/// event to handle next, if there is one left. `handled` of them have been
/// handled, the last of them with the result `last`. Nothing is handled where
/// publishing failed, and the first error ends the work.
pub fn finish_marmot_mls_message(
    published: &PublishedEffects,
    events: usize,
    handled: usize,
    last: Result<()>,
) -> (next: Result<Option<usize>>)
    ensures
        match published.failure() {
            Some(reason) => next matches Err(WhitenoiseError::MarmotPublishFailed(m)) && m@ == reason,
            None => match last {
                Err(e) => next == Err::<Option<usize>, WhitenoiseError>(e),
                Ok(_) => next == Ok::<Option<usize>, WhitenoiseError>(
                    if handled < events {
                        Some(handled)
                    } else {
                        None
                    },
                ),
            },
        },
        next matches Ok(Some(n)) ==> n == handled && handled < events,
        next matches Ok(None) ==> handled >= events,
        next is Ok <==> last is Ok && published.failure() is None,
{
    match ensure_marmot_inbound_publish_succeeded(published) {
        Ok(()) => {},
        Err(e) => {
            return Err(e);
        },
    }
    match last {
        Ok(()) => {},
        Err(e) => {
            return Err(e);
        },
    }
    if handled < events {
        Ok(Some(handled))
    } else {
        Ok(None)
    }
}

/// Where a transport message goes.
#[derive(Debug)]
pub enum TransportEnvelope {
    GroupMessage { transport_group_id: Vec<u8> },
    Welcome { recipient: Vec<u8> },
}

/// Something to publish.
#[derive(Debug)]
pub enum PublishWork {
    ApplicationMessage { msg: TransportEnvelope },
    Proposal { msg: TransportEnvelope },
    AutoPublish { msg: TransportEnvelope },
    GroupEvolution { msg: TransportEnvelope, welcomes: Vec<TransportEnvelope> },
    GroupCreated { welcomes: Vec<TransportEnvelope> },
}

/// The value of a [`TransportEnvelope`].
pub enum EnvelopeV {
    Group(Seq<u8>),
    Inbox(Seq<u8>),
}

impl View for TransportEnvelope {
    type V = EnvelopeV;

    open spec fn view(&self) -> EnvelopeV {
        match self {
            TransportEnvelope::GroupMessage { transport_group_id } => EnvelopeV::Group(
                transport_group_id@,
            ),
            TransportEnvelope::Welcome { recipient } => EnvelopeV::Inbox(recipient@),
        }
    }
}

pub open spec fn envelope_views(envelopes: Seq<TransportEnvelope>) -> Seq<EnvelopeV> {
    envelopes.map_values(|e: TransportEnvelope| e@)
}

impl PublishWork {
    /// The envelopes to publish, in order.
    pub open spec fn envelopes(self) -> Seq<EnvelopeV> {
        match self {
            PublishWork::ApplicationMessage { msg } => seq![msg@],
            PublishWork::Proposal { msg } => seq![msg@],
            PublishWork::AutoPublish { msg } => seq![msg@],
            PublishWork::GroupEvolution { msg, welcomes } => seq![msg@] + envelope_views(welcomes@),
            PublishWork::GroupCreated { welcomes } => envelope_views(welcomes@),
        }
    }
}

/// The envelopes of all of `work`, in order.
pub open spec fn all_envelopes(work: Seq<PublishWork>) -> Seq<EnvelopeV>
    decreases work.len(),
{
    if work.len() == 0 {
        Seq::empty()
    } else {
        all_envelopes(work.drop_last()) + work.last().envelopes()
    }
}

/// The value of a [`Routes`].
#[verifier::ext_equal]
pub struct RoutesV {
    pub groups: Seq<Seq<u8>>,
    pub recipients: Seq<Seq<u8>>,
}

/// `list` with `item`, unless it holds it already.
pub open spec fn with_item(list: Seq<Seq<u8>>, item: Seq<u8>) -> Seq<Seq<u8>> {
    if list.contains(item) {
        list
    } else {
        list.push(item)
    }
}

impl RoutesV {
    pub open spec fn with(self, envelope: EnvelopeV) -> RoutesV {
        match envelope {
            EnvelopeV::Group(id) => RoutesV { groups: with_item(self.groups, id), ..self },
            EnvelopeV::Inbox(id) => RoutesV { recipients: with_item(self.recipients, id), ..self },
        }
    }

    pub open spec fn with_all(self, envelopes: Seq<EnvelopeV>) -> RoutesV
        decreases envelopes.len(),
    {
        if envelopes.len() == 0 {
            self
        } else {
            self.with_all(envelopes.drop_last()).with(envelopes.last())
        }
    }
}

/// The groups and recipients that have to be reached, each once, in the order
/// in which they first occur.
#[derive(Debug)]
pub struct Routes {
    pub transport_group_ids: Vec<Vec<u8>>,
    pub inbox_recipients: Vec<Vec<u8>>,
}

pub open spec fn id_views(ids: Seq<Vec<u8>>) -> Seq<Seq<u8>> {
    ids.map_values(|id: Vec<u8>| id@)
}

impl View for Routes {
    type V = RoutesV;

    open spec fn view(&self) -> RoutesV {
        RoutesV {
            groups: id_views(self.transport_group_ids@),
            recipients: id_views(self.inbox_recipients@),
        }
    }
}

fn copy_bytes(bytes: &Vec<u8>) -> (c: Vec<u8>)
    ensures
        c@ == bytes@,
{
    let mut c: Vec<u8> = Vec::new();
    let mut i: usize = 0;
    while i < bytes.len()
        invariant
            i <= bytes.len(),
            c@ == bytes@.take(i as int),
        decreases bytes.len() - i,
    {
        c.push(bytes[i]);
        assert(c@ =~= bytes@.take(i + 1));
        i = i + 1;
    }
    assert(bytes@.take(bytes.len() as int) =~= bytes@);
    c
}

fn add_item(list: &mut Vec<Vec<u8>>, item: &Vec<u8>)
    ensures
        id_views(final(list)@) == with_item(id_views(old(list)@), item@),
{
    let mut i: usize = 0;
    while i < list.len()
        invariant
            *list == *old(list),
            i <= list.len(),
            forall|k: int| 0 <= k < i ==> id_views(list@)[k] != item@,
        decreases list.len() - i,
    {
        if same_bytes(&list[i], item) {
            assert(id_views(list@)[i as int] == item@);
            return;
        }
        i = i + 1;
    }
    assert(!id_views(list@).contains(item@));
    let c = copy_bytes(item);
    list.push(c);
    assert(id_views(list@) =~= id_views(old(list)@).push(item@));
}

/// Adds the route of one message.
pub fn collect_marmot_message_route(envelope: &TransportEnvelope, routes: &mut Routes)
    ensures
        final(routes)@ == old(routes)@.with(envelope@),
{
    match envelope {
        TransportEnvelope::GroupMessage { transport_group_id } => {
            add_item(&mut routes.transport_group_ids, transport_group_id);
        },
        TransportEnvelope::Welcome { recipient } => {
            add_item(&mut routes.inbox_recipients, recipient);
        },
    }
}

fn collect_welcomes(welcomes: &Vec<TransportEnvelope>, routes: &mut Routes)
    ensures
        final(routes)@ == old(routes)@.with_all(envelope_views(welcomes@)),
{
    let ghost all = envelope_views(welcomes@);
    let mut i: usize = 0;
    assert(all.take(0) =~= Seq::empty());
    while i < welcomes.len()
        invariant
            i <= welcomes.len(),
            all == envelope_views(welcomes@),
            routes@ == old(routes)@.with_all(all.take(i as int)),
        decreases welcomes.len() - i,
    {
        assert(all.take(i + 1).drop_last() =~= all.take(i as int));
        assert(all.take(i + 1).last() == welcomes[i as int]@);
        collect_marmot_message_route(&welcomes[i], routes);
        i = i + 1;
    }
    assert(all.take(all.len() as int) =~= all);
}

/// Adds the routes of everything that one piece of work publishes.
pub fn collect_marmot_publish_work_routes(work: &PublishWork, routes: &mut Routes)
    ensures
        final(routes)@ == old(routes)@.with_all(work.envelopes()),
{
    proof {
        lemma_with_one(routes@);
    }
    match work {
        PublishWork::ApplicationMessage { msg } => {
            collect_marmot_message_route(msg, routes);
        },
        PublishWork::Proposal { msg } => {
            collect_marmot_message_route(msg, routes);
        },
        PublishWork::AutoPublish { msg } => {
            collect_marmot_message_route(msg, routes);
        },
        PublishWork::GroupEvolution { msg, welcomes } => {
            collect_marmot_message_route(msg, routes);
            collect_welcomes(welcomes, routes);
            proof {
                lemma_with_all_adds(old(routes)@, seq![msg@], envelope_views(welcomes@));
            }
        },
        PublishWork::GroupCreated { welcomes } => {
            collect_welcomes(welcomes, routes);
        },
    }
}

proof fn lemma_with_one(routes: RoutesV)
    ensures
        forall|e: EnvelopeV| #[trigger] routes.with_all(seq![e]) == routes.with(e),
{
    assert forall|e: EnvelopeV| #[trigger] routes.with_all(seq![e]) == routes.with(e) by {
        assert(seq![e].drop_last() =~= Seq::empty());
        assert(routes.with_all(seq![e].drop_last()) == routes);
    }
}

proof fn lemma_with_all_adds(routes: RoutesV, first: Seq<EnvelopeV>, second: Seq<EnvelopeV>)
    ensures
        routes.with_all(first + second) == routes.with_all(first).with_all(second),
    decreases second.len(),
{
    if second.len() == 0 {
        assert(first + second =~= first);
    } else {
        lemma_with_all_adds(routes, first, second.drop_last());
        assert((first + second).drop_last() =~= first + second.drop_last());
    }
}

/// No routes.
pub open spec fn no_routes() -> RoutesV {
    RoutesV { groups: Seq::empty(), recipients: Seq::empty() }
}

/// The routes of everything that a message gives rise to.
pub fn marmot_publish_routes_for_session_effects(publish: &Vec<PublishWork>) -> (routes: Routes)
    ensures
        routes@ == no_routes().with_all(all_envelopes(publish@)),
{
    let mut routes = Routes { transport_group_ids: Vec::new(), inbox_recipients: Vec::new() };
    assert(routes@ =~= no_routes());
    let mut i: usize = 0;
    assert(publish@.take(0) =~= Seq::empty());
    while i < publish.len()
        invariant
            i <= publish.len(),
            routes@ == no_routes().with_all(all_envelopes(publish@.take(i as int))),
        decreases publish.len() - i,
    {
        let ghost next = publish@.take(i + 1);
        assert(next.drop_last() =~= publish@.take(i as int));
        proof {
            lemma_with_all_adds(
                no_routes(),
                all_envelopes(publish@.take(i as int)),
                publish[i as int].envelopes(),
            );
        }
        collect_marmot_publish_work_routes(&publish[i], &mut routes);
        i = i + 1;
    }
    assert(publish@.take(publish.len() as int) =~= publish@);
    routes
}

/// Every destination that occurs is reached, and none twice.
pub proof fn every_destination_is_reached_once(routes: RoutesV, envelopes: Seq<EnvelopeV>)
    requires
        routes.groups.no_duplicates(),
        routes.recipients.no_duplicates(),
    ensures
        routes.with_all(envelopes).groups.no_duplicates(),
        routes.with_all(envelopes).recipients.no_duplicates(),
        forall|id: Seq<u8>|
            routes.with_all(envelopes).groups.contains(id) <==> routes.groups.contains(id)
                || envelopes.contains(EnvelopeV::Group(id)),
        forall|id: Seq<u8>|
            routes.with_all(envelopes).recipients.contains(id) <==> routes.recipients.contains(id)
                || envelopes.contains(EnvelopeV::Inbox(id)),
    decreases envelopes.len(),
{
    if envelopes.len() > 0 {
        let rest = envelopes.drop_last();
        let last = envelopes.last();
        every_destination_is_reached_once(routes, rest);
        let mid = routes.with_all(rest);
        assert forall|e: EnvelopeV| envelopes.contains(e) <==> rest.contains(e) || e == last by {
            if rest.contains(e) {
                let k = choose|k: int| 0 <= k < rest.len() && rest[k] == e;
                assert(envelopes[k] == e);
            }
            if envelopes.contains(e) && e != last {
                let k = choose|k: int| 0 <= k < envelopes.len() && envelopes[k] == e;
                assert(rest[k] == e);
            }
            assert(envelopes[envelopes.len() - 1] == last);
        }
        match last {
            EnvelopeV::Group(id) => {
                lemma_with_item(mid.groups, id);
            },
            EnvelopeV::Inbox(id) => {
                lemma_with_item(mid.recipients, id);
            },
        }
    }
}

proof fn lemma_with_item(list: Seq<Seq<u8>>, item: Seq<u8>)
    requires
        list.no_duplicates(),
    ensures
        with_item(list, item).no_duplicates(),
        forall|id: Seq<u8>| with_item(list, item).contains(id) <==> list.contains(id) || id == item,
{
    if !list.contains(item) {
        let after = list.push(item);
        assert forall|id: Seq<u8>| after.contains(id) <==> list.contains(id) || id == item by {
            if list.contains(id) {
                let k = choose|k: int| 0 <= k < list.len() && list[k] == id;
                assert(after[k] == id);
            }
            if after.contains(id) && id != item {
                let k = choose|k: int| 0 <= k < after.len() && after[k] == id;
                assert(list[k] == id);
            }
            assert(after[list.len() as int] == item);
        }
    }
}

/// Checks that the routes can be looked up: those of groups are known to the
/// account's group session alone.
pub fn require_session_for_routes(routes: &Routes, has_session: bool, account: &PublicKey) -> (checked:
    Result<()>)
    ensures
        checked == if routes@.groups.len() > 0 && !has_session {
            Err::<(), WhitenoiseError>(WhitenoiseError::MarmotSessionUnavailable(*account))
        } else {
            Ok::<(), WhitenoiseError>(())
        },
{
    if routes.transport_group_ids.len() > 0 && !has_session {
        Err(WhitenoiseError::MarmotSessionUnavailable(*account))
    } else {
        Ok(())
    }
}

/// The key of somebody an invitation is addressed to.
pub fn recipient_pubkey(recipient: &Vec<u8>) -> (key: Result<PublicKey>)
    ensures
        key is Ok <==> recipient.len() == 32,
        key matches Ok(k) ==> k.bytes@ == recipient@,
        key matches Err(e) ==> (e matches WhitenoiseError::InvalidInput(m) && m@
            == "invalid Marmot welcome recipient identity: "@ + "Invalid public key"@),
{
    match public_key_from_slice(recipient) {
        Ok(key) => Ok(key),
        Err(error) => {
            let mut message = String::from_str("invalid Marmot welcome recipient identity: ");
            message.append(error.as_str());
            Err(WhitenoiseError::InvalidInput(message))
        },
    }
}

// ---------------------------------------------------------------------------
// Group events
// ---------------------------------------------------------------------------

/// Something that happened in a group.
#[derive(Debug)]
pub enum GroupEvent {
    MessageReceived { sender: Vec<u8>, payload: Vec<u8> },
    MemberAdded,
    EpochChanged,
    ForkRecovered,
    MemberRemoved { member: Vec<u8> },
    GroupCreated,
    GroupJoined,
    AppMessageInvalidated,
    GroupUnrecoverable,
}

/// What a group event calls for.
#[derive(Clone, Copy, PartialEq, Eq, Structural, Debug)]
pub enum GroupEventAction {
    HandleMessage,
    /// Bring the stored group up to date.
    RefreshProjection,
    /// Mark the account as removed from the group, then bring the group up to
    /// date.
    MarkRemovedAndRefresh,
    Nothing,
}

/// What the removal of `member` calls for, where this account is `local_member`
/// in the group; none where it has no group session to ask.
pub open spec fn removal_action(member: Seq<u8>, local_member: Option<Seq<u8>>) -> Option<GroupEventAction> {
    match local_member {
        Some(local) => Some(
            if member == local {
                GroupEventAction::MarkRemovedAndRefresh
            } else {
                GroupEventAction::RefreshProjection
            },
        ),
        None => None,
    }
}

/// What a group event calls for. Only a removal needs the group session.
pub open spec fn event_action(event: GroupEvent, local_member: Option<Seq<u8>>) -> Option<GroupEventAction> {
    match event {
        GroupEvent::MessageReceived { .. } => Some(GroupEventAction::HandleMessage),
        GroupEvent::MemberRemoved { member } => removal_action(member@, local_member),
        GroupEvent::AppMessageInvalidated | GroupEvent::GroupUnrecoverable => Some(
            GroupEventAction::Nothing,
        ),
        _ => Some(GroupEventAction::RefreshProjection),
    }
}

pub open spec fn bytes_of(bytes: Option<&Vec<u8>>) -> Option<Seq<u8>> {
    match bytes {
        Some(b) => Some(b@),
        None => None,
    }
}

/// Decides what a group event calls for. `local_member` is this account in
/// the group, as its group session knows it; none where there is no session.
pub fn handle_marmot_group_event(
    event: &GroupEvent,
    account: &PublicKey,
    local_member: Option<&Vec<u8>>,
) -> (action: Result<GroupEventAction>)
    ensures
        action == match event_action(*event, bytes_of(local_member)) {
            Some(a) => Ok::<GroupEventAction, WhitenoiseError>(a),
            None => Err(WhitenoiseError::MarmotSessionUnavailable(*account)),
        },
{
    match event {
        GroupEvent::MessageReceived { .. } => Ok(GroupEventAction::HandleMessage),
        GroupEvent::MemberRemoved { member } => handle_marmot_member_removed(
            member,
            account,
            local_member,
        ),
        GroupEvent::AppMessageInvalidated => Ok(GroupEventAction::Nothing),
        GroupEvent::GroupUnrecoverable => Ok(GroupEventAction::Nothing),
        GroupEvent::MemberAdded => Ok(GroupEventAction::RefreshProjection),
        GroupEvent::EpochChanged => Ok(GroupEventAction::RefreshProjection),
        GroupEvent::ForkRecovered => Ok(GroupEventAction::RefreshProjection),
        GroupEvent::GroupCreated => Ok(GroupEventAction::RefreshProjection),
        GroupEvent::GroupJoined => Ok(GroupEventAction::RefreshProjection),
    }
}

/// Decides what the removal of a member calls for.
pub fn handle_marmot_member_removed(
    member: &Vec<u8>,
    account: &PublicKey,
    local_member: Option<&Vec<u8>>,
) -> (action: Result<GroupEventAction>)
    ensures
        action == match removal_action(member@, bytes_of(local_member)) {
            Some(a) => Ok::<GroupEventAction, WhitenoiseError>(a),
            None => Err(WhitenoiseError::MarmotSessionUnavailable(*account)),
        },
{
    match local_member {
        None => Err(WhitenoiseError::MarmotSessionUnavailable(*account)),
        Some(local) => if same_bytes(member, local) {
            Ok(GroupEventAction::MarkRemovedAndRefresh)
        } else {
            Ok(GroupEventAction::RefreshProjection)
        },
    }
}

/// The work of bringing a stored group up to date, in order.
#[derive(Clone, Copy, PartialEq, Eq, Structural, Debug)]
pub enum RefreshStep {
    /// Look up whether the account has the group.
    FindAccountGroup,
    /// Ask the session for the group as it is.
    Project,
    /// Store it.
    Store,
    /// Drop push tokens of members that are gone.
    ReconcileTokens,
    RefreshSubscriptions,
    SyncImage,
    Done,
}

/// What follows `step`. The first error ends the work, except that tokens
/// which cannot be reconciled are left for later. A group that the account
/// does not have, given as `Ok(false)`, is left alone.
pub fn refresh_marmot_group_projection_after_event(step: RefreshStep, reply: Result<bool>) -> (next:
    Result<RefreshStep>)
    ensures
        match reply {
            Err(e) => if step is ReconcileTokens {
                next == Ok::<RefreshStep, WhitenoiseError>(RefreshStep::RefreshSubscriptions)
            } else {
                next == Err::<RefreshStep, WhitenoiseError>(e)
            },
            Ok(yes) => next == Ok::<RefreshStep, WhitenoiseError>(
                match step {
                    RefreshStep::FindAccountGroup => if yes {
                        RefreshStep::Project
                    } else {
                        RefreshStep::Done
                    },
                    RefreshStep::Project => RefreshStep::Store,
                    RefreshStep::Store => RefreshStep::ReconcileTokens,
                    RefreshStep::ReconcileTokens => RefreshStep::RefreshSubscriptions,
                    RefreshStep::RefreshSubscriptions => RefreshStep::SyncImage,
                    _ => RefreshStep::Done,
                },
            ),
        },
        next is Err <==> reply is Err && !(step is ReconcileTokens),
        next == Ok::<RefreshStep, WhitenoiseError>(RefreshStep::Project) <==> step is FindAccountGroup
            && reply == Ok::<bool, WhitenoiseError>(true),
        next == Ok::<RefreshStep, WhitenoiseError>(RefreshStep::Store) <==> step is Project && reply is Ok,
        next == Ok::<RefreshStep, WhitenoiseError>(RefreshStep::ReconcileTokens) <==> step is Store
            && reply is Ok,
        next == Ok::<RefreshStep, WhitenoiseError>(RefreshStep::RefreshSubscriptions)
            <==> step is ReconcileTokens,
        next == Ok::<RefreshStep, WhitenoiseError>(RefreshStep::SyncImage)
            <==> step is RefreshSubscriptions && reply is Ok,
{
    match reply {
        Err(e) => match step {
            RefreshStep::ReconcileTokens => Ok(RefreshStep::RefreshSubscriptions),
            _ => Err(e),
        },
        Ok(yes) => Ok(
            match step {
                RefreshStep::FindAccountGroup => if yes {
                    RefreshStep::Project
                } else {
                    RefreshStep::Done
                },
                RefreshStep::Project => RefreshStep::Store,
                RefreshStep::Store => RefreshStep::ReconcileTokens,
                RefreshStep::ReconcileTokens => RefreshStep::RefreshSubscriptions,
                RefreshStep::RefreshSubscriptions => RefreshStep::SyncImage,
                RefreshStep::SyncImage => RefreshStep::Done,
                RefreshStep::Done => RefreshStep::Done,
            },
        ),
    }
}

/// The work on an application message, in order.
#[derive(Clone, Copy, PartialEq, Eq, Structural, Debug)]
pub enum ApplicationStep {
    /// Look up whether the account has the group.
    FindAccountGroup,
    /// Ask the group session, where there is one, for the group's epoch.
    ReadEpoch,
    /// Read the payload, and say whether the message is about push tokens.
    Decode,
    /// Find the place of the sender of a push message.
    FindSenderLeaf,
    HandlePush,
    HandleStandard,
    Done,
}

impl ApplicationStep {
    /// What follows where the step succeeded and answered `yes`.
    pub open spec fn spec_next(self, yes: bool) -> ApplicationStep {
        match self {
            ApplicationStep::FindAccountGroup => if yes {
                ApplicationStep::ReadEpoch
            } else {
                ApplicationStep::Done
            },
            ApplicationStep::ReadEpoch => ApplicationStep::Decode,
            ApplicationStep::Decode => if yes {
                ApplicationStep::FindSenderLeaf
            } else {
                ApplicationStep::HandleStandard
            },
            ApplicationStep::FindSenderLeaf => ApplicationStep::HandlePush,
            _ => ApplicationStep::Done,
        }
    }
}

/// What follows `step`. The first error ends the work, except that a push
/// message which cannot be handled is passed over. So is a message of a group
/// that the account does not have, which may have been deleted.
pub fn handle_marmot_application_message(step: ApplicationStep, reply: Result<bool>) -> (next: Result<
    ApplicationStep,
>)
    ensures
        match reply {
            Err(e) => if step is HandlePush {
                next == Ok::<ApplicationStep, WhitenoiseError>(ApplicationStep::Done)
            } else {
                next == Err::<ApplicationStep, WhitenoiseError>(e)
            },
            Ok(yes) => next == Ok::<ApplicationStep, WhitenoiseError>(step.spec_next(yes)),
        },
{
    match reply {
        Err(e) => match step {
            ApplicationStep::HandlePush => Ok(ApplicationStep::Done),
            _ => Err(e),
        },
        Ok(yes) => Ok(
            match step {
                ApplicationStep::FindAccountGroup => if yes {
                    ApplicationStep::ReadEpoch
                } else {
                    ApplicationStep::Done
                },
                ApplicationStep::ReadEpoch => ApplicationStep::Decode,
                ApplicationStep::Decode => if yes {
                    ApplicationStep::FindSenderLeaf
                } else {
                    ApplicationStep::HandleStandard
                },
                ApplicationStep::FindSenderLeaf => ApplicationStep::HandlePush,
                _ => ApplicationStep::Done,
            },
        ),
    }
}

/// A member of a group and its place in the group's tree.
#[derive(Clone, Copy, Debug)]
pub struct MemberLeaf {
    pub index: u32,
    pub pubkey: PublicKey,
}

/// The place of the first of `leaves` that belongs to the member `key`.
pub open spec fn leaf_of(leaves: Seq<MemberLeaf>, key: Seq<u8>) -> Option<u32>
    decreases leaves.len(),
{
    if leaves.len() == 0 {
        None
    } else {
        match leaf_of(leaves.drop_last(), key) {
            Some(index) => Some(index),
            None => if leaves.last().pubkey.bytes@ == key {
                Some(leaves.last().index)
            } else {
                None
            },
        }
    }
}

fn find_leaf(leaves: &Vec<MemberLeaf>, key: &PublicKey) -> (found: Option<u32>)
    ensures
        found == leaf_of(leaves@, key.bytes@),
{
    let mut found: Option<u32> = None;
    let mut i: usize = 0;
    while i < leaves.len()
        invariant
            i <= leaves.len(),
            found == leaf_of(leaves@.take(i as int), key.bytes@),
        decreases leaves.len() - i,
    {
        assert(leaves@.take(i + 1).drop_last() =~= leaves@.take(i as int));
        assert(leaves@.take(i + 1).last() == leaves@[i as int]);
        assert(leaves@[i as int].pubkey.bytes@ == key.bytes@ ==> leaves@[i as int].pubkey.bytes
            =~= key.bytes);
        if found.is_none() && leaves[i].pubkey == *key {
            found = Some(leaves[i].index);
        }
        i = i + 1;
    }
    assert(leaves@.take(leaves.len() as int) =~= leaves@);
    found
}

/// The place of the sender of a push message in its group. `leaves` are the
/// members that the account's session knows; none where there is no session.
pub fn marmot_sender_push_leaf_index(
    sender: &Vec<u8>,
    account: &PublicKey,
    leaves: Option<&Vec<MemberLeaf>>,
) -> (index: Result<Option<u32>>)
    ensures
        sender.len() != 32 ==> (index matches Err(WhitenoiseError::InvalidInput(m)) && m@
            == "invalid Darkmatter push sender pubkey: "@ + "Invalid public key"@),
        sender.len() == 32 ==> match leaves {
            None => index == Err::<Option<u32>, WhitenoiseError>(
                WhitenoiseError::MarmotSessionUnavailable(*account),
            ),
            Some(known) => index == Ok::<Option<u32>, WhitenoiseError>(leaf_of(known@, sender@)),
        },
{
    let key = match public_key_from_slice(sender) {
        Ok(key) => key,
        Err(error) => {
            let mut message = String::from_str("invalid Darkmatter push sender pubkey: ");
            message.append(error.as_str());
            return Err(WhitenoiseError::InvalidInput(message));
        },
    };
    match leaves {
        Some(known) => Ok(find_leaf(known, &key)),
        None => Err(WhitenoiseError::MarmotSessionUnavailable(*account)),
    }
}

// ---------------------------------------------------------------------------
// Showing what a message changes
// ---------------------------------------------------------------------------

/// Why the list of chats changes.
#[derive(Clone, Copy, PartialEq, Eq, Structural, Debug)]
pub enum ChatListUpdateTrigger {
    NewGroup,
    NewLastMessage,
    LastMessageDeleted,
}

/// Something to tell those who watch.
#[derive(Debug)]
pub enum Emission {
    /// Notify the user of a new message, where that is enabled.
    Notification(ChatMessage),
    Message(Update),
    ChatList(ChatListUpdateTrigger),
}

/// The value of an [`Emission`].
pub enum EmissionV {
    Notification(MessageV),
    Message(UpdateV),
    ChatList(ChatListUpdateTrigger),
}

impl View for Emission {
    type V = EmissionV;

    open spec fn view(&self) -> EmissionV {
        match self {
            Emission::Notification(m) => EmissionV::Notification(m@),
            Emission::Message(u) => EmissionV::Message(u@),
            Emission::ChatList(t) => EmissionV::ChatList(*t),
        }
    }
}

pub open spec fn emission_views(emissions: Seq<Emission>) -> Seq<EmissionV> {
    emissions.map_values(|e: Emission| e@)
}

/// Whether `updates` delete the message `last`.
pub open spec fn deletes_message(updates: Seq<UpdateV>, last: Option<Seq<char>>) -> bool {
    last is Some && exists|i: int|
        0 <= i < updates.len() && (#[trigger] updates[i]).trigger is MessageDeleted
            && updates[i].message.id == last->0
}

/// What a deletion makes those who watch see. `last` is the newest message of
/// the group before the deletion.
pub open spec fn deletion_emissions(updates: Seq<UpdateV>, last: Option<Seq<char>>) -> Seq<EmissionV> {
    let shown = updates.map_values(|u: UpdateV| EmissionV::Message(u));
    if deletes_message(updates, last) {
        shown.push(EmissionV::ChatList(ChatListUpdateTrigger::LastMessageDeleted))
    } else {
        shown
    }
}

pub open spec fn last_text(last: Option<&String>) -> Option<Seq<char>> {
    match last {
        Some(s) => Some(s@),
        None => None,
    }
}

/// Takes in a deletion and returns what to tell those who watch.
pub fn handle_deletion_application_message(
    cache: &mut MessageCache,
    message: &MarmotMessage,
    last_message_id: Option<&String>,
) -> (emissions: Vec<Emission>)
    ensures
        final(cache)@.wf(),
        final(cache)@ == old(cache)@.after_deletion(*message).0,
        emission_views(emissions@) == deletion_emissions(
            old(cache)@.after_deletion(*message).1,
            last_text(last_message_id),
        ),
{
    let updates = cache.cache_deletion(message);
    let ghost views = update_views(updates@);
    let mut deleted_last = false;
    let mut emissions: Vec<Emission> = Vec::new();
    let ghost all = updates@;
    let ghost last = last_text(last_message_id);
    assert(views.take(0) =~= Seq::empty());
    assert(emission_views(emissions@) =~= Seq::empty());
    for update in it: updates
        invariant
            it.seq() == all,
            views == update_views(all),
            last == last_text(last_message_id),
            emissions.len() == it.index(),
            forall|i: int| 0 <= i < it.index() ==> (#[trigger] emissions[i])@ == EmissionV::Message(views[i]),
            deleted_last == deletes_message(views.take(it.index()), last),
    {
        let ghost n = it.index();
        assert(views[n] == update@);
        let mut is_last = false;
        if let Some(id) = last_message_id {
            if update.trigger == UpdateTrigger::MessageDeleted && same_text(
                update.message.id.as_str(),
                id.as_str(),
            ) {
                is_last = true;
            }
        }
        proof {
            let before = views.take(n);
            let next = views.take(n + 1);
            assert(next =~= before.push(views[n]));
            if is_last {
                assert(next[n].trigger is MessageDeleted && next[n].message.id == last->0);
            }
            if deletes_message(before, last) {
                let k = choose|k: int|
                    0 <= k < before.len() && (#[trigger] before[k]).trigger is MessageDeleted
                        && before[k].message.id == last->0;
                assert(next[k] == before[k]);
            }
            if deletes_message(next, last) && !is_last {
                let k = choose|k: int|
                    0 <= k < next.len() && (#[trigger] next[k]).trigger is MessageDeleted
                        && next[k].message.id == last->0;
                assert(before[k] == next[k]);
            }
        }
        if is_last {
            deleted_last = true;
        }
        emissions.push(Emission::Message(update));
    }
    assert(views.take(views.len() as int) =~= views);
    let ghost shown = views.map_values(|u: UpdateV| EmissionV::Message(u));
    assert(emission_views(emissions@) =~= shown);
    if deleted_last {
        let ghost before = emissions@;
        emissions.push(Emission::ChatList(ChatListUpdateTrigger::LastMessageDeleted));
        assert(emission_views(emissions@) =~= shown.push(
            EmissionV::ChatList(ChatListUpdateTrigger::LastMessageDeleted),
        ));
    }
    emissions
}

/// The cache after an application message. Only chat messages, reactions and
/// deletions change it.
pub open spec fn after_application_message(c: CacheV, m: MarmotMessage) -> CacheV {
    if m.kind == KIND_CHAT_MESSAGE {
        c.after_chat_message(m)
    } else if m.kind == KIND_REACTION {
        c.after_reaction(m)
    } else if m.kind == KIND_EVENT_DELETION {
        c.after_deletion(m).0
    } else {
        c
    }
}

/// Whether messages of this kind are shown, and so need the account's cache.
pub open spec fn needs_cache(kind: u16) -> bool {
    kind == KIND_CHAT_MESSAGE || kind == KIND_REACTION || kind == KIND_EVENT_DELETION
}

/// Checks that a message of the kind `kind` can be cached: the cache goes with
/// the account's session, which ends when the account logs out.
pub fn require_session_for_cache(kind: u16, has_session: bool) -> (checked: Result<()>)
    ensures
        checked == if needs_cache(kind) && !has_session {
            Err::<(), WhitenoiseError>(WhitenoiseError::AccountNotFound)
        } else {
            Ok::<(), WhitenoiseError>(())
        },
        checked is Err <==> !has_session && (kind == 5 || kind == 7 || kind == 9),
        checked matches Err(e) ==> e is AccountNotFound,
{
    let needed = kind == KIND_CHAT_MESSAGE || kind == KIND_REACTION || kind == KIND_EVENT_DELETION;
    if needed && !has_session {
        Err(WhitenoiseError::AccountNotFound)
    } else {
        Ok(())
    }
}

/// Why a reaction fails, if it does: it names no message, or its content is
/// not an emoji and the message that it names is there.
pub open spec fn reaction_failure(c: CacheV, m: MarmotMessage) -> Option<Seq<char>> {
    if m.kind != KIND_REACTION || c.outgoing.contains(m.id@) {
        None
    } else {
        match reaction_target(m.tags@) {
            None => Some("Reaction does not reference a message"@),
            Some(target) => if m.emoji is None && c.messages.dom().contains(target) {
                Some("Reaction content is not a valid emoji"@)
            } else {
                None
            },
        }
    }
}

/// What an application message makes those who watch see.
pub open spec fn application_emissions(c: CacheV, m: MarmotMessage, last: Option<Seq<char>>) -> Seq<EmissionV> {
    let after = after_application_message(c, m);
    if m.kind == KIND_CHAT_MESSAGE {
        let shown = after.messages[m.id@];
        seq![
            EmissionV::Notification(shown),
            EmissionV::Message(UpdateV { trigger: UpdateTrigger::NewMessage, message: shown }),
            EmissionV::ChatList(ChatListUpdateTrigger::NewLastMessage),
        ]
    } else if m.kind == KIND_REACTION {
        match reaction_target(m.tags@) {
            Some(target) if !c.outgoing.contains(m.id@) && c.messages.dom().contains(target) => seq![
                EmissionV::Message(
                    UpdateV {
                        trigger: UpdateTrigger::ReactionAdded,
                        message: after.messages[target],
                    },
                ),
            ],
            _ => Seq::empty(),
        }
    } else if m.kind == KIND_EVENT_DELETION {
        deletion_emissions(c.after_deletion(m).1, last)
    } else {
        Seq::empty()
    }
}

/// Takes in an application message and returns what to tell those who watch.
/// `stored` is what came of storing the message and the media that it refers
/// to: where that failed, nothing changes. `last_message_id` is the newest
/// message of the group before.
pub fn handle_standard_marmot_application_message(
    stored: Result<()>,
    cache: &mut MessageCache,
    message: &MarmotMessage,
    last_message_id: Option<&String>,
) -> (emissions: Result<Vec<Emission>>)
    ensures
        old(cache)@.wf() ==> final(cache)@.wf(),
        match stored {
            Err(error) => *final(cache) == *old(cache) && (emissions matches Err(e) && e == error),
            Ok(_) => {
                &&& final(cache)@ == after_application_message(old(cache)@, *message)
                &&& match reaction_failure(old(cache)@, *message) {
                    Some(reason) => emissions matches Err(WhitenoiseError::MessageAggregation(m))
                        && m@ == reason,
                    None => emissions matches Ok(told) && emission_views(told@)
                        == application_emissions(old(cache)@, *message, last_text(last_message_id)),
                }
            },
        },
{
    if let Err(error) = stored {
        return Err(error);
    }
    let mut emissions: Vec<Emission> = Vec::new();
    if message.kind == KIND_CHAT_MESSAGE {
        let shown = cache.cache_chat_message(message);
        emissions.push(Emission::Notification(shown.copy()));
        emissions.push(
            Emission::Message(Update { trigger: UpdateTrigger::NewMessage, message: shown }),
        );
        emissions.push(Emission::ChatList(ChatListUpdateTrigger::NewLastMessage));
        assert(emission_views(emissions@) =~= application_emissions(
            old(cache)@,
            *message,
            last_text(last_message_id),
        ));
        Ok(emissions)
    } else if message.kind == KIND_REACTION {
        match cache.cache_reaction(message) {
            Ok(Some(target)) => {
                emissions.push(
                    Emission::Message(
                        Update { trigger: UpdateTrigger::ReactionAdded, message: target },
                    ),
                );
                assert(emission_views(emissions@) =~= application_emissions(
                    old(cache)@,
                    *message,
                    last_text(last_message_id),
                ));
                Ok(emissions)
            },
            Ok(None) => {
                assert(emission_views(emissions@) =~= application_emissions(
                    old(cache)@,
                    *message,
                    last_text(last_message_id),
                ));
                Ok(emissions)
            },
            Err(e) => Err(e),
        }
    } else if message.kind == KIND_EVENT_DELETION {
        Ok(handle_deletion_application_message(cache, message, last_message_id))
    } else {
        assert(emission_views(emissions@) =~= Seq::empty());
        Ok(emissions)
    }
}

} // verus!
