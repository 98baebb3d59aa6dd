//! What a group message leads to: where it goes, what it calls for and what
//! those who watch are told.

use vstd::prelude::*;

use super::handle_mls_message::{
    after_application_message, all_envelopes, application_emissions, bytes_of, deletes_message,
    deletion_emissions, emission_views, envelope_views, event_action,
    every_destination_is_reached_once, id_views, last_text, leaf_of, needs_cache, no_routes,
    reaction_failure, removal_action, ApplicationStep, ChatListUpdateTrigger, Emission, EmissionV,
    EnvelopeV, GroupEvent, GroupEventAction, IngestOutcome, IngestReply, IngestStep, MemberLeaf,
    PendingResolution, PublishWork, PublishedEffects, Routes, RoutesV, StaleReason,
    TransportEnvelope,
};
use super::message_cache::{update_views, CacheV, MarmotMessage, Update, UpdateTrigger, UpdateV};
use crate::whitenoise::nostr::first_tag_decides;

verus! {

// ---------------------------------------------------------------------------
// Taking a message in
// ---------------------------------------------------------------------------

/// A message is read, handed to the session, recognized and taken in, in that
/// order. It is ignored where the session does not know its route, and where it
/// comes too late because its group is unknown, it cannot be opened or it is
/// not for this client. Whatever else comes of it, it was taken in.
pub proof fn a_message_is_taken_in_unless_it_is_of_no_concern(step: IngestStep, reply: IngestReply)
    requires
        step.takes(reply),
    ensures
        step is Decode ==> reply is Done && step.spec_next(reply) is FindSession,
        step is FindSession ==> reply is Done && step.spec_next(reply) is Recognize,
        step is Recognize ==> (step.spec_next(reply) is Ingest <==> reply
            == IngestReply::Recognized(true)),
        step is Recognize ==> (step.spec_next(reply) is Ignored <==> reply
            == IngestReply::Recognized(
            false,
        )),
        step is Ingest ==> (step.spec_next(reply) is Ignored <==> reply == IngestReply::Outcome(
            IngestOutcome::Stale(StaleReason::UnknownGroup),
        ) || reply == IngestReply::Outcome(IngestOutcome::Stale(StaleReason::PeelFailed)) || reply
            == IngestReply::Outcome(IngestOutcome::Stale(StaleReason::NotForThisClient))),
        step is Ingest ==> step.spec_next(reply) is Ignored || step.spec_next(reply) is Processed,
{
}

/// Each step of taking a message in has its own reply, and an end has none.
pub proof fn each_ingest_step_has_its_reply(step: IngestStep, reply: IngestReply)
    ensures
        step is Decode || step is FindSession ==> (step.takes(reply) <==> reply is Done),
        step is Recognize ==> (step.takes(reply) <==> reply is Recognized),
        step is Ingest ==> (step.takes(reply) <==> reply is Outcome),
        step is Processed || step is Ignored ==> !step.takes(reply),
{
}

// ---------------------------------------------------------------------------
// Publishing
// ---------------------------------------------------------------------------

/// Publishing failed exactly if some change was rolled back, or if no change
/// was pending and some publication failed. The first failure is the reason;
/// without any it is that the state was rolled back.
pub proof fn publishing_fails_for_a_reason(published: PublishedEffects)
    ensures
        published.failure() is None <==> (forall|i: int|
            0 <= i < published.pending@.len() ==> #[trigger] published.pending@[i]
                != PendingResolution::RolledBack) && (published.pending@.len() > 0
            || published.failures@.len() == 0),
        published.failure() is Some && published.failures@.len() > 0 ==> published.failure()
            == Some(published.failures@[0]@),
        published.failure() is Some && published.failures@.len() == 0 ==> published.failure()
            == Some(
            "Darkmatter inbound pending state was rolled back"@,
        ),
{
    if exists|i: int|
        0 <= i < published.pending@.len() && #[trigger] published.pending@[i]
            == PendingResolution::RolledBack {
        let i = choose|i: int|
            0 <= i < published.pending@.len() && #[trigger] published.pending@[i]
                == PendingResolution::RolledBack;
        assert(published.pending@.contains(published.pending@[i]));
    }
}

/// A group message goes to its group and an invitation to the inbox of its
/// recipient.
pub proof fn envelopes_go_where_they_are_addressed(envelope: TransportEnvelope)
    ensures
        envelope is GroupMessage ==> envelope@ == EnvelopeV::Group(
            envelope->GroupMessage_transport_group_id@,
        ),
        envelope is Welcome ==> envelope@ == EnvelopeV::Inbox(envelope->Welcome_recipient@),
{
}

/// Every message and every invitation of a piece of work is published, the
/// message first and the invitations in their order, and nothing else is.
pub proof fn all_of_a_work_is_published(work: PublishWork, i: int)
    ensures
        work is ApplicationMessage ==> work.envelopes() == seq![work->ApplicationMessage_msg@],
        work is Proposal ==> work.envelopes() == seq![work->Proposal_msg@],
        work is AutoPublish ==> work.envelopes() == seq![work->AutoPublish_msg@],
        work is GroupEvolution ==> work.envelopes().len() == 1
            + work->GroupEvolution_welcomes@.len()
            && work.envelopes()[0] == work->GroupEvolution_msg@ && (0 <= i
            < work->GroupEvolution_welcomes@.len() ==> work.envelopes()[1 + i]
            == work->GroupEvolution_welcomes@[i]@),
        work is GroupCreated ==> work.envelopes().len() == work->GroupCreated_welcomes@.len()
            && (0 <= i
            < work->GroupCreated_welcomes@.len() ==> work.envelopes()[i]
            == work->GroupCreated_welcomes@[i]@),
{
}

/// Pieces of work are published one after the other, each whole.
pub proof fn works_are_published_in_turn(works: Seq<PublishWork>, work: PublishWork)
    ensures
        all_envelopes(Seq::empty()) == Seq::<EnvelopeV>::empty(),
        all_envelopes(works.push(work)) == all_envelopes(works) + work.envelopes(),
{
    assert(works.push(work).drop_last() =~= works);
}

/// A destination that is new is put at the end of its list; one that is known
/// changes nothing. The other list stays as it is.
pub proof fn a_new_destination_comes_last(routes: RoutesV, id: Seq<u8>)
    ensures
        ({
            let now = routes.with(EnvelopeV::Group(id));
            &&& now.recipients == routes.recipients
            &&& routes.groups.contains(id) ==> now.groups == routes.groups
            &&& !routes.groups.contains(id) ==> now.groups == routes.groups.push(id)
        }),
        ({
            let now = routes.with(EnvelopeV::Inbox(id));
            &&& now.groups == routes.groups
            &&& routes.recipients.contains(id) ==> now.recipients == routes.recipients
            &&& !routes.recipients.contains(id) ==> now.recipients == routes.recipients.push(id)
        }),
{
}

/// Destinations are collected from one envelope after the other.
pub proof fn destinations_are_collected_in_turn(
    routes: RoutesV,
    envelopes: Seq<EnvelopeV>,
    envelope: EnvelopeV,
)
    ensures
        routes.with_all(Seq::empty()) == routes,
        routes.with_all(envelopes.push(envelope)) == routes.with_all(envelopes).with(envelope),
        no_routes().groups.len() == 0,
        no_routes().recipients.len() == 0,
{
    assert(envelopes.push(envelope).drop_last() =~= envelopes);
}

proof fn lemma_work_is_among_all(works: Seq<PublishWork>, k: int, i: int)
    requires
        0 <= k < works.len(),
        0 <= i < works[k].envelopes().len(),
    ensures
        all_envelopes(works).contains(works[k].envelopes()[i]),
    decreases works.len(),
{
    let rest = works.drop_last();
    let before = all_envelopes(rest);
    let all = all_envelopes(works);
    if k < rest.len() {
        assert(rest[k] == works[k]);
        lemma_work_is_among_all(rest, k, i);
        let j = choose|j: int| 0 <= j < before.len() && before[j] == works[k].envelopes()[i];
        assert(all[j] == before[j]);
    } else {
        assert(all[before.len() + i] == works[k].envelopes()[i]);
    }
}

/// Whatever is to be published has its route: the group of every group message
/// and the recipient of every invitation is among the destinations.
pub proof fn whatever_is_published_has_a_route(works: Seq<PublishWork>, k: int, i: int, id: Seq<u8>)
    requires
        0 <= k < works.len(),
        0 <= i < works[k].envelopes().len(),
    ensures
        works[k].envelopes()[i] == EnvelopeV::Group(id) ==> no_routes().with_all(
            all_envelopes(works),
        ).groups.contains(id),
        works[k].envelopes()[i] == EnvelopeV::Inbox(id) ==> no_routes().with_all(
            all_envelopes(works),
        ).recipients.contains(id),
{
    lemma_work_is_among_all(works, k, i);
    every_destination_is_reached_once(no_routes(), all_envelopes(works));
    assert(!no_routes().groups.contains(id));
    assert(!no_routes().recipients.contains(id));
}

// ---------------------------------------------------------------------------
// Group events
// ---------------------------------------------------------------------------

/// A message is handled, a change of the group's members or state refreshes
/// the stored group, and what concerns neither calls for nothing. The removal
/// of a member marks the account as removed exactly if it is that member; it
/// is the one event that cannot be dealt with without a group session.
pub proof fn each_group_event_calls_for_its_action(event: GroupEvent, local: Option<Seq<u8>>)
    ensures
        event_action(event, local) == Some(GroupEventAction::HandleMessage)
            <==> event is MessageReceived,
        event_action(event, local) == Some(GroupEventAction::Nothing)
            <==> event is AppMessageInvalidated
            || event is GroupUnrecoverable,
        event is MemberAdded || event is EpochChanged || event is ForkRecovered
            || event is GroupCreated
            || event is GroupJoined ==> event_action(event, local) == Some(
            GroupEventAction::RefreshProjection,
        ),
        event_action(event, local) is None <==> event is MemberRemoved && local is None,
        event_action(event, local) == Some(GroupEventAction::MarkRemovedAndRefresh)
            <==> event is MemberRemoved && local == Some(event->MemberRemoved_member@),
        event is MemberRemoved && local is Some && local->0 != event->MemberRemoved_member@
            ==> event_action(event, local) == Some(GroupEventAction::RefreshProjection),
{
}

/// The removal of a member concerns the account exactly if it is that member.
pub proof fn a_removal_marks_only_the_member_itself(member: Seq<u8>, local: Seq<u8>)
    ensures
        removal_action(member, Some(local)) == Some(GroupEventAction::MarkRemovedAndRefresh)
            <==> member
            == local,
        removal_action(member, Some(local)) == Some(GroupEventAction::RefreshProjection) <==> member
            != local,
        removal_action(member, None) is None,
{
}

/// An application message is handled only for a group that the account has:
/// its epoch is read, it is decoded, and a push message goes by way of its
/// sender's place to its own handler while any other goes to the standard one.
pub proof fn an_application_message_finds_its_handler(step: ApplicationStep, yes: bool)
    ensures
        step is FindAccountGroup ==> (step.spec_next(yes) is ReadEpoch <==> yes),
        step is FindAccountGroup ==> (step.spec_next(yes) is Done <==> !yes),
        step is ReadEpoch ==> step.spec_next(yes) is Decode,
        step is Decode ==> (step.spec_next(yes) is FindSenderLeaf <==> yes),
        step is Decode ==> (step.spec_next(yes) is HandleStandard <==> !yes),
        step is FindSenderLeaf ==> step.spec_next(yes) is HandlePush,
        step is HandlePush || step is HandleStandard || step is Done
            ==> step.spec_next(yes) is Done,
{
}

/// A member's place is that of the first leaf with its key; a key without a
/// leaf has none.
pub proof fn the_first_leaf_with_the_key_is_found(leaves: Seq<MemberLeaf>, key: Seq<u8>, at: int)
    ensures
        0 <= at < leaves.len() && leaves[at].pubkey.bytes@ == key && (forall|i: int|
            0 <= i < at ==> (#[trigger] leaves[i]).pubkey.bytes@ != key) ==> leaf_of(leaves, key)
                == Some(
            leaves[at].index,
        ),
        (forall|i: int| 0 <= i < leaves.len() ==> (#[trigger] leaves[i]).pubkey.bytes@ != key)
            ==> leaf_of(leaves, key) is None,
    decreases leaves.len(),
{
    if leaves.len() > 0 {
        let rest = leaves.drop_last();
        the_first_leaf_with_the_key_is_found(rest, key, at);
        assert(forall|i: int| 0 <= i < rest.len() ==> rest[i] == leaves[i]);
        assert(leaves[leaves.len() - 1] == leaves.last());
        if forall|i: int| 0 <= i < leaves.len() ==> (#[trigger] leaves[i]).pubkey.bytes@ != key {
            assert forall|i: int| 0 <= i < rest.len() implies (#[trigger] rest[i]).pubkey.bytes@ != key by {
                assert(leaves[i].pubkey.bytes@ != key);
            }
        }
        if 0 <= at < leaves.len() && leaves[at].pubkey.bytes@ == key && (forall|i: int|
            0 <= i < at ==> (#[trigger] leaves[i]).pubkey.bytes@ != key) {
            assert forall|i: int| 0 <= i < at
                && i < rest.len() implies (#[trigger] rest[i]).pubkey.bytes@
                != key by {
                assert(leaves[i].pubkey.bytes@ != key);
            }
        }
    }
}

// ---------------------------------------------------------------------------
// What those who watch are told
// ---------------------------------------------------------------------------

/// Every change that a deletion made is told, in order. The chat list hears of
/// it as well, at the end, exactly if the message that was the last of the
/// group is among those that were deleted.
pub proof fn a_deletion_tells_every_change(updates: Seq<UpdateV>, last: Option<Seq<char>>, i: int)
    ensures
        ({
            let told = deletion_emissions(updates, last);
            let deleted_last = last is Some && exists|k: int|
                0 <= k < updates.len() && (#[trigger] updates[k]).trigger
                    == UpdateTrigger::MessageDeleted && updates[k].message.id == last->0;
            &&& 0 <= i < updates.len() ==> told[i] == EmissionV::Message(updates[i])
            &&& deleted_last ==> told.len() == updates.len() + 1 && told.last()
                == EmissionV::ChatList(
                ChatListUpdateTrigger::LastMessageDeleted,
            )
            &&& !deleted_last ==> told.len() == updates.len()
        }),
        deletes_message(updates, last) <==> last is Some && exists|k: int|
            0 <= k < updates.len() && (#[trigger] updates[k]).trigger
                == UpdateTrigger::MessageDeleted
                && updates[k].message.id == last->0,
{
    if last is Some && exists|k: int|
        0 <= k < updates.len() && (#[trigger] updates[k]).trigger == UpdateTrigger::MessageDeleted
            && updates[k].message.id == last->0 {
        let k = choose|k: int|
            0 <= k < updates.len() && (#[trigger] updates[k]).trigger
                == UpdateTrigger::MessageDeleted
                && updates[k].message.id == last->0;
        assert(updates[k].trigger is MessageDeleted);
    }
    if deletes_message(updates, last) {
        let k = choose|k: int|
            0 <= k < updates.len() && (#[trigger] updates[k]).trigger is MessageDeleted
                && updates[k].message.id == last->0;
        assert(updates[k].trigger == UpdateTrigger::MessageDeleted);
    }
}

/// Chat messages are of kind 9, reactions of kind 7 and deletions of kind 5.
/// These change the cache and need the account's session; nothing else does.
pub proof fn only_messages_reactions_and_deletions_change_the_cache(c: CacheV, m: MarmotMessage)
    ensures
        m.kind == 9 ==> after_application_message(c, m) == c.after_chat_message(m),
        m.kind == 7 ==> after_application_message(c, m) == c.after_reaction(m),
        m.kind == 5 ==> after_application_message(c, m) == c.after_deletion(m).0,
        m.kind != 9 && m.kind != 7 && m.kind != 5 ==> after_application_message(c, m) == c,
        needs_cache(m.kind) <==> m.kind == 9 || m.kind == 7 || m.kind == 5,
{
}

/// A new message is notified of, shown and put on top of the chat list, each
/// as it is once the cache has taken it in.
pub proof fn a_chat_message_is_announced(c: CacheV, m: MarmotMessage, last: Option<Seq<char>>)
    requires
        m.kind == 9,
    ensures
        ({
            let told = application_emissions(c, m, last);
            let shown = c.after_chat_message(m).messages[m.id@];
            &&& told.len() == 3
            &&& told[0] == EmissionV::Notification(shown)
            &&& told[1] is Message && told[1]->Message_0.trigger == UpdateTrigger::NewMessage
                && told[1]->Message_0.message == shown
            &&& told[2] == EmissionV::ChatList(ChatListUpdateTrigger::NewLastMessage)
        }),
        reaction_failure(c, m) is None,
{
}

/// A reaction is announced as one change of the message that its first `e` tag
/// names, as the message is afterwards, where that message is cached and the
/// reaction is no echo. It fails where its content is no emoji.
pub proof fn a_reaction_is_announced(
    c: CacheV,
    m: MarmotMessage,
    last: Option<Seq<char>>,
    k: int,
    target: Seq<char>,
)
    requires
        m.kind == 7,
        0 <= k < m.tags@.len(),
        m.tags@[k].items@.len() >= 2,
        m.tags@[k].items@[0]@ == "e"@,
        m.tags@[k].items@[1]@ == target,
        forall|j: int|
            0 <= j < k ==> (#[trigger] m.tags@[j]).items@.len() == 0
                || m.tags@[j].items@[0]@ != "e"@,
    ensures
        ({
            let told = application_emissions(c, m, last);
            let live = !c.outgoing.contains(m.id@) && c.messages.dom().contains(target);
            &&& !live ==> told.len() == 0 && reaction_failure(c, m) is None
            &&& live ==> told.len() == 1 && told[0] is Message && told[0]->Message_0.trigger
                == UpdateTrigger::ReactionAdded && told[0]->Message_0.message == c.after_reaction(
                m,
            ).messages[target]
            &&& live && m.emoji is None ==> reaction_failure(c, m) == Some(
                "Reaction content is not a valid emoji"@,
            )
            &&& live && m.emoji is Some ==> reaction_failure(c, m) is None
        }),
{
    first_tag_decides(m.tags@, "e"@, k);
}

/// A reaction that names no message fails, unless it is an echo, and announces
/// nothing.
pub proof fn a_reaction_without_a_message_fails(c: CacheV, m: MarmotMessage, last: Option<Seq<char>>)
    requires
        m.kind == 7,
        forall|j: int|
            0 <= j < m.tags@.len() ==> (#[trigger] m.tags@[j]).items@.len() == 0
                || m.tags@[j].items@[0]@
                != "e"@,
    ensures
        application_emissions(c, m, last).len() == 0,
        !c.outgoing.contains(m.id@) ==> reaction_failure(c, m) == Some(
            "Reaction does not reference a message"@,
        ),
        c.outgoing.contains(m.id@) ==> reaction_failure(c, m) is None,
{
    first_tag_decides(m.tags@, "e"@, 0);
}

/// A deletion announces what it changed, and a message of any other kind
/// announces nothing. Neither fails.
pub proof fn other_messages_announce_what_they_change(c: CacheV, m: MarmotMessage, last: Option<Seq<char>>)
    ensures
        m.kind == 5 ==> application_emissions(c, m, last)
            == deletion_emissions(c.after_deletion(m).1, last),
        m.kind != 9 && m.kind != 7 && m.kind != 5 ==> application_emissions(c, m, last).len() == 0,
        m.kind != 7 ==> reaction_failure(c, m) is None,
{
}

/// What is told keeps its content whatever it is.
pub proof fn emissions_keep_their_content(emission: Emission)
    ensures
        emission is Notification ==> emission@
            == EmissionV::Notification(emission->Notification_0@),
        emission is Message ==> emission@ == EmissionV::Message(emission->Message_0@),
        emission is ChatList ==> emission@ == EmissionV::ChatList(emission->ChatList_0),
{
}

/// Lists are seen item by item, in their order and with nothing left out.
pub proof fn lists_are_seen_item_by_item(
    ids: Seq<Vec<u8>>,
    envelopes: Seq<TransportEnvelope>,
    emissions: Seq<Emission>,
    updates: Seq<Update>,
    i: int,
)
    ensures
        id_views(ids).len() == ids.len(),
        0 <= i < ids.len() ==> id_views(ids)[i] == ids[i]@,
        envelope_views(envelopes).len() == envelopes.len(),
        0 <= i < envelopes.len() ==> envelope_views(envelopes)[i] == envelopes[i]@,
        emission_views(emissions).len() == emissions.len(),
        0 <= i < emissions.len() ==> emission_views(emissions)[i] == emissions[i]@,
        update_views(updates).len() == updates.len(),
        0 <= i < updates.len() ==> update_views(updates)[i] == updates[i]@,
{
}

/// A group identity and a message identifier that are given are used as they
/// are given, and one that is missing is missing.
pub proof fn what_is_given_is_used(bytes: Option<&Vec<u8>>, text: Option<&String>)
    ensures
        bytes is Some ==> bytes_of(bytes) == Some(bytes->0@),
        bytes is None ==> bytes_of(bytes) is None,
        text is Some ==> last_text(text) == Some(text->0@),
        text is None ==> last_text(text) is None,
{
}

/// The destinations of a list of routes are its groups and its recipients.
pub proof fn routes_show_groups_and_recipients(routes: Routes, i: int)
    ensures
        routes@.groups.len() == routes.transport_group_ids@.len(),
        0 <= i < routes.transport_group_ids@.len() ==> routes@.groups[i]
            == routes.transport_group_ids@[i]@,
        routes@.recipients.len() == routes.inbox_recipients@.len(),
        0 <= i < routes.inbox_recipients@.len() ==> routes@.recipients[i]
            == routes.inbox_recipients@[i]@,
{
}

} // verus!
