//! Contact lists: whom an account follows, and catching up with those users.

use vstd::prelude::*;
use vstd::string::StringExecFns;

use super::account_list::{AccountList, PublishedListV};
use crate::whitenoise::error::{Result, WhitenoiseError};
use crate::whitenoise::nostr::{
    lists_each_once, sort_and_dedup, Event, PublicKey, KIND_INBOX_RELAYS, KIND_METADATA,
    KIND_MLS_KEY_PACKAGE_RELAYS, KIND_RELAY_LIST,
};

verus! {

/// How many users one catch-up query may ask for.
pub const CONTACT_LIST_CATCH_UP_BATCH_SIZE: usize = 500;

/// How long one catch-up query may take, in seconds.
pub const CONTACT_LIST_CATCH_UP_TIMEOUT: u64 = 5;

/// What came of a contact list.
#[derive(Clone, Copy, PartialEq, Eq, Structural, Debug)]
pub enum ContactListOutcome {
    Skipped,
    /// The follows were replaced. The users on the list are to be caught up
    /// with in the background, if there are any.
    Updated { catch_up: bool },
}

/// Handles a contact list. `follows` are the users whom the account follows,
/// and `contacts` those whom the event names. An account that is not saved has
/// no follows.
pub fn handle_contact_list(
    follows: &mut AccountList,
    account_id: Option<i64>,
    event: &Event,
    contacts: &Vec<PublicKey>,
) -> (outcome: Result<ContactListOutcome>)
    ensures
        account_id is None ==> *final(follows) == *old(follows) && outcome == Err::<
            ContactListOutcome,
            WhitenoiseError,
        >(WhitenoiseError::AccountNotFound),
        account_id is Some ==> {
            &&& final(follows)@ == old(follows)@.after(
                (PublishedListV {
                    id: event.id,
                    created_at: event.created_at,
                    users: contacts@.to_set(),
                }),
            )
            &&& match old(follows)@.skips(event.id, event.created_at) {
                None => outcome == Err::<ContactListOutcome, WhitenoiseError>(
                    WhitenoiseError::InvalidTimestamp,
                ),
                Some(true) => outcome == Ok::<ContactListOutcome, WhitenoiseError>(
                    ContactListOutcome::Skipped,
                ) && *final(follows) == *old(follows),
                Some(false) => outcome == Ok::<ContactListOutcome, WhitenoiseError>(
                    ContactListOutcome::Updated { catch_up: contacts.len() > 0 },
                ) && lists_each_once(final(follows).users@, contacts@),
            }
        },
{
    if account_id.is_none() {
        return Err(WhitenoiseError::AccountNotFound);
    }
    match follows.handle(&event.id, event.created_at, contacts) {
        Err(e) => Err(e),
        Ok(false) => Ok(ContactListOutcome::Skipped),
        Ok(true) => Ok(ContactListOutcome::Updated { catch_up: contacts.len() > 0 }),
    }
}

/// The kinds of events that catching up asks for.
pub fn catch_up_kinds() -> (kinds: Vec<u16>)
    ensures
        kinds@ == seq![
            KIND_METADATA,
            KIND_RELAY_LIST,
            KIND_INBOX_RELAYS,
            KIND_MLS_KEY_PACKAGE_RELAYS,
        ],
        forall|kind: u16|
            kinds@.contains(kind) <==> kind == 0 || kind == 10002 || kind == 10050 || kind == 10051,
        kinds@.no_duplicates(),
{
    let kinds = vec![
        KIND_METADATA,
        KIND_RELAY_LIST,
        KIND_INBOX_RELAYS,
        KIND_MLS_KEY_PACKAGE_RELAYS,
    ];
    assert(kinds@[0] == 0 && kinds@[1] == 10002 && kinds@[2] == 10050 && kinds@[3] == 10051);
    kinds
}

/// The error for an event that could not be put in the queue.
pub fn queue_discovery_catch_up_error(error: &str) -> (e: WhitenoiseError)
    ensures
        e matches WhitenoiseError::EventProcessor(m) && m@
            == "Failed to enqueue discovery catch-up event: "@ + error@,
{
    let mut message = String::from_str("Failed to enqueue discovery catch-up event: ");
    message.append(error);
    WhitenoiseError::EventProcessor(message)
}

/// What came of one catch-up query.
#[derive(Clone, Copy, PartialEq, Eq, Structural, Debug)]
pub enum BatchReply {
    /// The session ended: nothing more is asked for.
    Cancelled,
    FetchFailed,
    QueueFailed,
    /// What was fetched is in the queue.
    Queued,
}

/// Catching up with users in batches.
#[derive(Debug)]
pub struct CatchUp {
    users: Vec<PublicKey>,
    next: usize,
    queued: usize,
    stopped: bool,
}

/// The value of a [`CatchUp`].
pub struct CatchUpV {
    pub users: Seq<PublicKey>,
    /// How many users were asked for.
    pub next: int,
    /// How many users' events are in the queue.
    pub queued: int,
    pub stopped: bool,
}

impl CatchUpV {
    pub open spec fn wf(self) -> bool {
        0 <= self.queued <= self.next <= self.users.len()
    }

    pub open spec fn done(self) -> bool {
        self.stopped || self.next == self.users.len()
    }

    /// Where the next batch ends.
    pub open spec fn batch_end(self) -> int {
        if self.users.len() - self.next <= CONTACT_LIST_CATCH_UP_BATCH_SIZE {
            self.users.len() as int
        } else {
            self.next + CONTACT_LIST_CATCH_UP_BATCH_SIZE
        }
    }

    pub open spec fn batch(self) -> Seq<PublicKey> {
        self.users.subrange(self.next, self.batch_end())
    }

    pub open spec fn after(self, reply: BatchReply) -> CatchUpV {
        match reply {
            BatchReply::Cancelled => CatchUpV { stopped: true, ..self },
            BatchReply::Queued => CatchUpV {
                next: self.batch_end(),
                queued: self.queued + self.batch().len(),
                ..self
            },
            _ => CatchUpV { next: self.batch_end(), ..self },
        }
    }

    pub open spec fn after_all(self, replies: Seq<BatchReply>) -> CatchUpV
        decreases replies.len(),
    {
        if replies.len() == 0 {
            self
        } else {
            self.after_all(replies.drop_last()).after(replies.last())
        }
    }

    /// The batches that were asked for, one after the other.
    pub open spec fn asked(self, replies: Seq<BatchReply>) -> Seq<PublicKey>
        decreases replies.len(),
    {
        if replies.len() == 0 {
            Seq::empty()
        } else {
            self.asked(replies.drop_last()) + self.after_all(replies.drop_last()).batch()
        }
    }
}

impl View for CatchUp {
    type V = CatchUpV;

    closed spec fn view(&self) -> CatchUpV {
        CatchUpV {
            users: self.users@,
            next: self.next as int,
            queued: self.queued as int,
            stopped: self.stopped,
        }
    }
}

impl CatchUp {
    #[verifier::type_invariant]
    spec fn inv(self) -> bool {
        self.queued <= self.next <= self.users@.len()
    }

    /// Begins to catch up with `pubkeys`, each once. Without a discovery relay
    /// there is nobody to ask.
    pub fn fetch_users_batch(pubkeys: &Vec<PublicKey>, has_discovery_relay: bool) -> (c: CatchUp)
        ensures
            c@.wf(),
            lists_each_once(c@.users, pubkeys@),
            forall|k: PublicKey| c@.users.contains(k) <==> pubkeys@.contains(k),
            c@.users.no_duplicates(),
            c@.next == 0,
            c@.queued == 0,
            c@.stopped == !has_discovery_relay,
    {
        let users = sort_and_dedup(pubkeys);
        assert forall|i: int, j: int| 0 <= i < users@.len() && 0 <= j < users@.len() && i != j implies users@[i]
            != users@[j] by {
            if i < j {
                assert(users@[i] != users@[j]);
            } else {
                assert(users@[j] != users@[i]);
            }
        }
        CatchUp {
            users,
            next: 0,
            queued: 0,
            stopped: !has_discovery_relay,
        }
    }

    /// The users to ask for next, unless there is nothing more to do.
    pub fn next_batch(&self) -> (batch: Option<Vec<PublicKey>>)
        ensures
            self@.wf(),
            batch is None <==> self@.done(),
            batch matches Some(b) ==> b@ == self@.batch() && 0 < b@.len() <= CONTACT_LIST_CATCH_UP_BATCH_SIZE,
            batch is None <==> self@.stopped || self@.next == self@.users.len(),
            batch matches Some(b) ==> b@.len() == (if self@.users.len() - self@.next < 500 {
                self@.users.len() - self@.next
            } else {
                500
            }) && forall|i: int|
                0 <= i < b@.len() ==> #[trigger] b@[i] == self@.users[self@.next + i],
    {
        proof {
            use_type_invariant(self);
        }
        if self.stopped || self.next == self.users.len() {
            return None;
        }
        let end: usize = if self.users.len() - self.next <= CONTACT_LIST_CATCH_UP_BATCH_SIZE {
            self.users.len()
        } else {
            self.next + CONTACT_LIST_CATCH_UP_BATCH_SIZE
        };
        let mut batch: Vec<PublicKey> = Vec::new();
        let mut i: usize = self.next;
        while i < end
            invariant
                self.next <= i <= end <= self.users.len(),
                batch@ == self.users@.subrange(self.next as int, i as int),
            decreases end - i,
        {
            batch.push(self.users[i]);
            i = i + 1;
            assert(batch@ =~= self.users@.subrange(self.next as int, i as int));
        }
        Some(batch)
    }

    /// Takes note of what came of the batch that [`CatchUp::next_batch`] gave.
    pub fn report(&mut self, reply: BatchReply)
        requires
            !old(self)@.done(),
        ensures
            final(self)@ == old(self)@.after(reply),
            final(self)@.wf(),
    {
        proof {
            use_type_invariant(&*self);
        }
        let left: usize = self.users.len() - self.next;
        let size: usize = if left <= CONTACT_LIST_CATCH_UP_BATCH_SIZE {
            left
        } else {
            CONTACT_LIST_CATCH_UP_BATCH_SIZE
        };
        match reply {
            BatchReply::Cancelled => {
                self.stopped = true;
            },
            BatchReply::Queued => {
                self.next = self.next + size;
                self.queued = self.queued + size;
            },
            _ => {
                self.next = self.next + size;
            },
        }
    }

    /// How many users' events were put in the queue.
    pub fn queued_user_count(&self) -> (count: usize)
        ensures
            count == self@.queued,
    {
        self.queued
    }
}

/// Nobody is asked for twice, and nobody is left out before the end: the
/// batches together are the users that come first, in order.
pub proof fn batches_follow_the_list(start: CatchUpV, replies: Seq<BatchReply>)
    requires
        start.wf(),
        start.next == 0,
        forall|i: int|
            0 <= i < replies.len() ==> (#[trigger] replies[i]) != BatchReply::Cancelled,
    ensures
        start.after_all(replies).wf(),
        start.after_all(replies).users == start.users,
        start.after_all(replies).stopped == start.stopped,
        start.asked(replies) == start.users.take(start.after_all(replies).next),
    decreases replies.len(),
{
    if replies.len() == 0 {
        assert(start.users.take(0) =~= Seq::empty());
    } else {
        let before = replies.drop_last();
        assert forall|i: int| 0 <= i < before.len() implies (#[trigger] before[i])
            != BatchReply::Cancelled by {
            assert(before[i] == replies[i]);
        }
        batches_follow_the_list(start, before);
        let s = start.after_all(before);
        assert(replies.last() != BatchReply::Cancelled);
        assert(start.asked(replies) =~= start.users.take(s.batch_end()));
    }
}

/// A batch is the next five hundred users in order, or all that are left where
/// there are fewer. Whatever comes of it but a cancellation, the next batch
/// goes on behind it. It counts for as many users as it has if its events are
/// in the queue, and for none otherwise.
pub proof fn a_batch_is_the_next_five_hundred(c: CatchUpV, reply: BatchReply, i: int)
    requires
        c.wf(),
    ensures
        c.batch().len() == (if c.users.len() - c.next < 500 {
            c.users.len() - c.next
        } else {
            500
        }),
        0 <= i < c.batch().len() ==> c.batch()[i] == c.users[c.next + i],
        reply != BatchReply::Cancelled ==> c.after(reply).next == c.next + c.batch().len() && c.after(
            reply,
        ).stopped == c.stopped,
        c.after(reply).queued == c.queued + (if reply == BatchReply::Queued {
            c.batch().len() as int
        } else {
            0
        }),
        c.after(reply).users == c.users,
        CONTACT_LIST_CATCH_UP_TIMEOUT == 5,
{
}

/// A cancellation ends the work where it is.
pub proof fn a_cancellation_ends_catching_up(c: CatchUpV)
    ensures
        c.after(BatchReply::Cancelled).done(),
        c.after(BatchReply::Cancelled).stopped,
        c.after(BatchReply::Cancelled).next == c.next,
        c.after(BatchReply::Cancelled).queued == c.queued,
        c.done() <==> c.stopped || c.next == c.users.len(),
{
}

/// A batch that fails does not keep the others from being asked for; it only
/// does not count.
pub proof fn failed_batches_do_not_stop_the_rest(c: CatchUpV, reply: BatchReply)
    requires
        c.wf(),
        !c.done(),
        reply == BatchReply::FetchFailed || reply == BatchReply::QueueFailed,
    ensures
        c.after(reply).next == c.after(BatchReply::Queued).next,
        c.after(reply).queued == c.queued,
        !c.after(reply).stopped,
{
}

/// Where every batch comes through, everybody who was asked for counts.
pub proof fn everybody_counts_where_nothing_fails(start: CatchUpV, replies: Seq<BatchReply>)
    requires
        start.wf(),
        start.next == 0,
        forall|i: int| 0 <= i < replies.len() ==> (#[trigger] replies[i]) == BatchReply::Queued,
    ensures
        start.after_all(replies).queued == start.after_all(replies).next,
    decreases replies.len(),
{
    if replies.len() > 0 {
        let before = replies.drop_last();
        assert forall|i: int| 0 <= i < before.len() implies (#[trigger] before[i])
            == BatchReply::Queued by {
            assert(before[i] == replies[i]);
        }
        everybody_counts_where_nothing_fails(start, before);
        batches_follow_the_list(start, before);
        assert(replies.last() == BatchReply::Queued);
    }
}

/// After as many batches as the list needs, everybody was asked for.
pub proof fn catching_up_ends(start: CatchUpV, replies: Seq<BatchReply>)
    requires
        start.wf(),
        start.next == 0,
        replies.len() * CONTACT_LIST_CATCH_UP_BATCH_SIZE >= start.users.len(),
        forall|i: int|
            0 <= i < replies.len() ==> (#[trigger] replies[i]) != BatchReply::Cancelled,
    ensures
        start.after_all(replies).done(),
        start.asked(replies) == start.users,
{
    lemma_batches_fill(start, replies);
    batches_follow_the_list(start, replies);
    assert(start.users.take(start.users.len() as int) =~= start.users);
}

proof fn lemma_batches_fill(start: CatchUpV, replies: Seq<BatchReply>)
    requires
        start.wf(),
        start.next == 0,
        forall|i: int|
            0 <= i < replies.len() ==> (#[trigger] replies[i]) != BatchReply::Cancelled,
    ensures
        start.after_all(replies).next == start.users.len() || start.after_all(replies).next
            == replies.len() * CONTACT_LIST_CATCH_UP_BATCH_SIZE,
    decreases replies.len(),
{
    if replies.len() > 0 {
        let before = replies.drop_last();
        assert forall|i: int| 0 <= i < before.len() implies (#[trigger] before[i])
            != BatchReply::Cancelled by {
            assert(before[i] == replies[i]);
        }
        lemma_batches_fill(start, before);
        batches_follow_the_list(start, before);
        assert(replies.last() != BatchReply::Cancelled);
    }
}

} // verus!
