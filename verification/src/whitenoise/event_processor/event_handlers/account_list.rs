//! Lists of users that an account publishes as a whole: a newer one takes the
//! place of an older one.

use vstd::prelude::*;

use crate::whitenoise::error::{Result, WhitenoiseError};
use crate::whitenoise::nostr::{lists_each_once, sort_and_dedup, EventId, PublicKey};
use crate::whitenoise::utils::{event_millis, timestamp_to_datetime};

verus! {

/// What an account has of one of its lists.
#[derive(Debug)]
pub struct AccountList {
    /// The events that were taken in.
    pub processed: Vec<EventId>,
    /// The time of the newest of them, in milliseconds.
    pub newest: Option<i64>,
    /// The users on the list.
    pub users: Vec<PublicKey>,
}

/// The value of an [`AccountList`].
#[verifier::ext_equal]
pub struct AccountListV {
    pub processed: Set<EventId>,
    pub newest: Option<i64>,
    pub users: Set<PublicKey>,
}

/// A published list: its event, the time of the event in seconds, and the
/// users that it names.
pub struct PublishedListV {
    pub id: EventId,
    pub created_at: u64,
    pub users: Set<PublicKey>,
}

impl AccountListV {
    /// A list is passed over if its event was taken in already, or if one that
    /// is not older was. Nothing can be said of a time outside the calendar.
    pub open spec fn skips(self, id: EventId, created_at: u64) -> Option<bool> {
        if self.processed.contains(id) {
            Some(true)
        } else {
            match event_millis(created_at) {
                None => None,
                Some(time) => Some(self.newest is Some && time <= self.newest->0),
            }
        }
    }

    pub open spec fn with_users(self, users: Set<PublicKey>) -> AccountListV {
        AccountListV { users, ..self }
    }

    pub open spec fn with_processed(self, id: EventId, time: i64) -> AccountListV {
        AccountListV {
            processed: self.processed.insert(id),
            newest: match self.newest {
                Some(newest) => if newest < time {
                    Some(time)
                } else {
                    Some(newest)
                },
                None => Some(time),
            },
            ..self
        }
    }

    /// The list after a published one was handled.
    pub open spec fn after(self, list: PublishedListV) -> AccountListV {
        if self.skips(list.id, list.created_at) == Some(false) {
            self.with_users(list.users).with_processed(list.id, event_millis(list.created_at)->0)
        } else {
            self
        }
    }
}

impl View for AccountList {
    type V = AccountListV;

    open spec fn view(&self) -> AccountListV {
        AccountListV {
            processed: self.processed@.to_set(),
            newest: self.newest,
            users: self.users@.to_set(),
        }
    }
}

fn has_id(ids: &Vec<EventId>, id: &EventId) -> (found: bool)
    ensures
        found == ids@.to_set().contains(*id),
{
    let mut i: usize = 0;
    while i < ids.len()
        invariant
            i <= ids.len(),
            forall|k: int| 0 <= k < i ==> ids@[k] != *id,
        decreases ids.len() - i,
    {
        if ids[i] == *id {
            assert(ids@[i as int] == *id);
            assert(ids@.contains(*id));
            return true;
        }
        i = i + 1;
    }
    assert(!ids@.contains(*id));
    false
}

impl AccountList {
    /// The list of an account that has published none.
    pub fn new() -> (list: AccountList)
        ensures
            list@.processed == Set::<EventId>::empty(),
            list@.newest is None,
            list@.users == Set::<PublicKey>::empty(),
    {
        let list = AccountList { processed: Vec::new(), newest: None, users: Vec::new() };
        assert(list@.processed =~= Set::empty());
        assert(list@.users =~= Set::empty());
        list
    }

    /// Whether a list is older than, or as old as, one that was taken in.
    pub fn is_stale(&self, created_at: u64) -> (stale: Result<bool>)
        ensures
            match event_millis(created_at) {
                None => stale == Err::<bool, WhitenoiseError>(WhitenoiseError::InvalidTimestamp),
                Some(time) => stale == Ok::<bool, WhitenoiseError>(
                    self@.newest is Some && time <= self@.newest->0,
                ),
            },
    {
        let time: i64 = match timestamp_to_datetime(created_at) {
            Ok(time) => time,
            Err(e) => {
                return Err(e);
            },
        };
        match self.newest {
            Some(newest) => Ok(time <= newest),
            None => Ok(false),
        }
    }

    /// Whether a list is to be passed over.
    pub fn should_skip(&self, id: &EventId, created_at: u64) -> (skip: Result<bool>)
        ensures
            match self@.skips(*id, created_at) {
                Some(skips) => skip == Ok::<bool, WhitenoiseError>(skips),
                None => skip == Err::<bool, WhitenoiseError>(WhitenoiseError::InvalidTimestamp),
            },
    {
        if has_id(&self.processed, id) {
            return Ok(true);
        }
        self.is_stale(created_at)
    }

    /// Puts other users on the list.
    pub fn replace_users(&mut self, users: &Vec<PublicKey>)
        ensures
            final(self)@ == old(self)@.with_users(users@.to_set()),
            lists_each_once(final(self).users@, users@),
    {
        self.users = sort_and_dedup(users);
        proof {
            assert forall|k: PublicKey| self.users@.to_set().contains(k) <==> users@.to_set().contains(
                k,
            ) by {
                assert(self.users@.contains(k) <==> users@.contains(k));
            }
            assert(self.users@.to_set() =~= users@.to_set());
        }
    }

    /// Records that a list was taken in.
    pub fn track_processed(&mut self, id: &EventId, created_at: u64) -> (recorded: Result<()>)
        ensures
            match event_millis(created_at) {
                Some(time) => recorded is Ok && final(self)@ == old(self)@.with_processed(*id, time),
                None => recorded == Err::<(), WhitenoiseError>(WhitenoiseError::InvalidTimestamp)
                    && *final(self) == *old(self),
            },
            final(self).users == old(self).users,
    {
        let time: i64 = match timestamp_to_datetime(created_at) {
            Ok(time) => time,
            Err(e) => {
                return Err(e);
            },
        };
        let ghost before = self.processed@;
        self.processed.push(*id);
        assert(self.processed@.to_set() =~= before.to_set().insert(*id)) by {
            assert forall|e: EventId| self.processed@.to_set().contains(e)
                <==> before.to_set().insert(*id).contains(e) by {
                if before.contains(e) {
                    let k = choose|k: int| 0 <= k < before.len() && before[k] == e;
                    assert(self.processed@[k] == e);
                }
                assert(self.processed@[before.len() as int] == *id);
                if self.processed@.contains(e) && e != *id {
                    let k = choose|k: int| 0 <= k < self.processed@.len() && self.processed@[k] == e;
                    assert(before[k] == e);
                }
            }
        }
        self.newest = match self.newest {
            Some(newest) => if newest < time {
                Some(time)
            } else {
                Some(newest)
            },
            None => Some(time),
        };
        Ok(())
    }

    /// Handles a published list. `users` are those that it names. The result
    /// says whether it was taken in.
    pub fn handle(&mut self, id: &EventId, created_at: u64, users: &Vec<PublicKey>) -> (taken: Result<bool>)
        ensures
            final(self)@ == old(self)@.after(
                (PublishedListV { id: *id, created_at, users: users@.to_set() }),
            ),
            match old(self)@.skips(*id, created_at) {
                Some(skips) => taken == Ok::<bool, WhitenoiseError>(!skips),
                None => taken == Err::<bool, WhitenoiseError>(WhitenoiseError::InvalidTimestamp),
            },
            taken == Ok::<bool, WhitenoiseError>(true) ==> lists_each_once(final(self).users@, users@),
            taken != Ok::<bool, WhitenoiseError>(true) ==> *final(self) == *old(self),
            taken == Ok::<bool, WhitenoiseError>(true) ==> final(self).processed@.contains(*id) && (
            forall|k: PublicKey| final(self).users@.contains(k) <==> users@.contains(k))
                && final(self).newest is Some && final(self).newest->0 == created_at * 1000,
            taken is Err <==> !old(self).processed@.contains(*id) && created_at > 8_210_266_876_799,
    {
        match self.should_skip(id, created_at) {
            Err(e) => {
                return Err(e);
            },
            Ok(true) => {
                return Ok(false);
            },
            Ok(false) => {},
        }
        self.replace_users(users);
        match self.track_processed(id, created_at) {
            Err(e) => Err(e),
            Ok(()) => {
                assert(self@.processed.contains(*id));
                Ok(true)
            },
        }
    }
}

/// A list is passed over exactly if its event was taken in, or if its time, in
/// milliseconds, is not after that of the newest one. Seconds after the end of
/// the calendar have no such time.
pub proof fn a_list_is_passed_over_if_known_or_not_newer(state: AccountListV, id: EventId, created_at: u64)
    ensures
        state.processed.contains(id) ==> state.skips(id, created_at) == Some(true),
        !state.processed.contains(id) && created_at <= 8_210_266_876_799 ==> state.skips(id, created_at)
            == Some(state.newest is Some && created_at * 1000 <= state.newest->0),
        !state.processed.contains(id) && created_at > 8_210_266_876_799 ==> state.skips(id, created_at) is None,
{
}

/// A list that is taken in replaces the users, joins the events that were
/// taken in, and moves the newest time up to its own. One that is passed over,
/// or whose time is outside the calendar, changes nothing.
pub proof fn a_list_is_taken_in_whole_or_not_at_all(state: AccountListV, list: PublishedListV)
    ensures
        ({
            let now = state.after(list);
            let fresh = !state.processed.contains(list.id) && list.created_at <= 8_210_266_876_799 && (
            state.newest is None || state.newest->0 < list.created_at * 1000);
            &&& !fresh ==> now == state
            &&& fresh ==> now.users == list.users && now.newest is Some && now.newest->0
                == list.created_at * 1000
            &&& fresh ==> forall|id: EventId| #[trigger]
                now.processed.contains(id) <==> state.processed.contains(id) || id == list.id
        }),
{
}

/// Other users take the place of those on the list and change nothing else; a
/// list that was taken in changes no user, and the later of two times is the
/// newest.
pub proof fn users_and_progress_are_apart(
    state: AccountListV,
    users: Set<PublicKey>,
    id: EventId,
    time: i64,
)
    ensures
        state.with_users(users).users == users,
        state.with_users(users).processed == state.processed,
        state.with_users(users).newest == state.newest,
        state.with_processed(id, time).users == state.users,
        state.with_processed(id, time).newest is Some,
        state.with_processed(id, time).newest->0 >= time,
        state.newest is Some ==> state.with_processed(id, time).newest->0 >= state.newest->0,
        state.with_processed(id, time).newest == state.newest || state.with_processed(id, time).newest
            == Some(time),
        forall|other: EventId| #[trigger]
            state.with_processed(id, time).processed.contains(other) <==> state.processed.contains(other)
                || other == id,
{
}

/// Handling a list twice is handling it once.
pub proof fn handling_twice_is_handling_once(state: AccountListV, list: PublishedListV)
    ensures
        state.after(list).after(list) == state.after(list),
{
}

/// A list that is older than, or as old as, one that was taken in changes
/// nothing.
pub proof fn stale_lists_change_nothing(state: AccountListV, list: PublishedListV)
    requires
        event_millis(list.created_at) is Some,
        state.newest is Some,
        event_millis(list.created_at)->0 <= state.newest->0,
    ensures
        state.after(list) == state,
{
}

/// A newer list that was not taken in yet takes the place of the older one,
/// also when it names nobody.
pub proof fn newer_lists_replace(state: AccountListV, list: PublishedListV)
    requires
        event_millis(list.created_at) is Some,
        state.newest is Some ==> state.newest->0 < event_millis(list.created_at)->0,
        !state.processed.contains(list.id),
    ensures
        state.after(list).users == list.users,
        state.after(list).newest == event_millis(list.created_at),
        state.after(list).processed == state.processed.insert(list.id),
{
}

/// Of two lists the newer one stands in the end, whichever comes first.
pub proof fn order_of_arrival_does_not_matter(
    state: AccountListV,
    older: PublishedListV,
    newer: PublishedListV,
)
    requires
        older.created_at < newer.created_at,
        older.id != newer.id,
    ensures
        state.after(older).after(newer).users == state.after(newer).after(older).users,
        state.after(older).after(newer).newest == state.after(newer).after(older).newest,
{
    if event_millis(newer.created_at) is Some {
        assert(event_millis(older.created_at)->0 < event_millis(newer.created_at)->0);
    }
}

/// The time of the newest list never goes back, and what was taken in stays so.
pub proof fn progress_is_kept(state: AccountListV, list: PublishedListV)
    ensures
        state.newest is Some ==> state.after(list).newest is Some && state.newest->0 <= state.after(
            list,
        ).newest->0,
        state.processed.subset_of(state.after(list).processed),
{
}

} // verus!
