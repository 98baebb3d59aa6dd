//! Mute lists: whom an account does not want to hear from.

use vstd::prelude::*;
use vstd::string::StringExecFns;

use super::account_list::{AccountList, PublishedListV};
use crate::whitenoise::error::{Result, WhitenoiseError};
use crate::whitenoise::nostr::{lists_each_once, Event, PublicKey};

verus! {

/// What came of a mute list.
#[derive(Debug)]
pub enum MuteListOutcome {
    /// The list is not the account's own.
    NotOurs,
    Skipped,
    /// The list was taken in. These invitations are to be declined; one that
    /// cannot be declined does not matter to the others.
    Updated { decline: Vec<PendingInvite> },
}

/// Handles a mute list. `muted` are the users whom the account has muted, and
/// `users` those whom the event names. `pending` is what came of looking up
/// the invitations to review: none where the account accepts those from muted
/// users. Where that look-up failed the users are muted all the same, but the
/// event counts as not taken in.
pub fn handle_mute_list(
    muted: &mut AccountList,
    account_id: Option<i64>,
    account: &PublicKey,
    event: &Event,
    users: &Vec<PublicKey>,
    pending: Result<Option<Vec<PendingInvite>>>,
) -> (outcome: Result<MuteListOutcome>)
    ensures
        account_id is None ==> *final(muted) == *old(muted) && outcome == Err::<
            MuteListOutcome,
            WhitenoiseError,
        >(WhitenoiseError::AccountNotFound),
        account_id is Some && event.pubkey != *account ==> *final(muted) == *old(muted) && outcome
            == Ok::<MuteListOutcome, WhitenoiseError>(MuteListOutcome::NotOurs),
        account_id is Some && event.pubkey == *account ==> match old(muted)@.skips(
            event.id,
            event.created_at,
        ) {
            None => *final(muted) == *old(muted) && outcome == Err::<MuteListOutcome, WhitenoiseError>(
                WhitenoiseError::InvalidTimestamp,
            ),
            Some(true) => *final(muted) == *old(muted) && outcome == Ok::<
                MuteListOutcome,
                WhitenoiseError,
            >(MuteListOutcome::Skipped),
            Some(false) => {
                &&& lists_each_once(final(muted).users@, users@)
                &&& match pending {
                    Err(e) => {
                        &&& final(muted)@ == old(muted)@.with_users(users@.to_set())
                        &&& outcome == Err::<MuteListOutcome, WhitenoiseError>(e)
                    },
                    Ok(invites) => {
                        &&& final(muted)@ == old(muted)@.after(
                            (PublishedListV {
                                id: event.id,
                                created_at: event.created_at,
                                users: users@.to_set(),
                            }),
                        )
                        &&& outcome matches Ok(MuteListOutcome::Updated { decline })
                        &&& decline@ == match invites {
                            Some(listed) => declined(users@, listed@),
                            None => Seq::empty(),
                        }
                    },
                }
            },
        },
{
    if account_id.is_none() {
        return Err(WhitenoiseError::AccountNotFound);
    }
    if event.pubkey != *account {
        return Ok(MuteListOutcome::NotOurs);
    }
    match muted.should_skip(&event.id, event.created_at) {
        Err(e) => {
            return Err(e);
        },
        Ok(true) => {
            return Ok(MuteListOutcome::Skipped);
        },
        Ok(false) => {},
    }
    muted.replace_users(users);
    let decline = match pending {
        Err(e) => {
            return Err(e);
        },
        Ok(Some(invites)) => invites_to_decline(users, invites),
        Ok(None) => Vec::new(),
    };
    match muted.track_processed(&event.id, event.created_at) {
        Err(e) => Err(e),
        Ok(()) => Ok(MuteListOutcome::Updated { decline }),
    }
}

/// The error where the permit to handle an account's mute list cannot be had.
pub fn mute_list_guard_error() -> (e: WhitenoiseError)
    ensures
        e matches WhitenoiseError::MuteList(m) && m@
            == "Failed to acquire mute list processing permit"@,
{
    WhitenoiseError::MuteList(String::from_str("Failed to acquire mute list processing permit"))
}

/// An invitation that the user has not answered.
#[derive(Debug)]
pub struct PendingInvite {
    pub mls_group_id: Vec<u8>,
    pub welcomer: Option<PublicKey>,
}

impl PendingInvite {
    /// The invitation comes from one of `users`.
    pub open spec fn is_from(self, users: Seq<PublicKey>) -> bool {
        self.welcomer is Some && users.contains(self.welcomer->0)
    }
}

fn lists_user(users: &Vec<PublicKey>, user: &PublicKey) -> (found: bool)
    ensures
        found == users@.contains(*user),
{
    let mut i: usize = 0;
    while i < users.len()
        invariant
            i <= users.len(),
            forall|k: int| 0 <= k < i ==> users@[k] != *user,
        decreases users.len() - i,
    {
        if users[i] == *user {
            assert(users@[i as int] == *user);
            return true;
        }
        i = i + 1;
    }
    false
}

/// The invitations to decline: those from muted users.
pub open spec fn declined(muted: Seq<PublicKey>, pending: Seq<PendingInvite>) -> Seq<PendingInvite> {
    pending.filter(|p: PendingInvite| p.is_from(muted))
}

/// The invitations to decline once `muted` are muted.
pub fn invites_to_decline(muted: &Vec<PublicKey>, pending: Vec<PendingInvite>) -> (decline: Vec<
    PendingInvite,
>)
    ensures
        decline@ == declined(muted@, pending@),
        forall|i: int|
            #![trigger pending@[i]]
            0 <= i < pending@.len() ==> (decline@.contains(pending@[i]) <==> pending@[i].welcomer is Some
                && exists|k: int| 0 <= k < muted@.len() && #[trigger] muted@[k] == pending@[i].welcomer->0),
{
    let mut decline: Vec<PendingInvite> = Vec::new();
    let ghost all = pending@;
    let ghost from_muted = |p: PendingInvite| p.is_from(muted@);
    proof {
        reveal(Seq::filter);
        assert(all.take(0) =~= Seq::empty());
    }
    for invite in it: pending
        invariant
            it.seq() == all,
            from_muted == (|p: PendingInvite| p.is_from(muted@)),
            decline@ == all.take(it.index()).filter(from_muted),
    {
        proof {
            reveal(Seq::filter);
            assert(all.take(it.index() + 1).drop_last() =~= all.take(it.index()));
            assert(all.take(it.index() + 1).last() == invite);
        }
        let from = match invite.welcomer {
            Some(welcomer) => lists_user(muted, &welcomer),
            None => false,
        };
        if from {
            decline.push(invite);
        }
    }
    assert(all.take(all.len() as int) =~= all);
    proof {
        assert forall|i: int|
            #![trigger all[i]]
            0 <= i < all.len() implies (declined(muted@, all).contains(all[i]) <==> all[i].welcomer is Some
            && exists|k: int| 0 <= k < muted@.len() && #[trigger] muted@[k] == all[i].welcomer->0) by {
            an_invite_is_declined_if_its_welcomer_is_anywhere_on_the_list(muted@, all, i);
        }
    }
    decline
}

/// A pending invitation is declined exactly if it has a welcomer and some
/// place of the mute list holds that welcomer.
pub proof fn an_invite_is_declined_if_its_welcomer_is_anywhere_on_the_list(
    users: Seq<PublicKey>,
    pending: Seq<PendingInvite>,
    i: int,
)
    requires
        0 <= i < pending.len(),
    ensures
        declined(users, pending).contains(pending[i]) <==> pending[i].welcomer is Some && exists|k: int|
            0 <= k < users.len() && #[trigger] users[k] == pending[i].welcomer->0,
{
    exactly_muted_invites_are_declined(users, pending, pending[i]);
    assert(pending.contains(pending[i]));
    if pending[i].welcomer is Some && exists|k: int|
        0 <= k < users.len() && #[trigger] users[k] == pending[i].welcomer->0 {
        let k = choose|k: int| 0 <= k < users.len() && #[trigger] users[k] == pending[i].welcomer->0;
        assert(users.contains(users[k]));
    }
}

/// What is declined was pending, has a welcomer that some place of the mute
/// list holds, and is declined in the order in which it was pending and as
/// often.
pub proof fn only_pending_invites_are_declined(
    users: Seq<PublicKey>,
    pending: Seq<PendingInvite>,
    invite: PendingInvite,
    k: int,
)
    ensures
        declined(users, Seq::empty()) == Seq::<PendingInvite>::empty(),
        0 <= k < users.len() && invite.welcomer == Some(users[k]) ==> declined(
            users,
            pending.push(invite),
        ) == declined(users, pending).push(invite),
        invite.welcomer is None || (forall|j: int|
            0 <= j < users.len() ==> #[trigger] users[j] != invite.welcomer->0) ==> declined(
            users,
            pending.push(invite),
        ) == declined(users, pending),
{
    reveal(Seq::filter);
    assert(pending.push(invite).drop_last() =~= pending);
    if 0 <= k < users.len() && invite.welcomer == Some(users[k]) {
        assert(users.contains(users[k]));
    }
}

/// The invitations from muted users are declined, and no others.
pub proof fn exactly_muted_invites_are_declined(
    muted: Seq<PublicKey>,
    pending: Seq<PendingInvite>,
    invite: PendingInvite,
)
    ensures
        declined(muted, pending).contains(invite) <==> pending.contains(invite) && invite.is_from(muted),
{
    let from_muted = |p: PendingInvite| p.is_from(muted);
    broadcast use vstd::seq_lib::group_filter_ensures;

    let listed = pending.filter(from_muted);
    if listed.contains(invite) {
        let k = choose|k: int| 0 <= k < listed.len() && listed[k] == invite;
        assert(from_muted(listed[k]));
        pending.lemma_filter_contains_rev(from_muted, invite);
    }
    if pending.contains(invite) && invite.is_from(muted) {
        let k = choose|k: int| 0 <= k < pending.len() && pending[k] == invite;
        assert(from_muted(pending[k]));
        pending.lemma_filter_contains(from_muted, k);
    }
}

} // verus!
