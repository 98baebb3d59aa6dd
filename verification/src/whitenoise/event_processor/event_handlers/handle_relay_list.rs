//! Relay lists: where a user can be reached.

use vstd::prelude::*;

use crate::whitenoise::error::{Result, WhitenoiseError};
use crate::whitenoise::utils::{event_millis, timestamp_to_datetime};

verus! {

/// The work on a relay list, in order.
#[derive(Clone, Copy, PartialEq, Eq, Structural, Debug)]
pub enum RelayListStep {
    /// Look up whether the event was processed.
    CheckProcessed,
    /// Find or create the author.
    FindUser,
    /// Bring the author's relays of the type that the kind of the event says in
    /// line with the list as of the time of the event, in milliseconds, and
    /// find out whether that changed them.
    SyncRelays { kind: u16, time: i64 },
    /// Refresh the subscriptions, in the background.
    RefreshSubscriptions { kind: u16, time: i64 },
    /// Record the event, its kind and its time.
    Record { kind: u16, time: i64 },
    Done,
}

impl RelayListStep {
    /// What follows a step that came back with `yes`.
    pub open spec fn spec_next(self, yes: bool, kind: u16, time: i64) -> RelayListStep {
        match self {
            RelayListStep::CheckProcessed => if yes {
                RelayListStep::Done
            } else {
                RelayListStep::FindUser
            },
            RelayListStep::FindUser => RelayListStep::SyncRelays { kind, time },
            RelayListStep::SyncRelays { kind, time } => if yes {
                RelayListStep::RefreshSubscriptions { kind, time }
            } else {
                RelayListStep::Record { kind, time }
            },
            RelayListStep::RefreshSubscriptions { kind, time } => RelayListStep::Record { kind, time },
            RelayListStep::Record { .. } => RelayListStep::Done,
            RelayListStep::Done => RelayListStep::Done,
        }
    }
}

/// What follows `step` for a relay list of the kind `kind` and the time
/// `created_at`. The first error ends the work; the refresh runs by itself and
/// cannot fail it.
pub fn handle_relay_list(
    step: RelayListStep,
    kind: u16,
    created_at: u64,
    reply: Result<bool>,
) -> (next: Result<RelayListStep>)
    ensures
        match reply {
            Err(e) => if step is RefreshSubscriptions {
                next == Ok::<RelayListStep, WhitenoiseError>(step.spec_next(false, kind, 0))
            } else {
                next == Err::<RelayListStep, WhitenoiseError>(e)
            },
            Ok(yes) => if step is FindUser && event_millis(created_at) is None {
                next == Err::<RelayListStep, WhitenoiseError>(WhitenoiseError::InvalidTimestamp)
            } else {
                next == Ok::<RelayListStep, WhitenoiseError>(
                    step.spec_next(yes, kind, event_millis(created_at)->0),
                )
            },
        },
        step is CheckProcessed && reply == Ok::<bool, WhitenoiseError>(true) ==> next == Ok::<
            RelayListStep,
            WhitenoiseError,
        >(RelayListStep::Done),
        step is CheckProcessed && reply == Ok::<bool, WhitenoiseError>(false) ==> next == Ok::<
            RelayListStep,
            WhitenoiseError,
        >(RelayListStep::FindUser),
        step is FindUser && reply is Ok && created_at <= 8_210_266_876_799 ==> next is Ok
            && next->Ok_0 is SyncRelays && next->Ok_0->SyncRelays_kind == kind
            && next->Ok_0->SyncRelays_time == created_at * 1000,
        step is FindUser && reply is Ok && created_at > 8_210_266_876_799 ==> next == Err::<
            RelayListStep,
            WhitenoiseError,
        >(WhitenoiseError::InvalidTimestamp),
        step is SyncRelays && reply == Ok::<bool, WhitenoiseError>(true) ==> next == Ok::<
            RelayListStep,
            WhitenoiseError,
        >(
            RelayListStep::RefreshSubscriptions {
                kind: step->SyncRelays_kind,
                time: step->SyncRelays_time,
            },
        ),
        step is SyncRelays && reply == Ok::<bool, WhitenoiseError>(false) ==> next == Ok::<
            RelayListStep,
            WhitenoiseError,
        >(RelayListStep::Record { kind: step->SyncRelays_kind, time: step->SyncRelays_time }),
        step is RefreshSubscriptions ==> next == Ok::<RelayListStep, WhitenoiseError>(
            RelayListStep::Record {
                kind: step->RefreshSubscriptions_kind,
                time: step->RefreshSubscriptions_time,
            },
        ),
        (step is Record || step is Done) && reply is Ok ==> next == Ok::<RelayListStep, WhitenoiseError>(
            RelayListStep::Done,
        ),
{
    let yes = match reply {
        Ok(yes) => yes,
        Err(e) => {
            return match step {
                RelayListStep::RefreshSubscriptions { kind, time } => Ok(
                    RelayListStep::Record { kind, time },
                ),
                _ => Err(e),
            };
        },
    };
    match step {
        RelayListStep::CheckProcessed => if yes {
            Ok(RelayListStep::Done)
        } else {
            Ok(RelayListStep::FindUser)
        },
        RelayListStep::FindUser => match timestamp_to_datetime(created_at) {
            Ok(time) => Ok(RelayListStep::SyncRelays { kind, time }),
            Err(e) => Err(e),
        },
        RelayListStep::SyncRelays { kind, time } => if yes {
            Ok(RelayListStep::RefreshSubscriptions { kind, time })
        } else {
            Ok(RelayListStep::Record { kind, time })
        },
        RelayListStep::RefreshSubscriptions { kind, time } => Ok(RelayListStep::Record { kind, time }),
        RelayListStep::Record { .. } => Ok(RelayListStep::Done),
        RelayListStep::Done => Ok(RelayListStep::Done),
    }
}

/// What a refresh of the subscriptions has to do.
#[derive(Clone, Copy, PartialEq, Eq, Structural, Debug)]
pub struct SubscriptionsRefresh {
    pub rebuild_discovery: bool,
    pub refresh_account: bool,
}

/// Decides what to refresh after a user's relays changed. `account` is the
/// outcome of looking up the local account of that user. Where there is none,
/// or where the lookup fails, only discovery is rebuilt.
pub fn handle_subscriptions_refresh<A>(account: &Result<A>) -> (refresh: SubscriptionsRefresh)
    ensures
        refresh.rebuild_discovery,
        refresh.refresh_account <==> account is Ok,
{
    SubscriptionsRefresh { rebuild_discovery: true, refresh_account: account.is_ok() }
}

/// Each step of the work leads to the next one, and the kind and the time of
/// the list go through all of them unchanged.
pub proof fn relay_list_work_is_done_in_order(step: RelayListStep, yes: bool, kind: u16, time: i64)
    ensures
        step is CheckProcessed ==> (step.spec_next(yes, kind, time) is Done <==> yes),
        step is CheckProcessed ==> (step.spec_next(yes, kind, time) is FindUser <==> !yes),
        step is FindUser ==> step.spec_next(yes, kind, time) is SyncRelays && step.spec_next(
            yes,
            kind,
            time,
        )->SyncRelays_kind == kind && step.spec_next(yes, kind, time)->SyncRelays_time == time,
        step is SyncRelays && yes ==> {
            let next = step.spec_next(yes, kind, time);
            &&& next is RefreshSubscriptions
            &&& next->RefreshSubscriptions_kind == step->SyncRelays_kind
            &&& next->RefreshSubscriptions_time == step->SyncRelays_time
        },
        step is SyncRelays && !yes ==> {
            let next = step.spec_next(yes, kind, time);
            &&& next is Record
            &&& next->Record_kind == step->SyncRelays_kind
            &&& next->Record_time == step->SyncRelays_time
        },
        step is RefreshSubscriptions ==> {
            let next = step.spec_next(yes, kind, time);
            &&& next is Record
            &&& next->Record_kind == step->RefreshSubscriptions_kind
            &&& next->Record_time == step->RefreshSubscriptions_time
        },
        step is Record || step is Done ==> step.spec_next(yes, kind, time) is Done,
{
}

/// A list whose event was processed is left alone, and any other is recorded
/// with its own kind and time once the relays of its kind are in line with it,
/// whether or not they changed.
pub proof fn every_new_relay_list_is_recorded(kind: u16, time: i64, changed: bool)
    ensures
        RelayListStep::CheckProcessed.spec_next(true, kind, time) is Done,
        ({
            let synced = RelayListStep::CheckProcessed.spec_next(false, kind, time).spec_next(
                true,
                kind,
                time,
            );
            let after = synced.spec_next(changed, kind, time);
            &&& synced == (RelayListStep::SyncRelays { kind, time })
            &&& changed ==> after is RefreshSubscriptions && after.spec_next(true, kind, time) == (
            RelayListStep::Record { kind, time })
            &&& !changed ==> after == (RelayListStep::Record { kind, time })
        }),
{
}

} // verus!
