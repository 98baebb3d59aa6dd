//! Events that concern one account: whose they are, whether they are handled,
//! by what, and what becomes of them afterwards.

use vstd::prelude::*;
use vstd::string::{StrSliceExecFns, StringExecFns};

use crate::whitenoise::error::{Result, WhitenoiseError};
use crate::whitenoise::nostr::{
    find_tag_content, first_tag_content, first_tag_decides, hex_text, nostr_public_key, parse_public_key, Event, PublicKey, Tag,
    KIND_CONTACT_LIST, KIND_GIFT_WRAP, KIND_INBOX_RELAYS, KIND_METADATA, KIND_MLS_GROUP_MESSAGE,
    KIND_MLS_KEY_PACKAGE_RELAYS, KIND_MUTE_LIST, KIND_RELAY_LIST,
};
use crate::whitenoise::text::{find_char, first_at, same_text};

verus! {

/// Where an event came from.
#[derive(Debug)]
pub enum EventSource {
    /// A relay subscription, and the account that it serves, if any.
    RelaySubscription { account_pubkey: Option<PublicKey> },
}

/// The account that an event is for.
pub fn account_from_event_source(source: &EventSource) -> (account: Result<PublicKey>)
    ensures
        ({
            let EventSource::RelaySubscription { account_pubkey } = *source;
            match account_pubkey {
                Some(key) => account == Ok::<PublicKey, WhitenoiseError>(key),
                None => account matches Err(WhitenoiseError::InvalidEvent(m)) && m@
                    == "Relay subscription context missing account pubkey"@,
            }
        }),
        account matches Ok(key) ==> source->RelaySubscription_account_pubkey == Some(key),
        account is Err ==> source->RelaySubscription_account_pubkey is None,
{
    match source {
        EventSource::RelaySubscription { account_pubkey } => match account_pubkey {
            Some(key) => Ok(*key),
            None => Err(
                WhitenoiseError::InvalidEvent(
                    String::from_str("Relay subscription context missing account pubkey"),
                ),
            ),
        },
    }
}

/// An account and the hash under which its subscriptions go.
#[derive(Debug)]
pub struct HashedAccount {
    pub hash: String,
    pub pubkey: PublicKey,
}

/// `at` is the first account with the hash.
pub open spec fn hashed_at(accounts: Seq<HashedAccount>, hash: Seq<char>, at: int) -> bool {
    0 <= at < accounts.len() && accounts[at].hash@ == hash && forall|i: int|
        0 <= i < at ==> (#[trigger] accounts[i]).hash@ != hash
}

/// The account that a subscription identifier names.
///
/// Identifiers have the form `{hash}_{subscription type}`: what stands before
/// the first underscore is the hash of the account.
pub fn extract_pubkey_from_subscription_id(subscription_id: &str, accounts: &Vec<HashedAccount>) -> (found:
    Result<PublicKey>)
    ensures
        !subscription_id@.contains('_') ==> (found matches Err(WhitenoiseError::InvalidEvent(m)) && m@
            == "Invalid subscription ID: "@ + subscription_id@),
        forall|cut: int| #[trigger]
            first_at(subscription_id@, '_', cut) ==> {
                let hash = subscription_id@.subrange(0, cut);
                match found {
                    Ok(key) => exists|at: int|
                        hashed_at(accounts@, hash, at) && accounts@[at].pubkey == key,
                    Err(e) => {
                        &&& forall|at: int|
                            0 <= at < accounts@.len() ==> (#[trigger] accounts@[at]).hash@ != hash
                        &&& e matches WhitenoiseError::InvalidEvent(m)
                        &&& m@ == "No account found for subscription hash: "@ + hash
                    },
                }
            },
        found matches Ok(key) ==> exists|cut: int, at: int|
            0 <= cut < subscription_id@.len() && 0 <= at < accounts@.len() && #[trigger] subscription_id@[cut]
                == '_' && (#[trigger] accounts@[at]).hash@ == subscription_id@.subrange(0, cut)
                && accounts@[at].pubkey == key && (forall|i: int|
                0 <= i < cut ==> #[trigger] subscription_id@[i] != '_') && forall|i: int|
                0 <= i < at ==> (#[trigger] accounts@[i]).hash@ != subscription_id@.subrange(0, cut),
        found is Err ==> forall|cut: int, at: int|
            0 <= cut < subscription_id@.len() && 0 <= at < accounts@.len() && #[trigger] subscription_id@[cut]
                == '_' && (forall|i: int| 0 <= i < cut ==> #[trigger] subscription_id@[i] != '_') ==> (
            #[trigger] accounts@[at]).hash@ != subscription_id@.subrange(0, cut),
{
    let cut = match find_char(subscription_id, '_') {
        Some(cut) => cut,
        None => {
            let mut message = String::from_str("Invalid subscription ID: ");
            message.append(subscription_id);
            assert forall|cut: int| !first_at(subscription_id@, '_', cut) by {
                if first_at(subscription_id@, '_', cut) {
                    assert(subscription_id@[cut] == '_');
                }
            }
            return Err(WhitenoiseError::InvalidEvent(message));
        },
    };
    let hash = subscription_id.substring_char(0, cut);
    proof {
        assert(subscription_id@[cut as int] == '_');
        assert forall|other: int| first_at(subscription_id@, '_', other) implies other == cut by {
            if other < cut {
                assert(subscription_id@[other] != '_');
            } else if cut < other {
                assert(subscription_id@[cut as int] != '_');
            }
        }
    }
    let mut i: usize = 0;
    while i < accounts.len()
        invariant
            i <= accounts.len(),
            hash@ == subscription_id@.subrange(0, cut as int),
            first_at(subscription_id@, '_', cut as int),
            forall|other: int| #[trigger] first_at(subscription_id@, '_', other) ==> other == cut,
            subscription_id@.contains('_'),
            forall|k: int| 0 <= k < i ==> (#[trigger] accounts[k]).hash@ != hash@,
        decreases accounts.len() - i,
    {
        if same_text(accounts[i].hash.as_str(), hash) {
            assert(hashed_at(accounts@, hash@, i as int));
            assert(subscription_id@[cut as int] == '_' && accounts@[i as int].hash@ == hash@);
            return Ok(accounts[i].pubkey);
        }
        i = i + 1;
    }
    let mut message = String::from_str("No account found for subscription hash: ");
    message.append(hash);
    Err(WhitenoiseError::InvalidEvent(message))
}

/// The message for a gift wrap without a usable target.
pub open spec fn no_target_message() -> Seq<char> {
    "No valid target pubkey found in 'p' tag for giftwrap event"@
}

/// The message for a gift wrap that is addressed to somebody else.
pub open spec fn wrong_target_message(target: Seq<u8>, account: PublicKey) -> Seq<char> {
    "Giftwrap target pubkey "@ + hex_text(target) + " does not match account pubkey "@
        + account.spec_hex() + " - possible routing error"@
}

/// Whether a gift wrap addressed to `target` is for `account`.
pub fn check_giftwrap_target(account: &PublicKey, target: Option<PublicKey>) -> (checked: Result<()>)
    ensures
        match target {
            Some(key) if key == *account => checked is Ok,
            Some(key) => checked matches Err(WhitenoiseError::InvalidEvent(m)) && m@
                == wrong_target_message(key.bytes@, *account),
            None => checked matches Err(WhitenoiseError::InvalidEvent(m)) && m@ == no_target_message(),
        },
        checked is Ok <==> target == Some(*account),
{
    match target {
        None => Err(
            WhitenoiseError::InvalidEvent(
                String::from_str("No valid target pubkey found in 'p' tag for giftwrap event"),
            ),
        ),
        Some(key) => if key == *account {
            Ok(())
        } else {
            let mut message = String::from_str("Giftwrap target pubkey ");
            message.append(key.to_hex().as_str());
            message.append(" does not match account pubkey ");
            message.append(account.to_hex().as_str());
            message.append(" - possible routing error");
            Err(WhitenoiseError::InvalidEvent(message))
        },
    }
}

/// The key that the first `p` tag names, if that tag has a value and the
/// value reads as a public key.
pub open spec fn giftwrap_target(tags: Seq<Tag>) -> Option<Seq<u8>> {
    match first_tag_content(tags, "p"@) {
        Some(content) => nostr_public_key(content),
        None => None,
    }
}

/// What is wrong with the target of a gift wrap for `account`, if anything is.
pub open spec fn target_error(tags: Seq<Tag>, account: PublicKey) -> Option<Seq<char>> {
    match giftwrap_target(tags) {
        None => Some(no_target_message()),
        Some(target) => if target == account.bytes@ {
            None
        } else {
            Some(wrong_target_message(target, account))
        },
    }
}

/// Checks that a gift wrap is addressed to `account` in its `p` tag.
pub fn validate_giftwrap_target(account: &PublicKey, tags: &Vec<Tag>) -> (checked: Result<()>)
    ensures
        match target_error(tags@, *account) {
            None => checked is Ok,
            Some(message) => checked matches Err(WhitenoiseError::InvalidEvent(m)) && m@ == message,
        },
{
    let target = match find_tag_content(tags, "p") {
        Some(content) => parse_public_key(content.as_str()),
        None => None,
    };
    proof {
        if let Some(key) = target {
            assert(giftwrap_target(tags@) == Some(key.bytes@));
            assert(key.bytes@ == account.bytes@ ==> key.bytes =~= account.bytes);
        }
    }
    check_giftwrap_target(account, target)
}

/// Why an event is skipped.
#[derive(Clone, Copy, PartialEq, Eq, Structural, Debug)]
pub enum SkipReason {
    AlreadyProcessed,
    SelfPublished,
}

impl SkipReason {
    pub fn as_str(&self) -> (s: &'static str)
        ensures
            s@ == (match *self {
                SkipReason::AlreadyProcessed => "already processed"@,
                SkipReason::SelfPublished => "self-published event"@,
            }),
    {
        match self {
            SkipReason::AlreadyProcessed => "already processed",
            SkipReason::SelfPublished => "self-published event",
        }
    }
}

/// Gift wraps and group messages are handled also where this account
/// published them: the group state needs them.
pub open spec fn handled_when_self_published(kind: u16) -> bool {
    kind == KIND_MLS_GROUP_MESSAGE || kind == KIND_GIFT_WRAP
}

/// Whether it has to be looked up if this account published the event.
pub fn needs_published_check(kind: u16, already_processed: Option<bool>) -> (needed: bool)
    ensures
        needed == (already_processed != Some(true) && !handled_when_self_published(kind)),
        needed <==> already_processed != Some(true) && kind != 445 && kind != 1059,
{
    match already_processed {
        Some(true) => false,
        _ => !(kind == KIND_MLS_GROUP_MESSAGE || kind == KIND_GIFT_WRAP),
    }
}

/// Whether an event is skipped, and why. A look-up that failed, given as
/// none, does not stop an event.
pub fn should_skip_account_event_processing(
    kind: u16,
    already_processed: Option<bool>,
    published: Option<bool>,
) -> (skip: Option<SkipReason>)
    ensures
        skip == (if already_processed == Some(true) {
            Some(SkipReason::AlreadyProcessed)
        } else if !handled_when_self_published(kind) && published == Some(true) {
            Some(SkipReason::SelfPublished)
        } else {
            None
        }),
        skip == Some(SkipReason::AlreadyProcessed) <==> already_processed == Some(true),
        skip == Some(SkipReason::SelfPublished) <==> already_processed != Some(true) && published == Some(
            true,
        ) && kind != 445 && kind != 1059,
{
    if let Some(true) = already_processed {
        return Some(SkipReason::AlreadyProcessed);
    }
    if needs_published_check(kind, already_processed) {
        if let Some(true) = published {
            return Some(SkipReason::SelfPublished);
        }
    }
    None
}

/// What handles an event.
#[derive(Clone, Copy, PartialEq, Eq, Structural, Debug)]
pub enum Handler {
    GiftWrap,
    MlsMessage,
    Metadata,
    RelayList,
    ContactList,
    MuteList,
    /// Nothing does, which is no error.
    Unhandled,
}

/// What handles an event of kind `kind`.
pub open spec fn handler_of(kind: u16) -> Handler {
    if kind == KIND_GIFT_WRAP {
        Handler::GiftWrap
    } else if kind == KIND_MLS_GROUP_MESSAGE {
        Handler::MlsMessage
    } else if kind == KIND_METADATA {
        Handler::Metadata
    } else if kind == KIND_RELAY_LIST || kind == KIND_INBOX_RELAYS || kind
        == KIND_MLS_KEY_PACKAGE_RELAYS {
        Handler::RelayList
    } else if kind == KIND_CONTACT_LIST {
        Handler::ContactList
    } else if kind == KIND_MUTE_LIST {
        Handler::MuteList
    } else {
        Handler::Unhandled
    }
}

/// Finds the handler of an event. A gift wrap has to be addressed to the
/// account.
pub fn route_account_event_for_processing(account: &PublicKey, event: &Event) -> (route: Result<Handler>)
    ensures
        event.kind != KIND_GIFT_WRAP ==> route == Ok::<Handler, WhitenoiseError>(
            handler_of(event.kind),
        ),
        event.kind == KIND_GIFT_WRAP ==> match target_error(event.tags@, *account) {
            None => route == Ok::<Handler, WhitenoiseError>(Handler::GiftWrap),
            Some(message) => route matches Err(WhitenoiseError::InvalidEvent(m)) && m@ == message,
        },
        event.kind == 0 ==> route == Ok::<Handler, WhitenoiseError>(Handler::Metadata),
        event.kind == 3 ==> route == Ok::<Handler, WhitenoiseError>(Handler::ContactList),
        event.kind == 445 ==> route == Ok::<Handler, WhitenoiseError>(Handler::MlsMessage),
        event.kind == 10000 ==> route == Ok::<Handler, WhitenoiseError>(Handler::MuteList),
        event.kind == 10002 || event.kind == 10050 || event.kind == 10051 ==> route == Ok::<
            Handler,
            WhitenoiseError,
        >(Handler::RelayList),
        event.kind == 1059 ==> route is Err || route == Ok::<Handler, WhitenoiseError>(
            Handler::GiftWrap,
        ),
        route == Ok::<Handler, WhitenoiseError>(Handler::Unhandled) <==> event.kind != 0 && event.kind
            != 3 && event.kind != 445 && event.kind != 1059 && event.kind != 10000 && event.kind != 10002
            && event.kind != 10050 && event.kind != 10051,
{
    if event.kind == KIND_GIFT_WRAP {
        match validate_giftwrap_target(account, &event.tags) {
            Ok(()) => Ok(Handler::GiftWrap),
            Err(e) => Err(e),
        }
    } else if event.kind == KIND_MLS_GROUP_MESSAGE {
        Ok(Handler::MlsMessage)
    } else if event.kind == KIND_METADATA {
        Ok(Handler::Metadata)
    } else if event.kind == KIND_RELAY_LIST || event.kind == KIND_INBOX_RELAYS || event.kind
        == KIND_MLS_KEY_PACKAGE_RELAYS {
        Ok(Handler::RelayList)
    } else if event.kind == KIND_CONTACT_LIST {
        Ok(Handler::ContactList)
    } else if event.kind == KIND_MUTE_LIST {
        Ok(Handler::MuteList)
    } else {
        Ok(Handler::Unhandled)
    }
}

/// How a handler ended.
#[derive(Debug)]
pub enum HandlerOutcome {
    Handled,
    /// A gift wrap was put off on purpose, for its relay to deliver again.
    Deferred,
    Failed(WhitenoiseError),
}

/// What a handler's result means.
pub open spec fn outcome_of(result: Result<()>) -> HandlerOutcome {
    match result {
        Ok(_) => HandlerOutcome::Handled,
        Err(e) => if e is GiftwrapThrottled || e is GiftwrapDeferred {
            HandlerOutcome::Deferred
        } else {
            HandlerOutcome::Failed(e)
        },
    }
}

/// What a handler's result means.
pub fn handler_outcome(result: Result<()>) -> (outcome: HandlerOutcome)
    ensures
        outcome == outcome_of(result),
{
    match result {
        Ok(_) => HandlerOutcome::Handled,
        Err(WhitenoiseError::GiftwrapThrottled) => HandlerOutcome::Deferred,
        Err(WhitenoiseError::GiftwrapDeferred) => HandlerOutcome::Deferred,
        Err(e) => HandlerOutcome::Failed(e),
    }
}

/// How the processing of an event ended.
#[derive(Clone, Copy, PartialEq, Eq, Structural, Debug)]
pub enum ProcessEnd {
    /// The account is not known.
    NoAccount,
    /// The account has no active session: it logged out in the meantime.
    NoSession,
    Skipped(SkipReason),
    Processed,
    Deferred,
    Retried,
    GivenUp,
}

/// What is to be done next with an event.
#[derive(Debug)]
pub enum ProcessStep {
    FindAccount,
    FindSession,
    /// Look up whether the event was processed before.
    CheckProcessed,
    /// Look up whether this account published the event.
    CheckPublished,
    /// Route the event and run its handler.
    Handle,
    /// Record the event as processed.
    Record,
    /// Move the account's sync time forward to this many milliseconds, unless
    /// it is further already.
    AdvanceSync(i64),
    /// Have the event processed again later; the handler failed with this error.
    ScheduleRetry(WhitenoiseError),
    Done(ProcessEnd),
}

/// What a step came back with.
#[derive(Debug)]
pub enum ProcessReply {
    Found(bool),
    /// The answer of a look-up; none where it failed.
    Answer(Option<bool>),
    Outcome(HandlerOutcome),
    /// The step was carried out, or failed in a way that is only logged.
    Carried,
}

/// The kinds that move the sync time of their account.
pub open spec fn advances_sync(kind: u16) -> bool {
    kind == KIND_CONTACT_LIST || kind == KIND_MLS_GROUP_MESSAGE || kind == KIND_MUTE_LIST
}

/// The sync time that an event gives, in milliseconds: its own time, but
/// never one in the future.
pub open spec fn sync_millis(created_at: u64, now: u64) -> int {
    if created_at <= now {
        created_at * 1000
    } else {
        now * 1000
    }
}

/// The last time in seconds whose milliseconds can be counted.
pub const MAX_CLOCK_SECS: u64 = 9_223_372_036_854_775;

/// What the processing of one event depends on.
#[derive(Clone, Copy, Debug)]
pub struct AccountEventProcess {
    pub kind: u16,
    /// Seconds since the Unix epoch.
    pub created_at: u64,
    /// Whether a failure may be tried again.
    pub should_retry: bool,
}

impl ProcessStep {
    /// Whether `reply` can answer this step.
    pub open spec fn takes(self, reply: ProcessReply) -> bool {
        match self {
            ProcessStep::FindAccount | ProcessStep::FindSession => reply is Found,
            ProcessStep::CheckProcessed | ProcessStep::CheckPublished => reply is Answer,
            ProcessStep::Handle => reply is Outcome,
            ProcessStep::Done(_) => false,
            _ => reply is Carried,
        }
    }
}

impl AccountEventProcess {
    pub open spec fn spec_next(self, step: ProcessStep, reply: ProcessReply, now: u64) -> ProcessStep {
        match (step, reply) {
            (ProcessStep::FindAccount, ProcessReply::Found(found)) => if found {
                ProcessStep::FindSession
            } else {
                ProcessStep::Done(ProcessEnd::NoAccount)
            },
            (ProcessStep::FindSession, ProcessReply::Found(found)) => if found {
                ProcessStep::CheckProcessed
            } else {
                ProcessStep::Done(ProcessEnd::NoSession)
            },
            (ProcessStep::CheckProcessed, ProcessReply::Answer(answer)) => if answer == Some(true) {
                ProcessStep::Done(ProcessEnd::Skipped(SkipReason::AlreadyProcessed))
            } else if handled_when_self_published(self.kind) {
                ProcessStep::Handle
            } else {
                ProcessStep::CheckPublished
            },
            (ProcessStep::CheckPublished, ProcessReply::Answer(answer)) => if answer == Some(true) {
                ProcessStep::Done(ProcessEnd::Skipped(SkipReason::SelfPublished))
            } else {
                ProcessStep::Handle
            },
            (ProcessStep::Handle, ProcessReply::Outcome(outcome)) => match outcome {
                HandlerOutcome::Handled => ProcessStep::Record,
                HandlerOutcome::Deferred => ProcessStep::Done(ProcessEnd::Deferred),
                HandlerOutcome::Failed(e) => if self.should_retry {
                    ProcessStep::ScheduleRetry(e)
                } else {
                    ProcessStep::Done(ProcessEnd::GivenUp)
                },
            },
            (ProcessStep::Record, _) => if advances_sync(self.kind) {
                ProcessStep::AdvanceSync(sync_millis(self.created_at, now) as i64)
            } else {
                ProcessStep::Done(ProcessEnd::Processed)
            },
            (ProcessStep::AdvanceSync(_), _) => ProcessStep::Done(ProcessEnd::Processed),
            (ProcessStep::ScheduleRetry(_), _) => ProcessStep::Done(ProcessEnd::Retried),
            _ => step,
        }
    }

    /// The step that processing begins with.
    pub fn start(&self) -> (step: ProcessStep)
        ensures
            step == ProcessStep::FindAccount,
    {
        ProcessStep::FindAccount
    }

    /// What to do after `step` came back with `reply`, at `now` seconds since
    /// the Unix epoch.
    pub fn process_account_event(&self, step: ProcessStep, reply: ProcessReply, now: u64) -> (next:
        ProcessStep)
        requires
            step.takes(reply),
            now <= MAX_CLOCK_SECS,
        ensures
            next == self.spec_next(step, reply, now),
            next matches ProcessStep::AdvanceSync(millis) ==> millis == sync_millis(
                self.created_at,
                now,
            ),
    {
        match reply {
            ProcessReply::Found(found) => match step {
                ProcessStep::FindAccount => if found {
                    ProcessStep::FindSession
                } else {
                    ProcessStep::Done(ProcessEnd::NoAccount)
                },
                _ => if found {
                    ProcessStep::CheckProcessed
                } else {
                    ProcessStep::Done(ProcessEnd::NoSession)
                },
            },
            ProcessReply::Answer(answer) => match step {
                ProcessStep::CheckProcessed => {
                    match should_skip_account_event_processing(self.kind, answer, None) {
                        Some(reason) => ProcessStep::Done(ProcessEnd::Skipped(reason)),
                        None => if needs_published_check(self.kind, answer) {
                            ProcessStep::CheckPublished
                        } else {
                            ProcessStep::Handle
                        },
                    }
                },
                _ => match answer {
                    Some(true) => ProcessStep::Done(ProcessEnd::Skipped(SkipReason::SelfPublished)),
                    _ => ProcessStep::Handle,
                },
            },
            ProcessReply::Outcome(outcome) => match outcome {
                HandlerOutcome::Handled => ProcessStep::Record,
                HandlerOutcome::Deferred => ProcessStep::Done(ProcessEnd::Deferred),
                HandlerOutcome::Failed(e) => if self.should_retry {
                    ProcessStep::ScheduleRetry(e)
                } else {
                    ProcessStep::Done(ProcessEnd::GivenUp)
                },
            },
            ProcessReply::Carried => match step {
                ProcessStep::Record => if self.kind == KIND_CONTACT_LIST || self.kind
                    == KIND_MLS_GROUP_MESSAGE || self.kind == KIND_MUTE_LIST {
                    let capped: u64 = if self.created_at <= now {
                        self.created_at
                    } else {
                        now
                    };
                    ProcessStep::AdvanceSync(capped as i64 * 1000)
                } else {
                    ProcessStep::Done(ProcessEnd::Processed)
                },
                ProcessStep::AdvanceSync(_) => ProcessStep::Done(ProcessEnd::Processed),
                _ => ProcessStep::Done(ProcessEnd::Retried),
            },
        }
    }

    /// The step reached from the start by a series of replies.
    pub open spec fn step_after(self, replies: Seq<ProcessReply>, now: u64) -> ProcessStep
        decreases replies.len(),
    {
        if replies.len() == 0 {
            ProcessStep::FindAccount
        } else {
            self.spec_next(self.step_after(replies.drop_last(), now), replies.last(), now)
        }
    }

    /// Each reply answers the step that was taken.
    pub open spec fn replies_fit(self, replies: Seq<ProcessReply>, now: u64) -> bool
        decreases replies.len(),
    {
        replies.len() > 0 ==> self.replies_fit(replies.drop_last(), now) && self.step_after(
            replies.drop_last(),
            now,
        ).takes(replies.last())
    }
}

/// Every kind that the library knows has its handler, and no other kind has
/// one: 0 is metadata, 3 a contact list, 445 a group message, 1059 a gift wrap,
/// 10000 a mute list, and 10002, 10050 and 10051 are relay lists.
pub proof fn each_kind_has_its_handler(kind: u16)
    ensures
        handler_of(kind) == Handler::Metadata <==> kind == 0,
        handler_of(kind) == Handler::ContactList <==> kind == 3,
        handler_of(kind) == Handler::MlsMessage <==> kind == 445,
        handler_of(kind) == Handler::GiftWrap <==> kind == 1059,
        handler_of(kind) == Handler::MuteList <==> kind == 10000,
        handler_of(kind) == Handler::RelayList <==> kind == 10002 || kind == 10050 || kind == 10051,
        handler_of(kind) == Handler::Unhandled <==> kind != 0 && kind != 3 && kind != 445 && kind != 1059
            && kind != 10000 && kind != 10002 && kind != 10050 && kind != 10051,
{
}

/// Only gift wraps and group messages are handled where this account
/// published them, and only contact lists, group messages and mute lists move
/// its sync time.
pub proof fn kinds_with_rules_of_their_own(kind: u16)
    ensures
        handled_when_self_published(kind) <==> kind == 445 || kind == 1059,
        advances_sync(kind) <==> kind == 3 || kind == 445 || kind == 10000,
{
}

/// A gift wrap is for an account exactly if the first item after the name of
/// its first `p` tag reads as that account's key. One that reads as another
/// key is refused with both keys in hexadecimal; one that reads as none is
/// refused as well.
pub proof fn a_gift_wrap_is_for_the_key_in_its_p_tag(tags: Seq<Tag>, account: PublicKey, k: int)
    requires
        0 <= k < tags.len(),
        tags[k].items@.len() >= 1,
        tags[k].items@[0]@ == "p"@,
        forall|j: int|
            0 <= j < k ==> (#[trigger] tags[j]).items@.len() == 0 || tags[j].items@[0]@ != "p"@,
    ensures
        target_error(tags, account) is None <==> tags[k].items@.len() >= 2 && nostr_public_key(
            tags[k].items@[1]@,
        ) == Some(account.bytes@),
        tags[k].items@.len() < 2 || nostr_public_key(tags[k].items@[1]@) is None ==> target_error(
            tags,
            account,
        ) == Some("No valid target pubkey found in 'p' tag for giftwrap event"@),
        tags[k].items@.len() >= 2 && nostr_public_key(tags[k].items@[1]@) is Some && nostr_public_key(
            tags[k].items@[1]@,
        )->0 != account.bytes@ ==> target_error(tags, account) == Some(
            "Giftwrap target pubkey "@ + hex_text(nostr_public_key(tags[k].items@[1]@)->0)
                + " does not match account pubkey "@ + hex_text(account.bytes@)
                + " - possible routing error"@,
        ),
{
    first_tag_decides(tags, "p"@, k);
}

/// A gift wrap without a `p` tag is refused.
pub proof fn a_gift_wrap_needs_a_p_tag(tags: Seq<Tag>, account: PublicKey)
    requires
        forall|j: int|
            0 <= j < tags.len() ==> (#[trigger] tags[j]).items@.len() == 0 || tags[j].items@[0]@ != "p"@,
    ensures
        target_error(tags, account) == Some(
            "No valid target pubkey found in 'p' tag for giftwrap event"@,
        ),
{
    first_tag_decides(tags, "p"@, 0);
}

/// A throttled or deferred gift wrap is the one thing that counts as put off;
/// any other error is a failure with that error, and no error is success.
pub proof fn only_gift_wraps_are_put_off(result: Result<()>)
    ensures
        result is Ok <==> outcome_of(result) is Handled,
        outcome_of(result) is Deferred <==> result is Err && (result->Err_0 is GiftwrapThrottled
            || result->Err_0 is GiftwrapDeferred),
        outcome_of(result) is Failed ==> result is Err && outcome_of(result)->Failed_0 == result->Err_0,
{
}

/// Processing goes on from one check to the next while an answer lets it, and
/// ends at the first that does not, with the reason for it.
pub proof fn checks_come_in_turn(p: AccountEventProcess, found: bool, answer: Option<bool>, now: u64)
    ensures
        p.spec_next(ProcessStep::FindAccount, ProcessReply::Found(true), now) == ProcessStep::FindSession,
        p.spec_next(ProcessStep::FindAccount, ProcessReply::Found(false), now) == ProcessStep::Done(
            ProcessEnd::NoAccount,
        ),
        p.spec_next(ProcessStep::FindSession, ProcessReply::Found(true), now)
            == ProcessStep::CheckProcessed,
        p.spec_next(ProcessStep::FindSession, ProcessReply::Found(false), now) == ProcessStep::Done(
            ProcessEnd::NoSession,
        ),
        p.spec_next(ProcessStep::CheckProcessed, ProcessReply::Answer(answer), now) == ProcessStep::Done(
            ProcessEnd::Skipped(SkipReason::AlreadyProcessed),
        ) <==> answer == Some(true),
        p.spec_next(ProcessStep::CheckProcessed, ProcessReply::Answer(answer), now)
            == ProcessStep::CheckPublished <==> answer != Some(true) && p.kind != 445 && p.kind != 1059,
        p.spec_next(ProcessStep::CheckProcessed, ProcessReply::Answer(answer), now)
            == ProcessStep::Handle <==> answer != Some(true) && (p.kind == 445 || p.kind == 1059),
        p.spec_next(ProcessStep::CheckPublished, ProcessReply::Answer(answer), now) == ProcessStep::Done(
            ProcessEnd::Skipped(SkipReason::SelfPublished),
        ) <==> answer == Some(true),
        p.spec_next(ProcessStep::CheckPublished, ProcessReply::Answer(answer), now) == ProcessStep::Handle
            <==> answer != Some(true),
{
}

/// What follows the handler: success is recorded and, for contact lists, group
/// messages and mute lists, moves the sync time to the earlier of the event's
/// time and the clock, in milliseconds. A failure that may not be tried again
/// is given up.
pub proof fn success_is_recorded_and_moves_the_sync_time(
    p: AccountEventProcess,
    error: WhitenoiseError,
    millis: i64,
    now: u64,
)
    requires
        now <= 9_223_372_036_854_775,
    ensures
        p.spec_next(ProcessStep::Handle, ProcessReply::Outcome(HandlerOutcome::Handled), now)
            == ProcessStep::Record,
        p.spec_next(ProcessStep::Record, ProcessReply::Carried, now) == ProcessStep::AdvanceSync(millis)
            <==> (p.kind == 3 || p.kind == 445 || p.kind == 10000) && millis == 1000 * (if p.created_at
            < now {
            p.created_at as int
        } else {
            now as int
        }),
        p.spec_next(ProcessStep::Record, ProcessReply::Carried, now) == ProcessStep::Done(
            ProcessEnd::Processed,
        ) <==> p.kind != 3 && p.kind != 445 && p.kind != 10000,
        p.spec_next(ProcessStep::AdvanceSync(millis), ProcessReply::Carried, now) == ProcessStep::Done(
            ProcessEnd::Processed,
        ),
        p.spec_next(ProcessStep::ScheduleRetry(error), ProcessReply::Carried, now) == ProcessStep::Done(
            ProcessEnd::Retried,
        ),
        !p.should_retry ==> p.spec_next(
            ProcessStep::Handle,
            ProcessReply::Outcome(HandlerOutcome::Failed(error)),
            now,
        ) == ProcessStep::Done(ProcessEnd::GivenUp),
{
}

/// Each look-up is answered, the handler has an outcome, what is carried out
/// is carried out, and nothing answers an end.
pub proof fn each_step_has_its_reply(step: ProcessStep, reply: ProcessReply)
    ensures
        step is FindAccount || step is FindSession ==> (step.takes(reply) <==> reply is Found),
        step is CheckProcessed || step is CheckPublished ==> (step.takes(reply) <==> reply is Answer),
        step is Handle ==> (step.takes(reply) <==> reply is Outcome),
        step is Record || step is AdvanceSync || step is ScheduleRetry ==> (step.takes(reply)
            <==> reply is Carried),
        step is Done ==> !step.takes(reply),
{
}

/// An event is recorded as processed exactly when its handler succeeded.
pub proof fn recorded_exactly_when_handled(
    p: AccountEventProcess,
    step: ProcessStep,
    reply: ProcessReply,
    now: u64,
)
    requires
        step.takes(reply),
    ensures
        p.spec_next(step, reply, now) is Record <==> reply == ProcessReply::Outcome(
            HandlerOutcome::Handled,
        ),
{
}

/// A retry is scheduled exactly when the handler failed, for another reason
/// than a deferral, and an attempt is left. It is handed the handler's error.
pub proof fn retried_exactly_when_failed_with_attempts_left(
    p: AccountEventProcess,
    step: ProcessStep,
    reply: ProcessReply,
    error: WhitenoiseError,
    now: u64,
)
    requires
        step.takes(reply),
    ensures
        p.spec_next(step, reply, now) == ProcessStep::ScheduleRetry(error) <==> p.should_retry && reply
            == ProcessReply::Outcome(HandlerOutcome::Failed(error)),
{
}

/// A deferred gift wrap is neither recorded nor retried: processing is over.
pub proof fn deferred_is_neither_recorded_nor_retried(p: AccountEventProcess, now: u64)
    ensures
        p.spec_next(ProcessStep::Handle, ProcessReply::Outcome(HandlerOutcome::Deferred), now)
            == ProcessStep::Done(ProcessEnd::Deferred),
{
}

/// An event reaches its handler only for a known account with an active
/// session, and only if it is not known to be a repetition.
pub proof fn handled_only_with_account_and_session(
    p: AccountEventProcess,
    replies: Seq<ProcessReply>,
    now: u64,
)
    requires
        p.replies_fit(replies, now),
        p.step_after(replies, now) is Handle,
    ensures
        replies.len() >= 3,
        replies[0] == ProcessReply::Found(true),
        replies[1] == ProcessReply::Found(true),
        replies[2] is Answer && replies[2] != ProcessReply::Answer(Some(true)),
        !handled_when_self_published(p.kind) ==> replies.len() == 4 && replies[3] is Answer
            && replies[3] != ProcessReply::Answer(Some(true)),
{
    lemma_process_trace(p, replies, now);
}

proof fn lemma_process_trace(p: AccountEventProcess, replies: Seq<ProcessReply>, now: u64)
    requires
        p.replies_fit(replies, now),
    ensures
        match p.step_after(replies, now) {
            ProcessStep::FindAccount => replies.len() == 0,
            ProcessStep::FindSession => replies.len() == 1 && replies[0] == ProcessReply::Found(true),
            ProcessStep::CheckProcessed => replies.len() == 2 && replies[0] == ProcessReply::Found(
                true,
            ) && replies[1] == ProcessReply::Found(true),
            ProcessStep::CheckPublished => {
                &&& replies.len() == 3
                &&& replies[0] == ProcessReply::Found(true)
                &&& replies[1] == ProcessReply::Found(true)
                &&& replies[2] is Answer && replies[2] != ProcessReply::Answer(Some(true))
                &&& !handled_when_self_published(p.kind)
            },
            ProcessStep::Handle => {
                &&& replies.len() >= 3
                &&& replies[0] == ProcessReply::Found(true)
                &&& replies[1] == ProcessReply::Found(true)
                &&& replies[2] is Answer && replies[2] != ProcessReply::Answer(Some(true))
                &&& !handled_when_self_published(p.kind) ==> replies.len() == 4
                    && replies[3] is Answer && replies[3] != ProcessReply::Answer(Some(true))
            },
            _ => true,
        },
    decreases replies.len(),
{
    if replies.len() > 0 {
        let rest = replies.drop_last();
        lemma_process_trace(p, rest, now);
        assert(forall|i: int| 0 <= i < rest.len() ==> rest[i] == replies[i]);
    }
}

/// The sync time never runs ahead of the clock or of the event itself.
pub proof fn sync_time_is_never_ahead(created_at: u64, now: u64)
    ensures
        sync_millis(created_at, now) <= now * 1000,
        sync_millis(created_at, now) <= created_at * 1000,
        created_at <= now ==> sync_millis(created_at, now) == created_at * 1000,
{
}

} // verus!
