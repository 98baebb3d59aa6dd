//! Marks the messages of muted authors that came after the mute.
//!
//! The mark is set once and stays, also after the author is unmuted. Messages
//! from before the mute remain visible.

use vstd::prelude::*;

use crate::whitenoise::database::rust_migrations::migration::LocalMigration;
use super::m0047_add_event_created_at_to_mute_list::TimedMute;

verus! {

pub struct Migration;

impl LocalMigration for Migration {
    open spec fn spec_version(&self) -> u32 {
        48
    }

    open spec fn spec_description(&self) -> Seq<char> {
        "Add is_blocked marker to aggregated_messages"@
    }

    open spec fn spec_for_new_accounts_only(&self) -> bool {
        false
    }

    fn version(&self) -> (v: u32) {
        48
    }

    fn description(&self) -> (d: &'static str) {
        "Add is_blocked marker to aggregated_messages"
    }

    fn for_new_accounts_only(&self) -> (b: bool) {
        false
    }
}

/// What the migration reads and writes of a cached message.
#[derive(Debug)]
pub struct BlockableMessage {
    pub author: String,
    /// Milliseconds since the Unix epoch.
    pub created_at: i64,
    pub is_blocked: bool,
}

/// Whether `mutes` blocks a message of `author` from `created_at`: the author
/// is muted, and was when the message was made.
pub open spec fn blocks(mutes: Seq<TimedMute>, author: Seq<char>, created_at: i64) -> bool {
    exists|i: int|
        0 <= i < mutes.len() && (#[trigger] mutes[i]).muted_pubkey@ == author && created_at
            >= mutes[i].event_created_at
}

fn is_blocked_by(mutes: &Vec<TimedMute>, author: &String, created_at: i64) -> (blocked: bool)
    ensures
        blocked == blocks(mutes@, author@, created_at),
{
    let mut i: usize = 0;
    while i < mutes.len()
        invariant
            i <= mutes.len(),
            forall|k: int|
                0 <= k < i ==> !((#[trigger] mutes[k]).muted_pubkey@ == author@ && created_at
                    >= mutes[k].event_created_at),
        decreases mutes.len() - i,
    {
        if mutes[i].muted_pubkey == *author && created_at >= mutes[i].event_created_at {
            return true;
        }
        i = i + 1;
    }
    false
}

impl Migration {
    /// Marks the messages that the mute list blocks. Nothing is done where
    /// the table has the column already.
    pub fn run_local(
        &self,
        column_exists: bool,
        mutes: &Vec<TimedMute>,
        messages: &mut Vec<BlockableMessage>,
    )
        ensures
            column_exists ==> final(messages)@ == old(messages)@,
            !column_exists ==> final(messages)@ == old(messages)@.map_values(
                |m: BlockableMessage|
                    BlockableMessage {
                        is_blocked: m.is_blocked || blocks(mutes@, m.author@, m.created_at),
                        ..m
                    },
            ),
            !column_exists ==> final(messages)@.len() == old(messages)@.len() && forall|k: int|
                0 <= k < old(messages)@.len() ==> {
                    &&& (#[trigger] final(messages)@[k]).author == old(messages)@[k].author
                    &&& final(messages)@[k].created_at == old(messages)@[k].created_at
                    &&& final(messages)@[k].is_blocked <==> old(messages)@[k].is_blocked || exists|i: int|
                        0 <= i < mutes@.len() && (#[trigger] mutes@[i]).muted_pubkey@
                            == old(messages)@[k].author@ && mutes@[i].event_created_at
                            <= old(messages)@[k].created_at
                },
    {
        if column_exists {
            return;
        }
        let mut i: usize = 0;
        while i < messages.len()
            invariant
                i <= messages.len() == old(messages).len(),
                forall|k: int|
                    0 <= k < i ==> #[trigger] messages[k] == (BlockableMessage {
                        is_blocked: old(messages)[k].is_blocked || blocks(
                            mutes@,
                            old(messages)[k].author@,
                            old(messages)[k].created_at,
                        ),
                        ..old(messages)[k]
                    }),
                forall|k: int| i <= k < messages.len() ==> #[trigger] messages[k] == old(messages)[k],
            decreases messages.len() - i,
        {
            if !messages[i].is_blocked && is_blocked_by(
                mutes,
                &messages[i].author,
                messages[i].created_at,
            ) {
                let marked = BlockableMessage {
                    author: messages[i].author.clone(),
                    created_at: messages[i].created_at,
                    is_blocked: true,
                };
                messages.set(i, marked);
            }
            i = i + 1;
        }
        assert(messages@ =~= old(messages)@.map_values(
            |m: BlockableMessage|
                BlockableMessage {
                    is_blocked: m.is_blocked || blocks(mutes@, m.author@, m.created_at),
                    ..m
                },
        ));
    }
}

/// A message from before every mute of its author stays visible.
pub proof fn messages_before_the_mute_stay_visible(
    mutes: Seq<TimedMute>,
    author: Seq<char>,
    created_at: i64,
)
    requires
        forall|i: int|
            0 <= i < mutes.len() && (#[trigger] mutes[i]).muted_pubkey@ == author ==> created_at
                < mutes[i].event_created_at,
    ensures
        !blocks(mutes, author, created_at),
{
}

/// A message is blocked exactly if some mute is of its author and not after it.
pub proof fn a_mute_blocks_what_comes_after_it(
    mutes: Seq<TimedMute>,
    author: Seq<char>,
    created_at: i64,
    i: int,
)
    ensures
        0 <= i < mutes.len() && mutes[i].muted_pubkey@ == author && mutes[i].event_created_at
            <= created_at ==> blocks(mutes, author, created_at),
        (forall|k: int|
            0 <= k < mutes.len() ==> (#[trigger] mutes[k]).muted_pubkey@ != author || created_at
                < mutes[k].event_created_at) ==> !blocks(mutes, author, created_at),
{
}

} // verus!
