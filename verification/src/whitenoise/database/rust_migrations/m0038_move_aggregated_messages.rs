//! Moves the messages of an account's groups into its own database.

use vstd::prelude::*;

use crate::whitenoise::database::rust_migrations::migration::LocalMigration;
use crate::whitenoise::database::rust_migrations::table::{
    check_null_or_starts_hex_64, check_starts_hex_64, insert_all, null_or_starts_hex_64,
    starts_hex_64, try_insert_all, Row,
};
use crate::whitenoise::text::same_bytes;

verus! {

pub struct Migration;

impl LocalMigration for Migration {
    open spec fn spec_version(&self) -> u32 {
        38
    }

    open spec fn spec_description(&self) -> Seq<char> {
        "Move aggregated_messages into per-account database"@
    }

    open spec fn spec_for_new_accounts_only(&self) -> bool {
        false
    }

    fn version(&self) -> (v: u32) {
        38
    }

    fn description(&self) -> (d: &'static str) {
        "Move aggregated_messages into per-account database"
    }

    fn for_new_accounts_only(&self) -> (b: bool) {
        false
    }
}

/// A row of the `aggregated_messages` table.
#[derive(Debug)]
pub struct AggregatedMessageRow {
    pub message_id: String,
    pub mls_group_id: Vec<u8>,
    pub author: String,
    pub created_at: i64,
    pub kind: i64,
    pub content: String,
    pub tags: String,
    pub reply_to_id: Option<String>,
    pub deletion_event_id: Option<String>,
    pub content_tokens: String,
    pub reactions: String,
    pub media_attachments: String,
    pub content_normalized: String,
}

impl Row for AggregatedMessageRow {
    open spec fn clashes(&self, other: &Self) -> bool {
        self.message_id@ == other.message_id@ && self.mls_group_id@ == other.mls_group_id@
    }

    open spec fn admissible(&self) -> bool {
        &&& starts_hex_64(self.message_id@)
        &&& starts_hex_64(self.author@)
        &&& null_or_starts_hex_64(self.reply_to_id)
        &&& null_or_starts_hex_64(self.deletion_event_id)
    }

    fn clashes_with(&self, other: &Self) -> (r: bool) {
        self.message_id == other.message_id && same_bytes(&self.mls_group_id, &other.mls_group_id)
    }

    fn is_admissible(&self) -> (r: bool) {
        check_starts_hex_64(self.message_id.as_str()) && check_starts_hex_64(self.author.as_str())
            && check_null_or_starts_hex_64(&self.reply_to_id) && check_null_or_starts_hex_64(
            &self.deletion_event_id,
        )
    }
}

/// The messages of one group, in order.
pub open spec fn messages_of(rows: Seq<AggregatedMessageRow>, group: Seq<u8>) -> Seq<
    AggregatedMessageRow,
>
    decreases rows.len(),
{
    if rows.len() == 0 {
        Seq::empty()
    } else {
        let rest = messages_of(rows.drop_last(), group);
        if rows.last().mls_group_id@ == group {
            rest.push(rows.last())
        } else {
            rest
        }
    }
}

pub open spec fn group_views(groups: Seq<Vec<u8>>) -> Seq<Seq<u8>> {
    groups.map_values(|g: Vec<u8>| g@)
}

/// The messages of all of `groups`: group by group, and in order within each.
pub open spec fn messages_of_all(rows: Seq<AggregatedMessageRow>, groups: Seq<Seq<u8>>) -> Seq<
    AggregatedMessageRow,
>
    decreases groups.len(),
{
    if groups.len() == 0 {
        Seq::empty()
    } else {
        let rest = messages_of_all(rows, groups.drop_last());
        if groups.drop_last().contains(groups.last()) {
            rest
        } else {
            rest + messages_of(rows, groups.last())
        }
    }
}

/// Parts the rows of `group` from the others, both in order.
fn part_group(rows: Vec<AggregatedMessageRow>, group: &Vec<u8>) -> (parts: (
    Vec<AggregatedMessageRow>,
    Vec<AggregatedMessageRow>,
))
    ensures
        parts.0@ == messages_of(rows@, group@),
        forall|g: Seq<u8>| g != group@ ==> #[trigger] messages_of(parts.1@, g) == messages_of(rows@, g),
{
    let mut mine: Vec<AggregatedMessageRow> = Vec::new();
    let mut others: Vec<AggregatedMessageRow> = Vec::new();
    let ghost all = rows@;
    assert(all.take(0) =~= Seq::empty());
    for row in it: rows
        invariant
            it.seq() == all,
            mine@ == messages_of(all.take(it.index()), group@),
            forall|g: Seq<u8>| g != group@ ==> #[trigger] messages_of(others@, g) == messages_of(
                all.take(it.index()),
                g,
            ),
    {
        let ghost next = all.take(it.index() + 1);
        assert(next.drop_last() =~= all.take(it.index()));
        if same_bytes(&row.mls_group_id, group) {
            mine.push(row);
            assert forall|g: Seq<u8>| g != group@ implies #[trigger] messages_of(others@, g)
                == messages_of(next, g) by {}
        } else {
            let ghost before = others@;
            others.push(row);
            assert(others@.drop_last() =~= before);
            assert forall|g: Seq<u8>| g != group@ implies #[trigger] messages_of(others@, g)
                == messages_of(next, g) by {
                assert(messages_of(before, g) == messages_of(all.take(it.index()), g));
            }
        }
    }
    assert(all.take(all.len() as int) =~= all);
    (mine, others)
}

/// Whether the group at `n` occurs before that.
fn seen_before(groups: &Vec<Vec<u8>>, n: usize) -> (seen: bool)
    requires
        n < groups.len(),
    ensures
        seen == group_views(groups@).take(n as int).contains(groups[n as int]@),
{
    let ghost before = group_views(groups@).take(n as int);
    let mut i: usize = 0;
    while i < n
        invariant
            i <= n < groups.len(),
            before == group_views(groups@).take(n as int),
            forall|k: int| 0 <= k < i ==> before[k] != groups[n as int]@,
        decreases n - i,
    {
        if same_bytes(&groups[i], &groups[n]) {
            assert(before[i as int] == groups[n as int]@);
            return true;
        }
        i = i + 1;
    }
    false
}

/// The rows of a table that may be missing.
pub open spec fn shared_messages(shared: Option<Vec<AggregatedMessageRow>>) -> Seq<
    AggregatedMessageRow,
> {
    match shared {
        Some(rows) => rows@,
        None => Seq::empty(),
    }
}

impl Migration {
    /// Copies the messages of the account's groups out of the shared table,
    /// where it still exists. Returns how many messages were read for that.
    pub fn run_local(
        &self,
        shared: Option<Vec<AggregatedMessageRow>>,
        groups: &Vec<Vec<u8>>,
        local: &mut Vec<AggregatedMessageRow>,
    ) -> (copied: usize)
        ensures
            final(local)@ == insert_all(
                old(local)@,
                messages_of_all(shared_messages(shared), group_views(groups@)),
            ),
            copied == messages_of_all(shared_messages(shared), group_views(groups@)).len(),
    {
        let ghost views = group_views(groups@);
        let ghost all = shared_messages(shared);
        let mut rows = match shared {
            Some(rows) => rows,
            None => {
                proof {
                    lemma_no_messages(views);
                }
                return 0;
            },
        };
        let mut copied: usize = 0;
        let mut n: usize = 0;
        let total: usize = rows.len();
        proof {
            lemma_no_more_than_rows(all, views);
        }
        assert(views.take(0) =~= Seq::empty());
        while n < groups.len()
            invariant
                n <= groups.len(),
                views == group_views(groups@),
                messages_of_all(all, views).len() <= total,
                local@ == insert_all(old(local)@, messages_of_all(all, views.take(n as int))),
                copied == messages_of_all(all, views.take(n as int)).len(),
                forall|g: Seq<u8>| !views.take(n as int).contains(g) ==> #[trigger] messages_of(rows@, g)
                    == messages_of(all, g),
            decreases groups.len() - n,
        {
            let ghost taken = views.take(n as int);
            let ghost next = views.take(n + 1);
            assert(next.drop_last() =~= taken);
            assert(next.last() == groups[n as int]@);
            if !seen_before(groups, n) {
                let (mine, others) = part_group(rows, &groups[n]);
                rows = others;
                let count: usize = mine.len();
                proof {
                    lemma_insert_all_adds(
                        old(local)@,
                        messages_of_all(all, taken),
                        mine@,
                    );
                    lemma_messages_grow(all, views, n + 1);
                }
                try_insert_all(local, mine);
                copied = copied + count;
                assert forall|g: Seq<u8>| !next.contains(g) implies #[trigger] messages_of(rows@, g)
                    == messages_of(all, g) by {
                    assert(!taken.contains(g)) by {
                        if taken.contains(g) {
                            let k = choose|k: int| 0 <= k < taken.len() && taken[k] == g;
                            assert(next[k] == g);
                        }
                    }
                    assert(next[n as int] == groups[n as int]@);
                }
            } else {
                assert forall|g: Seq<u8>| !next.contains(g) implies #[trigger] messages_of(rows@, g)
                    == messages_of(all, g) by {
                    assert(!taken.contains(g)) by {
                        if taken.contains(g) {
                            let k = choose|k: int| 0 <= k < taken.len() && taken[k] == g;
                            assert(next[k] == g);
                        }
                    }
                }
            }
            n = n + 1;
        }
        assert(views.take(views.len() as int) =~= views);
        copied
    }
}

/// One more row adds one message at most.
proof fn lemma_one_row(rows: Seq<AggregatedMessageRow>, groups: Seq<Seq<u8>>)
    requires
        rows.len() > 0,
    ensures
        messages_of_all(rows, groups).len() == messages_of_all(rows.drop_last(), groups).len() + (
        if groups.contains(rows.last().mls_group_id@) {
            1int
        } else {
            0
        }),
    decreases groups.len(),
{
    if groups.len() > 0 {
        let rest = groups.drop_last();
        let group = rows.last().mls_group_id@;
        lemma_one_row(rows, rest);
        assert(groups.contains(group) <==> rest.contains(group) || groups.last() == group) by {
            if rest.contains(group) {
                let k = choose|k: int| 0 <= k < rest.len() && rest[k] == group;
                assert(groups[k] == group);
            }
            if groups.contains(group) && groups.last() != group {
                let k = choose|k: int| 0 <= k < groups.len() && groups[k] == group;
                assert(rest[k] == group);
            }
            if groups.last() == group {
                assert(groups[groups.len() - 1] == group);
            }
        }
    }
}

proof fn lemma_no_more_than_rows(rows: Seq<AggregatedMessageRow>, groups: Seq<Seq<u8>>)
    ensures
        messages_of_all(rows, groups).len() <= rows.len(),
    decreases rows.len(),
{
    if rows.len() == 0 {
        assert(rows =~= Seq::empty());
        lemma_no_messages(groups);
    } else {
        lemma_no_more_than_rows(rows.drop_last(), groups);
        lemma_one_row(rows, groups);
    }
}

proof fn lemma_no_messages(groups: Seq<Seq<u8>>)
    ensures
        messages_of_all(Seq::empty(), groups).len() == 0,
        messages_of_all(Seq::empty(), groups) == Seq::<AggregatedMessageRow>::empty(),
    decreases groups.len(),
{
    if groups.len() > 0 {
        lemma_no_messages(groups.drop_last());
        assert(messages_of_all(Seq::empty(), groups) =~= Seq::<AggregatedMessageRow>::empty());
    }
}

proof fn lemma_messages_grow(rows: Seq<AggregatedMessageRow>, groups: Seq<Seq<u8>>, n: int)
    requires
        0 <= n <= groups.len(),
    ensures
        messages_of_all(rows, groups.take(n)).len() <= messages_of_all(rows, groups).len(),
    decreases groups.len(),
{
    if n == groups.len() {
        assert(groups.take(n) =~= groups);
    } else {
        lemma_messages_grow(rows, groups.drop_last(), n);
        assert(groups.drop_last().take(n) =~= groups.take(n));
    }
}

proof fn lemma_insert_all_adds(
    table: Seq<AggregatedMessageRow>,
    first: Seq<AggregatedMessageRow>,
    second: Seq<AggregatedMessageRow>,
)
    ensures
        insert_all(table, first + second) == insert_all(insert_all(table, first), second),
    decreases second.len(),
{
    if second.len() == 0 {
        assert(first + second =~= first);
    } else {
        lemma_insert_all_adds(table, first, second.drop_last());
        assert((first + second).drop_last() =~= first + second.drop_last());
    }
}

} // verus!
