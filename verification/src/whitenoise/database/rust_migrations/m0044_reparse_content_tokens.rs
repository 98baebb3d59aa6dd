//! Parses the content of every cached chat message anew.
//!
//! Only chat messages have content tokens; what reactions and deletions store
//! stays as it is.

use vstd::prelude::*;

use crate::whitenoise::database::rust_migrations::migration::LocalMigration;
use crate::whitenoise::nostr::KIND_CHAT_MESSAGE;

verus! {

pub struct Migration;

impl LocalMigration for Migration {
    open spec fn spec_version(&self) -> u32 {
        44
    }

    open spec fn spec_description(&self) -> Seq<char> {
        "Reparse content_tokens with updated markdown parser"@
    }

    open spec fn spec_for_new_accounts_only(&self) -> bool {
        false
    }

    fn version(&self) -> (v: u32) {
        44
    }

    fn description(&self) -> (d: &'static str) {
        "Reparse content_tokens with updated markdown parser"
    }

    fn for_new_accounts_only(&self) -> (b: bool) {
        false
    }
}

/// What the migration reads and writes of a cached message.
#[derive(Debug)]
pub struct TokenizedMessage {
    pub id: i64,
    pub kind: i64,
    pub content: String,
    /// The parsed content as JSON.
    pub content_tokens: String,
}

/// A message to parse: its row number and content.
#[derive(Debug)]
pub struct ReparseTask {
    pub id: i64,
    pub content: String,
}

/// The chat messages, in order.
pub open spec fn reparse_tasks(rows: Seq<TokenizedMessage>) -> Seq<ReparseTask>
    decreases rows.len(),
{
    if rows.len() == 0 {
        Seq::empty()
    } else {
        let rest = reparse_tasks(rows.drop_last());
        if rows.last().kind == KIND_CHAT_MESSAGE {
            rest.push(ReparseTask { id: rows.last().id, content: rows.last().content })
        } else {
            rest
        }
    }
}

/// The row with new tokens, where it is the one numbered `id`.
pub open spec fn with_tokens(row: TokenizedMessage, id: i64, tokens: String) -> TokenizedMessage {
    if row.id == id {
        TokenizedMessage { content_tokens: tokens, ..row }
    } else {
        row
    }
}

impl Migration {
    /// The messages whose content has to be parsed.
    pub fn run_local(&self, rows: &Vec<TokenizedMessage>) -> (tasks: Vec<ReparseTask>)
        ensures
            tasks@ == reparse_tasks(rows@),
    {
        let mut tasks: Vec<ReparseTask> = Vec::new();
        let mut i: usize = 0;
        assert(tasks@ =~= reparse_tasks(rows@.take(0)));
        while i < rows.len()
            invariant
                i <= rows.len(),
                tasks@ == reparse_tasks(rows@.take(i as int)),
            decreases rows.len() - i,
        {
            assert(rows@.take(i + 1).drop_last() =~= rows@.take(i as int));
            if rows[i].kind == KIND_CHAT_MESSAGE as i64 {
                tasks.push(ReparseTask { id: rows[i].id, content: rows[i].content.clone() });
            }
            i = i + 1;
        }
        assert(rows@.take(rows.len() as int) =~= rows@);
        tasks
    }

    /// Stores the parsed content of one message.
    pub fn store_tokens(&self, rows: &mut Vec<TokenizedMessage>, id: i64, tokens: String)
        ensures
            final(rows)@ == old(rows)@.map_values(
                |r: TokenizedMessage| with_tokens(r, id, tokens),
            ),
            final(rows)@.len() == old(rows)@.len(),
            forall|k: int|
                0 <= k < old(rows)@.len() ==> {
                    &&& (#[trigger] final(rows)@[k]).id == old(rows)@[k].id
                    &&& final(rows)@[k].kind == old(rows)@[k].kind
                    &&& final(rows)@[k].content == old(rows)@[k].content
                    &&& old(rows)@[k].id == id ==> final(rows)@[k].content_tokens == tokens
                    &&& old(rows)@[k].id != id ==> final(rows)@[k].content_tokens
                        == old(rows)@[k].content_tokens
                },
    {
        let mut i: usize = 0;
        while i < rows.len()
            invariant
                i <= rows.len() == old(rows).len(),
                forall|k: int| 0 <= k < i ==> #[trigger] rows[k] == with_tokens(old(rows)[k], id, tokens),
                forall|k: int| i <= k < rows.len() ==> #[trigger] rows[k] == old(rows)[k],
            decreases rows.len() - i,
        {
            if rows[i].id == id {
                let row = TokenizedMessage {
                    id: rows[i].id,
                    kind: rows[i].kind,
                    content: rows[i].content.clone(),
                    content_tokens: tokens.clone(),
                };
                rows.set(i, row);
            }
            i = i + 1;
        }
        assert(rows@ =~= old(rows)@.map_values(|r: TokenizedMessage| with_tokens(r, id, tokens)));
    }
}

/// Only chat messages are ever parsed.
pub proof fn only_chat_messages_are_parsed(rows: Seq<TokenizedMessage>, i: int)
    requires
        0 <= i < reparse_tasks(rows).len(),
    ensures
        exists|k: int|
            0 <= k < rows.len() && (#[trigger] rows[k]).kind == KIND_CHAT_MESSAGE && rows[k].id
                == reparse_tasks(rows)[i].id && rows[k].content == reparse_tasks(rows)[i].content,
    decreases rows.len(),
{
    let rest = rows.drop_last();
    if i < reparse_tasks(rest).len() {
        only_chat_messages_are_parsed(rest, i);
        let k = choose|k: int|
            0 <= k < rest.len() && (#[trigger] rest[k]).kind == KIND_CHAT_MESSAGE && rest[k].id
                == reparse_tasks(rest)[i].id && rest[k].content == reparse_tasks(rest)[i].content;
        assert(rows[k] == rest[k]);
    } else {
        assert(rows[rows.len() - 1].kind == KIND_CHAT_MESSAGE);
    }
}

/// The rows after the tokens of all of `tasks` were stored, where `parse`
/// tells what parsing gives.
pub open spec fn stored_all(
    rows: Seq<TokenizedMessage>,
    tasks: Seq<ReparseTask>,
    parse: spec_fn(String) -> String,
) -> Seq<TokenizedMessage>
    decreases tasks.len(),
{
    if tasks.len() == 0 {
        rows
    } else {
        stored_all(rows, tasks.drop_last(), parse).map_values(
            |r: TokenizedMessage| with_tokens(r, tasks.last().id, parse(tasks.last().content)),
        )
    }
}

/// The row as it should be once it was dealt with.
pub open spec fn reparsed(row: TokenizedMessage, parse: spec_fn(String) -> String) -> TokenizedMessage {
    if row.kind == KIND_CHAT_MESSAGE {
        TokenizedMessage { content_tokens: parse(row.content), ..row }
    } else {
        row
    }
}

/// Storing what parsing gives for every task brings every chat message up to
/// date and touches nothing else.
pub proof fn tasks_bring_chat_messages_up_to_date(
    rows: Seq<TokenizedMessage>,
    parse: spec_fn(String) -> String,
)
    requires
        forall|i: int, j: int|
            0 <= i < j < rows.len() ==> (#[trigger] rows[i]).id != (#[trigger] rows[j]).id,
    ensures
        stored_all(rows, reparse_tasks(rows), parse) == rows.map_values(
            |r: TokenizedMessage| reparsed(r, parse),
        ),
{
    let tasks = reparse_tasks(rows);
    lemma_stored_len(rows, tasks, parse);
    assert forall|k: int| 0 <= k < rows.len() implies stored_all(rows, tasks, parse)[k] == reparsed(
        rows[k],
        parse,
    ) by {
        assert forall|t: int| 0 <= t < tasks.len() && (#[trigger] tasks[t]).id == rows[k].id implies
            tasks[t].content == rows[k].content && rows[k].kind == KIND_CHAT_MESSAGE by {
            only_chat_messages_are_parsed(rows, t);
            let m = choose|m: int|
                0 <= m < rows.len() && (#[trigger] rows[m]).kind == KIND_CHAT_MESSAGE && rows[m].id
                    == tasks[t].id && rows[m].content == tasks[t].content;
            assert(m == k);
        }
        if rows[k].kind == KIND_CHAT_MESSAGE {
            lemma_chat_messages_have_tasks(rows, k);
        }
        lemma_stored_at(rows, tasks, parse, k);
    }
    assert(stored_all(rows, tasks, parse) =~= rows.map_values(
        |r: TokenizedMessage| reparsed(r, parse),
    ));
}

/// Bringing messages up to date twice is doing it once.
pub proof fn reparsing_twice_is_reparsing_once(
    row: TokenizedMessage,
    parse: spec_fn(String) -> String,
)
    ensures
        reparsed(reparsed(row, parse), parse) == reparsed(row, parse),
{
}

proof fn lemma_stored_len(
    rows: Seq<TokenizedMessage>,
    tasks: Seq<ReparseTask>,
    parse: spec_fn(String) -> String,
)
    ensures
        stored_all(rows, tasks, parse).len() == rows.len(),
    decreases tasks.len(),
{
    if tasks.len() > 0 {
        lemma_stored_len(rows, tasks.drop_last(), parse);
    }
}

/// Whether one of `tasks` is for the row numbered `id`.
spec fn has_task(tasks: Seq<ReparseTask>, id: i64) -> bool {
    exists|t: int| 0 <= t < tasks.len() && (#[trigger] tasks[t]).id == id
}

proof fn lemma_stored_at(
    rows: Seq<TokenizedMessage>,
    tasks: Seq<ReparseTask>,
    parse: spec_fn(String) -> String,
    k: int,
)
    requires
        0 <= k < rows.len(),
        forall|t: int|
            0 <= t < tasks.len() && (#[trigger] tasks[t]).id == rows[k].id ==> tasks[t].content
                == rows[k].content,
    ensures
        stored_all(rows, tasks, parse)[k] == (if has_task(tasks, rows[k].id) {
            TokenizedMessage { content_tokens: parse(rows[k].content), ..rows[k] }
        } else {
            rows[k]
        }),
    decreases tasks.len(),
{
    if tasks.len() > 0 {
        let rest = tasks.drop_last();
        assert forall|t: int| 0 <= t < rest.len() && (#[trigger] rest[t]).id == rows[k].id implies
            rest[t].content == rows[k].content by {
            assert(rest[t] == tasks[t]);
        }
        lemma_stored_at(rows, rest, parse, k);
        lemma_stored_len(rows, rest, parse);
        let last = tasks[tasks.len() - 1];
        if has_task(rest, rows[k].id) {
            let t = choose|t: int| 0 <= t < rest.len() && (#[trigger] rest[t]).id == rows[k].id;
            assert(tasks[t].id == rows[k].id);
        }
        if has_task(tasks, rows[k].id) && last.id != rows[k].id {
            let t = choose|t: int| 0 <= t < tasks.len() && (#[trigger] tasks[t]).id == rows[k].id;
            assert(rest[t].id == rows[k].id);
        }
    }
}

proof fn lemma_chat_messages_have_tasks(rows: Seq<TokenizedMessage>, k: int)
    requires
        0 <= k < rows.len(),
        rows[k].kind == KIND_CHAT_MESSAGE,
    ensures
        has_task(reparse_tasks(rows), rows[k].id),
    decreases rows.len(),
{
    let tasks = reparse_tasks(rows);
    let rest = reparse_tasks(rows.drop_last());
    if k == rows.len() - 1 {
        assert(tasks[rest.len() as int].id == rows[k].id);
    } else {
        lemma_chat_messages_have_tasks(rows.drop_last(), k);
        let t = choose|t: int| 0 <= t < rest.len() && (#[trigger] rest[t]).id == rows[k].id;
        assert(tasks[t].id == rows[k].id);
    }
}

/// A message is parsed exactly if it is of kind 9, under its number and with
/// its content, and in its place among the others.
pub proof fn messages_of_kind_nine_are_parsed(rows: Seq<TokenizedMessage>, row: TokenizedMessage)
    ensures
        reparse_tasks(Seq::empty()) == Seq::<ReparseTask>::empty(),
        row.kind != 9 ==> reparse_tasks(rows.push(row)) == reparse_tasks(rows),
        row.kind == 9 ==> {
            let before = reparse_tasks(rows);
            let after = reparse_tasks(rows.push(row));
            &&& after.len() == before.len() + 1
            &&& forall|i: int| 0 <= i < before.len() ==> #[trigger] after[i] == before[i]
            &&& after.last().id == row.id && after.last().content == row.content
        },
{
    assert(rows.push(row).drop_last() =~= rows);
}

/// New tokens go to the row with their number and change nothing else of it;
/// a row with another number stays as it is.
pub proof fn tokens_go_to_their_row(row: TokenizedMessage, id: i64, tokens: String)
    ensures
        row.id == id ==> with_tokens(row, id, tokens).content_tokens == tokens,
        row.id != id ==> with_tokens(row, id, tokens) == row,
        with_tokens(row, id, tokens).id == row.id,
        with_tokens(row, id, tokens).kind == row.kind,
        with_tokens(row, id, tokens).content == row.content,
{
}

} // verus!
