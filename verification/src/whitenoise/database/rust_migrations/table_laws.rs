//! What a move between databases brings over, and what the constraints on a
//! column let through, said of the rows and the characters themselves.

use vstd::prelude::*;

use super::table::{
    account_rows, copying_only_adds, insert_all, is_blank, is_hex_64, key_at, key_numbered, not_blank, number_at,
    number_of, only_own_rows_are_copied, rows_of, seen_text, starts_hex_64, taken, NumberedKey, Owned,
    Row,
};
use crate::whitenoise::text::first_at;

verus! {

/// A row that the constraints admit is in the table after the copy, unless a
/// row that was there before, or one that was copied before it, clashes with it.
pub proof fn a_row_goes_in_unless_refused<R: Row>(table: Seq<R>, rows: Seq<R>, k: int)
    requires
        0 <= k < rows.len(),
        rows[k].admissible(),
        forall|i: int| 0 <= i < table.len() ==> !(#[trigger] table[i]).clashes(&rows[k]),
        forall|j: int| 0 <= j < k ==> !(#[trigger] rows[j]).clashes(&rows[k]),
    ensures
        insert_all(table, rows).contains(rows[k]),
    decreases rows.len(),
{
    let rest = rows.drop_last();
    let mid = insert_all(table, rest);
    let after = insert_all(table, rows);
    if k < rest.len() {
        assert(rest[k] == rows[k]);
        assert forall|j: int| 0 <= j < k implies !(#[trigger] rest[j]).clashes(&rest[k]) by {
            assert(rest[j] == rows[j]);
        }
        a_row_goes_in_unless_refused(table, rest, k);
        let i = choose|i: int| 0 <= i < mid.len() && mid[i] == rest[k];
        assert(after[i] == mid[i]);
    } else {
        copying_only_adds(table, rest);
        assert(!taken(mid, rows[k])) by {
            if taken(mid, rows[k]) {
                let i = choose|i: int| 0 <= i < mid.len() && (#[trigger] mid[i]).clashes(&rows[k]);
                if i < table.len() {
                    assert(mid.take(table.len() as int)[i] == table[i]);
                } else {
                    let j = choose|j: int| 0 <= j < rest.len() && rest[j] == mid[i];
                    assert(rows[j] == mid[i]);
                }
            }
        }
        assert(after[mid.len() as int] == rows[k]);
    }
}

/// What a copy adds is one of the rows, meets the constraints, and clashes
/// with nothing that stands before it.
pub proof fn what_goes_in_is_admitted<R: Row>(table: Seq<R>, rows: Seq<R>, i: int)
    requires
        table.len() <= i < insert_all(table, rows).len(),
    ensures
        rows.contains(insert_all(table, rows)[i]),
        insert_all(table, rows)[i].admissible(),
        forall|j: int|
            0 <= j < i
                ==> !(#[trigger] insert_all(table, rows)[j]).clashes(&insert_all(table, rows)[i]),
    decreases rows.len(),
{
    copying_only_adds(table, rows);
    if rows.len() > 0 {
        let rest = rows.drop_last();
        let mid = insert_all(table, rest);
        let after = insert_all(table, rows);
        if i < mid.len() {
            what_goes_in_is_admitted(table, rest, i);
            assert(after[i] == mid[i]);
            assert forall|j: int| 0 <= j < i implies !(#[trigger] after[j]).clashes(&after[i]) by {
                assert(after[j] == mid[j]);
            }
        } else {
            assert forall|j: int| 0 <= j < i implies !(#[trigger] after[j]).clashes(&after[i]) by {
                assert(after[j] == mid[j]);
            }
        }
    }
}

/// What a copy finds it leaves: every row keeps its place. Without rows
/// nothing changes.
pub proof fn a_copy_changes_no_row<R: Row>(table: Seq<R>, rows: Seq<R>, i: int)
    requires
        0 <= i < table.len(),
    ensures
        insert_all(table, rows).len() >= table.len(),
        insert_all(table, rows)[i] == table[i],
        insert_all(table, Seq::empty()) == table,
{
    copying_only_adds(table, rows);
    assert(insert_all(table, rows).take(table.len() as int)[i] == table[i]);
}

/// The rows of an account are those that bear its key, in the order in which
/// they stand.
pub proof fn an_account_has_the_rows_with_its_key<R>(
    shared: Seq<Owned<R>>,
    owned: Owned<R>,
    account: Seq<char>,
)
    ensures
        account_rows(Seq::<Owned<R>>::empty(), account) == Seq::<R>::empty(),
        owned.account_pubkey is Some && owned.account_pubkey->0@ == account ==> account_rows(
            shared.push(owned),
            account,
        ) == account_rows(shared, account).push(owned.row),
        owned.account_pubkey is None || owned.account_pubkey->0@ != account ==> account_rows(
            shared.push(owned),
            account,
        ) == account_rows(shared, account),
{
    assert(shared.push(owned).drop_last() =~= shared);
}

/// A shared table that does not exist has no rows.
pub proof fn a_missing_table_has_no_rows<R>(shared: Option<Vec<Owned<R>>>)
    ensures
        shared is None ==> rows_of(shared).len() == 0,
        shared is Some ==> rows_of(shared) == shared->0@,
{
}

/// One of the first `k` rows bears the account's key and is `row`.
spec fn own_before<R>(shared: Seq<Owned<R>>, account: Seq<char>, k: int, row: R) -> bool {
    exists|j: int|
        0 <= j < k && (#[trigger] shared[j]).account_pubkey is Some && shared[j].account_pubkey->0@
            == account
            && shared[j].row == row
}

proof fn lemma_own_row_position<R>(shared: Seq<Owned<R>>, account: Seq<char>, k: int) -> (at: int)
    requires
        0 <= k < shared.len(),
        shared[k].account_pubkey is Some,
        shared[k].account_pubkey->0@ == account,
    ensures
        0 <= at < account_rows(shared, account).len(),
        account_rows(shared, account)[at] == shared[k].row,
        forall|i: int|
            0 <= i < at
                ==> own_before(shared, account, k, #[trigger] account_rows(shared, account)[i]),
    decreases shared.len(),
{
    let rest = shared.drop_last();
    let mine = account_rows(rest, account);
    let all = account_rows(shared, account);
    if k < rest.len() {
        assert(rest[k] == shared[k]);
        let at = lemma_own_row_position(rest, account, k);
        assert forall|i: int| 0 <= i < at implies own_before(shared, account, k, #[trigger] all[i]) by {
            assert(all[i] == mine[i]);
            let j = choose|j: int|
                0 <= j < k && (#[trigger] rest[j]).account_pubkey is Some
                    && rest[j].account_pubkey->0@
                    == account && rest[j].row == mine[i];
            assert(shared[j] == rest[j]);
        }
        at
    } else {
        assert forall|i: int| 0 <= i < mine.len() implies own_before(shared, account, k, #[trigger] all[i]) by {
            only_own_rows_are_copied(rest, account, i);
            let j = choose|j: int|
                0 <= j < rest.len() && (#[trigger] rest[j]).belongs_to(account) && rest[j].row
                    == mine[i];
            assert(shared[j] == rest[j]);
            assert(all[i] == mine[i]);
        }
        mine.len() as int
    }
}

/// A row of the shared table that bears the account's key and that the
/// constraints admit is in the account's table after the move, unless a row
/// that was there before, or an earlier row of the account, clashes with it.
pub proof fn an_own_row_goes_in_unless_refused<R: Row>(
    shared: Option<Vec<Owned<R>>>,
    account: Seq<char>,
    local: Seq<R>,
    k: int,
)
    requires
        shared is Some,
        0 <= k < shared->0@.len(),
        shared->0@[k].account_pubkey is Some,
        shared->0@[k].account_pubkey->0@ == account,
        shared->0@[k].row.admissible(),
        forall|i: int| 0 <= i < local.len() ==> !(#[trigger] local[i]).clashes(&shared->0@[k].row),
        forall|j: int|
            0 <= j < k && (#[trigger] shared->0@[j]).account_pubkey is Some
                && shared->0@[j].account_pubkey->0@ == account ==> !shared->0@[j].row.clashes(
                &shared->0@[k].row,
            ),
    ensures
        insert_all(local, account_rows(rows_of(shared), account)).contains(shared->0@[k].row),
{
    let rows = account_rows(rows_of(shared), account);
    let at = lemma_own_row_position(shared->0@, account, k);
    assert forall|i: int| 0 <= i < at implies !(#[trigger] rows[i]).clashes(&rows[at]) by {
        let j = choose|j: int|
            0 <= j < k && (#[trigger] shared->0@[j]).account_pubkey is Some
                && shared->0@[j].account_pubkey->0@ == account && shared->0@[j].row == rows[i];
        assert(!shared->0@[j].row.clashes(&shared->0@[k].row));
    }
    a_row_goes_in_unless_refused(local, rows, at);
}

/// A row that a move added is a row of the shared table that bears the
/// account's key, meets the constraints, and clashes with nothing before it.
pub proof fn an_added_row_is_an_own_row<R: Row>(
    shared: Option<Vec<Owned<R>>>,
    account: Seq<char>,
    local: Seq<R>,
    i: int,
)
    requires
        local.len() <= i < insert_all(local, account_rows(rows_of(shared), account)).len(),
    ensures
        shared is Some,
        exists|k: int|
            0 <= k < shared->0@.len() && (#[trigger] shared->0@[k]).account_pubkey is Some
                && shared->0@[k].account_pubkey->0@ == account && shared->0@[k].row == insert_all(
                local,
                account_rows(rows_of(shared), account),
            )[i],
        insert_all(local, account_rows(rows_of(shared), account))[i].admissible(),
        forall|j: int|
            0 <= j < i
                ==> !(#[trigger] insert_all(local, account_rows(rows_of(shared), account))[j]).clashes(
                &insert_all(local, account_rows(rows_of(shared), account))[i],
            ),
{
    let rows = account_rows(rows_of(shared), account);
    let after = insert_all(local, rows);
    what_goes_in_is_admitted(local, rows, i);
    let at = choose|at: int| 0 <= at < rows.len() && rows[at] == after[i];
    only_own_rows_are_copied(rows_of(shared), account, at);
    let k = choose|k: int|
        0 <= k < rows_of(shared).len() && (#[trigger] rows_of(shared)[k]).belongs_to(account)
            && rows_of(shared)[k].row == rows[at];
    assert(shared is Some);
    assert(shared->0@[k].row == after[i]);
}

/// The constraints on a text look at it up to its first NUL. A column of 64
/// hexadecimal digits takes 64 digits of either case and then nothing more; a
/// column that is checked by its length and first digit takes any 64
/// characters after a digit; and a column that may not be blank takes what
/// holds a character that is no space, tab or line break.
pub proof fn text_constraints_read_to_the_first_nul(text: Seq<char>)
    ensures
        is_hex_64(text) <==> text.len() >= 64 && (text.len() == 64 || text[64] == '\0')
            && forall|n: int|
            0 <= n < 64 ==> ('0' <= #[trigger] text[n] <= '9' || 'a' <= text[n] <= 'f'
                || 'A' <= text[n]
                <= 'F'),
        starts_hex_64(text) <==> text.len() >= 64 && (text.len() == 64 || text[64] == '\0') && (
        forall|n: int| 0 <= n < 64 ==> #[trigger] text[n] != '\0') && ('0' <= text[0] <= '9' || 'a'
            <= text[0] <= 'f' || 'A' <= text[0] <= 'F'),
        not_blank(text) <==> exists|n: int|
            0 <= n < text.len() && #[trigger] text[n] != ' ' && text[n] != '\t' && text[n] != '\n'
                && text[n] != '\r' && forall|m: int| 0 <= m <= n ==> #[trigger] text[m] != '\0',
{
    let seen = seen_text(text);
    if exists|at: int| first_at(text, '\0', at) {
        let at = choose|at: int| first_at(text, '\0', at);
        assert(first_at(text, '\0', at));
        assert(seen == text.take(at));
        assert forall|n: int| 0 <= n < at implies seen[n] == #[trigger] text[n]
            && text[n] != '\0' by {}
        assert(text[at] == '\0');
    } else {
        assert forall|n: int| 0 <= n < text.len() implies #[trigger] text[n] != '\0' by {
            if text[n] == '\0' {
                let first = lemma_first_nul(text, n);
                assert(first_at(text, '\0', first));
            }
        }
        assert(seen == text);
    }
    if is_hex_64(text) {
        assert forall|n: int| 0 <= n < 64 implies ('0' <= #[trigger] text[n] <= '9'
            || 'a' <= text[n]
            <= 'f' || 'A' <= text[n] <= 'F') by {
            assert(seen[n] == text[n]);
        }
    }
    if starts_hex_64(text) {
        assert(seen[0] == text[0]);
    }
    if not_blank(text) {
        let n = choose|n: int|
            0 <= n < seen.len() && !is_blank(#[trigger] seen[n]);
        assert(seen[n] == text[n]);
    }
    if exists|n: int|
        0 <= n < text.len() && #[trigger] text[n] != ' ' && text[n] != '\t' && text[n] != '\n'
            && text[n]
            != '\r' && forall|m: int| 0 <= m <= n ==> #[trigger] text[m] != '\0' {
        let n = choose|n: int|
            0 <= n < text.len() && #[trigger] text[n] != ' ' && text[n] != '\t' && text[n] != '\n'
                && text[n] != '\r' && forall|m: int| 0 <= m <= n ==> #[trigger] text[m] != '\0';
        assert(n < seen.len());
        assert(!is_blank(seen[n]));
    }
}

proof fn lemma_first_nul(text: Seq<char>, n: int) -> (first: int)
    requires
        0 <= n < text.len(),
        text[n] == '\0',
    ensures
        first_at(text, '\0', first),
    decreases n,
{
    if exists|m: int| 0 <= m < n && text[m] == '\0' {
        let m = choose|m: int| 0 <= m < n && text[m] == '\0';
        lemma_first_nul(text, m)
    } else {
        n
    }
}

/// A number stands for the key of the first entry that bears it, and a key
/// for the number of the first entry that holds it; without such an entry
/// there is none.
pub proof fn the_first_entry_names_a_key(keys: Seq<NumberedKey>, id: i64, pubkey: Seq<char>, at: int)
    ensures
        0 <= at < keys.len() && keys[at].id == id && (forall|i: int|
            0 <= i < at ==> (#[trigger] keys[i]).id != id) ==> key_numbered(keys, id) == Some(
            keys[at].pubkey,
        ),
        (forall|i: int| 0 <= i < keys.len() ==> (#[trigger] keys[i]).id != id)
            ==> key_numbered(keys, id) is None,
        0 <= at < keys.len() && keys[at].pubkey@ == pubkey && (forall|i: int|
            0 <= i < at ==> (#[trigger] keys[i]).pubkey@ != pubkey) ==> number_of(keys, pubkey)
                == Some(
            keys[at].id,
        ),
        (forall|i: int| 0 <= i < keys.len() ==> (#[trigger] keys[i]).pubkey@ != pubkey)
            ==> number_of(
            keys,
            pubkey,
        ) is None,
{
    if key_at(keys, id, at) {
        let found = choose|k: int| key_at(keys, id, k);
        assert(key_at(keys, id, found));
        if found < at {
            assert(keys[found].id != id);
        } else if at < found {
            assert(keys[at].id != id);
        }
    }
    if number_at(keys, pubkey, at) {
        let found = choose|k: int| number_at(keys, pubkey, k);
        assert(number_at(keys, pubkey, found));
        if found < at {
            assert(keys[found].pubkey@ != pubkey);
        } else if at < found {
            assert(keys[at].pubkey@ != pubkey);
        }
    }
}

} // verus!
