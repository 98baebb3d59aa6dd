//! Rows on their way from the shared database into an account's own.
//!
//! The moves between databases all follow one rule: take the account's rows
//! from the shared table in order and insert each of them, unless the
//! account's table already holds a row that it clashes with or its
//! constraints refuse the row.

use vstd::prelude::*;
use vstd::string::StrSliceExecFns;

use crate::whitenoise::text::{find_char, first_at, same_text};

verus! {

/// A row of a per-account table.
pub trait Row: Sized {
    /// Whether the table's uniqueness rules keep the two rows apart.
    spec fn clashes(&self, other: &Self) -> bool;

    /// Whether the row meets the table's other constraints.
    spec fn admissible(&self) -> bool;

    fn clashes_with(&self, other: &Self) -> (r: bool)
        ensures
            r == self.clashes(other),
    ;

    fn is_admissible(&self) -> (r: bool)
        ensures
            r == self.admissible(),
    ;
}

/// A row of a shared table, and the account that owns it.
pub struct Owned<R> {
    /// The owner's public key in hexadecimal; none for a row of no account.
    pub account_pubkey: Option<String>,
    pub row: R,
}

impl<R> Owned<R> {
    pub open spec fn belongs_to(self, account: Seq<char>) -> bool {
        self.account_pubkey matches Some(owner) && owner@ == account
    }
}

/// Whether `table` holds a row that clashes with `row`.
pub open spec fn taken<R: Row>(table: Seq<R>, row: R) -> bool {
    exists|i: int| 0 <= i < table.len() && (#[trigger] table[i]).clashes(&row)
}

/// `table` after an attempt to insert `row`.
pub open spec fn insert_or_ignore<R: Row>(table: Seq<R>, row: R) -> Seq<R> {
    if row.admissible() && !taken(table, row) {
        table.push(row)
    } else {
        table
    }
}

/// `table` after attempts to insert all of `rows`, in order.
pub open spec fn insert_all<R: Row>(table: Seq<R>, rows: Seq<R>) -> Seq<R>
    decreases rows.len(),
{
    if rows.len() == 0 {
        table
    } else {
        insert_or_ignore(insert_all(table, rows.drop_last()), rows.last())
    }
}

/// The rows of `account` in a shared table, in order.
pub open spec fn account_rows<R>(shared: Seq<Owned<R>>, account: Seq<char>) -> Seq<R>
    decreases shared.len(),
{
    if shared.len() == 0 {
        Seq::empty()
    } else {
        let rest = account_rows(shared.drop_last(), account);
        if shared.last().belongs_to(account) {
            rest.push(shared.last().row)
        } else {
            rest
        }
    }
}

/// The rows of a shared table that may be missing.
pub open spec fn rows_of<R>(shared: Option<Vec<Owned<R>>>) -> Seq<Owned<R>> {
    match shared {
        Some(rows) => rows@,
        None => Seq::empty(),
    }
}

/// Inserts `row` unless the table refuses it; says whether it went in.
pub fn try_insert<R: Row>(table: &mut Vec<R>, row: R) -> (inserted: bool)
    ensures
        final(table)@ == insert_or_ignore(old(table)@, row),
        inserted == (row.admissible() && !taken(old(table)@, row)),
{
    if !row.is_admissible() {
        return false;
    }
    let mut i: usize = 0;
    while i < table.len()
        invariant
            *table == *old(table),
            i <= table.len(),
            forall|k: int| 0 <= k < i ==> !(#[trigger] table[k]).clashes(&row),
        decreases table.len() - i,
    {
        if table[i].clashes_with(&row) {
            return false;
        }
        i = i + 1;
    }
    table.push(row);
    true
}

/// Inserts all of `rows` in order; says how many went in.
pub fn try_insert_all<R: Row>(table: &mut Vec<R>, rows: Vec<R>) -> (inserted: usize)
    ensures
        final(table)@ == insert_all(old(table)@, rows@),
        inserted == final(table).len() - old(table).len(),
{
    let before: usize = table.len();
    let ghost all = rows@;
    assert(all.take(0) =~= Seq::empty());
    for row in it: rows
        invariant
            it.seq() == all,
            before == old(table).len() <= table.len(),
            table@ == insert_all(old(table)@, all.take(it.index())),
    {
        assert(all.take(it.index() + 1).drop_last() =~= all.take(it.index()));
        try_insert(table, row);
    }
    assert(all.take(all.len() as int) =~= all);
    table.len() - before
}

/// Copies the rows of `account` into its own table, in order. A shared table
/// that does not exist has nothing to copy. Says how many rows went in.
pub fn copy_account_rows<R: Row>(
    shared: Option<Vec<Owned<R>>>,
    account: &str,
    local: &mut Vec<R>,
) -> (copied: usize)
    ensures
        final(local)@ == insert_all(old(local)@, account_rows(rows_of(shared), account@)),
        copied == final(local).len() - old(local).len(),
{
    match shared {
        None => 0,
        Some(rows) => {
            let mine = select_account_rows(rows, account);
            try_insert_all(local, mine)
        },
    }
}

/// The rows of `account`, in order.
pub fn select_account_rows<R>(shared: Vec<Owned<R>>, account: &str) -> (mine: Vec<R>)
    ensures
        mine@ == account_rows(shared@, account@),
{
    let mut mine: Vec<R> = Vec::new();
    let ghost all = shared@;
    assert(all.take(0) =~= Seq::empty());
    for owned in it: shared
        invariant
            it.seq() == all,
            mine@ == account_rows(all.take(it.index()), account@),
    {
        assert(all.take(it.index() + 1).drop_last() =~= all.take(it.index()));
        if let Some(owner) = &owned.account_pubkey {
            if same_text(owner.as_str(), account) {
                mine.push(owned.row);
            }
        }
    }
    assert(all.take(all.len() as int) =~= all);
    mine
}

// ---------------------------------------------------------------------------
// Constraints on column values
// ---------------------------------------------------------------------------

pub open spec fn is_hex_digit(c: char) -> bool {
    ('0' <= c && c <= '9') || ('a' <= c && c <= 'f') || ('A' <= c && c <= 'F')
}

/// What the text functions of SQLite see of a text: it ends for them at its
/// first NUL.
pub open spec fn seen_text(text: Seq<char>) -> Seq<char> {
    if exists|at: int| first_at(text, '\0', at) {
        text.take(choose|at: int| first_at(text, '\0', at))
    } else {
        text
    }
}

/// Up to its first NUL: 64 characters, all of them hexadecimal digits.
pub open spec fn is_hex_64(text: Seq<char>) -> bool {
    seen_text(text).len() == 64 && forall|i: int|
        0 <= i < 64 ==> is_hex_digit(#[trigger] seen_text(text)[i])
}

/// Up to its first NUL: 64 characters of which the first is a hexadecimal digit.
pub open spec fn starts_hex_64(text: Seq<char>) -> bool {
    seen_text(text).len() == 64 && is_hex_digit(seen_text(text)[0])
}

/// A space, a tab or a line break.
pub open spec fn is_blank(c: char) -> bool {
    c == ' ' || c == '\t' || c == '\n' || c == '\r'
}

/// Something is left of the text up to its first NUL once blanks are trimmed
/// off both ends.
pub open spec fn not_blank(text: Seq<char>) -> bool {
    exists|i: int| 0 <= i < seen_text(text).len() && !is_blank(#[trigger] seen_text(text)[i])
}

fn hex_digit(c: char) -> (r: bool)
    ensures
        r == is_hex_digit(c),
{
    ('0' <= c && c <= '9') || ('a' <= c && c <= 'f') || ('A' <= c && c <= 'F')
}

/// How many characters of a text the text functions of SQLite see.
fn seen_len(text: &str) -> (n: usize)
    ensures
        n <= text@.len(),
        text@.take(n as int) == seen_text(text@),
{
    match find_char(text, '\0') {
        Some(at) => {
            proof {
                let other = choose|other: int| first_at(text@, '\0', other);
                assert(first_at(text@, '\0', other));
                if other < at {
                    assert(text@[other] != '\0');
                } else if at < other {
                    assert(text@[at as int] != '\0');
                }
            }
            at
        },
        None => {
            assert forall|at: int| !first_at(text@, '\0', at) by {
                if first_at(text@, '\0', at) {
                    assert(text@[at] == '\0');
                }
            }
            assert(text@.take(text@.len() as int) =~= text@);
            text.unicode_len()
        },
    }
}

pub fn check_hex_64(text: &str) -> (r: bool)
    ensures
        r == is_hex_64(text@),
{
    if seen_len(text) != 64 {
        return false;
    }
    let ghost seen = seen_text(text@);
    let mut i: usize = 0;
    while i < 64
        invariant
            i <= 64 <= text@.len(),
            seen == seen_text(text@),
            seen == text@.take(64),
            forall|k: int| 0 <= k < i ==> is_hex_digit(#[trigger] seen[k]),
        decreases 64 - i,
    {
        assert(seen[i as int] == text@[i as int]);
        if !hex_digit(text.get_char(i)) {
            return false;
        }
        i = i + 1;
    }
    true
}

pub fn check_starts_hex_64(text: &str) -> (r: bool)
    ensures
        r == starts_hex_64(text@),
{
    seen_len(text) == 64 && hex_digit(text.get_char(0))
}

pub fn check_not_blank(text: &str) -> (r: bool)
    ensures
        r == not_blank(text@),
{
    let n: usize = seen_len(text);
    let ghost seen = seen_text(text@);
    let mut i: usize = 0;
    while i < n
        invariant
            i <= n <= text@.len(),
            seen == seen_text(text@),
            seen == text@.take(n as int),
            forall|k: int| 0 <= k < i ==> is_blank(#[trigger] seen[k]),
        decreases n - i,
    {
        assert(seen[i as int] == text@[i as int]);
        let c = text.get_char(i);
        if !(c == ' ' || c == '\t' || c == '\n' || c == '\r') {
            assert(!is_blank(seen[i as int]));
            return true;
        }
        i = i + 1;
    }
    false
}

/// Null, or [`is_hex_64`].
pub open spec fn null_or_hex_64(text: Option<String>) -> bool {
    text matches Some(t) ==> is_hex_64(t@)
}

/// Null, or [`starts_hex_64`].
pub open spec fn null_or_starts_hex_64(text: Option<String>) -> bool {
    text matches Some(t) ==> starts_hex_64(t@)
}

pub fn check_null_or_hex_64(text: &Option<String>) -> (r: bool)
    ensures
        r == null_or_hex_64(*text),
{
    match text {
        Some(t) => check_hex_64(t.as_str()),
        None => true,
    }
}

pub fn check_null_or_starts_hex_64(text: &Option<String>) -> (r: bool)
    ensures
        r == null_or_starts_hex_64(*text),
{
    match text {
        Some(t) => check_starts_hex_64(t.as_str()),
        None => true,
    }
}

// ---------------------------------------------------------------------------
// Accounts and users by number
// ---------------------------------------------------------------------------

/// The number under which a table knows a public key.
#[derive(Debug)]
pub struct NumberedKey {
    pub id: i64,
    /// The key in hexadecimal.
    pub pubkey: String,
}

/// `at` is the position of the first key numbered `id`.
pub open spec fn key_at(keys: Seq<NumberedKey>, id: i64, at: int) -> bool {
    0 <= at < keys.len() && keys[at].id == id && forall|i: int| 0 <= i < at ==> (#[trigger] keys[i]).id != id
}

/// The key numbered `id`.
pub open spec fn key_numbered(keys: Seq<NumberedKey>, id: i64) -> Option<String> {
    if exists|at: int| key_at(keys, id, at) {
        Some(keys[choose|at: int| key_at(keys, id, at)].pubkey)
    } else {
        None
    }
}

pub fn find_key(keys: &Vec<NumberedKey>, id: i64) -> (key: Option<String>)
    ensures
        key == key_numbered(keys@, id),
{
    let mut i: usize = 0;
    while i < keys.len()
        invariant
            i <= keys.len(),
            forall|k: int| 0 <= k < i ==> (#[trigger] keys[k]).id != id,
        decreases keys.len() - i,
    {
        if keys[i].id == id {
            proof {
                assert(key_at(keys@, id, i as int));
                let at = choose|at: int| key_at(keys@, id, at);
                assert(key_at(keys@, id, at));
                assert(at == i) by {
                    if at < i {
                        assert(keys@[at].id != id);
                    } else if i < at {
                        assert(keys@[i as int].id != id);
                    }
                }
            }
            return Some(keys[i].pubkey.clone());
        }
        i = i + 1;
    }
    assert(forall|at: int| !key_at(keys@, id, at));
    None
}

/// `at` is the position of the first entry with the public key `pubkey`.
pub open spec fn number_at(keys: Seq<NumberedKey>, pubkey: Seq<char>, at: int) -> bool {
    0 <= at < keys.len() && keys[at].pubkey@ == pubkey && forall|i: int|
        0 <= i < at ==> (#[trigger] keys[i]).pubkey@ != pubkey
}

/// The number of the public key `pubkey`.
pub open spec fn number_of(keys: Seq<NumberedKey>, pubkey: Seq<char>) -> Option<i64> {
    if exists|at: int| number_at(keys, pubkey, at) {
        Some(keys[choose|at: int| number_at(keys, pubkey, at)].id)
    } else {
        None
    }
}

pub fn find_number(keys: &Vec<NumberedKey>, pubkey: &str) -> (id: Option<i64>)
    ensures
        id == number_of(keys@, pubkey@),
{
    let mut i: usize = 0;
    while i < keys.len()
        invariant
            i <= keys.len(),
            forall|k: int| 0 <= k < i ==> (#[trigger] keys[k]).pubkey@ != pubkey@,
        decreases keys.len() - i,
    {
        if same_text(keys[i].pubkey.as_str(), pubkey) {
            proof {
                assert(number_at(keys@, pubkey@, i as int));
                let at = choose|at: int| number_at(keys@, pubkey@, at);
                assert(number_at(keys@, pubkey@, at));
                assert(at == i) by {
                    if at < i {
                        assert(keys@[at].pubkey@ != pubkey@);
                    } else if i < at {
                        assert(keys@[i as int].pubkey@ != pubkey@);
                    }
                }
            }
            return Some(keys[i].id);
        }
        i = i + 1;
    }
    assert(forall|at: int| !number_at(keys@, pubkey@, at));
    None
}

// ---------------------------------------------------------------------------
// What every copy keeps
// ---------------------------------------------------------------------------

/// Rows that are there stay there, in place, and what is added comes from `rows`.
pub proof fn copying_only_adds<R: Row>(table: Seq<R>, rows: Seq<R>)
    ensures
        insert_all(table, rows).len() >= table.len(),
        insert_all(table, rows).take(table.len() as int) == table,
        forall|i: int|
            table.len() <= i < insert_all(table, rows).len() ==> rows.contains(
                #[trigger] insert_all(table, rows)[i],
            ) && insert_all(table, rows)[i].admissible(),
    decreases rows.len(),
{
    if rows.len() == 0 {
        assert(table.take(table.len() as int) =~= table);
    } else {
        let rest = rows.drop_last();
        copying_only_adds(table, rest);
        let mid = insert_all(table, rest);
        let after = insert_all(table, rows);
        assert(after.take(table.len() as int) =~= mid.take(table.len() as int));
        assert forall|i: int| table.len() <= i < after.len() implies rows.contains(
            #[trigger] after[i],
        ) && after[i].admissible() by {
            if i < mid.len() {
                assert(after[i] == mid[i]);
                let k = choose|k: int| 0 <= k < rest.len() && rest[k] == mid[i];
                assert(rows[k] == mid[i]);
            } else {
                assert(rows[rows.len() - 1] == after[i]);
            }
        }
    }
}

/// No two rows of `table` clash.
pub open spec fn rows_apart<R: Row>(table: Seq<R>) -> bool {
    forall|i: int, j: int|
        #![trigger table[i], table[j]]
        0 <= i < j < table.len() ==> !table[i].clashes(&table[j])
}

/// Uniqueness survives a copy.
pub proof fn copying_keeps_rows_apart<R: Row>(table: Seq<R>, rows: Seq<R>)
    requires
        rows_apart(table),
    ensures
        rows_apart(insert_all(table, rows)),
    decreases rows.len(),
{
    if rows.len() > 0 {
        copying_keeps_rows_apart(table, rows.drop_last());
    }
}

/// After a copy every row that the constraints admit clashes with a row of
/// the table, itself perhaps: nothing that could go in was left out.
proof fn lemma_all_placed<R: Row>(table: Seq<R>, rows: Seq<R>)
    requires
        forall|r: R| #[trigger] r.clashes(&r),
    ensures
        forall|k: int|
            0 <= k < rows.len() && (#[trigger] rows[k]).admissible() ==> taken(
                insert_all(table, rows),
                rows[k],
            ),
    decreases rows.len(),
{
    if rows.len() > 0 {
        let rest = rows.drop_last();
        lemma_all_placed(table, rest);
        let mid = insert_all(table, rest);
        let after = insert_all(table, rows);
        assert forall|k: int| 0 <= k < rows.len() && (#[trigger] rows[k]).admissible() implies taken(
            after,
            rows[k],
        ) by {
            if k < rest.len() {
                assert(rest[k] == rows[k]);
                let i = choose|i: int| 0 <= i < mid.len() && (#[trigger] mid[i]).clashes(&rows[k]);
                assert(after[i] == mid[i]);
            } else {
                if taken(mid, rows[k]) {
                    let i = choose|i: int| 0 <= i < mid.len() && (#[trigger] mid[i]).clashes(&rows[k]);
                    assert(after[i] == mid[i]);
                } else {
                    assert(after[mid.len() as int] == rows[k]);
                    assert(rows[k].clashes(&rows[k]));
                }
            }
        }
    }
}

proof fn lemma_nothing_to_place<R: Row>(table: Seq<R>, rows: Seq<R>)
    requires
        forall|k: int| 0 <= k < rows.len() && (#[trigger] rows[k]).admissible() ==> taken(table, rows[k]),
    ensures
        insert_all(table, rows) == table,
    decreases rows.len(),
{
    if rows.len() > 0 {
        let rest = rows.drop_last();
        assert forall|k: int| 0 <= k < rest.len() && (#[trigger] rest[k]).admissible() implies taken(
            table,
            rest[k],
        ) by {
            assert(rest[k] == rows[k]);
        }
        lemma_nothing_to_place(table, rest);
        assert(rows.last() == rows[rows.len() - 1]);
    }
}

/// Copying twice is copying once, in any table that keeps a row apart from
/// its own copy.
pub proof fn copying_twice_is_copying_once<R: Row>(table: Seq<R>, rows: Seq<R>)
    requires
        forall|r: R| #[trigger] r.clashes(&r),
    ensures
        insert_all(insert_all(table, rows), rows) == insert_all(table, rows),
{
    lemma_all_placed(table, rows);
    lemma_nothing_to_place(insert_all(table, rows), rows);
}

/// Only the account's own rows are ever copied.
pub proof fn only_own_rows_are_copied<R>(shared: Seq<Owned<R>>, account: Seq<char>, i: int)
    requires
        0 <= i < account_rows(shared, account).len(),
    ensures
        exists|k: int|
            0 <= k < shared.len() && (#[trigger] shared[k]).belongs_to(account) && shared[k].row
                == account_rows(shared, account)[i],
    decreases shared.len(),
{
    let rest = shared.drop_last();
    if i < account_rows(rest, account).len() {
        only_own_rows_are_copied(rest, account, i);
        let k = choose|k: int|
            0 <= k < rest.len() && (#[trigger] rest[k]).belongs_to(account) && rest[k].row
                == account_rows(rest, account)[i];
        assert(shared[k] == rest[k]);
    } else {
        assert(shared[shared.len() - 1].belongs_to(account));
    }
}

} // verus!
