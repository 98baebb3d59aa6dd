//! Which rows each move between databases brings over, said of the columns.

use vstd::prelude::*;

use super::m0015_move_account_settings::AccountSettingsRow;
use super::m0016_move_drafts::DraftRow;
use super::m0017_move_published_key_packages::PublishedKeyPackageRow;
use super::m0018_move_published_events::PublishedEventRow;
use super::m0019_move_processed_events::ProcessedEventRow;
use super::m0029_move_media_references::MediaReferenceRow;
use super::m0032_move_push_registrations::PushRegistrationRow;
use super::m0034_move_group_push_tokens::GroupPushTokenRow;
use super::m0036_move_accounts_groups::AccountGroupRow;
use super::m0042_move_mute_list::MuteListRow;
use super::m0022_move_account_follows::{account_follows, follows_of, FollowRow, NumberedFollow};
use super::m0038_move_aggregated_messages::{
    group_views, messages_of, messages_of_all, shared_messages, AggregatedMessageRow,
};
use super::m0039_move_message_delivery_status::{
    rows_with_parent, shared_rows, DeliveryStatusRow, MessageKey,
};
use super::table::{account_rows, insert_all, key_at, key_numbered, number_at, rows_of, NumberedKey, Owned, Row};
use super::table_laws::{
    a_row_goes_in_unless_refused, an_added_row_is_an_own_row, an_own_row_goes_in_unless_refused,
    text_constraints_read_to_the_first_nul, the_first_entry_names_a_key, what_goes_in_is_admitted,
};

verus! {

/// A draft of the account whose reply, if it has one, names a message by 64
/// hexadecimal digits is brought over, unless a row of the same group was in
/// the account's table before or comes before it.
pub proof fn own_drafts_are_brought_over(
    shared: Option<Vec<Owned<DraftRow>>>,
    account: Seq<char>,
    local: Seq<DraftRow>,
    k: int,
)
    requires
        shared is Some,
        0 <= k < shared->0@.len(),
        shared->0@[k].account_pubkey is Some,
        shared->0@[k].account_pubkey->0@ == account,
        (shared->0@[k].row.reply_to_id is Some ==> (shared->0@[k].row.reply_to_id->0@.len() >= 64)
            && ((shared->0@[k].row.reply_to_id->0@.len() == 64
            || shared->0@[k].row.reply_to_id->0@[64] == '\0')) && (forall|n: int| 0 <= n < 64
            ==> ('0' <= #[trigger] shared->0@[k].row.reply_to_id->0@[n] <= '9'
            || 'a' <= shared->0@[k].row.reply_to_id->0@[n] <= 'f'
            || 'A' <= shared->0@[k].row.reply_to_id->0@[n] <= 'F'))),
        forall|i: int| 0 <= i < local.len() ==> !((#[trigger] local[i]).mls_group_id@
            == shared->0@[k].row.mls_group_id@),
        forall|j: int|
            0 <= j < k && (#[trigger] shared->0@[j]).account_pubkey is Some
                && shared->0@[j].account_pubkey->0@ == account
                    ==> !(shared->0@[j].row.mls_group_id@ == shared->0@[k].row.mls_group_id@),
    ensures
        insert_all(local, account_rows(rows_of(shared), account)).contains(shared->0@[k].row),
{
    text_constraints_read_to_the_first_nul(shared->0@[k].row.reply_to_id->0@);
    an_own_row_goes_in_unless_refused(shared, account, local, k);
}

/// What the move adds is a row of the account whose reply, if it has one, names
/// a message by 64 hexadecimal digits, and no row of the same group stands
/// before it.
pub proof fn only_own_drafts_are_brought_over(
    shared: Option<Vec<Owned<DraftRow>>>,
    account: Seq<char>,
    local: Seq<DraftRow>,
    i: int,
)
    requires
        local.len() <= i < insert_all(local, account_rows(rows_of(shared), account)).len(),
    ensures
        ({
            let after = insert_all(local, account_rows(rows_of(shared), account));
            &&& shared is Some
            &&& exists|k: int|
                0 <= k < shared->0@.len() && (#[trigger] shared->0@[k]).account_pubkey is Some
                    && shared->0@[k].account_pubkey->0@ == account && shared->0@[k].row == after[i]
            &&& (after[i].reply_to_id is Some ==> (after[i].reply_to_id->0@.len() >= 64)
                && ((after[i].reply_to_id->0@.len() == 64 || after[i].reply_to_id->0@[64] == '\0'))
                && (forall|n: int| 0 <= n < 64
                ==> ('0' <= #[trigger] after[i].reply_to_id->0@[n] <= '9'
                || 'a' <= after[i].reply_to_id->0@[n] <= 'f'
                || 'A' <= after[i].reply_to_id->0@[n] <= 'F')))
            &&& forall|j: int| 0 <= j < i ==> !((#[trigger] after[j]).mls_group_id@
                == after[i].mls_group_id@)
        }),
{
    let after = insert_all(local, account_rows(rows_of(shared), account));
    text_constraints_read_to_the_first_nul(after[i].reply_to_id->0@);
    an_added_row_is_an_own_row(shared, account, local, i);
}

/// A published key package of the account is brought over, unless a row of the
/// same event was in the account's table before or comes before it.
pub proof fn own_key_packages_are_brought_over(
    shared: Option<Vec<Owned<PublishedKeyPackageRow>>>,
    account: Seq<char>,
    local: Seq<PublishedKeyPackageRow>,
    k: int,
)
    requires
        shared is Some,
        0 <= k < shared->0@.len(),
        shared->0@[k].account_pubkey is Some,
        shared->0@[k].account_pubkey->0@ == account,
        forall|i: int| 0 <= i < local.len() ==> !((#[trigger] local[i]).event_id@
            == shared->0@[k].row.event_id@),
        forall|j: int|
            0 <= j < k && (#[trigger] shared->0@[j]).account_pubkey is Some
                && shared->0@[j].account_pubkey->0@ == account ==> !(shared->0@[j].row.event_id@
                    == shared->0@[k].row.event_id@),
    ensures
        insert_all(local, account_rows(rows_of(shared), account)).contains(shared->0@[k].row),
{
    an_own_row_goes_in_unless_refused(shared, account, local, k);
}

/// What the move adds is a row of the account, and no row of the same event
/// stands before it.
pub proof fn only_own_key_packages_are_brought_over(
    shared: Option<Vec<Owned<PublishedKeyPackageRow>>>,
    account: Seq<char>,
    local: Seq<PublishedKeyPackageRow>,
    i: int,
)
    requires
        local.len() <= i < insert_all(local, account_rows(rows_of(shared), account)).len(),
    ensures
        ({
            let after = insert_all(local, account_rows(rows_of(shared), account));
            &&& shared is Some
            &&& exists|k: int|
                0 <= k < shared->0@.len() && (#[trigger] shared->0@[k]).account_pubkey is Some
                    && shared->0@[k].account_pubkey->0@ == account && shared->0@[k].row == after[i]
            &&& forall|j: int| 0 <= j < i ==> !((#[trigger] after[j]).event_id@
                == after[i].event_id@)
        }),
{
    let after = insert_all(local, account_rows(rows_of(shared), account));
    an_added_row_is_an_own_row(shared, account, local, i);
}

/// A published event of the account whose identifier has 64 characters and
/// begins with a hexadecimal digit is brought over, unless a row with the same
/// identifier was in the account's table before or comes before it.
pub proof fn own_published_events_are_brought_over(
    shared: Option<Vec<Owned<PublishedEventRow>>>,
    account: Seq<char>,
    local: Seq<PublishedEventRow>,
    k: int,
)
    requires
        shared is Some,
        0 <= k < shared->0@.len(),
        shared->0@[k].account_pubkey is Some,
        shared->0@[k].account_pubkey->0@ == account,
        shared->0@[k].row.event_id@.len() >= 64,
        ((shared->0@[k].row.event_id@.len() == 64 || shared->0@[k].row.event_id@[64] == '\0')),
        (forall|n: int| 0 <= n < 64 ==> #[trigger] shared->0@[k].row.event_id@[n] != '\0'),
        (('0' <= shared->0@[k].row.event_id@[0] <= '9'
            || 'a' <= shared->0@[k].row.event_id@[0] <= 'f'
            || 'A' <= shared->0@[k].row.event_id@[0] <= 'F')),
        forall|i: int| 0 <= i < local.len() ==> !((#[trigger] local[i]).event_id@
            == shared->0@[k].row.event_id@),
        forall|j: int|
            0 <= j < k && (#[trigger] shared->0@[j]).account_pubkey is Some
                && shared->0@[j].account_pubkey->0@ == account ==> !(shared->0@[j].row.event_id@
                    == shared->0@[k].row.event_id@),
    ensures
        insert_all(local, account_rows(rows_of(shared), account)).contains(shared->0@[k].row),
{
    text_constraints_read_to_the_first_nul(shared->0@[k].row.event_id@);
    an_own_row_goes_in_unless_refused(shared, account, local, k);
}

/// What the move adds is a row of the account whose identifier has 64
/// characters and begins with a hexadecimal digit, and no row with the same
/// identifier stands before it.
pub proof fn only_own_published_events_are_brought_over(
    shared: Option<Vec<Owned<PublishedEventRow>>>,
    account: Seq<char>,
    local: Seq<PublishedEventRow>,
    i: int,
)
    requires
        local.len() <= i < insert_all(local, account_rows(rows_of(shared), account)).len(),
    ensures
        ({
            let after = insert_all(local, account_rows(rows_of(shared), account));
            &&& shared is Some
            &&& exists|k: int|
                0 <= k < shared->0@.len() && (#[trigger] shared->0@[k]).account_pubkey is Some
                    && shared->0@[k].account_pubkey->0@ == account && shared->0@[k].row == after[i]
            &&& (after[i].event_id@.len() >= 64)
            &&& ((after[i].event_id@.len() == 64 || after[i].event_id@[64] == '\0'))
            &&& (forall|n: int| 0 <= n < 64 ==> #[trigger] after[i].event_id@[n] != '\0')
            &&& (('0' <= after[i].event_id@[0] <= '9' || 'a' <= after[i].event_id@[0] <= 'f'
                || 'A' <= after[i].event_id@[0] <= 'F'))
            &&& forall|j: int| 0 <= j < i ==> !((#[trigger] after[j]).event_id@
                == after[i].event_id@)
        }),
{
    let after = insert_all(local, account_rows(rows_of(shared), account));
    text_constraints_read_to_the_first_nul(after[i].event_id@);
    an_added_row_is_an_own_row(shared, account, local, i);
}

/// A processed event of the account whose identifier is 64 hexadecimal digits
/// is brought over, unless a row with the same identifier was in the account's
/// table before or comes before it.
pub proof fn own_processed_events_are_brought_over(
    shared: Option<Vec<Owned<ProcessedEventRow>>>,
    account: Seq<char>,
    local: Seq<ProcessedEventRow>,
    k: int,
)
    requires
        shared is Some,
        0 <= k < shared->0@.len(),
        shared->0@[k].account_pubkey is Some,
        shared->0@[k].account_pubkey->0@ == account,
        shared->0@[k].row.event_id@.len() >= 64,
        ((shared->0@[k].row.event_id@.len() == 64 || shared->0@[k].row.event_id@[64] == '\0')),
        (forall|n: int| 0 <= n < 64 ==> ('0' <= #[trigger] shared->0@[k].row.event_id@[n] <= '9'
            || 'a' <= shared->0@[k].row.event_id@[n] <= 'f'
            || 'A' <= shared->0@[k].row.event_id@[n] <= 'F')),
        forall|i: int| 0 <= i < local.len() ==> !((#[trigger] local[i]).event_id@
            == shared->0@[k].row.event_id@),
        forall|j: int|
            0 <= j < k && (#[trigger] shared->0@[j]).account_pubkey is Some
                && shared->0@[j].account_pubkey->0@ == account ==> !(shared->0@[j].row.event_id@
                    == shared->0@[k].row.event_id@),
    ensures
        insert_all(local, account_rows(rows_of(shared), account)).contains(shared->0@[k].row),
{
    text_constraints_read_to_the_first_nul(shared->0@[k].row.event_id@);
    an_own_row_goes_in_unless_refused(shared, account, local, k);
}

/// What the move adds is a row of the account whose identifier is 64
/// hexadecimal digits, and no row with the same identifier stands before it.
pub proof fn only_own_processed_events_are_brought_over(
    shared: Option<Vec<Owned<ProcessedEventRow>>>,
    account: Seq<char>,
    local: Seq<ProcessedEventRow>,
    i: int,
)
    requires
        local.len() <= i < insert_all(local, account_rows(rows_of(shared), account)).len(),
    ensures
        ({
            let after = insert_all(local, account_rows(rows_of(shared), account));
            &&& shared is Some
            &&& exists|k: int|
                0 <= k < shared->0@.len() && (#[trigger] shared->0@[k]).account_pubkey is Some
                    && shared->0@[k].account_pubkey->0@ == account && shared->0@[k].row == after[i]
            &&& (after[i].event_id@.len() >= 64)
            &&& ((after[i].event_id@.len() == 64 || after[i].event_id@[64] == '\0'))
            &&& (forall|n: int| 0 <= n < 64 ==> ('0' <= #[trigger] after[i].event_id@[n] <= '9'
                || 'a' <= after[i].event_id@[n] <= 'f' || 'A' <= after[i].event_id@[n] <= 'F'))
            &&& forall|j: int| 0 <= j < i ==> !((#[trigger] after[j]).event_id@
                == after[i].event_id@)
        }),
{
    let after = insert_all(local, account_rows(rows_of(shared), account));
    text_constraints_read_to_the_first_nul(after[i].event_id@);
    an_added_row_is_an_own_row(shared, account, local, i);
}

/// A media reference of the account is brought over, unless a row of the same
/// group to the same file was in the account's table before or comes before it.
pub proof fn own_media_references_are_brought_over(
    shared: Option<Vec<Owned<MediaReferenceRow>>>,
    account: Seq<char>,
    local: Seq<MediaReferenceRow>,
    k: int,
)
    requires
        shared is Some,
        0 <= k < shared->0@.len(),
        shared->0@[k].account_pubkey is Some,
        shared->0@[k].account_pubkey->0@ == account,
        forall|i: int| 0 <= i < local.len() ==> !((#[trigger] local[i]).mls_group_id@
            == shared->0@[k].row.mls_group_id@ && local[i].encrypted_file_hash@
            == shared->0@[k].row.encrypted_file_hash@),
        forall|j: int|
            0 <= j < k && (#[trigger] shared->0@[j]).account_pubkey is Some
                && shared->0@[j].account_pubkey->0@ == account
                    ==> !(shared->0@[j].row.mls_group_id@ == shared->0@[k].row.mls_group_id@
                    && shared->0@[j].row.encrypted_file_hash@
                    == shared->0@[k].row.encrypted_file_hash@),
    ensures
        insert_all(local, account_rows(rows_of(shared), account)).contains(shared->0@[k].row),
{
    an_own_row_goes_in_unless_refused(shared, account, local, k);
}

/// What the move adds is a row of the account, and no row of the same group to
/// the same file stands before it.
pub proof fn only_own_media_references_are_brought_over(
    shared: Option<Vec<Owned<MediaReferenceRow>>>,
    account: Seq<char>,
    local: Seq<MediaReferenceRow>,
    i: int,
)
    requires
        local.len() <= i < insert_all(local, account_rows(rows_of(shared), account)).len(),
    ensures
        ({
            let after = insert_all(local, account_rows(rows_of(shared), account));
            &&& shared is Some
            &&& exists|k: int|
                0 <= k < shared->0@.len() && (#[trigger] shared->0@[k]).account_pubkey is Some
                    && shared->0@[k].account_pubkey->0@ == account && shared->0@[k].row == after[i]
            &&& forall|j: int| 0 <= j < i ==> !((#[trigger] after[j]).mls_group_id@
                == after[i].mls_group_id@ && after[j].encrypted_file_hash@
                == after[i].encrypted_file_hash@)
        }),
{
    let after = insert_all(local, account_rows(rows_of(shared), account));
    an_added_row_is_an_own_row(shared, account, local, i);
}

/// A push registration of the account for one of the two platforms with a token
/// that is not blank is brought over, whatever the account's table holds.
pub proof fn own_push_registrations_are_brought_over(
    shared: Option<Vec<Owned<PushRegistrationRow>>>,
    account: Seq<char>,
    local: Seq<PushRegistrationRow>,
    k: int,
)
    requires
        shared is Some,
        0 <= k < shared->0@.len(),
        shared->0@[k].account_pubkey is Some,
        shared->0@[k].account_pubkey->0@ == account,
        (shared->0@[k].row.platform@ == "apns"@ || shared->0@[k].row.platform@ == "fcm"@),
        (exists|n: int| 0 <= n < shared->0@[k].row.raw_token@.len()
            && #[trigger] shared->0@[k].row.raw_token@[n] != ' '
            && shared->0@[k].row.raw_token@[n] != '\t' && shared->0@[k].row.raw_token@[n] != '\n'
            && shared->0@[k].row.raw_token@[n] != '\r' && forall|m: int| 0 <= m <= n
            ==> #[trigger] shared->0@[k].row.raw_token@[m] != '\0'),
    ensures
        insert_all(local, account_rows(rows_of(shared), account)).contains(shared->0@[k].row),
{
    text_constraints_read_to_the_first_nul(shared->0@[k].row.raw_token@);
    an_own_row_goes_in_unless_refused(shared, account, local, k);
}

/// What the move adds is a row of the account for one of the two platforms with
/// a token that is not blank.
pub proof fn only_own_push_registrations_are_brought_over(
    shared: Option<Vec<Owned<PushRegistrationRow>>>,
    account: Seq<char>,
    local: Seq<PushRegistrationRow>,
    i: int,
)
    requires
        local.len() <= i < insert_all(local, account_rows(rows_of(shared), account)).len(),
    ensures
        ({
            let after = insert_all(local, account_rows(rows_of(shared), account));
            &&& shared is Some
            &&& exists|k: int|
                0 <= k < shared->0@.len() && (#[trigger] shared->0@[k]).account_pubkey is Some
                    && shared->0@[k].account_pubkey->0@ == account && shared->0@[k].row == after[i]
            &&& (after[i].platform@ == "apns"@ || after[i].platform@ == "fcm"@)
            &&& (exists|n: int| 0 <= n < after[i].raw_token@.len()
                && #[trigger] after[i].raw_token@[n] != ' ' && after[i].raw_token@[n] != '\t'
                && after[i].raw_token@[n] != '\n' && after[i].raw_token@[n] != '\r'
                && forall|m: int| 0 <= m <= n ==> #[trigger] after[i].raw_token@[m] != '\0')
        }),
{
    let after = insert_all(local, account_rows(rows_of(shared), account));
    text_constraints_read_to_the_first_nul(after[i].raw_token@);
    an_added_row_is_an_own_row(shared, account, local, i);
}

/// A push token of the account that is not blank and whose leaf is not negative
/// is brought over, unless a row of the same leaf of the same group was in the
/// account's table before or comes before it.
pub proof fn own_push_tokens_are_brought_over(
    shared: Option<Vec<Owned<GroupPushTokenRow>>>,
    account: Seq<char>,
    local: Seq<GroupPushTokenRow>,
    k: int,
)
    requires
        shared is Some,
        0 <= k < shared->0@.len(),
        shared->0@[k].account_pubkey is Some,
        shared->0@[k].account_pubkey->0@ == account,
        shared->0@[k].row.leaf_index >= 0,
        (exists|n: int| 0 <= n < shared->0@[k].row.encrypted_token@.len()
            && #[trigger] shared->0@[k].row.encrypted_token@[n] != ' '
            && shared->0@[k].row.encrypted_token@[n] != '\t'
            && shared->0@[k].row.encrypted_token@[n] != '\n'
            && shared->0@[k].row.encrypted_token@[n] != '\r' && forall|m: int| 0 <= m <= n
            ==> #[trigger] shared->0@[k].row.encrypted_token@[m] != '\0'),
        forall|i: int| 0 <= i < local.len() ==> !((#[trigger] local[i]).mls_group_id@
            == shared->0@[k].row.mls_group_id@ && local[i].leaf_index
            == shared->0@[k].row.leaf_index),
        forall|j: int|
            0 <= j < k && (#[trigger] shared->0@[j]).account_pubkey is Some
                && shared->0@[j].account_pubkey->0@ == account
                    ==> !(shared->0@[j].row.mls_group_id@ == shared->0@[k].row.mls_group_id@
                    && shared->0@[j].row.leaf_index == shared->0@[k].row.leaf_index),
    ensures
        insert_all(local, account_rows(rows_of(shared), account)).contains(shared->0@[k].row),
{
    text_constraints_read_to_the_first_nul(shared->0@[k].row.encrypted_token@);
    an_own_row_goes_in_unless_refused(shared, account, local, k);
}

/// What the move adds is a row of the account that is not blank and whose leaf
/// is not negative, and no row of the same leaf of the same group stands before
/// it.
pub proof fn only_own_push_tokens_are_brought_over(
    shared: Option<Vec<Owned<GroupPushTokenRow>>>,
    account: Seq<char>,
    local: Seq<GroupPushTokenRow>,
    i: int,
)
    requires
        local.len() <= i < insert_all(local, account_rows(rows_of(shared), account)).len(),
    ensures
        ({
            let after = insert_all(local, account_rows(rows_of(shared), account));
            &&& shared is Some
            &&& exists|k: int|
                0 <= k < shared->0@.len() && (#[trigger] shared->0@[k]).account_pubkey is Some
                    && shared->0@[k].account_pubkey->0@ == account && shared->0@[k].row == after[i]
            &&& (after[i].leaf_index >= 0)
            &&& (exists|n: int| 0 <= n < after[i].encrypted_token@.len()
                && #[trigger] after[i].encrypted_token@[n] != ' '
                && after[i].encrypted_token@[n] != '\t' && after[i].encrypted_token@[n] != '\n'
                && after[i].encrypted_token@[n] != '\r' && forall|m: int| 0 <= m <= n
                ==> #[trigger] after[i].encrypted_token@[m] != '\0')
            &&& forall|j: int| 0 <= j < i ==> !((#[trigger] after[j]).mls_group_id@
                == after[i].mls_group_id@ && after[j].leaf_index == after[i].leaf_index)
        }),
{
    let after = insert_all(local, account_rows(rows_of(shared), account));
    text_constraints_read_to_the_first_nul(after[i].encrypted_token@);
    an_added_row_is_an_own_row(shared, account, local, i);
}

/// A group membership of the account whose confirmation is open, given or
/// refused and whose last read message, if any, is named by 64 hexadecimal
/// digits is brought over, unless a row of the same group was in the account's
/// table before or comes before it.
pub proof fn own_group_memberships_are_brought_over(
    shared: Option<Vec<Owned<AccountGroupRow>>>,
    account: Seq<char>,
    local: Seq<AccountGroupRow>,
    k: int,
)
    requires
        shared is Some,
        0 <= k < shared->0@.len(),
        shared->0@[k].account_pubkey is Some,
        shared->0@[k].account_pubkey->0@ == account,
        (shared->0@[k].row.user_confirmation is None || shared->0@[k].row.user_confirmation
            == Some(0i64) || shared->0@[k].row.user_confirmation == Some(1i64)),
        (shared->0@[k].row.last_read_message_id is Some
            ==> (shared->0@[k].row.last_read_message_id->0@.len() >= 64)
            && ((shared->0@[k].row.last_read_message_id->0@.len() == 64
            || shared->0@[k].row.last_read_message_id->0@[64] == '\0'))
            && (forall|n: int| 0 <= n < 64
            ==> ('0' <= #[trigger] shared->0@[k].row.last_read_message_id->0@[n] <= '9'
            || 'a' <= shared->0@[k].row.last_read_message_id->0@[n] <= 'f'
            || 'A' <= shared->0@[k].row.last_read_message_id->0@[n] <= 'F'))),
        forall|i: int| 0 <= i < local.len() ==> !((#[trigger] local[i]).mls_group_id@
            == shared->0@[k].row.mls_group_id@),
        forall|j: int|
            0 <= j < k && (#[trigger] shared->0@[j]).account_pubkey is Some
                && shared->0@[j].account_pubkey->0@ == account
                    ==> !(shared->0@[j].row.mls_group_id@ == shared->0@[k].row.mls_group_id@),
    ensures
        insert_all(local, account_rows(rows_of(shared), account)).contains(shared->0@[k].row),
{
    text_constraints_read_to_the_first_nul(shared->0@[k].row.last_read_message_id->0@);
    an_own_row_goes_in_unless_refused(shared, account, local, k);
}

/// What the move adds is a row of the account whose confirmation is open, given
/// or refused and whose last read message, if any, is named by 64 hexadecimal
/// digits, and no row of the same group stands before it.
pub proof fn only_own_group_memberships_are_brought_over(
    shared: Option<Vec<Owned<AccountGroupRow>>>,
    account: Seq<char>,
    local: Seq<AccountGroupRow>,
    i: int,
)
    requires
        local.len() <= i < insert_all(local, account_rows(rows_of(shared), account)).len(),
    ensures
        ({
            let after = insert_all(local, account_rows(rows_of(shared), account));
            &&& shared is Some
            &&& exists|k: int|
                0 <= k < shared->0@.len() && (#[trigger] shared->0@[k]).account_pubkey is Some
                    && shared->0@[k].account_pubkey->0@ == account && shared->0@[k].row == after[i]
            &&& (after[i].user_confirmation is None || after[i].user_confirmation == Some(0i64)
                || after[i].user_confirmation == Some(1i64))
            &&& (after[i].last_read_message_id is Some
                ==> (after[i].last_read_message_id->0@.len() >= 64)
                && ((after[i].last_read_message_id->0@.len() == 64
                || after[i].last_read_message_id->0@[64] == '\0')) && (forall|n: int| 0 <= n < 64
                ==> ('0' <= #[trigger] after[i].last_read_message_id->0@[n] <= '9'
                || 'a' <= after[i].last_read_message_id->0@[n] <= 'f'
                || 'A' <= after[i].last_read_message_id->0@[n] <= 'F')))
            &&& forall|j: int| 0 <= j < i ==> !((#[trigger] after[j]).mls_group_id@
                == after[i].mls_group_id@)
        }),
{
    let after = insert_all(local, account_rows(rows_of(shared), account));
    text_constraints_read_to_the_first_nul(after[i].last_read_message_id->0@);
    an_added_row_is_an_own_row(shared, account, local, i);
}

/// A mute of the account whose key has 64 characters and begins with a
/// hexadecimal digit, and which says whether it is private is brought over,
/// unless a row of the same key was in the account's table before or comes
/// before it.
pub proof fn own_mutes_are_brought_over(
    shared: Option<Vec<Owned<MuteListRow>>>,
    account: Seq<char>,
    local: Seq<MuteListRow>,
    k: int,
)
    requires
        shared is Some,
        0 <= k < shared->0@.len(),
        shared->0@[k].account_pubkey is Some,
        shared->0@[k].account_pubkey->0@ == account,
        shared->0@[k].row.muted_pubkey@.len() >= 64,
        ((shared->0@[k].row.muted_pubkey@.len() == 64 || shared->0@[k].row.muted_pubkey@[64]
            == '\0')),
        (forall|n: int| 0 <= n < 64 ==> #[trigger] shared->0@[k].row.muted_pubkey@[n] != '\0'),
        (('0' <= shared->0@[k].row.muted_pubkey@[0] <= '9'
            || 'a' <= shared->0@[k].row.muted_pubkey@[0] <= 'f'
            || 'A' <= shared->0@[k].row.muted_pubkey@[0] <= 'F')),
        (shared->0@[k].row.is_private == 0 || shared->0@[k].row.is_private == 1),
        forall|i: int| 0 <= i < local.len() ==> !((#[trigger] local[i]).muted_pubkey@
            == shared->0@[k].row.muted_pubkey@),
        forall|j: int|
            0 <= j < k && (#[trigger] shared->0@[j]).account_pubkey is Some
                && shared->0@[j].account_pubkey->0@ == account
                    ==> !(shared->0@[j].row.muted_pubkey@ == shared->0@[k].row.muted_pubkey@),
    ensures
        insert_all(local, account_rows(rows_of(shared), account)).contains(shared->0@[k].row),
{
    text_constraints_read_to_the_first_nul(shared->0@[k].row.muted_pubkey@);
    an_own_row_goes_in_unless_refused(shared, account, local, k);
}

/// What the move adds is a row of the account whose key has 64 characters and
/// begins with a hexadecimal digit, and which says whether it is private, and
/// no row of the same key stands before it.
pub proof fn only_own_mutes_are_brought_over(
    shared: Option<Vec<Owned<MuteListRow>>>,
    account: Seq<char>,
    local: Seq<MuteListRow>,
    i: int,
)
    requires
        local.len() <= i < insert_all(local, account_rows(rows_of(shared), account)).len(),
    ensures
        ({
            let after = insert_all(local, account_rows(rows_of(shared), account));
            &&& shared is Some
            &&& exists|k: int|
                0 <= k < shared->0@.len() && (#[trigger] shared->0@[k]).account_pubkey is Some
                    && shared->0@[k].account_pubkey->0@ == account && shared->0@[k].row == after[i]
            &&& (after[i].muted_pubkey@.len() >= 64)
            &&& ((after[i].muted_pubkey@.len() == 64 || after[i].muted_pubkey@[64] == '\0'))
            &&& (forall|n: int| 0 <= n < 64 ==> #[trigger] after[i].muted_pubkey@[n] != '\0')
            &&& (('0' <= after[i].muted_pubkey@[0] <= '9'
                || 'a' <= after[i].muted_pubkey@[0] <= 'f'
                || 'A' <= after[i].muted_pubkey@[0] <= 'F'))
            &&& (after[i].is_private == 0 || after[i].is_private == 1)
            &&& forall|j: int| 0 <= j < i ==> !((#[trigger] after[j]).muted_pubkey@
                == after[i].muted_pubkey@)
        }),
{
    let after = insert_all(local, account_rows(rows_of(shared), account));
    text_constraints_read_to_the_first_nul(after[i].muted_pubkey@);
    an_added_row_is_an_own_row(shared, account, local, i);
}

/// The first settings of the account are brought over, unless its table has
/// some already.
pub proof fn own_settings_are_brought_over(
    shared: Option<Vec<Owned<AccountSettingsRow>>>,
    account: Seq<char>,
    local: Seq<AccountSettingsRow>,
    k: int,
)
    requires
        shared is Some,
        0 <= k < shared->0@.len(),
        shared->0@[k].account_pubkey is Some,
        shared->0@[k].account_pubkey->0@ == account,
        local.len() == 0,
        forall|j: int|
            0 <= j < k && (#[trigger] shared->0@[j]).account_pubkey is Some
                ==> shared->0@[j].account_pubkey->0@
                != account,
    ensures
        insert_all(local, account_rows(rows_of(shared), account)).contains(shared->0@[k].row),
{
    an_own_row_goes_in_unless_refused(shared, account, local, k);
}

/// What the move adds is a row of the account.
pub proof fn only_own_settings_are_brought_over(
    shared: Option<Vec<Owned<AccountSettingsRow>>>,
    account: Seq<char>,
    local: Seq<AccountSettingsRow>,
    i: int,
)
    requires
        local.len() <= i < insert_all(local, account_rows(rows_of(shared), account)).len(),
    ensures
        ({
            let after = insert_all(local, account_rows(rows_of(shared), account));
            &&& shared is Some
            &&& exists|k: int|
                0 <= k < shared->0@.len() && (#[trigger] shared->0@[k]).account_pubkey is Some
                    && shared->0@[k].account_pubkey->0@ == account && shared->0@[k].row == after[i]
            &&& local.len() == 0 && i == 0 && after.len() == 1
        }),
{
    let after = insert_all(local, account_rows(rows_of(shared), account));
    an_added_row_is_an_own_row(shared, account, local, i);
    if i > 0 {
        assert(!after[0].clashes(&after[i]));
    }
    if after.len() > 1 {
        an_added_row_is_an_own_row(shared, account, local, after.len() - 1);
        assert(!after[0].clashes(&after[after.len() - 1]));
    }
}

// ---------------------------------------------------------------------------
// Follows
// ---------------------------------------------------------------------------

/// Some follow among the first `k` is of the account numbered `id` and its
/// user's key is `pubkey`.
spec fn follows_before(
    follows: Seq<NumberedFollow>,
    users: Seq<NumberedKey>,
    id: i64,
    k: int,
    pubkey: Seq<char>,
) -> bool {
    exists|j: int|
        0 <= j < k && (#[trigger] follows[j]).account_id == id
            && key_numbered(users, follows[j].user_id) is Some
            && key_numbered(users, follows[j].user_id)->0@ == pubkey
}

proof fn lemma_follow_position(follows: Seq<NumberedFollow>, users: Seq<NumberedKey>, id: i64, k: int) -> (at:
    int)
    requires
        0 <= k < follows.len(),
        follows[k].account_id == id,
        key_numbered(users, follows[k].user_id) is Some,
    ensures
        0 <= at < follows_of(follows, users, id).len(),
        follows_of(follows, users, id)[at].pubkey == key_numbered(users, follows[k].user_id)->0,
        follows_of(follows, users, id)[at].created_at == follows[k].created_at,
        follows_of(follows, users, id)[at].updated_at == follows[k].updated_at,
        forall|i: int|
            0 <= i < at ==> follows_before(
                follows,
                users,
                id,
                k,
                (#[trigger] follows_of(follows, users, id)[i]).pubkey@,
            ),
    decreases follows.len(),
{
    let rest = follows.drop_last();
    let mine = follows_of(rest, users, id);
    let all = follows_of(follows, users, id);
    if k < rest.len() {
        assert(rest[k] == follows[k]);
        let at = lemma_follow_position(rest, users, id, k);
        assert forall|i: int| 0 <= i < at implies follows_before(follows, users, id, k, (#[trigger] all[i]).pubkey@) by {
            assert(all[i] == mine[i]);
            assert(follows_before(rest, users, id, k, mine[i].pubkey@));
            let j = choose|j: int|
                0 <= j < k && (#[trigger] rest[j]).account_id == id
                    && key_numbered(users, rest[j].user_id) is Some
                    && key_numbered(users, rest[j].user_id)->0@ == mine[i].pubkey@;
            assert(follows[j] == rest[j]);
        }
        at
    } else {
        assert forall|i: int| 0 <= i < mine.len() implies follows_before(
            follows,
            users,
            id,
            k,
            (#[trigger] all[i]).pubkey@,
        ) by {
            let j = lemma_follow_origin(rest, users, id, i);
            assert(follows[j] == rest[j]);
            assert(all[i] == mine[i]);
        }
        mine.len() as int
    }
}

proof fn lemma_follow_origin(follows: Seq<NumberedFollow>, users: Seq<NumberedKey>, id: i64, i: int) -> (j: int)
    requires
        0 <= i < follows_of(follows, users, id).len(),
    ensures
        0 <= j < follows.len(),
        follows[j].account_id == id,
        key_numbered(users, follows[j].user_id) == Some(follows_of(follows, users, id)[i].pubkey),
        follows_of(follows, users, id)[i].created_at == follows[j].created_at,
        follows_of(follows, users, id)[i].updated_at == follows[j].updated_at,
    decreases follows.len(),
{
    let rest = follows.drop_last();
    if i < follows_of(rest, users, id).len() {
        let j = lemma_follow_origin(rest, users, id, i);
        assert(follows[j] == rest[j]);
        j
    } else {
        follows.len() - 1
    }
}

/// A follow of the account is brought over with the key of the user whom it
/// names by number, and with its times, unless that user was followed in the
/// account's table before or an earlier follow of the account names the same
/// key. The account is known by the number that stands first for its key.
pub proof fn own_follows_are_brought_over(
    shared: Option<Vec<NumberedFollow>>,
    users: Seq<NumberedKey>,
    accounts: Seq<NumberedKey>,
    account: Seq<char>,
    local: Seq<FollowRow>,
    a: int,
    k: int,
    u: int,
)
    requires
        shared is Some,
        0 <= a < accounts.len(),
        accounts[a].pubkey@ == account,
        forall|b: int| 0 <= b < a ==> (#[trigger] accounts[b]).pubkey@ != account,
        0 <= k < shared->0@.len(),
        shared->0@[k].account_id == accounts[a].id,
        0 <= u < users.len(),
        users[u].id == shared->0@[k].user_id,
        forall|v: int| 0 <= v < u ==> (#[trigger] users[v]).id != shared->0@[k].user_id,
        forall|i: int| 0 <= i < local.len() ==> (#[trigger] local[i]).pubkey@ != users[u].pubkey@,
        forall|j: int, v: int|
            0 <= j < k && 0 <= v < users.len() && (#[trigger] shared->0@[j]).account_id
                == accounts[a].id
                && (#[trigger] users[v]).id == shared->0@[j].user_id ==> users[v].pubkey@
                != users[u].pubkey@,
    ensures
        exists|i: int|
            0 <= i < insert_all(local, account_follows(shared, users, accounts, account)).len() && {
                let row = #[trigger] insert_all(
                    local,
                    account_follows(shared, users, accounts, account),
                )[i];
                row.pubkey == users[u].pubkey && row.created_at == shared->0@[k].created_at
                    && row.updated_at == shared->0@[k].updated_at
            },
{
    let follows = shared->0@;
    let id = accounts[a].id;
    the_first_entry_names_a_key(accounts, id, account, a);
    the_first_entry_names_a_key(users, follows[k].user_id, users[u].pubkey@, u);
    let rows = account_follows(shared, users, accounts, account);
    assert(rows == follows_of(follows, users, id));
    let at = lemma_follow_position(follows, users, id, k);
    assert forall|i: int| 0 <= i < at implies !(#[trigger] rows[i]).clashes(&rows[at]) by {
        assert(follows_before(follows, users, id, k, rows[i].pubkey@));
        let j = choose|j: int|
            0 <= j < k && (#[trigger] follows[j]).account_id == id
                && key_numbered(users, follows[j].user_id) is Some
                && key_numbered(users, follows[j].user_id)->0@ == rows[i].pubkey@;
        let v = lemma_key_entry(users, follows[j].user_id);
        assert(follows[j].account_id == accounts[a].id);
        assert(users[v].pubkey@ != users[u].pubkey@);
    }
    assert forall|i: int| 0 <= i < local.len() implies !(#[trigger] local[i]).clashes(&rows[at]) by {}
    a_row_goes_in_unless_refused(local, rows, at);
    let after = insert_all(local, rows);
    let i = choose|i: int| 0 <= i < after.len() && after[i] == rows[at];
    assert(after[i].pubkey == users[u].pubkey);
}

proof fn lemma_key_entry(keys: Seq<NumberedKey>, id: i64) -> (at: int)
    requires
        key_numbered(keys, id) is Some,
    ensures
        0 <= at < keys.len(),
        keys[at].id == id,
        keys[at].pubkey == key_numbered(keys, id)->0,
{
    let at = choose|at: int| key_at(keys, id, at);
    assert(key_at(keys, id, at));
    at
}

/// What the move adds is a follow of the account with the key of a user whom it
/// names and with its times; nobody is followed twice. Nothing is added for an
/// account that has no number.
pub proof fn only_own_follows_are_brought_over(
    shared: Option<Vec<NumberedFollow>>,
    users: Seq<NumberedKey>,
    accounts: Seq<NumberedKey>,
    account: Seq<char>,
    local: Seq<FollowRow>,
    i: int,
)
    requires
        local.len() <= i < insert_all(local, account_follows(shared, users, accounts, account)).len(),
    ensures
        ({
            let after = insert_all(local, account_follows(shared, users, accounts, account));
            &&& shared is Some
            &&& exists|a: int, k: int, u: int|
                0 <= a < accounts.len() && 0 <= k < shared->0@.len() && 0 <= u < users.len() && (
                #[trigger] accounts[a]).pubkey@ == account && (#[trigger] shared->0@[k]).account_id
                    == accounts[a].id && (#[trigger] users[u]).id == shared->0@[k].user_id
                    && after[i].pubkey == users[u].pubkey && after[i].created_at
                    == shared->0@[k].created_at && after[i].updated_at == shared->0@[k].updated_at
            &&& forall|j: int| 0 <= j < i ==> (#[trigger] after[j]).pubkey@ != after[i].pubkey@
        }),
{
    let rows = account_follows(shared, users, accounts, account);
    let after = insert_all(local, rows);
    what_goes_in_is_admitted(local, rows, i);
    let at = choose|at: int| 0 <= at < rows.len() && rows[at] == after[i];
    let a = choose|a: int| number_at(accounts, account, a);
    assert(number_at(accounts, account, a));
    let k = lemma_follow_origin(shared->0@, users, accounts[a].id, at);
    let u = lemma_key_entry(users, shared->0@[k].user_id);
    assert(accounts[a].pubkey@ == account && shared->0@[k].account_id == accounts[a].id
        && users[u].id
        == shared->0@[k].user_id);
    assert forall|j: int| 0 <= j < i implies (#[trigger] after[j]).pubkey@ != after[i].pubkey@ by {
        assert(!after[j].clashes(&after[i]));
    }
}

// ---------------------------------------------------------------------------
// Messages
// ---------------------------------------------------------------------------

/// One of the first `k` messages is `row`.
spec fn message_before(rows: Seq<AggregatedMessageRow>, k: int, row: AggregatedMessageRow) -> bool {
    exists|j: int| 0 <= j < k && #[trigger] rows[j] == row
}

proof fn lemma_group_message_position(rows: Seq<AggregatedMessageRow>, group: Seq<u8>, k: int) -> (at: int)
    requires
        0 <= k < rows.len(),
        rows[k].mls_group_id@ == group,
    ensures
        0 <= at < messages_of(rows, group).len(),
        messages_of(rows, group)[at] == rows[k],
        forall|i: int| 0 <= i < at
            ==> message_before(rows, k, #[trigger] messages_of(rows, group)[i]),
    decreases rows.len(),
{
    let rest = rows.drop_last();
    let mine = messages_of(rest, group);
    let all = messages_of(rows, group);
    if k < rest.len() {
        assert(rest[k] == rows[k]);
        let at = lemma_group_message_position(rest, group, k);
        assert forall|i: int| 0 <= i < at implies message_before(rows, k, #[trigger] all[i]) by {
            assert(all[i] == mine[i]);
            let j = choose|j: int| 0 <= j < k && #[trigger] rest[j] == mine[i];
            assert(rows[j] == rest[j]);
        }
        at
    } else {
        assert forall|i: int| 0 <= i < mine.len() implies message_before(rows, k, #[trigger] all[i]) by {
            let j = lemma_group_message_origin(rest, group, i);
            assert(rows[j] == rest[j]);
            assert(all[i] == mine[i]);
        }
        mine.len() as int
    }
}

proof fn lemma_group_message_origin(rows: Seq<AggregatedMessageRow>, group: Seq<u8>, i: int) -> (j: int)
    requires
        0 <= i < messages_of(rows, group).len(),
    ensures
        0 <= j < rows.len(),
        rows[j] == messages_of(rows, group)[i],
        rows[j].mls_group_id@ == group,
    decreases rows.len(),
{
    let rest = rows.drop_last();
    if i < messages_of(rest, group).len() {
        let j = lemma_group_message_origin(rest, group, i);
        assert(rows[j] == rest[j]);
        j
    } else {
        rows.len() - 1
    }
}

proof fn lemma_message_origin(rows: Seq<AggregatedMessageRow>, groups: Seq<Seq<u8>>, i: int) -> (j: int)
    requires
        0 <= i < messages_of_all(rows, groups).len(),
    ensures
        0 <= j < rows.len(),
        rows[j] == messages_of_all(rows, groups)[i],
        groups.contains(rows[j].mls_group_id@),
    decreases groups.len(),
{
    let rest = groups.drop_last();
    let before = messages_of_all(rows, rest);
    if i < before.len() {
        let j = lemma_message_origin(rows, rest, i);
        let g = choose|g: int| 0 <= g < rest.len() && rest[g] == rows[j].mls_group_id@;
        assert(groups[g] == rest[g]);
        j
    } else {
        let j = lemma_group_message_origin(rows, groups.last(), i - before.len());
        assert(groups[groups.len() - 1] == groups.last());
        j
    }
}

/// The message at `k` stands among those of the groups, and what stands before
/// it is of another group or stands before it in the table.
proof fn lemma_message_position(rows: Seq<AggregatedMessageRow>, groups: Seq<Seq<u8>>, k: int) -> (at: int)
    requires
        0 <= k < rows.len(),
        groups.contains(rows[k].mls_group_id@),
    ensures
        0 <= at < messages_of_all(rows, groups).len(),
        messages_of_all(rows, groups)[at] == rows[k],
        forall|i: int|
            0 <= i < at ==> (#[trigger] messages_of_all(rows, groups)[i]).mls_group_id@
                != rows[k].mls_group_id@
                    || message_before(rows, k, messages_of_all(rows, groups)[i]),
    decreases groups.len(),
{
    let rest = groups.drop_last();
    let before = messages_of_all(rows, rest);
    let all = messages_of_all(rows, groups);
    let group = rows[k].mls_group_id@;
    if rest.contains(group) {
        let at = lemma_message_position(rows, rest, k);
        assert forall|i: int| 0 <= i < at implies (#[trigger] all[i]).mls_group_id@ != group
            || message_before(rows, k, all[i]) by {
            assert(all[i] == before[i]);
        }
        at
    } else {
        let g = choose|g: int| 0 <= g < groups.len() && groups[g] == group;
        assert(g == groups.len() - 1) by {
            if g < rest.len() {
                assert(rest[g] == group);
            }
        }
        let mine = messages_of(rows, group);
        let at = lemma_group_message_position(rows, group, k);
        assert(all == before + mine);
        assert forall|i: int| 0 <= i < before.len()
            + at implies (#[trigger] all[i]).mls_group_id@ != group
            || message_before(rows, k, all[i]) by {
            if i < before.len() {
                let j = lemma_message_origin(rows, rest, i);
                assert(all[i] == before[i]);
            } else {
                assert(all[i] == mine[i - before.len()]);
            }
        }
        before.len() + at
    }
}

/// Every shared message of one of the account's groups whose identifier and
/// author, and whose reply and deletion where it has them, are 64 characters
/// that begin with a hexadecimal digit, as 64 hexadecimal digits do, is in the
/// account's table after the move, unless a message with the same identifier
/// and group was there before or comes before it in the shared table.
pub proof fn messages_of_own_groups_are_brought_over(
    shared: Option<Vec<AggregatedMessageRow>>,
    groups: Seq<Vec<u8>>,
    local: Seq<AggregatedMessageRow>,
    k: int,
    g: int,
)
    requires
        shared is Some,
        0 <= k < shared->0@.len(),
        0 <= g < groups.len(),
        groups[g]@ == shared->0@[k].mls_group_id@,
        shared->0@[k].message_id@.len() >= 64,
        ((shared->0@[k].message_id@.len() == 64 || shared->0@[k].message_id@[64] == '\0')),
        (forall|n: int| 0 <= n < 64 ==> #[trigger] shared->0@[k].message_id@[n] != '\0'),
        (('0' <= shared->0@[k].message_id@[0] <= '9' || 'a' <= shared->0@[k].message_id@[0] <= 'f'
            || 'A' <= shared->0@[k].message_id@[0] <= 'F')),
        shared->0@[k].author@.len() >= 64,
        ((shared->0@[k].author@.len() == 64 || shared->0@[k].author@[64] == '\0')),
        (forall|n: int| 0 <= n < 64 ==> #[trigger] shared->0@[k].author@[n] != '\0'),
        (('0' <= shared->0@[k].author@[0] <= '9' || 'a' <= shared->0@[k].author@[0] <= 'f'
            || 'A' <= shared->0@[k].author@[0] <= 'F')),
        (shared->0@[k].reply_to_id is Some ==> (shared->0@[k].reply_to_id->0@.len() >= 64)
            && ((shared->0@[k].reply_to_id->0@.len() == 64 || shared->0@[k].reply_to_id->0@[64]
            == '\0')) && (forall|n: int| 0 <= n < 64
            ==> #[trigger] shared->0@[k].reply_to_id->0@[n] != '\0')
            && (('0' <= shared->0@[k].reply_to_id->0@[0] <= '9'
            || 'a' <= shared->0@[k].reply_to_id->0@[0] <= 'f'
            || 'A' <= shared->0@[k].reply_to_id->0@[0] <= 'F'))),
        (shared->0@[k].deletion_event_id is Some
            ==> (shared->0@[k].deletion_event_id->0@.len() >= 64)
            && ((shared->0@[k].deletion_event_id->0@.len() == 64
            || shared->0@[k].deletion_event_id->0@[64] == '\0')) && (forall|n: int| 0 <= n < 64
            ==> #[trigger] shared->0@[k].deletion_event_id->0@[n] != '\0')
            && (('0' <= shared->0@[k].deletion_event_id->0@[0] <= '9'
            || 'a' <= shared->0@[k].deletion_event_id->0@[0] <= 'f'
            || 'A' <= shared->0@[k].deletion_event_id->0@[0] <= 'F'))),
        forall|i: int|
            0 <= i < local.len() ==> (#[trigger] local[i]).message_id@ != shared->0@[k].message_id@
                || local[i].mls_group_id@ != shared->0@[k].mls_group_id@,
        forall|j: int|
            0 <= j < k ==> (#[trigger] shared->0@[j]).message_id@ != shared->0@[k].message_id@
                || shared->0@[j].mls_group_id@ != shared->0@[k].mls_group_id@,
    ensures
        insert_all(local, messages_of_all(shared_messages(shared), group_views(groups))).contains(
            shared->0@[k],
        ),
{
    let all = shared->0@;
    let views = group_views(groups);
    assert(views[g] == groups[g]@);
    text_constraints_read_to_the_first_nul(all[k].message_id@);
    text_constraints_read_to_the_first_nul(all[k].author@);
    text_constraints_read_to_the_first_nul(all[k].reply_to_id->0@);
    text_constraints_read_to_the_first_nul(all[k].deletion_event_id->0@);
    let rows = messages_of_all(all, views);
    let at = lemma_message_position(all, views, k);
    assert forall|i: int| 0 <= i < at implies !(#[trigger] rows[i]).clashes(&rows[at]) by {
        if rows[i].mls_group_id@ == all[k].mls_group_id@ {
            assert(message_before(all, k, rows[i]));
            let j = choose|j: int| 0 <= j < k && #[trigger] all[j] == rows[i];
            assert(all[j].message_id@ != all[k].message_id@);
        }
    }
    a_row_goes_in_unless_refused(local, rows, at);
}

/// Every shared message of one of the account's groups whose identifier and
/// author are 64 hexadecimal digits, and whose reply and deletion are each
/// absent or 64 hexadecimal digits, is in the account's table after the move,
/// or one with its identifier and group is that was there before or comes
/// before it.
pub proof fn well_formed_messages_are_never_lost(
    shared: Option<Vec<AggregatedMessageRow>>,
    groups: Seq<Vec<u8>>,
    local: Seq<AggregatedMessageRow>,
    k: int,
    g: int,
)
    requires
        shared is Some,
        0 <= k < shared->0@.len(),
        0 <= g < groups.len(),
        groups[g]@ == shared->0@[k].mls_group_id@,
        shared->0@[k].message_id@.len() == 64,
        shared->0@[k].author@.len() == 64,
        forall|n: int|
            0 <= n < 64 ==> ('0' <= #[trigger] shared->0@[k].message_id@[n] <= '9' || 'a'
                <= shared->0@[k].message_id@[n] <= 'f'
                    || 'A' <= shared->0@[k].message_id@[n] <= 'F'),
        forall|n: int|
            0 <= n < 64 ==> ('0' <= #[trigger] shared->0@[k].author@[n] <= '9' || 'a'
                <= shared->0@[k].author@[n] <= 'f' || 'A' <= shared->0@[k].author@[n] <= 'F'),
        shared->0@[k].reply_to_id is Some ==> shared->0@[k].reply_to_id->0@.len() == 64
            && forall|n: int|
            0 <= n < 64 ==> ('0' <= #[trigger] shared->0@[k].reply_to_id->0@[n] <= '9' || 'a'
                <= shared->0@[k].reply_to_id->0@[n] <= 'f'
                    || 'A' <= shared->0@[k].reply_to_id->0@[n]
                <= 'F'),
        shared->0@[k].deletion_event_id is Some ==> shared->0@[k].deletion_event_id->0@.len() == 64
            && forall|n: int|
            0 <= n < 64 ==> ('0' <= #[trigger] shared->0@[k].deletion_event_id->0@[n] <= '9' || 'a'
                <= shared->0@[k].deletion_event_id->0@[n] <= 'f' || 'A'
                <= shared->0@[k].deletion_event_id->0@[n] <= 'F'),
    ensures
        insert_all(local, messages_of_all(shared_messages(shared), group_views(groups))).contains(
            shared->0@[k],
        ) || (exists|i: int|
            0 <= i < local.len() && (#[trigger] local[i]).message_id@ == shared->0@[k].message_id@
                && local[i].mls_group_id@ == shared->0@[k].mls_group_id@) || (exists|j: int|
            0 <= j < k && (#[trigger] shared->0@[j]).message_id@ == shared->0@[k].message_id@
                && shared->0@[j].mls_group_id@ == shared->0@[k].mls_group_id@),
{
    let all = shared->0@;
    if !(exists|i: int|
        0 <= i < local.len() && (#[trigger] local[i]).message_id@ == all[k].message_id@
            && local[i].mls_group_id@ == all[k].mls_group_id@) && !(exists|j: int|
        0 <= j < k && (#[trigger] all[j]).message_id@ == all[k].message_id@ && all[j].mls_group_id@
            == all[k].mls_group_id@) {
        assert(shared->0@[k].message_id@[0] <= 'f');
        assert(shared->0@[k].author@[0] <= 'f');
        if all[k].reply_to_id is Some {
            assert(shared->0@[k].reply_to_id->0@[0] <= 'f');
        }
        if all[k].deletion_event_id is Some {
            assert(shared->0@[k].deletion_event_id->0@[0] <= 'f');
        }
        messages_of_own_groups_are_brought_over(shared, groups, local, k, g);
    }
}

/// What the move adds is a shared message of one of the account's groups, with
/// an identifier, an author and, where it has them, a reply and a deletion of
/// 64 characters that begin with a hexadecimal digit. No message with its
/// identifier and group stands before it.
pub proof fn only_messages_of_own_groups_are_brought_over(
    shared: Option<Vec<AggregatedMessageRow>>,
    groups: Seq<Vec<u8>>,
    local: Seq<AggregatedMessageRow>,
    i: int,
)
    requires
        local.len() <= i < insert_all(
            local,
            messages_of_all(shared_messages(shared), group_views(groups)),
        ).len(),
    ensures
        ({
            let after = insert_all(
                local,
                messages_of_all(shared_messages(shared), group_views(groups)),
            );
            &&& shared is Some && shared->0@.contains(after[i])
            &&& exists|g: int| 0 <= g < groups.len() && (#[trigger] groups[g])@
                == after[i].mls_group_id@
            &&& (after[i].message_id@.len() >= 64)
            &&& ((after[i].message_id@.len() == 64 || after[i].message_id@[64] == '\0'))
            &&& (forall|n: int| 0 <= n < 64 ==> #[trigger] after[i].message_id@[n] != '\0')
            &&& (('0' <= after[i].message_id@[0] <= '9' || 'a' <= after[i].message_id@[0] <= 'f'
                || 'A' <= after[i].message_id@[0] <= 'F'))
            &&& (after[i].author@.len() >= 64)
            &&& ((after[i].author@.len() == 64 || after[i].author@[64] == '\0'))
            &&& (forall|n: int| 0 <= n < 64 ==> #[trigger] after[i].author@[n] != '\0')
            &&& (('0' <= after[i].author@[0] <= '9' || 'a' <= after[i].author@[0] <= 'f'
                || 'A' <= after[i].author@[0] <= 'F'))
            &&& (after[i].reply_to_id is Some ==> (after[i].reply_to_id->0@.len() >= 64)
                && ((after[i].reply_to_id->0@.len() == 64 || after[i].reply_to_id->0@[64] == '\0'))
                && (forall|n: int| 0 <= n < 64 ==> #[trigger] after[i].reply_to_id->0@[n] != '\0')
                && (('0' <= after[i].reply_to_id->0@[0] <= '9'
                || 'a' <= after[i].reply_to_id->0@[0] <= 'f'
                || 'A' <= after[i].reply_to_id->0@[0] <= 'F')))
            &&& (after[i].deletion_event_id is Some
                ==> (after[i].deletion_event_id->0@.len() >= 64)
                && ((after[i].deletion_event_id->0@.len() == 64
                || after[i].deletion_event_id->0@[64] == '\0')) && (forall|n: int| 0 <= n < 64
                ==> #[trigger] after[i].deletion_event_id->0@[n] != '\0')
                && (('0' <= after[i].deletion_event_id->0@[0] <= '9'
                || 'a' <= after[i].deletion_event_id->0@[0] <= 'f'
                || 'A' <= after[i].deletion_event_id->0@[0] <= 'F')))
            &&& forall|j: int|
                0 <= j < i ==> (#[trigger] after[j]).message_id@ != after[i].message_id@
                    || after[j].mls_group_id@ != after[i].mls_group_id@
        }),
{
    let views = group_views(groups);
    let all = shared_messages(shared);
    let rows = messages_of_all(all, views);
    let after = insert_all(local, rows);
    what_goes_in_is_admitted(local, rows, i);
    let at = choose|at: int| 0 <= at < rows.len() && rows[at] == after[i];
    let k = lemma_message_origin(all, views, at);
    let g = choose|g: int| 0 <= g < views.len() && views[g] == all[k].mls_group_id@;
    assert(groups[g]@ == after[i].mls_group_id@);
    text_constraints_read_to_the_first_nul(after[i].message_id@);
    text_constraints_read_to_the_first_nul(after[i].author@);
    text_constraints_read_to_the_first_nul(after[i].reply_to_id->0@);
    text_constraints_read_to_the_first_nul(after[i].deletion_event_id->0@);
    assert forall|j: int| 0 <= j < i implies (#[trigger] after[j]).message_id@ != after[i].message_id@
        || after[j].mls_group_id@ != after[i].mls_group_id@ by {
        assert(!after[j].clashes(&after[i]));
    }
}

// ---------------------------------------------------------------------------
// Delivery statuses
// ---------------------------------------------------------------------------

/// One of the first `k` statuses is `row`.
spec fn status_before(rows: Seq<DeliveryStatusRow>, k: int, row: DeliveryStatusRow) -> bool {
    exists|j: int| 0 <= j < k && #[trigger] rows[j] == row
}

proof fn lemma_status_origin(
    rows: Seq<DeliveryStatusRow>,
    account: Seq<char>,
    messages: Seq<MessageKey>,
    i: int,
) -> (j: int)
    requires
        0 <= i < rows_with_parent(rows, account, messages).len(),
    ensures
        0 <= j < rows.len(),
        rows[j] == rows_with_parent(rows, account, messages)[i],
        rows[j].account_pubkey@ == account,
        rows[j].has_parent(messages),
    decreases rows.len(),
{
    let rest = rows.drop_last();
    if i < rows_with_parent(rest, account, messages).len() {
        let j = lemma_status_origin(rest, account, messages, i);
        assert(rows[j] == rest[j]);
        j
    } else {
        rows.len() - 1
    }
}

proof fn lemma_status_position(
    rows: Seq<DeliveryStatusRow>,
    account: Seq<char>,
    messages: Seq<MessageKey>,
    k: int,
) -> (at: int)
    requires
        0 <= k < rows.len(),
        rows[k].account_pubkey@ == account,
        rows[k].has_parent(messages),
    ensures
        0 <= at < rows_with_parent(rows, account, messages).len(),
        rows_with_parent(rows, account, messages)[at] == rows[k],
        forall|i: int|
            0 <= i < at ==> status_before(
                rows,
                k,
                #[trigger] rows_with_parent(rows, account, messages)[i],
            ),
    decreases rows.len(),
{
    let rest = rows.drop_last();
    let mine = rows_with_parent(rest, account, messages);
    let all = rows_with_parent(rows, account, messages);
    if k < rest.len() {
        assert(rest[k] == rows[k]);
        let at = lemma_status_position(rest, account, messages, k);
        assert forall|i: int| 0 <= i < at implies status_before(rows, k, #[trigger] all[i]) by {
            assert(all[i] == mine[i]);
            let j = choose|j: int| 0 <= j < k && #[trigger] rest[j] == mine[i];
            assert(rows[j] == rest[j]);
        }
        at
    } else {
        assert forall|i: int| 0 <= i < mine.len() implies status_before(rows, k, #[trigger] all[i]) by {
            let j = lemma_status_origin(rest, account, messages, i);
            assert(rows[j] == rest[j]);
            assert(all[i] == mine[i]);
        }
        mine.len() as int
    }
}

/// A delivery status of the account is brought over where the account's
/// database has its message, unless one of the same account for the same
/// message was there before or comes before it.
pub proof fn own_delivery_statuses_are_brought_over(
    shared: Option<Vec<DeliveryStatusRow>>,
    account: Seq<char>,
    messages: Seq<MessageKey>,
    local: Seq<DeliveryStatusRow>,
    k: int,
    p: int,
)
    requires
        shared is Some,
        0 <= k < shared->0@.len(),
        shared->0@[k].account_pubkey@ == account,
        0 <= p < messages.len(),
        messages[p].message_id@ == shared->0@[k].message_id@,
        messages[p].mls_group_id@ == shared->0@[k].mls_group_id@,
        forall|i: int|
            0 <= i < local.len() ==> (#[trigger] local[i]).message_id@ != shared->0@[k].message_id@
                || local[i].mls_group_id@ != shared->0@[k].mls_group_id@ || local[i].account_pubkey@
                != account,
        forall|j: int|
            0 <= j < k ==> (#[trigger] shared->0@[j]).message_id@ != shared->0@[k].message_id@
                || shared->0@[j].mls_group_id@ != shared->0@[k].mls_group_id@
                || shared->0@[j].account_pubkey@ != account,
    ensures
        insert_all(local, rows_with_parent(shared_rows(shared), account, messages)).contains(
            shared->0@[k],
        ),
{
    let all = shared->0@;
    let rows = rows_with_parent(all, account, messages);
    assert(messages[p].message_id@ == all[k].message_id@);
    assert(all[k].has_parent(messages));
    let at = lemma_status_position(all, account, messages, k);
    assert forall|i: int| 0 <= i < at implies !(#[trigger] rows[i]).clashes(&rows[at]) by {
        assert(status_before(all, k, rows[i]));
        let j = choose|j: int| 0 <= j < k && #[trigger] all[j] == rows[i];
        assert(all[j] == rows[i]);
    }
    a_row_goes_in_unless_refused(local, rows, at);
}

/// What the move adds is a delivery status of the account whose message the
/// account's database has, and no status of the same account for the same
/// message stands before it.
pub proof fn only_own_delivery_statuses_are_brought_over(
    shared: Option<Vec<DeliveryStatusRow>>,
    account: Seq<char>,
    messages: Seq<MessageKey>,
    local: Seq<DeliveryStatusRow>,
    i: int,
)
    requires
        local.len() <= i < insert_all(
            local,
            rows_with_parent(shared_rows(shared), account, messages),
        ).len(),
    ensures
        ({
            let after = insert_all(local, rows_with_parent(shared_rows(shared), account, messages));
            &&& shared is Some && shared->0@.contains(after[i])
            &&& after[i].account_pubkey@ == account
            &&& exists|p: int|
                0 <= p < messages.len() && (#[trigger] messages[p]).message_id@
                    == after[i].message_id@
                    && messages[p].mls_group_id@ == after[i].mls_group_id@
            &&& forall|j: int|
                0 <= j < i ==> (#[trigger] after[j]).message_id@ != after[i].message_id@
                    || after[j].mls_group_id@ != after[i].mls_group_id@ || after[j].account_pubkey@
                    != after[i].account_pubkey@
        }),
{
    let all = shared_rows(shared);
    let rows = rows_with_parent(all, account, messages);
    let after = insert_all(local, rows);
    what_goes_in_is_admitted(local, rows, i);
    let at = choose|at: int| 0 <= at < rows.len() && rows[at] == after[i];
    let k = lemma_status_origin(all, account, messages, at);
    assert forall|j: int| 0 <= j < i implies (#[trigger] after[j]).message_id@ != after[i].message_id@
        || after[j].mls_group_id@ != after[i].mls_group_id@ || after[j].account_pubkey@
        != after[i].account_pubkey@ by {
        assert(!after[j].clashes(&after[i]));
    }
}

/// Each status of the account whose message the account's database has is
/// counted once, whether or not it goes in, and no other is.
pub proof fn delivery_statuses_with_a_message_are_counted(
    rows: Seq<DeliveryStatusRow>,
    row: DeliveryStatusRow,
    account: Seq<char>,
    messages: Seq<MessageKey>,
)
    ensures
        rows_with_parent(Seq::empty(), account, messages).len() == 0,
        rows_with_parent(rows.push(row), account, messages).len() == rows_with_parent(
            rows,
            account,
            messages,
        ).len() + (if row.account_pubkey@ == account && exists|p: int|
            0 <= p < messages.len() && (#[trigger] messages[p]).message_id@ == row.message_id@
                && messages[p].mls_group_id@ == row.mls_group_id@ {
            1int
        } else {
            0
        }),
{
    assert(rows.push(row).drop_last() =~= rows);
}

/// Each message of the account's groups is counted once, however often a group
/// is listed and whether or not the message goes in, and no other is.
pub proof fn messages_of_own_groups_are_counted(
    rows: Seq<AggregatedMessageRow>,
    row: AggregatedMessageRow,
    groups: Seq<Vec<u8>>,
)
    ensures
        messages_of_all(rows.push(row), group_views(groups)).len() == messages_of_all(
            rows,
            group_views(groups),
        ).len() + (if exists|g: int| 0 <= g < groups.len() && (#[trigger] groups[g])@
            == row.mls_group_id@ {
            1int
        } else {
            0
        }),
        messages_of_all(Seq::empty(), group_views(groups)).len() == 0,
{
    let views = group_views(groups);
    lemma_one_more_message(rows, row, views);
    lemma_no_message(views);
    if views.contains(row.mls_group_id@) {
        let g = choose|g: int| 0 <= g < views.len() && views[g] == row.mls_group_id@;
        assert(groups[g]@ == row.mls_group_id@);
    }
    if exists|g: int| 0 <= g < groups.len() && (#[trigger] groups[g])@ == row.mls_group_id@ {
        let g = choose|g: int| 0 <= g < groups.len() && (#[trigger] groups[g])@
            == row.mls_group_id@;
        assert(views[g] == row.mls_group_id@);
    }
}

proof fn lemma_no_message(groups: Seq<Seq<u8>>)
    ensures
        messages_of_all(Seq::empty(), groups).len() == 0,
    decreases groups.len(),
{
    if groups.len() > 0 {
        lemma_no_message(groups.drop_last());
    }
}

proof fn lemma_one_more_message(
    rows: Seq<AggregatedMessageRow>,
    row: AggregatedMessageRow,
    groups: Seq<Seq<u8>>,
)
    ensures
        messages_of_all(rows.push(row), groups).len() == messages_of_all(rows, groups).len() + (
        if groups.contains(row.mls_group_id@) {
            1int
        } else {
            0
        }),
    decreases groups.len(),
{
    if groups.len() > 0 {
        let rest = groups.drop_last();
        let group = row.mls_group_id@;
        lemma_one_more_message(rows, row, rest);
        assert(rows.push(row).drop_last() =~= rows);
        if rest.contains(group) {
            let g = choose|g: int| 0 <= g < rest.len() && rest[g] == group;
            assert(groups[g] == group);
        }
        if groups.contains(group) {
            let g = choose|g: int| 0 <= g < groups.len() && groups[g] == group;
            if g < rest.len() {
                assert(rest[g] == group);
            }
        }
        assert(groups[groups.len() - 1] == groups.last());
    }
}

/// A shared table that exists is read whole, one that does not has no rows, and
/// groups are told apart by their bytes.
pub proof fn shared_tables_are_read_whole(
    messages: Option<Vec<AggregatedMessageRow>>,
    statuses: Option<Vec<DeliveryStatusRow>>,
    groups: Seq<Vec<u8>>,
    i: int,
)
    ensures
        messages is None ==> shared_messages(messages).len() == 0,
        messages is Some ==> shared_messages(messages) == messages->0@,
        statuses is None ==> shared_rows(statuses).len() == 0,
        statuses is Some ==> shared_rows(statuses) == statuses->0@,
        group_views(groups).len() == groups.len(),
        0 <= i < groups.len() ==> group_views(groups)[i] == groups[i]@,
{
}

} // verus!
