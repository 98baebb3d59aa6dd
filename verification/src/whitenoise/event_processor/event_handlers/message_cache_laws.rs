//! What the message cache promises whatever arrives and in whatever order.

use vstd::prelude::*;

use super::message_cache::{
    deletion_targets, has_reaction, reaction_at, reaction_target, stored_reactions, with_reaction,
    without_reaction, CacheV, DeletionRowV, MarmotMessage, MessageV, ReactionRowV, ReactionV,
    UpdateTrigger,
};
use super::message_cache_effects::{a_deletion_names_its_e_tags, without_reaction_spares_the_others};
use crate::whitenoise::nostr::PublicKey;

verus! {

/// `after` differs from `before` only in what belongs to `author`: their
/// messages may be marked deleted, their reactions may be gone.
pub open spec fn only_author_affected(before: CacheV, after: CacheV, author: PublicKey) -> bool {
    &&& after.messages.dom() == before.messages.dom()
    &&& forall|id: Seq<char>| #[trigger]
        before.messages.dom().contains(id) ==> {
            let was = before.messages[id];
            let now = after.messages[id];
            &&& now.author == was.author && now.content == was.content && now.created_at
                == was.created_at && now.delivery_status == was.delivery_status
            &&& was.author != author ==> now.deletion_event_id == was.deletion_event_id
            &&& forall|r: ReactionV| r.author != author && was.reactions.contains(r)
                ==> #[trigger] now.reactions.contains(r)
        }
    &&& after.reactions.len() == before.reactions.len()
    &&& forall|i: int|
        0 <= i < before.reactions.len() && (#[trigger] before.reactions[i]).author != author
            ==> after.reactions[i] == before.reactions[i]
    &&& forall|i: int|
        0 <= i < before.reactions.len() ==> (#[trigger] after.reactions[i]).author
            == before.reactions[i].author
}

proof fn lemma_without_keeps(reactions: Seq<ReactionV>, author: PublicKey, r: ReactionV)
    requires
        reactions.contains(r),
        r.author != author,
    ensures
        without_reaction(reactions, author).contains(r),
    decreases reactions.len(),
{
    reveal(Seq::filter);
    let k = choose|k: int| 0 <= k < reactions.len() && reactions[k] == r;
    let rest = without_reaction(reactions.drop_last(), author);
    let all = without_reaction(reactions, author);
    if k == reactions.len() - 1 {
        assert(all[all.len() - 1] == r);
    } else {
        assert(reactions.drop_last()[k] == r);
        lemma_without_keeps(reactions.drop_last(), author, r);
        let m = choose|m: int| 0 <= m < rest.len() && rest[m] == r;
        assert(all[m] == r);
    }
}

proof fn lemma_delete_one_affects_author(
    c: CacheV,
    author: PublicKey,
    target: Seq<char>,
    deletion: Seq<char>,
)
    requires
        c.wf(),
    ensures
        only_author_affected(c, c.delete_one(author, target, deletion).0, author),
        c.delete_one(author, target, deletion).0.wf(),
{
    let after = c.delete_one(author, target, deletion).0;
    if exists|at: int| reaction_at(c.reactions, target, at) {
        let at = choose|at: int| reaction_at(c.reactions, target, at);
        assert(reaction_at(c.reactions, target, at));
        let row = c.reactions[at];
        assert forall|i: int, j: int| 0 <= i < j < after.reactions.len() implies after.reactions[i].id
            != after.reactions[j].id by {
            assert(c.reactions[i].id != c.reactions[j].id);
        }
        assert forall|id: Seq<char>, r: ReactionV|
            c.messages.dom().contains(id) && r.author != author
                && c.messages[id].reactions.contains(r) implies #[trigger] after.messages[id].reactions.contains(
            r,
        ) by {
            if after.messages[id] != c.messages[id] {
                lemma_without_keeps(c.messages[id].reactions, author, r);
            }
        }
    }
    assert(after.messages.dom() =~= c.messages.dom());
}

proof fn lemma_affects_transitive(a: CacheV, b: CacheV, c: CacheV, author: PublicKey)
    requires
        only_author_affected(a, b, author),
        only_author_affected(b, c, author),
    ensures
        only_author_affected(a, c, author),
{
    assert forall|id: Seq<char>| #[trigger] a.messages.dom().contains(id) implies {
        let was = a.messages[id];
        let now = c.messages[id];
        &&& now.author == was.author && now.content == was.content && now.created_at
            == was.created_at && now.delivery_status == was.delivery_status
        &&& was.author != author ==> now.deletion_event_id == was.deletion_event_id
        &&& forall|r: ReactionV| r.author != author && was.reactions.contains(r)
            ==> #[trigger] now.reactions.contains(r)
    } by {
        assert(b.messages.dom().contains(id));
        assert forall|r: ReactionV|
            r.author != author
                && a.messages[id].reactions.contains(r) implies #[trigger] c.messages[id].reactions.contains(
            r,
        ) by {
            assert(b.messages[id].reactions.contains(r));
        }
    }
    assert forall|i: int|
        0 <= i < a.reactions.len()
            && (#[trigger] a.reactions[i]).author != author implies c.reactions[i]
        == a.reactions[i] by {
        assert(b.reactions[i] == a.reactions[i]);
    }
    assert forall|i: int| 0 <= i < a.reactions.len() implies (#[trigger] c.reactions[i]).author
        == a.reactions[i].author by {
        assert(b.reactions[i].author == a.reactions[i].author);
    }
}

proof fn lemma_delete_all_affects_author(
    c: CacheV,
    author: PublicKey,
    targets: Seq<Seq<char>>,
    deletion: Seq<char>,
)
    requires
        c.wf(),
    ensures
        only_author_affected(c, c.delete_all(author, targets, deletion).0, author),
        c.delete_all(author, targets, deletion).0.wf(),
    decreases targets.len(),
{
    if targets.len() == 0 {
        assert(only_author_affected(c, c, author));
    } else {
        lemma_delete_all_affects_author(c, author, targets.drop_last(), deletion);
        let mid = c.delete_all(author, targets.drop_last(), deletion).0;
        lemma_delete_one_affects_author(mid, author, targets.last(), deletion);
        lemma_affects_transitive(
            c,
            mid,
            c.delete_all(author, targets, deletion).0,
            author,
        );
    }
}

/// A deletion never touches what others wrote: neither their messages nor
/// their reactions, stored or shown.
pub proof fn deletion_spares_other_authors(c: CacheV, deletion: MarmotMessage)
    requires
        c.wf(),
    ensures
        only_author_affected(c, c.after_deletion(deletion).0, deletion.pubkey),
{
    if !c.outgoing.contains(deletion.id@) {
        let stored = c.store_deletion(deletion);
        assert(stored.wf()) by {
            if !c.has_deletion_row(deletion.id@) {
                assert forall|i: int, j: int| 0 <= i < j < stored.deletions.len() implies stored.deletions[i].id
                    != stored.deletions[j].id by {
                    if j < c.deletions.len() {
                        assert(c.deletions[i].id != c.deletions[j].id);
                    } else {
                        assert(stored.deletions[i] == c.deletions[i]);
                    }
                }
            }
        }
        lemma_delete_all_affects_author(
            stored,
            deletion.pubkey,
            deletion_targets(deletion.tags@),
            deletion.id@,
        );
        let after = c.after_deletion(deletion).0;
        assert(only_author_affected(stored, after, deletion.pubkey));
        assert(stored.messages == c.messages);
        assert(stored.reactions == c.reactions);
    }
}

/// The last of the stored deletions by which `author` deleted the message `id`.
pub open spec fn deletion_of(rows: Seq<DeletionRowV>, author: PublicKey, id: Seq<char>) -> Option<Seq<char>>
    decreases rows.len(),
{
    if rows.len() == 0 {
        None
    } else if rows.last().author == author && rows.last().targets.contains(id) {
        Some(rows.last().id)
    } else {
        deletion_of(rows.drop_last(), author, id)
    }
}

/// A message that the stored deletions `rows` were replayed on.
spec fn replayed(m: MessageV, rows: Seq<DeletionRowV>) -> MessageV {
    match deletion_of(rows, m.author, m.id) {
        Some(deletion) => MessageV { deletion_event_id: Some(deletion), ..m },
        None => m,
    }
}

/// Where no stored reaction bears the identifier of a message, replaying the
/// stored deletions does one thing: it marks the message as deleted if its
/// author deleted it.
proof fn lemma_replay(c: CacheV, rows: Seq<DeletionRowV>, author: PublicKey, id: Seq<char>)
    requires
        forall|at: int| !reaction_at(c.reactions, id, at),
        c.messages.dom().contains(id),
        c.messages[id].id == id,
        c.messages[id].author == author,
    ensures
        c.replay_deletions(rows, author, id) == (CacheV {
            messages: c.messages.insert(id, replayed(c.messages[id], rows)),
            ..c
        }),
    decreases rows.len(),
{
    if rows.len() > 0 {
        lemma_replay(c, rows.drop_last(), author, id);
    }
    assert(c.replay_deletions(rows, author, id).messages =~= c.messages.insert(
        id,
        replayed(c.messages[id], rows),
    ));
}

/// What a chat message looks like once it has been taken in: its author's
/// stored deletions decide whether and by what it is deleted, the stored
/// reactions are
/// shown on it, and it keeps the delivery status that it had.
pub proof fn chat_message_shows_what_is_stored(c: CacheV, m: MarmotMessage)
    requires
        forall|at: int| !reaction_at(c.reactions, m.id@, at),
    ensures
        c.after_chat_message(m) == (CacheV {
            messages: c.messages.insert(
                m.id@,
                MessageV {
                    id: m.id@,
                    author: m.pubkey,
                    created_at: m.created_at,
                    content: m.content@,
                    deletion_event_id: deletion_of(c.deletions, m.pubkey, m.id@),
                    delivery_status: if c.messages.dom().contains(m.id@) {
                        c.messages[m.id@].delivery_status
                    } else {
                        None
                    },
                    reactions: stored_reactions(c.reactions, m.id@),
                },
            ),
            ..c
        }),
{
    let filed = c.file_message(m);
    lemma_replay(filed, c.deletions, m.pubkey, m.id@);
    assert(c.after_chat_message(m).messages =~= c.messages.insert(
        m.id@,
        MessageV {
            deletion_event_id: deletion_of(c.deletions, m.pubkey, m.id@),
            ..filed.messages[m.id@]
        },
    ));
}

/// Taking the same chat message in twice is taking it in once.
pub proof fn duplicate_chat_message_changes_nothing(c: CacheV, m: MarmotMessage)
    requires
        forall|at: int| !reaction_at(c.reactions, m.id@, at),
    ensures
        c.after_chat_message(m).after_chat_message(m) == c.after_chat_message(m),
{
    let once = c.after_chat_message(m);
    chat_message_shows_what_is_stored(c, m);
    chat_message_shows_what_is_stored(once, m);
    assert(once.after_chat_message(m).messages =~= once.messages);
}

proof fn lemma_without_push(reactions: Seq<ReactionV>, r: ReactionV, author: PublicKey)
    ensures
        without_reaction(reactions.push(r), author) == (if r.author != author {
            without_reaction(reactions, author).push(r)
        } else {
            without_reaction(reactions, author)
        }),
{
    reveal(Seq::filter);
    assert(reactions.push(r).drop_last() =~= reactions);
}

proof fn lemma_without_commutes(reactions: Seq<ReactionV>, a: PublicKey, b: PublicKey)
    ensures
        without_reaction(without_reaction(reactions, a), b) == without_reaction(
            without_reaction(reactions, b),
            a,
        ),
        without_reaction(without_reaction(reactions, a), a) == without_reaction(reactions, a),
    decreases reactions.len(),
{
    if reactions.len() == 0 {
        reveal(Seq::filter);
    } else {
        let rest = reactions.drop_last();
        let r = reactions.last();
        assert(rest.push(r) =~= reactions);
        lemma_without_commutes(rest, a, b);
        lemma_without_push(rest, r, a);
        lemma_without_push(rest, r, b);
        lemma_without_push(without_reaction(rest, a), r, a);
        lemma_without_push(without_reaction(rest, a), r, b);
        lemma_without_push(without_reaction(rest, b), r, a);
    }
}

proof fn lemma_without_absent(reactions: Seq<ReactionV>, author: PublicKey)
    requires
        !has_reaction(reactions, author),
    ensures
        without_reaction(reactions, author) == reactions,
    decreases reactions.len(),
{
    if reactions.len() == 0 {
        reveal(Seq::filter);
    } else {
        let rest = reactions.drop_last();
        assert(rest.push(reactions.last()) =~= reactions);
        assert(!has_reaction(rest, author)) by {
            if has_reaction(rest, author) {
                let i = choose|i: int| 0 <= i < rest.len() && (#[trigger] rest[i]).author == author;
                assert(reactions[i].author == author);
            }
        }
        lemma_without_absent(rest, author);
        lemma_without_push(rest, reactions.last(), author);
        assert(reactions[reactions.len() - 1].author != author);
    }
}

/// A live reaction of `author` to the message `id`, whatever its content.
pub open spec fn live_reaction_to(row: ReactionRowV, author: PublicKey, id: Seq<char>) -> bool {
    !row.is_deleted() && row.author == author && row.target == Some(id)
}

/// Deleting `targets` takes a reaction of `author` to the message `id` back.
pub open spec fn takes_back(
    rows: Seq<ReactionRowV>,
    author: PublicKey,
    targets: Seq<Seq<char>>,
    id: Seq<char>,
) -> bool {
    exists|i: int|
        0 <= i < rows.len() && live_reaction_to(#[trigger] rows[i], author, id) && targets.contains(
            rows[i].id,
        )
}

/// If deleting `targets` takes a reaction of `author` to the message `id` back,
/// it takes all of them back that could be shown.
pub open spec fn takes_all_back(
    rows: Seq<ReactionRowV>,
    author: PublicKey,
    targets: Seq<Seq<char>>,
    id: Seq<char>,
) -> bool {
    takes_back(rows, author, targets, id) ==> forall|i: int|
        0 <= i < rows.len() && (#[trigger] rows[i]).author == author && rows[i].counts_for(id)
            ==> targets.contains(rows[i].id)
}

/// The row after `author` deleted `targets` by the event `deletion`.
spec fn marked_row(
    row: ReactionRowV,
    author: PublicKey,
    targets: Seq<Seq<char>>,
    deletion: Seq<char>,
) -> ReactionRowV {
    if !row.is_deleted() && row.author == author && targets.contains(row.id) {
        ReactionRowV { deletion_event_id: Some(deletion), ..row }
    } else {
        row
    }
}

spec fn marked(
    rows: Seq<ReactionRowV>,
    author: PublicKey,
    targets: Seq<Seq<char>>,
    deletion: Seq<char>,
) -> Seq<ReactionRowV> {
    rows.map_values(|row: ReactionRowV| marked_row(row, author, targets, deletion))
}

proof fn lemma_contains_last(targets: Seq<Seq<char>>)
    requires
        targets.len() > 0,
    ensures
        forall|t: Seq<char>| #[trigger]
            targets.contains(t) <==> targets.drop_last().contains(t) || t == targets.last(),
{
    let rest = targets.drop_last();
    assert forall|t: Seq<char>| #[trigger]
        targets.contains(t) <==> rest.contains(t) || t == targets.last() by {
        if rest.contains(t) {
            let k = choose|k: int| 0 <= k < rest.len() && rest[k] == t;
            assert(targets[k] == t);
        }
        if targets.contains(t) && t != targets.last() {
            let k = choose|k: int| 0 <= k < targets.len() && targets[k] == t;
            assert(rest[k] == t);
        }
        assert(targets[targets.len() - 1] == targets.last());
    }
}

/// Of the stored events a deletion changes the reactions alone: it marks the
/// live ones of its author that it names.
proof fn lemma_delete_all_marks(
    c: CacheV,
    author: PublicKey,
    targets: Seq<Seq<char>>,
    deletion: Seq<char>,
)
    requires
        c.wf(),
    ensures
        c.delete_all(author, targets, deletion).0.reactions == marked(
            c.reactions,
            author,
            targets,
            deletion,
        ),
        c.delete_all(author, targets, deletion).0.deletions == c.deletions,
        c.delete_all(author, targets, deletion).0.outgoing == c.outgoing,
    decreases targets.len(),
{
    if targets.len() == 0 {
        assert(marked(c.reactions, author, targets, deletion) =~= c.reactions);
    } else {
        let rest = targets.drop_last();
        let t = targets.last();
        lemma_delete_all_marks(c, author, rest, deletion);
        lemma_contains_last(targets);
        let mid = c.delete_all(author, rest, deletion).0;
        let after = mid.delete_one(author, t, deletion).0;
        assert forall|i: int| 0 <= i < c.reactions.len() implies after.reactions[i] == marked_row(
            c.reactions[i],
            author,
            targets,
            deletion,
        ) by {
            if exists|at: int| reaction_at(mid.reactions, t, at) {
                let at = choose|at: int| reaction_at(mid.reactions, t, at);
                assert(reaction_at(mid.reactions, t, at));
                if i < at {
                    assert(c.reactions[i].id != c.reactions[at].id);
                } else if at < i {
                    assert(c.reactions[at].id != c.reactions[i].id);
                }
            } else {
                assert(!reaction_at(mid.reactions, t, i));
            }
        }
        assert(after.reactions =~= marked(c.reactions, author, targets, deletion));
    }
}

/// What a deletion does to the message `m` when it is cached.
spec fn after_targets(
    m: MessageV,
    rows: Seq<ReactionRowV>,
    author: PublicKey,
    targets: Seq<Seq<char>>,
    deletion: Seq<char>,
) -> MessageV {
    MessageV {
        deletion_event_id: if m.author == author && targets.contains(m.id) {
            Some(deletion)
        } else {
            m.deletion_event_id
        },
        reactions: if takes_back(rows, author, targets, m.id) {
            without_reaction(m.reactions, author)
        } else {
            m.reactions
        },
        ..m
    }
}

/// A deletion does the same to everything else, whether or not one message is
/// cached.
proof fn lemma_delete_alongside(
    c: CacheV,
    m: MessageV,
    author: PublicKey,
    targets: Seq<Seq<char>>,
    deletion: Seq<char>,
)
    requires
        c.wf(),
        forall|at: int| !reaction_at(c.reactions, m.id, at),
    ensures
        ({
            let with = CacheV { messages: c.messages.insert(m.id, m), ..c };
            let after = c.delete_all(author, targets, deletion).0;
            with.delete_all(author, targets, deletion).0 == (CacheV {
                messages: after.messages.insert(
                    m.id,
                    after_targets(m, c.reactions, author, targets, deletion),
                ),
                ..after
            })
        }),
    decreases targets.len(),
{
    let id = m.id;
    let with = CacheV { messages: c.messages.insert(id, m), ..c };
    if targets.len() == 0 {
        assert(after_targets(m, c.reactions, author, targets, deletion) == m);
    } else {
        let rest = targets.drop_last();
        let t = targets.last();
        lemma_delete_alongside(c, m, author, rest, deletion);
        lemma_delete_all_marks(c, author, rest, deletion);
        lemma_contains_last(targets);
        let a = c.delete_all(author, rest, deletion).0;
        let b = with.delete_all(author, rest, deletion).0;
        let before = after_targets(m, c.reactions, author, rest, deletion);
        let now = after_targets(m, c.reactions, author, targets, deletion);
        let a2 = a.delete_one(author, t, deletion).0;
        let b2 = b.delete_one(author, t, deletion).0;
        assert(a.reactions == b.reactions);
        if takes_back(c.reactions, author, rest, id) {
            let i = choose|i: int|
                0 <= i < c.reactions.len()
                    && live_reaction_to(#[trigger] c.reactions[i], author, id)
                    && rest.contains(c.reactions[i].id);
            assert(targets.contains(c.reactions[i].id));
        }
        if exists|at: int| reaction_at(a.reactions, t, at) {
            let at = choose|at: int| reaction_at(a.reactions, t, at);
            assert(reaction_at(a.reactions, t, at));
            assert(t != id) by {
                assert(!reaction_at(c.reactions, id, at));
            }
            let row = c.reactions[at];
            assert(row.id == t && !row.is_deleted());
            if live_reaction_to(row, author, id) {
                assert(takes_back(c.reactions, author, targets, id));
                lemma_without_commutes(m.reactions, author, author);
                if !has_reaction(before.reactions, author) {
                    lemma_without_absent(before.reactions, author);
                }
                assert(now.reactions == without_reaction(before.reactions, author));
            } else {
                lemma_takes_back_last(c, author, targets, id, at);
            }
        } else {
            lemma_takes_back_none(c, author, targets, deletion, id);
        }
        assert(b2.messages =~= a2.messages.insert(id, now));
    }
}

/// A target that names a live reaction to something else, or of somebody else,
/// takes nothing back from the message `id`.
proof fn lemma_takes_back_last(
    c: CacheV,
    author: PublicKey,
    targets: Seq<Seq<char>>,
    id: Seq<char>,
    at: int,
)
    requires
        c.wf(),
        targets.len() > 0,
        0 <= at < c.reactions.len(),
        c.reactions[at].id == targets.last(),
        !live_reaction_to(c.reactions[at], author, id),
    ensures
        takes_back(c.reactions, author, targets, id) == takes_back(
            c.reactions,
            author,
            targets.drop_last(),
            id,
        ),
{
    lemma_contains_last(targets);
    let rest = targets.drop_last();
    if takes_back(c.reactions, author, targets, id) {
        let i = choose|i: int|
            0 <= i < c.reactions.len() && live_reaction_to(#[trigger] c.reactions[i], author, id)
                && targets.contains(c.reactions[i].id);
        if i < at {
            assert(c.reactions[i].id != c.reactions[at].id);
        } else if at < i {
            assert(c.reactions[at].id != c.reactions[i].id);
        }
        assert(rest.contains(c.reactions[i].id));
    }
    if takes_back(c.reactions, author, rest, id) {
        let i = choose|i: int|
            0 <= i < c.reactions.len() && live_reaction_to(#[trigger] c.reactions[i], author, id)
                && rest.contains(c.reactions[i].id);
        assert(targets.contains(c.reactions[i].id));
    }
}

/// A target that names no live reaction takes nothing back that the targets
/// before it did not.
proof fn lemma_takes_back_none(
    c: CacheV,
    author: PublicKey,
    targets: Seq<Seq<char>>,
    deletion: Seq<char>,
    id: Seq<char>,
)
    requires
        targets.len() > 0,
        forall|at: int|
            !reaction_at(
                marked(c.reactions, author, targets.drop_last(), deletion),
                targets.last(),
                at,
            ),
    ensures
        takes_back(c.reactions, author, targets, id) == takes_back(
            c.reactions,
            author,
            targets.drop_last(),
            id,
        ),
{
    lemma_contains_last(targets);
    let rest = targets.drop_last();
    if takes_back(c.reactions, author, targets, id) {
        let i = choose|i: int|
            0 <= i < c.reactions.len() && live_reaction_to(#[trigger] c.reactions[i], author, id)
                && targets.contains(c.reactions[i].id);
        if !rest.contains(c.reactions[i].id) {
            assert(reaction_at(marked(c.reactions, author, rest, deletion), targets.last(), i));
        }
    }
    if takes_back(c.reactions, author, rest, id) {
        let i = choose|i: int|
            0 <= i < c.reactions.len() && live_reaction_to(#[trigger] c.reactions[i], author, id)
                && rest.contains(c.reactions[i].id);
        assert(targets.contains(c.reactions[i].id));
    }
}

/// What the stored reactions show of a message after a deletion: all that they
/// showed before, without those of its author if it takes them back.
proof fn lemma_marked_shown(
    rows: Seq<ReactionRowV>,
    author: PublicKey,
    targets: Seq<Seq<char>>,
    deletion: Seq<char>,
    id: Seq<char>,
    back: bool,
)
    requires
        back ==> forall|i: int|
            0 <= i < rows.len() && (#[trigger] rows[i]).author == author && rows[i].counts_for(id)
                ==> targets.contains(rows[i].id),
        !back ==> forall|i: int|
            0 <= i < rows.len() && (#[trigger] rows[i]).author == author && rows[i].counts_for(id)
                ==> !targets.contains(rows[i].id),
    ensures
        stored_reactions(marked(rows, author, targets, deletion), id) == (if back {
            without_reaction(stored_reactions(rows, id), author)
        } else {
            stored_reactions(rows, id)
        }),
    decreases rows.len(),
{
    let now = marked(rows, author, targets, deletion);
    if rows.len() == 0 {
        assert(now =~= rows);
        lemma_without_absent(Seq::empty(), author);
    } else {
        let before = rows.drop_last();
        assert forall|i: int| 0 <= i < before.len() implies #[trigger] before[i] == rows[i] by {}
        lemma_marked_shown(before, author, targets, deletion, id, back);
        assert(now.drop_last() =~= marked(before, author, targets, deletion));
        let row = rows.last();
        assert(rows[rows.len() - 1] == row);
        assert(now.last() == marked_row(row, author, targets, deletion));
        let shown = stored_reactions(before, id);
        if row.counts_for(id) {
            lemma_without_commutes(shown, row.author, author);
            lemma_without_push(without_reaction(shown, row.author), row.shown(), author);
        }
    }
}

/// A message and a deletion end in one state, whichever arrives first, whoever
/// sent the deletion and whatever else it deletes.
///
/// A deletion that takes some of its author's reactions to the message back and
/// leaves others is left out: where the message is cached, no reaction of that
/// author stays shown. So is one that was stored before.
pub proof fn deletion_may_come_first(c: CacheV, m: MarmotMessage, deletion: MarmotMessage)
    requires
        c.wf(),
        forall|at: int| !reaction_at(c.reactions, m.id@, at),
        c.outgoing.contains(deletion.id@) || (!c.has_deletion_row(deletion.id@) && takes_all_back(
            c.reactions,
            deletion.pubkey,
            deletion_targets(deletion.tags@),
            m.id@,
        )),
    ensures
        c.after_deletion(deletion).0.after_chat_message(m)
            == c.after_chat_message(m).after_deletion(
            deletion,
        ).0,
        c.after_chat_message(m).after_deletion(deletion).0.messages[m.id@].deletion_event_id == (
        if !c.outgoing.contains(deletion.id@) && deletion.pubkey == m.pubkey && deletion_targets(
            deletion.tags@,
        ).contains(m.id@) {
            Some(deletion.id@)
        } else {
            deletion_of(c.deletions, m.pubkey, m.id@)
        }),
{
    let id = m.id@;
    let author = deletion.pubkey;
    let targets = deletion_targets(deletion.tags@);
    chat_message_shows_what_is_stored(c, m);
    let cached = c.after_chat_message(m);
    assert(cached.outgoing == c.outgoing);
    if !c.outgoing.contains(deletion.id@) {
        let row = DeletionRowV { id: deletion.id@, author, targets };
        let stored = c.store_deletion(deletion);
        assert(stored.deletions == c.deletions.push(row));
        assert(stored.deletions.drop_last() =~= c.deletions);
        assert(stored.wf()) by {
            assert forall|i: int, j: int| 0 <= i < j < stored.deletions.len() implies stored.deletions[i].id
                != stored.deletions[j].id by {
                if j < c.deletions.len() {
                    assert(c.deletions[i].id != c.deletions[j].id);
                } else {
                    assert(stored.deletions[i] == c.deletions[i]);
                }
            }
        }
        assert(!cached.has_deletion_row(deletion.id@));
        let shown = cached.messages[id];
        assert(cached.store_deletion(deletion).messages =~= stored.messages.insert(id, shown));
        assert(cached.store_deletion(deletion) == (CacheV {
            messages: stored.messages.insert(id, shown),
            ..stored
        }));

        // The message first.
        lemma_delete_alongside(stored, shown, author, targets, deletion.id@);
        let right = cached.after_deletion(deletion).0;

        // The deletion first.
        let deleted = stored.delete_all(author, targets, deletion.id@).0;
        assert(c.after_deletion(deletion).0 == deleted);
        lemma_delete_all_marks(stored, author, targets, deletion.id@);
        lemma_delete_all_affects_author(stored, author, targets, deletion.id@);
        assert forall|at: int| !reaction_at(deleted.reactions, id, at) by {
            assert(!reaction_at(c.reactions, id, at));
        }
        chat_message_shows_what_is_stored(deleted, m);
        let left = deleted.after_chat_message(m);

        // Both show the same.
        let back = takes_back(c.reactions, author, targets, id);
        if !back {
            assert forall|i: int|
                0 <= i < c.reactions.len() && (#[trigger] c.reactions[i]).author == author
                    && c.reactions[i].counts_for(id) implies !targets.contains(c.reactions[i].id) by {
                assert(live_reaction_to(c.reactions[i], author, id));
            }
        }
        lemma_marked_shown(c.reactions, author, targets, deletion.id@, id, back);
        assert(stored.messages.dom().contains(id) <==> deleted.messages.dom().contains(id));
        assert(left.messages[id] == right.messages[id]);
        assert(left.messages =~= right.messages);
    }
}

/// A message and a reaction end in one state, whichever arrives first, whatever
/// the reaction is to and whether or not it can be shown.
///
/// A reaction that was stored before is left out: a message that is cached
/// shows it again as the newest.
pub proof fn reaction_may_come_first(c: CacheV, m: MarmotMessage, reaction: MarmotMessage)
    requires
        forall|at: int| !reaction_at(c.reactions, m.id@, at),
        c.outgoing.contains(reaction.id@) || (!c.has_reaction_row(reaction.id@)
            && reaction.id@ != m.id@),
    ensures
        c.after_reaction(reaction).after_chat_message(m) == c.after_chat_message(m).after_reaction(
            reaction,
        ),
        c.after_reaction(reaction).after_chat_message(m).messages[m.id@].reactions == (
        if !c.outgoing.contains(reaction.id@) && reaction_target(reaction.tags@) == Some(m.id@)
            && reaction.emoji is Some {
            with_reaction(
                stored_reactions(c.reactions, m.id@),
                ReactionV {
                    author: reaction.pubkey,
                    emoji: reaction.emoji->0@,
                    created_at: reaction.created_at,
                    reaction_id: reaction.id@,
                },
            )
        } else {
            stored_reactions(c.reactions, m.id@)
        }),
{
    let id = m.id@;
    chat_message_shows_what_is_stored(c, m);
    let cached = c.after_chat_message(m);
    assert(cached.outgoing == c.outgoing);
    assert(cached.reactions == c.reactions);
    if !c.outgoing.contains(reaction.id@) {
        let stored = c.store_reaction(reaction);
        let row = stored.reactions.last();
        assert(stored.reactions =~= c.reactions.push(row));
        assert(stored.reactions.drop_last() =~= c.reactions);
        let applied = stored.apply_reaction(reaction);
        assert(c.after_reaction(reaction) == applied);
        assert(applied.reactions == stored.reactions);
        assert forall|at: int| !reaction_at(applied.reactions, id, at) by {
            if reaction_at(applied.reactions, id, at) {
                if at < c.reactions.len() {
                    assert(reaction_at(c.reactions, id, at));
                }
            }
        }
        chat_message_shows_what_is_stored(applied, m);
        let left = applied.after_chat_message(m);
        assert(!cached.has_reaction_row(reaction.id@));
        let right = cached.after_reaction(reaction);
        assert(left.reactions =~= right.reactions);
        assert(left.messages =~= right.messages);
    }
}

/// The echo of a reaction or deletion that this account sent changes nothing
/// and shows nothing.
pub proof fn echoes_change_nothing(c: CacheV, m: MarmotMessage)
    requires
        c.outgoing.contains(m.id@),
    ensures
        c.after_reaction(m) == c,
        c.after_deletion(m).0 == c,
        c.after_deletion(m).1.len() == 0,
{
}

/// A message that is cached again, as the echo of one sent from here is,
/// keeps its delivery status.
pub proof fn echo_keeps_delivery_status(c: CacheV, m: MarmotMessage)
    requires
        c.wf(),
        c.messages.dom().contains(m.id@),
    ensures
        c.after_chat_message(m).messages[m.id@].delivery_status
            == c.messages[m.id@].delivery_status,
{
    let filed = c.file_message(m);
    assert(filed.wf());
    lemma_replay_affects_author(filed, c.deletions, m.pubkey, m.id@);
    assert(filed.messages.dom().contains(m.id@));
}

proof fn lemma_replay_affects_author(
    c: CacheV,
    rows: Seq<DeletionRowV>,
    author: PublicKey,
    id: Seq<char>,
)
    requires
        c.wf(),
    ensures
        only_author_affected(c, c.replay_deletions(rows, author, id), author),
        c.replay_deletions(rows, author, id).wf(),
    decreases rows.len(),
{
    if rows.len() == 0 {
        assert(only_author_affected(c, c, author));
    } else {
        lemma_replay_affects_author(c, rows.drop_last(), author, id);
        let mid = c.replay_deletions(rows.drop_last(), author, id);
        let deletion = rows.last().id;
        lemma_delete_one_affects_author(mid, author, id, deletion);
        lemma_affects_transitive(c, mid, mid.delete_one(author, id, deletion).0, author);
    }
}

/// The deletion event is stored as well as applied, so that the cache stays
/// well-formed.
proof fn lemma_stored_deletion_wf(c: CacheV, m: MarmotMessage)
    requires
        c.wf(),
    ensures
        c.store_deletion(m).wf(),
        c.store_deletion(m).messages == c.messages,
        c.store_deletion(m).reactions == c.reactions,
{
    let stored = c.store_deletion(m);
    if !c.has_deletion_row(m.id@) {
        assert forall|i: int, j: int| 0 <= i < j < stored.deletions.len() implies stored.deletions[i].id
            != stored.deletions[j].id by {
            if j < c.deletions.len() {
                assert(c.deletions[i].id != c.deletions[j].id);
            } else {
                assert(stored.deletions[i] == c.deletions[i]);
            }
        }
    }
}

/// A deletion that is no echo is stored and then applied to all that its tags
/// name, and what it announces is what that announces.
pub proof fn a_deletion_is_applied_to_all_its_targets(c: CacheV, m: MarmotMessage)
    requires
        !c.outgoing.contains(m.id@),
    ensures
        c.after_deletion(m).0 == c.store_deletion(m).delete_all(
            m.pubkey,
            deletion_targets(m.tags@),
            m.id@,
        ).0,
        c.after_deletion(m).1 == c.store_deletion(m).delete_all(
            m.pubkey,
            deletion_targets(m.tags@),
            m.id@,
        ).1,
{
}

/// Once a deletion event has been taken in, each live reaction of its author
/// that one of its `e` tags names is marked with it, and every other stored
/// reaction is as it was.
pub proof fn a_deletion_marks_the_reactions_that_it_names(c: CacheV, m: MarmotMessage, at: int)
    requires
        c.wf(),
        !c.outgoing.contains(m.id@),
        0 <= at < c.reactions.len(),
    ensures
        ({
            let was = c.reactions[at];
            let now = c.after_deletion(m).0.reactions[at];
            let named = exists|k: int|
                0 <= k < m.tags@.len() && (#[trigger] m.tags@[k]).items@.len() >= 2
                    && m.tags@[k].items@[0]@ == "e"@ && m.tags@[k].items@[1]@ == was.id;
            let taken_back = named && was.author == m.pubkey && was.deletion_event_id is None;
            &&& c.after_deletion(m).0.reactions.len() == c.reactions.len()
            &&& taken_back ==> now.deletion_event_id == Some(m.id@)
            &&& !taken_back ==> now.deletion_event_id == was.deletion_event_id
            &&& now.id == was.id && now.author == was.author && now.created_at == was.created_at
            &&& now.target == was.target && now.emoji == was.emoji
        }),
{
    lemma_stored_deletion_wf(c, m);
    a_deletion_names_its_e_tags(m.tags@, m.tags@[0], c.reactions[at].id);
    lemma_delete_all_marks(c.store_deletion(m), m.pubkey, deletion_targets(m.tags@), m.id@);
}

/// Once a deletion event has been taken in, a cached message shows no reaction
/// of its author if one of the `e` tags names a live reaction of that author
/// to the message; otherwise it shows what it showed. What others reacted, and
/// what the message says, stays.
pub proof fn a_deletion_takes_named_reactions_off_their_message(c: CacheV, m: MarmotMessage, id: Seq<char>)
    requires
        c.wf(),
        !c.outgoing.contains(m.id@),
        c.messages.dom().contains(id),
        forall|i: int|
            0 <= i < c.reactions.len() && (#[trigger] c.reactions[i]).id == id
                ==> c.reactions[i].deletion_event_id is Some,
    ensures
        ({
            let was = c.messages[id];
            let now = c.after_deletion(m).0.messages[id];
            let took = exists|i: int, k: int|
                0 <= i < c.reactions.len() && 0 <= k < m.tags@.len() && (
                #[trigger] c.reactions[i]).deletion_event_id is None && c.reactions[i].author
                    == m.pubkey
                    && c.reactions[i].target == Some(id)
                        && (#[trigger] m.tags@[k]).items@.len() >= 2
                    && m.tags@[k].items@[0]@ == "e"@ && m.tags@[k].items@[1]@ == c.reactions[i].id;
            &&& took ==> forall|x: ReactionV| #[trigger]
                now.reactions.contains(x) <==> was.reactions.contains(x) && x.author != m.pubkey
            &&& !took ==> now.reactions == was.reactions
            &&& now.author == was.author && now.content == was.content && now.created_at
                == was.created_at && now.delivery_status == was.delivery_status && now.id == was.id
        }),
{
    let stored = c.store_deletion(m);
    let targets = deletion_targets(m.tags@);
    let was = c.messages[id];
    lemma_stored_deletion_wf(c, m);
    assert forall|at: int| !reaction_at(stored.reactions, was.id, at) by {}
    lemma_delete_alongside(stored, was, m.pubkey, targets, m.id@);
    assert(stored.messages.insert(was.id, was) =~= stored.messages);
    let now = c.after_deletion(m).0.messages[id];
    assert(now == after_targets(was, c.reactions, m.pubkey, targets, m.id@));
    let back = takes_back(c.reactions, m.pubkey, targets, id);
    let took = exists|i: int, k: int|
        0 <= i < c.reactions.len() && 0 <= k < m.tags@.len() && (
        #[trigger] c.reactions[i]).deletion_event_id is None && c.reactions[i].author == m.pubkey
            && c.reactions[i].target == Some(id) && (#[trigger] m.tags@[k]).items@.len() >= 2
            && m.tags@[k].items@[0]@ == "e"@ && m.tags@[k].items@[1]@ == c.reactions[i].id;
    if back {
        let i = choose|i: int|
            0 <= i < c.reactions.len() && live_reaction_to(#[trigger] c.reactions[i], m.pubkey, id)
                && targets.contains(c.reactions[i].id);
        a_deletion_names_its_e_tags(m.tags@, m.tags@[0], c.reactions[i].id);
        let k = choose|k: int|
            0 <= k < m.tags@.len() && (#[trigger] m.tags@[k]).items@.len() >= 2
                && m.tags@[k].items@[0]@
                == "e"@ && m.tags@[k].items@[1]@ == c.reactions[i].id;
        assert(c.reactions[i].deletion_event_id is None && m.tags@[k].items@.len() >= 2);
        assert(took);
    }
    if took {
        let (i, k) = choose|i: int, k: int|
            0 <= i < c.reactions.len() && 0 <= k < m.tags@.len() && (
            #[trigger] c.reactions[i]).deletion_event_id is None && c.reactions[i].author
                == m.pubkey
                && c.reactions[i].target == Some(id) && (#[trigger] m.tags@[k]).items@.len() >= 2
                && m.tags@[k].items@[0]@ == "e"@ && m.tags@[k].items@[1]@ == c.reactions[i].id;
        a_deletion_names_its_e_tags(m.tags@, m.tags@[0], c.reactions[i].id);
        assert(live_reaction_to(c.reactions[i], m.pubkey, id));
        assert(back);
        assert forall|x: ReactionV| #[trigger] now.reactions.contains(x)
            <==> was.reactions.contains(x)
            && x.author != m.pubkey by {
            without_reaction_spares_the_others(was.reactions, m.pubkey, x);
        }
    }
}

proof fn lemma_deletion_is_announced(
    c: CacheV,
    author: PublicKey,
    targets: Seq<Seq<char>>,
    deletion: Seq<char>,
    id: Seq<char>,
) -> (i: int)
    requires
        c.wf(),
        targets.contains(id),
        c.messages.dom().contains(id),
        c.messages[id].author == author,
        forall|at: int| !reaction_at(c.reactions, id, at),
    ensures
        ({
            let told = c.delete_all(author, targets, deletion).1;
            &&& 0 <= i < told.len()
            &&& told[i].trigger == UpdateTrigger::MessageDeleted
            &&& told[i].message.id == id && told[i].message.deletion_event_id == Some(deletion)
        }),
    decreases targets.len(),
{
    let rest = targets.drop_last();
    let before = c.delete_all(author, rest, deletion).0;
    let told = c.delete_all(author, rest, deletion).1;
    lemma_contains_last(targets);
    if rest.contains(id) {
        let i = lemma_deletion_is_announced(c, author, rest, deletion, id);
        assert(c.delete_all(author, targets, deletion).1[i] == told[i]);
        i
    } else {
        lemma_delete_all_affects_author(c, author, rest, deletion);
        lemma_delete_all_marks(c, author, rest, deletion);
        assert(c.messages.dom().contains(id));
        assert forall|at: int| !reaction_at(before.reactions, id, at) by {
            assert(!reaction_at(c.reactions, id, at));
        }
        told.len() as int
    }
}

/// Every message that a deletion deletes is announced as deleted, with the
/// deletion on it.
pub proof fn deleted_messages_are_announced(c: CacheV, m: MarmotMessage, id: Seq<char>, k: int)
    requires
        c.wf(),
        !c.outgoing.contains(m.id@),
        c.messages.dom().contains(id),
        c.messages[id].author == m.pubkey,
        forall|i: int|
            0 <= i < c.reactions.len() && (#[trigger] c.reactions[i]).id == id
                ==> c.reactions[i].deletion_event_id is Some,
        0 <= k < m.tags@.len(),
        m.tags@[k].items@.len() >= 2,
        m.tags@[k].items@[0]@ == "e"@,
        m.tags@[k].items@[1]@ == id,
    ensures
        exists|i: int|
            0 <= i < c.after_deletion(m).1.len() && (#[trigger] c.after_deletion(m).1[i]).trigger
                == UpdateTrigger::MessageDeleted && c.after_deletion(m).1[i].message.id == id
                && c.after_deletion(m).1[i].message.deletion_event_id == Some(m.id@),
{
    lemma_stored_deletion_wf(c, m);
    a_deletion_names_its_e_tags(m.tags@, m.tags@[k], id);
    let stored = c.store_deletion(m);
    assert forall|at: int| !reaction_at(stored.reactions, id, at) by {}
    let i = lemma_deletion_is_announced(stored, m.pubkey, deletion_targets(m.tags@), m.id@, id);
    assert(c.after_deletion(m).1[i].message.id == id);
}

} // verus!
