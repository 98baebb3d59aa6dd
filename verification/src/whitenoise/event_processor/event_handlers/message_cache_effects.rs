//! What each event changes in the cache, column by column, and what it leaves
//! as it was.

use vstd::prelude::*;

use super::message_cache::{
    deletion_targets, reaction_at, reaction_target, stored_reactions, with_reaction,
    without_reaction, CacheV, ChatMessage, DeletionRow, DeletionRowV, MarmotMessage, ReactionRow,
    ReactionRowV, ReactionV, Update, UpdateTrigger, UserReaction,
};
use crate::whitenoise::nostr::{first_tag, first_tag_decides, PublicKey, Tag};

verus! {

/// Taking a user's reactions away leaves those of the others, in their order,
/// and none of that user.
pub proof fn without_reaction_spares_the_others(reactions: Seq<ReactionV>, author: PublicKey, r: ReactionV)
    ensures
        without_reaction(reactions, author).contains(r) <==> reactions.contains(r)
            && r.author != author,
        without_reaction(Seq::empty(), author) == Seq::<ReactionV>::empty(),
        r.author != author ==> without_reaction(reactions.push(r), author) == without_reaction(
            reactions,
            author,
        ).push(r),
        r.author == author ==> without_reaction(reactions.push(r), author) == without_reaction(
            reactions,
            author,
        ),
{
    broadcast use vstd::seq_lib::group_filter_ensures;

    reveal(Seq::filter);
    assert(reactions.push(r).drop_last() =~= reactions);
    let f = |x: ReactionV| x.author != author;
    let all = reactions.filter(f);
    if all.contains(r) {
        let k = choose|k: int| 0 <= k < all.len() && all[k] == r;
        assert(f(all[k]));
        reactions.lemma_filter_contains_rev(f, r);
    }
    if reactions.contains(r) && r.author != author {
        let k = choose|k: int| 0 <= k < reactions.len() && reactions[k] == r;
        assert(f(reactions[k]));
        assert(all.contains(reactions[k]));
    }
}

/// After a reaction is added, its author has exactly one reaction, and it is
/// that one, the last of all. What the others reacted stays, and nothing else
/// is there.
pub proof fn a_new_reaction_replaces_the_old(reactions: Seq<ReactionV>, r: ReactionV)
    ensures
        with_reaction(reactions, r).contains(r),
        with_reaction(reactions, r).last() == r,
        forall|i: int|
            0 <= i < with_reaction(reactions, r).len()
                && (#[trigger] with_reaction(reactions, r)[i]).author
                == r.author ==> with_reaction(reactions, r)[i] == r && i == with_reaction(
                reactions,
                r,
            ).len() - 1,
        forall|x: ReactionV|
            x.author != r.author ==> (#[trigger] with_reaction(reactions, r).contains(x)
                <==> reactions.contains(x)),
{
    let after = with_reaction(reactions, r);
    let rest = without_reaction(reactions, r.author);
    assert(after[after.len() - 1] == r);
    assert forall|i: int| 0 <= i < after.len() && (#[trigger] after[i]).author
        == r.author implies after[i] == r
        && i == after.len() - 1 by {
        if i < rest.len() {
            assert(rest.contains(rest[i]));
            without_reaction_spares_the_others(reactions, r.author, rest[i]);
        }
    }
    assert forall|x: ReactionV| x.author != r.author implies (#[trigger] after.contains(x)
        <==> reactions.contains(
        x,
    )) by {
        without_reaction_spares_the_others(reactions, r.author, x);
        if after.contains(x) {
            let k = choose|k: int| 0 <= k < after.len() && after[k] == x;
            assert(rest[k] == x);
        }
        if rest.contains(x) {
            let k = choose|k: int| 0 <= k < rest.len() && rest[k] == x;
            assert(after[k] == x);
        }
    }
}

/// A user's reaction to a cached message, unless it is an echo of this
/// account's own, leaves the message with exactly one reaction by that user:
/// this one, with its emoji, its time and its event. The reactions of others
/// stay, no other part of the message changes, and no other message does.
///
/// The message is the one that the reaction's first `e` tag names.
pub proof fn a_reaction_is_shown_on_its_message(c: CacheV, m: MarmotMessage, k: int, target: Seq<char>)
    requires
        !c.outgoing.contains(m.id@),
        m.emoji is Some,
        0 <= k < m.tags@.len(),
        m.tags@[k].items@.len() >= 2,
        m.tags@[k].items@[0]@ == "e"@,
        m.tags@[k].items@[1]@ == target,
        forall|j: int|
            0 <= j < k ==> (#[trigger] m.tags@[j]).items@.len() == 0
                || m.tags@[j].items@[0]@ != "e"@,
        c.messages.dom().contains(target),
    ensures
        c.after_reaction(m).messages.dom() == c.messages.dom(),
        exists|i: int|
            0 <= i < c.after_reaction(m).messages[target].reactions.len() && {
                let r = #[trigger] c.after_reaction(m).messages[target].reactions[i];
                r.author == m.pubkey && r.emoji == m.emoji->0@ && r.created_at == m.created_at
                    && r.reaction_id == m.id@
            },
        forall|i: int, j: int|
            0 <= i < c.after_reaction(m).messages[target].reactions.len() && 0 <= j
                < c.after_reaction(m).messages[target].reactions.len() && (
            #[trigger] c.after_reaction(m).messages[target].reactions[i]).author == m.pubkey && (
            #[trigger] c.after_reaction(m).messages[target].reactions[j]).author == m.pubkey ==> i
                == j,
        forall|x: ReactionV|
            x.author != m.pubkey
                ==> (#[trigger] c.after_reaction(m).messages[target].reactions.contains(x)
                <==> c.messages[target].reactions.contains(x)),
        ({
            let was = c.messages[target];
            let now = c.after_reaction(m).messages[target];
            &&& now.id == was.id && now.author == was.author && now.created_at == was.created_at
            &&& now.content == was.content && now.deletion_event_id == was.deletion_event_id
            &&& now.delivery_status == was.delivery_status
        }),
        forall|id: Seq<char>|
            id != target && c.messages.dom().contains(id)
                ==> #[trigger] c.after_reaction(m).messages[id]
                == c.messages[id],
{
    first_tag_decides(m.tags@, "e"@, k);
    let after = c.after_reaction(m);
    let r = ReactionV {
        author: m.pubkey,
        emoji: m.emoji->0@,
        created_at: m.created_at,
        reaction_id: m.id@,
    };
    let was = c.messages[target].reactions;
    let now = after.messages[target].reactions;
    a_new_reaction_replaces_the_old(was, r);
    assert(now == with_reaction(was, r));
    assert(now[now.len() - 1] == r);
    assert(after.messages.dom() =~= c.messages.dom());
}

/// A reaction event is stored once, under its identifier and with what it
/// says, whether or not it can be shown. An event that is stored already is
/// not stored again, and nothing that was stored before changes.
pub proof fn a_reaction_is_stored_once(c: CacheV, m: MarmotMessage)
    requires
        !c.outgoing.contains(m.id@),
    ensures
        (exists|i: int| 0 <= i < c.reactions.len() && (#[trigger] c.reactions[i]).id == m.id@)
            ==> c.after_reaction(m).reactions == c.reactions,
        (forall|i: int| 0 <= i < c.reactions.len() ==> (#[trigger] c.reactions[i]).id != m.id@)
            ==> {
            let rows = c.after_reaction(m).reactions;
            let row = rows[c.reactions.len() as int];
            &&& rows.len() == c.reactions.len() + 1
            &&& forall|i: int| 0 <= i < c.reactions.len() ==> #[trigger] rows[i] == c.reactions[i]
            &&& row.id == m.id@ && row.author == m.pubkey && row.created_at == m.created_at
            &&& row.deletion_event_id is None
            &&& m.emoji is None ==> row.emoji is None
            &&& m.emoji is Some ==> row.emoji == Some(m.emoji->0@)
            &&& forall|k: int|
                0 <= k < m.tags@.len() && (#[trigger] m.tags@[k]).items@.len() >= 2
                    && m.tags@[k].items@[0]@ == "e"@ && (forall|j: int|
                    0 <= j < k ==> (#[trigger] m.tags@[j]).items@.len() == 0
                        || m.tags@[j].items@[0]@
                        != "e"@) ==> row.target == Some(m.tags@[k].items@[1]@)
            &&& (forall|j: int|
                0 <= j < m.tags@.len() ==> (#[trigger] m.tags@[j]).items@.len() == 0
                    || m.tags@[j].items@[0]@ != "e"@) ==> row.target is None
        },
        c.after_reaction(m).deletions == c.deletions,
        c.after_reaction(m).outgoing == c.outgoing,
{
    first_tag_decides(m.tags@, "e"@, 0);
    assert forall|k: int|
        0 <= k < m.tags@.len() && (#[trigger] m.tags@[k]).items@.len() >= 2
            && m.tags@[k].items@[0]@ == "e"@
            && (forall|j: int|
            0 <= j < k ==> (#[trigger] m.tags@[j]).items@.len() == 0
                || m.tags@[j].items@[0]@ != "e"@) implies reaction_target(
        m.tags@,
    ) == Some(m.tags@[k].items@[1]@) by {
        first_tag_decides(m.tags@, "e"@, k);
    }
}

/// A reaction changes no message where it names none, where the message that
/// its first `e` tag names is not cached, and where its content is no emoji.
pub proof fn a_reaction_to_nothing_shows_nothing(c: CacheV, m: MarmotMessage)
    requires
        m.emoji is None || forall|k: int|
            0 <= k < m.tags@.len() && (#[trigger] m.tags@[k]).items@.len() >= 2
                && m.tags@[k].items@[0]@
                == "e"@ ==> !c.messages.dom().contains(m.tags@[k].items@[1]@),
    ensures
        c.after_reaction(m).messages == c.messages,
{
    if c.after_reaction(m).messages != c.messages {
        let tags = m.tags@;
        assert(reaction_target(tags) is Some);
        let at = choose|at: int| first_tag(tags, "e"@, at);
        assert(first_tag(tags, "e"@, at));
        assert(tags[at].items@.len() >= 2);
    }
}

/// A deletion names exactly the events that the `e` tags of its event hold
/// right after their name, in the order of the tags.
pub proof fn a_deletion_names_its_e_tags(tags: Seq<Tag>, tag: Tag, target: Seq<char>)
    ensures
        deletion_targets(tags).contains(target) <==> exists|k: int|
            0 <= k < tags.len() && (#[trigger] tags[k]).items@.len() >= 2 && tags[k].items@[0]@
                == "e"@
                && tags[k].items@[1]@ == target,
        deletion_targets(Seq::empty()) == Seq::<Seq<char>>::empty(),
        deletion_targets(tags.push(tag)) == (if tag.items@.len() >= 2 && tag.items@[0]@ == "e"@ {
            deletion_targets(tags).push(tag.items@[1]@)
        } else {
            deletion_targets(tags)
        }),
    decreases tags.len(),
{
    assert(tags.push(tag).drop_last() =~= tags);
    if tags.len() > 0 {
        let rest = tags.drop_last();
        let last = tags.last();
        a_deletion_names_its_e_tags(rest, last, target);
        let all = deletion_targets(tags);
        let before = deletion_targets(rest);
        assert(rest.push(last) =~= tags);
        if all.contains(target) {
            let i = choose|i: int| 0 <= i < all.len() && all[i] == target;
            if i < before.len() {
                assert(before[i] == target);
                let k = choose|k: int|
                    0 <= k < rest.len() && (#[trigger] rest[k]).items@.len() >= 2
                        && rest[k].items@[0]@
                        == "e"@ && rest[k].items@[1]@ == target;
                assert(tags[k] == rest[k]);
            } else {
                assert(tags[tags.len() - 1] == last);
            }
        }
        if exists|k: int|
            0 <= k < tags.len() && (#[trigger] tags[k]).items@.len() >= 2 && tags[k].items@[0]@
                == "e"@
                && tags[k].items@[1]@ == target {
            let k = choose|k: int|
                0 <= k < tags.len() && (#[trigger] tags[k]).items@.len() >= 2 && tags[k].items@[0]@
                    == "e"@ && tags[k].items@[1]@ == target;
            if k < rest.len() {
                assert(rest[k] == tags[k]);
                let i = choose|i: int| 0 <= i < before.len() && before[i] == target;
                assert(all[i] == target);
            } else {
                assert(all[all.len() - 1] == target);
            }
        }
    }
}

/// A live reaction is taken back by its author and by nobody else. Its row is
/// marked with the deletion. Where its message is cached and shows a reaction
/// of the author, that one is gone from it and the change is announced; the
/// reactions of others and everything else stay.
pub proof fn only_its_author_takes_a_reaction_back(
    c: CacheV,
    author: PublicKey,
    at: int,
    deletion: Seq<char>,
)
    requires
        c.wf(),
        0 <= at < c.reactions.len(),
        c.reactions[at].deletion_event_id is None,
    ensures
        ({
            let target = c.reactions[at].id;
            let (after, update) = c.delete_one(author, target, deletion);
            let was = c.reactions[at];
            let now = after.reactions[at];
            &&& was.author != author ==> after == c && update is None
            &&& was.author == author ==> {
                &&& now.deletion_event_id == Some(deletion)
                &&& now.id == was.id && now.author == was.author && now.created_at == was.created_at
                    && now.target == was.target && now.emoji == was.emoji
                &&& after.reactions.len() == c.reactions.len()
                &&& forall|i: int|
                    0 <= i < c.reactions.len() && i != at ==> #[trigger] after.reactions[i]
                        == c.reactions[i]
                &&& after.deletions == c.deletions && after.outgoing == c.outgoing
                &&& after.messages.dom() == c.messages.dom()
                &&& forall|id: Seq<char>|
                    c.messages.dom().contains(id) && was.target != Some(id)
                        ==> #[trigger] after.messages[id] == c.messages[id]
            }
        }),
{
    let target = c.reactions[at].id;
    assert(reaction_at(c.reactions, target, at));
    let found = choose|k: int| reaction_at(c.reactions, target, k);
    assert(reaction_at(c.reactions, target, found));
    assert(found == at) by {
        if found < at {
            assert(c.reactions[found].id != c.reactions[at].id);
        } else if at < found {
            assert(c.reactions[at].id != c.reactions[found].id);
        }
    }
    let after = c.delete_one(author, target, deletion).0;
    assert(after.messages.dom() =~= c.messages.dom());
}

/// What a reaction that is taken back by its author changes on its message:
/// the author's reactions are gone from it, those of others and everything
/// else stay, and the change is announced if there was a reaction to remove.
pub proof fn a_reaction_taken_back_is_gone_from_its_message(
    c: CacheV,
    at: int,
    deletion: Seq<char>,
    id: Seq<char>,
)
    requires
        c.wf(),
        0 <= at < c.reactions.len(),
        c.reactions[at].deletion_event_id is None,
        c.reactions[at].target == Some(id),
        c.messages.dom().contains(id),
    ensures
        ({
            let author = c.reactions[at].author;
            let (after, update) = c.delete_one(author, c.reactions[at].id, deletion);
            let was = c.messages[id];
            let now = after.messages[id];
            let shown = exists|i: int|
                0 <= i < was.reactions.len() && (#[trigger] was.reactions[i]).author == author;
            &&& forall|x: ReactionV| #[trigger]
                now.reactions.contains(x) <==> was.reactions.contains(x) && x.author != author
            &&& now.id == was.id && now.author == was.author && now.created_at == was.created_at
            &&& now.content == was.content && now.deletion_event_id == was.deletion_event_id
            &&& now.delivery_status == was.delivery_status
            &&& !shown ==> update is None && now == was
            &&& shown ==> update is Some && update->0.trigger == UpdateTrigger::ReactionRemoved
                && update->0.message == now
        }),
{
    let target = c.reactions[at].id;
    let author = c.reactions[at].author;
    assert(reaction_at(c.reactions, target, at));
    let found = choose|k: int| reaction_at(c.reactions, target, k);
    assert(reaction_at(c.reactions, target, found));
    assert(found == at) by {
        if found < at {
            assert(c.reactions[found].id != c.reactions[at].id);
        } else if at < found {
            assert(c.reactions[at].id != c.reactions[found].id);
        }
    }
    let was = c.messages[id];
    let now = c.delete_one(author, target, deletion).0.messages[id];
    assert forall|x: ReactionV| #[trigger] now.reactions.contains(x) <==> was.reactions.contains(x)
        && x.author
        != author by {
        without_reaction_spares_the_others(was.reactions, author, x);
    }
}

/// A reaction that is taken back while its message is not cached is marked and
/// nothing is announced.
pub proof fn a_reaction_taken_back_early_is_not_announced(c: CacheV, at: int, deletion: Seq<char>)
    requires
        c.wf(),
        0 <= at < c.reactions.len(),
        c.reactions[at].deletion_event_id is None,
        c.reactions[at].target is None || !c.messages.dom().contains(c.reactions[at].target->0),
    ensures
        c.delete_one(c.reactions[at].author, c.reactions[at].id, deletion).1 is None,
        c.delete_one(c.reactions[at].author, c.reactions[at].id, deletion).0.messages == c.messages,
{
    let target = c.reactions[at].id;
    assert(reaction_at(c.reactions, target, at));
    let found = choose|k: int| reaction_at(c.reactions, target, k);
    assert(reaction_at(c.reactions, target, found));
    assert(found == at) by {
        if found < at {
            assert(c.reactions[found].id != c.reactions[at].id);
        } else if at < found {
            assert(c.reactions[at].id != c.reactions[found].id);
        }
    }
}

/// A message is deleted by its author and by nobody else: it bears the
/// deletion's identifier from then on, keeps all else, and the change is
/// announced. A deletion of what is not stored does nothing.
pub proof fn only_its_author_deletes_a_message(
    c: CacheV,
    author: PublicKey,
    target: Seq<char>,
    deletion: Seq<char>,
)
    requires
        forall|i: int|
            0 <= i < c.reactions.len() && (#[trigger] c.reactions[i]).id == target
                ==> c.reactions[i].deletion_event_id is Some,
    ensures
        ({
            let (after, update) = c.delete_one(author, target, deletion);
            let was = c.messages[target];
            let now = after.messages[target];
            let own = c.messages.dom().contains(target) && was.author == author;
            &&& !own ==> after == c && update is None
            &&& own ==> {
                &&& now.deletion_event_id == Some(deletion)
                &&& now.id == was.id && now.author == was.author && now.created_at == was.created_at
                &&& now.content == was.content && now.delivery_status == was.delivery_status
                &&& now.reactions == was.reactions
                &&& after.messages.dom() == c.messages.dom()
                &&& forall|id: Seq<char>|
                    id != target && c.messages.dom().contains(id) ==> #[trigger] after.messages[id]
                        == c.messages[id]
                &&& after.reactions == c.reactions && after.deletions == c.deletions
                    && after.outgoing
                    == c.outgoing
                &&& update is Some && update->0.trigger == UpdateTrigger::MessageDeleted
                    && update->0.message == now
            }
        }),
{
    assert forall|at: int| !reaction_at(c.reactions, target, at) by {}
    let after = c.delete_one(author, target, deletion).0;
    if c.messages.dom().contains(target) {
        assert(c.messages.insert(target, after.messages[target]).dom() =~= c.messages.dom());
    }
}

/// A deletion of several events is the deletion of each in turn, and it
/// announces what each of them announces, in that order.
pub proof fn targets_are_deleted_in_turn(
    c: CacheV,
    author: PublicKey,
    targets: Seq<Seq<char>>,
    target: Seq<char>,
    deletion: Seq<char>,
)
    ensures
        c.delete_all(author, Seq::empty(), deletion).0 == c,
        c.delete_all(author, Seq::empty(), deletion).1.len() == 0,
        ({
            let (before, shown) = c.delete_all(author, targets, deletion);
            let (after, all) = c.delete_all(author, targets.push(target), deletion);
            let (one, update) = before.delete_one(author, target, deletion);
            &&& after == one
            &&& update is None ==> all == shown
            &&& update is Some ==> all.len() == shown.len() + 1 && all.last() == update->0
            &&& forall|i: int| 0 <= i < shown.len() ==> #[trigger] all[i] == shown[i]
        }),
{
    assert(targets.push(target).drop_last() =~= targets);
}

/// A deletion event is stored once, with its author and the events that its
/// `e` tags name, unless it is an echo. What was stored before stays.
pub proof fn a_deletion_is_stored_once(c: CacheV, m: MarmotMessage)
    ensures
        c.outgoing.contains(m.id@) ==> c.after_deletion(m).0.deletions == c.deletions,
        (exists|i: int| 0 <= i < c.deletions.len() && (#[trigger] c.deletions[i]).id == m.id@)
            ==> c.after_deletion(m).0.deletions == c.deletions,
        !c.outgoing.contains(m.id@) && (forall|i: int|
            0 <= i < c.deletions.len() ==> (#[trigger] c.deletions[i]).id != m.id@) ==> {
            let rows = c.after_deletion(m).0.deletions;
            let row = rows[c.deletions.len() as int];
            &&& rows.len() == c.deletions.len() + 1
            &&& forall|i: int| 0 <= i < c.deletions.len() ==> #[trigger] rows[i] == c.deletions[i]
            &&& row.id == m.id@ && row.author == m.pubkey
            &&& forall|target: Seq<char>| #[trigger]
                row.targets.contains(target) <==> exists|k: int|
                    0 <= k < m.tags@.len() && (#[trigger] m.tags@[k]).items@.len() >= 2
                        && m.tags@[k].items@[0]@ == "e"@ && m.tags@[k].items@[1]@ == target
        },
        c.after_deletion(m).0.outgoing == c.outgoing,
{
    if !c.outgoing.contains(m.id@) {
        lemma_delete_all_stores_nothing(
            c.store_deletion(m),
            m.pubkey,
            deletion_targets(m.tags@),
            m.id@,
        );
    }
    assert forall|target: Seq<char>| #[trigger] deletion_targets(m.tags@).contains(target)
        <==> exists|k: int|
        0 <= k < m.tags@.len() && (#[trigger] m.tags@[k]).items@.len() >= 2
            && m.tags@[k].items@[0]@ == "e"@
            && m.tags@[k].items@[1]@ == target by {
        a_deletion_names_its_e_tags(m.tags@, Tag { items: m.tags@[0].items }, target);
    }
}

proof fn lemma_delete_all_stores_nothing(
    c: CacheV,
    author: PublicKey,
    targets: Seq<Seq<char>>,
    deletion: Seq<char>,
)
    ensures
        c.delete_all(author, targets, deletion).0.deletions == c.deletions,
        c.delete_all(author, targets, deletion).0.outgoing == c.outgoing,
    decreases targets.len(),
{
    if targets.len() > 0 {
        lemma_delete_all_stores_nothing(c, author, targets.drop_last(), deletion);
    }
}

proof fn lemma_delete_all_keeps_ids(
    c: CacheV,
    author: PublicKey,
    targets: Seq<Seq<char>>,
    deletion: Seq<char>,
    target: Seq<char>,
)
    requires
        c.messages.dom().contains(target),
        forall|i: int| 0 <= i < c.reactions.len() ==> (#[trigger] c.reactions[i]).id != target,
    ensures
        ({
            let after = c.delete_all(author, targets, deletion).0;
            &&& after.messages.dom().contains(target)
            &&& after.messages[target].author == c.messages[target].author
            &&& forall|i: int| 0 <= i < after.reactions.len() ==> (#[trigger] after.reactions[i]).id
                != target
            &&& targets.contains(target) && c.messages[target].author == author
                ==> after.messages[target].deletion_event_id == Some(deletion)
            &&& !targets.contains(target) || c.messages[target].author != author
                ==> after.messages[target].deletion_event_id == c.messages[target].deletion_event_id
        }),
    decreases targets.len(),
{
    if targets.len() > 0 {
        let rest = targets.drop_last();
        lemma_delete_all_keeps_ids(c, author, rest, deletion, target);
        let before = c.delete_all(author, rest, deletion).0;
        let last = targets.last();
        let after = c.delete_all(author, targets, deletion).0;
        assert(rest.push(last) =~= targets);
        if exists|at: int| reaction_at(before.reactions, last, at) {
            let at = choose|at: int| reaction_at(before.reactions, last, at);
            assert(reaction_at(before.reactions, last, at));
            assert forall|i: int| 0 <= i < after.reactions.len() implies (#[trigger] after.reactions[i]).id
                != target by {
                assert(before.reactions[i].id != target);
            }
        }
        if targets.contains(target) {
            let k = choose|k: int| 0 <= k < targets.len() && targets[k] == target;
            if k < rest.len() {
                assert(rest[k] == target);
            }
        }
        if rest.contains(target) {
            let k = choose|k: int| 0 <= k < rest.len() && rest[k] == target;
            assert(targets[k] == target);
        }
        assert(targets[targets.len() - 1] == last);
        if last == target {
            assert forall|at: int| !reaction_at(before.reactions, target, at) by {}
        }
    }
}

/// Once a deletion event has been taken in, each cached message that one of
/// its `e` tags names and that its author wrote bears the deletion's
/// identifier, and every other message bears the mark that it bore before.
pub proof fn a_deletion_deletes_what_its_author_wrote(c: CacheV, m: MarmotMessage, id: Seq<char>)
    requires
        !c.outgoing.contains(m.id@),
        c.messages.dom().contains(id),
        forall|i: int| 0 <= i < c.reactions.len() ==> (#[trigger] c.reactions[i]).id != id,
    ensures
        ({
            let after = c.after_deletion(m).0;
            let named = exists|k: int|
                0 <= k < m.tags@.len() && (#[trigger] m.tags@[k]).items@.len() >= 2
                    && m.tags@[k].items@[0]@ == "e"@ && m.tags@[k].items@[1]@ == id;
            &&& after.messages.dom().contains(id)
            &&& named && c.messages[id].author == m.pubkey ==> after.messages[id].deletion_event_id
                == Some(m.id@)
            &&& !named || c.messages[id].author != m.pubkey ==> after.messages[id].deletion_event_id
                == c.messages[id].deletion_event_id
        }),
{
    a_deletion_names_its_e_tags(m.tags@, Tag { items: m.tags@[0].items }, id);
    lemma_delete_all_keeps_ids(
        c.store_deletion(m),
        m.pubkey,
        deletion_targets(m.tags@),
        m.id@,
        id,
    );
}

/// The stored reactions show, for each user, the last one of theirs that is
/// live, reacts to the message and has an emoji, with its author, emoji, time
/// and event. Nothing else is shown.
pub proof fn the_last_live_reaction_of_each_user_is_shown(
    rows: Seq<ReactionRowV>,
    id: Seq<char>,
    x: ReactionV,
)
    ensures
        stored_reactions(rows, id).contains(x) <==> exists|i: int|
            0 <= i < rows.len() && (#[trigger] rows[i]).deletion_event_id is None && rows[i].target
                == Some(id) && rows[i].emoji == Some(x.emoji) && rows[i].author == x.author
                && rows[i].created_at == x.created_at && rows[i].id == x.reaction_id
                    && forall|j: int|
                i < j < rows.len() && (#[trigger] rows[j]).deletion_event_id is None
                    && rows[j].target
                    == Some(id) && rows[j].emoji is Some ==> rows[j].author != x.author,
        forall|i: int, j: int|
            0 <= i < j < stored_reactions(rows, id).len()
                ==> (#[trigger] stored_reactions(rows, id)[i]).author
                != (#[trigger] stored_reactions(rows, id)[j]).author,
    decreases rows.len(),
{
    if rows.len() > 0 {
        let rest = rows.drop_last();
        let last = rows.last();
        let before = stored_reactions(rest, id);
        let all = stored_reactions(rows, id);
        the_last_live_reaction_of_each_user_is_shown(rest, id, x);
        let counts = last.deletion_event_id is None && last.target == Some(id)
            && last.emoji is Some;
        if counts {
            let r = ReactionV {
                author: last.author,
                emoji: last.emoji->0,
                created_at: last.created_at,
                reaction_id: last.id,
            };
            assert(all == with_reaction(before, r));
            a_new_reaction_replaces_the_old(before, r);
            if all.contains(x) && x.author == r.author {
                let k = choose|k: int| 0 <= k < all.len() && all[k] == x;
                assert(x == r);
                assert(rows[rows.len() - 1] == last);
            }
            lemma_without_keeps_apart(before, r.author);
            let kept = without_reaction(before, r.author);
            assert forall|i: int, j: int| 0 <= i < j < all.len() implies (#[trigger] all[i]).author != (
            #[trigger] all[j]).author by {
                if j == kept.len() {
                    assert(all[i].author == r.author ==> i == all.len() - 1);
                } else {
                    assert(kept[i].author != kept[j].author);
                }
            }
        }
        if all.contains(x) && !(counts && x.author == last.author) {
            assert(before.contains(x));
            let i = choose|i: int|
                0 <= i < rest.len() && (#[trigger] rest[i]).deletion_event_id is None
                    && rest[i].target
                    == Some(id) && rest[i].emoji == Some(x.emoji) && rest[i].author == x.author
                    && rest[i].created_at == x.created_at && rest[i].id == x.reaction_id
                        && forall|j: int|
                    i < j < rest.len() && (#[trigger] rest[j]).deletion_event_id is None
                        && rest[j].target == Some(id) && rest[j].emoji is Some ==> rest[j].author
                        != x.author;
            assert(rows[i] == rest[i]);
            assert forall|j: int|
                i < j < rows.len() && (#[trigger] rows[j]).deletion_event_id is None
                    && rows[j].target
                    == Some(id) && rows[j].emoji is Some implies rows[j].author != x.author by {
                if j < rest.len() {
                    assert(rest[j] == rows[j]);
                }
            }
        }
        if exists|i: int|
            0 <= i < rows.len() && (#[trigger] rows[i]).deletion_event_id is None && rows[i].target
                == Some(id) && rows[i].emoji == Some(x.emoji) && rows[i].author == x.author
                && rows[i].created_at == x.created_at && rows[i].id == x.reaction_id
                    && forall|j: int|
                i < j < rows.len() && (#[trigger] rows[j]).deletion_event_id is None
                    && rows[j].target
                    == Some(id) && rows[j].emoji is Some ==> rows[j].author != x.author {
            let i = choose|i: int|
                0 <= i < rows.len() && (#[trigger] rows[i]).deletion_event_id is None
                    && rows[i].target
                    == Some(id) && rows[i].emoji == Some(x.emoji) && rows[i].author == x.author
                    && rows[i].created_at == x.created_at && rows[i].id == x.reaction_id
                        && forall|j: int|
                    i < j < rows.len() && (#[trigger] rows[j]).deletion_event_id is None
                        && rows[j].target == Some(id) && rows[j].emoji is Some ==> rows[j].author
                        != x.author;
            if i < rest.len() {
                assert(rest[i] == rows[i]);
                assert(rows[rows.len() - 1] == last);
                assert forall|j: int|
                    i < j < rest.len() && (#[trigger] rest[j]).deletion_event_id is None
                        && rest[j].target
                        == Some(id) && rest[j].emoji is Some implies rest[j].author != x.author by {
                    assert(rows[j] == rest[j]);
                }
                assert(before.contains(x));
            }
        }
    }
}

proof fn lemma_without_keeps_apart(reactions: Seq<ReactionV>, author: PublicKey)
    requires
        forall|i: int, j: int|
            0 <= i < j < reactions.len() ==> (#[trigger] reactions[i]).author != (
            #[trigger] reactions[j]).author,
    ensures
        forall|i: int, j: int|
            0 <= i < j < without_reaction(reactions, author).len() ==> (#[trigger] without_reaction(
                reactions,
                author,
            )[i]).author != (#[trigger] without_reaction(reactions, author)[j]).author,
    decreases reactions.len(),
{
    if reactions.len() == 0 {
        without_reaction_spares_the_others(reactions, author, arbitrary());
        assert(reactions =~= Seq::empty());
    } else {
        let rest = reactions.drop_last();
        let last = reactions.last();
        assert(rest.push(last) =~= reactions);
        lemma_without_keeps_apart(rest, author);
        without_reaction_spares_the_others(rest, author, last);
        let before = without_reaction(rest, author);
        let after = without_reaction(reactions, author);
        assert forall|i: int, j: int| 0 <= i < j < after.len() implies (#[trigger] after[i]).author != (
        #[trigger] after[j]).author by {
            if j < before.len() {
                assert(before[i].author != before[j].author);
            } else {
                assert(before.contains(before[i]));
                without_reaction_spares_the_others(rest, author, before[i]);
                let k = choose|k: int| 0 <= k < rest.len() && rest[k] == before[i];
                assert(reactions[k].author != reactions[reactions.len() - 1].author);
            }
        }
    }
}

/// A chat message is cached under its identifier with its author, time and
/// content. It keeps the delivery status that it had and shows, for each user,
/// the last live reaction that is stored for it. The last stored deletion by
/// its author that names it marks it; without one it is not deleted. Nothing
/// else in the cache changes.
pub proof fn a_chat_message_is_filed(c: CacheV, m: MarmotMessage, k: int)
    requires
        forall|i: int|
            0 <= i < c.reactions.len() && (#[trigger] c.reactions[i]).id == m.id@
                ==> c.reactions[i].deletion_event_id is Some,
    ensures
        ({
            let after = c.after_chat_message(m);
            let now = after.messages[m.id@];
            &&& after.messages.dom() == c.messages.dom().insert(m.id@)
            &&& forall|id: Seq<char>|
                id != m.id@ && c.messages.dom().contains(id) ==> #[trigger] after.messages[id]
                    == c.messages[id]
            &&& now.id == m.id@ && now.author == m.pubkey && now.created_at == m.created_at
                && now.content
                == m.content@
            &&& c.messages.dom().contains(m.id@) ==> now.delivery_status
                == c.messages[m.id@].delivery_status
            &&& !c.messages.dom().contains(m.id@) ==> now.delivery_status is None
            &&& now.reactions == stored_reactions(c.reactions, m.id@)
            &&& 0 <= k < c.deletions.len() && c.deletions[k].author == m.pubkey
                && c.deletions[k].targets.contains(m.id@) && (forall|j: int|
                k < j < c.deletions.len() && (#[trigger] c.deletions[j]).author == m.pubkey
                    ==> !c.deletions[j].targets.contains(m.id@)) ==> now.deletion_event_id
                == Some(c.deletions[k].id)
            &&& (forall|j: int|
                0 <= j < c.deletions.len() && (#[trigger] c.deletions[j]).author == m.pubkey
                    ==> !c.deletions[j].targets.contains(m.id@)) ==> now.deletion_event_id is None
            &&& after.reactions == c.reactions && after.deletions == c.deletions && after.outgoing
                == c.outgoing
        }),
{
    let filed = c.file_message(m);
    assert forall|at: int| !reaction_at(filed.reactions, m.id@, at) by {}
    lemma_replay_marks(filed, c.deletions, m.pubkey, m.id@, k);
    let after = c.after_chat_message(m);
    assert(after.messages.dom() =~= c.messages.dom().insert(m.id@));
    assert forall|id: Seq<char>| id != m.id@
        && c.messages.dom().contains(id) implies #[trigger] after.messages[id]
        == c.messages[id] by {
        assert(filed.messages[id] == c.messages[id]);
    }
}

proof fn lemma_replay_marks(
    c: CacheV,
    rows: Seq<DeletionRowV>,
    author: PublicKey,
    id: Seq<char>,
    k: int,
)
    requires
        forall|at: int| !reaction_at(c.reactions, id, at),
        c.messages.dom().contains(id),
        c.messages[id].author == author,
    ensures
        ({
            let after = c.replay_deletions(rows, author, id);
            let was = c.messages[id];
            let now = after.messages[id];
            &&& after.messages.dom() == c.messages.dom()
            &&& forall|other: Seq<char>|
                other != id && c.messages.dom().contains(other) ==> #[trigger] after.messages[other]
                    == c.messages[other]
            &&& now.id == was.id && now.author == was.author && now.created_at == was.created_at
            &&& now.content == was.content && now.delivery_status == was.delivery_status
            &&& now.reactions == was.reactions
            &&& 0 <= k < rows.len() && rows[k].author == author && rows[k].targets.contains(id) && (
            forall|j: int|
                k < j < rows.len() && (#[trigger] rows[j]).author == author
                    ==> !rows[j].targets.contains(id)) ==> now.deletion_event_id == Some(rows[k].id)
            &&& (forall|j: int|
                0 <= j < rows.len() && (#[trigger] rows[j]).author == author
                    ==> !rows[j].targets.contains(id)) ==> now.deletion_event_id
                == was.deletion_event_id
            &&& after.reactions == c.reactions && after.deletions == c.deletions && after.outgoing
                == c.outgoing
        }),
    decreases rows.len(),
{
    if rows.len() > 0 {
        let rest = rows.drop_last();
        lemma_replay_marks(c, rest, author, id, k);
        let before = c.replay_deletions(rest, author, id);
        let after = c.replay_deletions(rows, author, id);
        assert(rows[rows.len() - 1] == rows.last());
        assert forall|j: int| 0 <= j < rest.len() implies rest[j] == #[trigger] rows[j] by {}
        if 0 <= k && forall|j: int|
            k < j < rows.len() && (#[trigger] rows[j]).author == author
                ==> !rows[j].targets.contains(id) {
            assert forall|j: int| k < j < rest.len() && (#[trigger] rest[j]).author
                == author implies !rest[j].targets.contains(
            id) by {
                assert(rows[j].author == author);
            }
        }
        if forall|j: int|
            0 <= j < rows.len() && (#[trigger] rows[j]).author == author
                ==> !rows[j].targets.contains(id) {
            assert forall|j: int| 0 <= j < rest.len() && (#[trigger] rest[j]).author
                == author implies !rest[j].targets.contains(
            id) by {
                assert(rows[j].author == author);
            }
        }
        assert(after.messages.dom() =~= c.messages.dom());
    }
}

/// The values that the rules speak of hold what the records hold, column by
/// column.
pub proof fn values_show_every_column(
    r: UserReaction,
    m: ChatMessage,
    row: ReactionRow,
    d: DeletionRow,
    u: Update,
    i: int,
)
    ensures
        r@.author == r.author && r@.emoji == r.emoji@ && r@.created_at == r.created_at
            && r@.reaction_id
            == r.reaction_id@,
        m@.id == m.id@ && m@.author == m.author && m@.created_at == m.created_at && m@.content
            == m.content@ && m@.delivery_status == m.delivery_status,
        m.deletion_event_id is Some <==> m@.deletion_event_id is Some,
        m.deletion_event_id is Some ==> m@.deletion_event_id->0 == m.deletion_event_id->0@,
        m@.reactions.len() == m.reactions@.len(),
        0 <= i < m.reactions@.len() ==> m@.reactions[i] == m.reactions@[i]@,
        row@.id == row.id@ && row@.author == row.author && row@.created_at == row.created_at,
        row.target is Some <==> row@.target is Some,
        row.target is Some ==> row@.target->0 == row.target->0@,
        row.emoji is Some <==> row@.emoji is Some,
        row.emoji is Some ==> row@.emoji->0 == row.emoji->0@,
        row.deletion_event_id is Some <==> row@.deletion_event_id is Some,
        row.deletion_event_id is Some ==> row@.deletion_event_id->0 == row.deletion_event_id->0@,
        d@.id == d.id@ && d@.author == d.author && d@.targets.len() == d.targets@.len(),
        0 <= i < d.targets@.len() ==> d@.targets[i] == d.targets@[i]@,
        u@.trigger == u.trigger && u@.message == u.message@,
{
}

} // verus!
