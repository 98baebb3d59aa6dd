//! The messages, reactions and deletions of one group as one account sees
//! them, and how each of them changes what the others show.

use vstd::prelude::*;
use vstd::string::StringExecFns;

use crate::whitenoise::error::{Result, WhitenoiseError};
use crate::whitenoise::nostr::{find_tag_content, first_tag_content, PublicKey, Tag};
use crate::whitenoise::text::{same_text, texts};

verus! {

/// How far an outgoing message has come.
#[derive(Clone, Copy, PartialEq, Eq, Structural, Debug)]
pub enum DeliveryStatus {
    Sending,
    /// The number of relays that took the message.
    Sent(u64),
    Failed,
}

/// A message of the group as the transport delivers it.
#[derive(Debug)]
pub struct MarmotMessage {
    /// The identifier of the event, in hexadecimal.
    pub id: String,
    pub pubkey: PublicKey,
    /// Seconds since the Unix epoch.
    pub created_at: u64,
    pub kind: u16,
    pub tags: Vec<Tag>,
    pub content: String,
    /// The content as a normalised emoji; none where it is not a valid reaction.
    pub emoji: Option<String>,
}

/// One user's reaction to a message.
#[derive(Debug)]
pub struct UserReaction {
    pub author: PublicKey,
    pub emoji: String,
    pub created_at: u64,
    /// The identifier of the reaction event.
    pub reaction_id: String,
}

/// A chat message as it is shown.
#[derive(Debug)]
pub struct ChatMessage {
    pub id: String,
    pub author: PublicKey,
    pub created_at: u64,
    pub content: String,
    /// The event that deleted the message, if one did.
    pub deletion_event_id: Option<String>,
    pub delivery_status: Option<DeliveryStatus>,
    /// At most one reaction for each user, in the order of their arrival.
    pub reactions: Vec<UserReaction>,
}

/// A stored reaction event.
#[derive(Debug)]
pub struct ReactionRow {
    pub id: String,
    pub author: PublicKey,
    pub created_at: u64,
    /// The message it reacts to, where the event names one.
    pub target: Option<String>,
    pub emoji: Option<String>,
    /// The event that deleted the reaction, if one did.
    pub deletion_event_id: Option<String>,
}

/// A stored deletion event.
#[derive(Debug)]
pub struct DeletionRow {
    pub id: String,
    pub author: PublicKey,
    /// The events that it deletes.
    pub targets: Vec<String>,
}

/// Why an updated message is sent to those who watch the group.
#[derive(Clone, Copy, PartialEq, Eq, Structural, Debug)]
pub enum UpdateTrigger {
    NewMessage,
    ReactionAdded,
    ReactionRemoved,
    MessageDeleted,
}

/// The value of a [`UserReaction`].
pub struct ReactionV {
    pub author: PublicKey,
    pub emoji: Seq<char>,
    pub created_at: u64,
    pub reaction_id: Seq<char>,
}

/// The value of a [`ChatMessage`].
#[verifier::ext_equal]
pub struct MessageV {
    pub id: Seq<char>,
    pub author: PublicKey,
    pub created_at: u64,
    pub content: Seq<char>,
    pub deletion_event_id: Option<Seq<char>>,
    pub delivery_status: Option<DeliveryStatus>,
    pub reactions: Seq<ReactionV>,
}

/// The value of a [`ReactionRow`].
pub struct ReactionRowV {
    pub id: Seq<char>,
    pub author: PublicKey,
    pub created_at: u64,
    pub target: Option<Seq<char>>,
    pub emoji: Option<Seq<char>>,
    pub deletion_event_id: Option<Seq<char>>,
}

/// The value of a [`DeletionRow`].
pub struct DeletionRowV {
    pub id: Seq<char>,
    pub author: PublicKey,
    pub targets: Seq<Seq<char>>,
}

/// The value of a [`MessageCache`].
#[verifier::ext_equal]
pub struct CacheV {
    /// The messages by identifier.
    pub messages: Map<Seq<char>, MessageV>,
    /// The reaction events in the order of their arrival.
    pub reactions: Seq<ReactionRowV>,
    /// The deletion events in the order of their arrival.
    pub deletions: Seq<DeletionRowV>,
    /// The reactions and deletions that this account sent itself.
    pub outgoing: Set<Seq<char>>,
}

/// A change to show: its reason and the message as it is now.
pub struct UpdateV {
    pub trigger: UpdateTrigger,
    pub message: MessageV,
}

/// A change to show: its reason and the message as it is now.
#[derive(Debug)]
pub struct Update {
    pub trigger: UpdateTrigger,
    pub message: ChatMessage,
}

impl View for UserReaction {
    type V = ReactionV;

    open spec fn view(&self) -> ReactionV {
        ReactionV {
            author: self.author,
            emoji: self.emoji@,
            created_at: self.created_at,
            reaction_id: self.reaction_id@,
        }
    }
}

pub open spec fn reaction_views(reactions: Seq<UserReaction>) -> Seq<ReactionV> {
    reactions.map_values(|r: UserReaction| r@)
}

impl View for ChatMessage {
    type V = MessageV;

    open spec fn view(&self) -> MessageV {
        MessageV {
            id: self.id@,
            author: self.author,
            created_at: self.created_at,
            content: self.content@,
            deletion_event_id: text_of(self.deletion_event_id),
            delivery_status: self.delivery_status,
            reactions: reaction_views(self.reactions@),
        }
    }
}

pub open spec fn text_of(s: Option<String>) -> Option<Seq<char>> {
    match s {
        Some(s) => Some(s@),
        None => None,
    }
}

impl View for ReactionRow {
    type V = ReactionRowV;

    open spec fn view(&self) -> ReactionRowV {
        ReactionRowV {
            id: self.id@,
            author: self.author,
            created_at: self.created_at,
            target: text_of(self.target),
            emoji: text_of(self.emoji),
            deletion_event_id: text_of(self.deletion_event_id),
        }
    }
}

impl View for DeletionRow {
    type V = DeletionRowV;

    open spec fn view(&self) -> DeletionRowV {
        DeletionRowV { id: self.id@, author: self.author, targets: texts(self.targets@) }
    }
}

impl View for Update {
    type V = UpdateV;

    open spec fn view(&self) -> UpdateV {
        UpdateV { trigger: self.trigger, message: self.message@ }
    }
}

pub open spec fn update_views(updates: Seq<Update>) -> Seq<UpdateV> {
    updates.map_values(|u: Update| u@)
}

// ---------------------------------------------------------------------------
// What each event does to the cache
// ---------------------------------------------------------------------------

/// The reactions to a message once `r` is added: a user's new reaction takes
/// the place of the one before.
pub open spec fn with_reaction(reactions: Seq<ReactionV>, r: ReactionV) -> Seq<ReactionV> {
    without_reaction(reactions, r.author).push(r)
}

/// The reactions to a message without those of `author`.
pub open spec fn without_reaction(reactions: Seq<ReactionV>, author: PublicKey) -> Seq<ReactionV> {
    reactions.filter(|x: ReactionV| x.author != author)
}

pub open spec fn has_reaction(reactions: Seq<ReactionV>, author: PublicKey) -> bool {
    exists|i: int| 0 <= i < reactions.len() && (#[trigger] reactions[i]).author == author
}

/// The message that a reaction event reacts to: its first `e` tag.
pub open spec fn reaction_target(tags: Seq<Tag>) -> Option<Seq<char>> {
    first_tag_content(tags, "e"@)
}

/// The events that a deletion names: the values of its `e` tags.
pub open spec fn deletion_targets(tags: Seq<Tag>) -> Seq<Seq<char>>
    decreases tags.len(),
{
    if tags.len() == 0 {
        Seq::empty()
    } else {
        let rest = deletion_targets(tags.drop_last());
        let tag = tags.last();
        if tag.spec_is("e"@) && tag.spec_content() is Some {
            rest.push(tag.spec_content()->0)
        } else {
            rest
        }
    }
}

impl MessageV {
    pub open spec fn is_deleted(self) -> bool {
        self.deletion_event_id is Some
    }
}

impl ReactionRowV {
    pub open spec fn is_deleted(self) -> bool {
        self.deletion_event_id is Some
    }

    /// The reaction as the message shows it.
    pub open spec fn shown(self) -> ReactionV {
        ReactionV {
            author: self.author,
            emoji: self.emoji->0,
            created_at: self.created_at,
            reaction_id: self.id,
        }
    }

    /// Whether the reaction counts for the message `id`.
    pub open spec fn counts_for(self, id: Seq<char>) -> bool {
        !self.is_deleted() && self.target == Some(id) && self.emoji is Some
    }
}

/// What the stored reactions make a message with identifier `id` show.
pub open spec fn stored_reactions(rows: Seq<ReactionRowV>, id: Seq<char>) -> Seq<ReactionV>
    decreases rows.len(),
{
    if rows.len() == 0 {
        Seq::empty()
    } else {
        let rest = stored_reactions(rows.drop_last(), id);
        if rows.last().counts_for(id) {
            with_reaction(rest, rows.last().shown())
        } else {
            rest
        }
    }
}

/// The stored reaction `id` that has not been deleted stands at position `at`.
pub open spec fn reaction_at(rows: Seq<ReactionRowV>, id: Seq<char>, at: int) -> bool {
    0 <= at < rows.len() && rows[at].id == id && !rows[at].is_deleted()
}

impl CacheV {
    /// Every message is filed under its identifier, and no reaction or
    /// deletion is stored twice.
    pub open spec fn wf(self) -> bool {
        &&& forall|id: Seq<char>| #[trigger] self.messages.dom().contains(id) ==> self.messages[id].id == id
        &&& forall|i: int, j: int|
            0 <= i < j < self.reactions.len() ==> self.reactions[i].id != self.reactions[j].id
        &&& forall|i: int, j: int|
            0 <= i < j < self.deletions.len() ==> self.deletions[i].id != self.deletions[j].id
    }

    pub open spec fn has_reaction_row(self, id: Seq<char>) -> bool {
        exists|i: int| 0 <= i < self.reactions.len() && (#[trigger] self.reactions[i]).id == id
    }

    pub open spec fn has_deletion_row(self, id: Seq<char>) -> bool {
        exists|i: int| 0 <= i < self.deletions.len() && (#[trigger] self.deletions[i]).id == id
    }

    /// The cache after `author` deletes the event `target` by the event
    /// `deletion`, and the change that this shows.
    ///
    /// Only authors may delete their own reactions and messages. A deletion
    /// of anything else, or of something that is not stored, does nothing.
    pub open spec fn delete_one(self, author: PublicKey, target: Seq<char>, deletion: Seq<char>) -> (
        CacheV,
        Option<UpdateV>,
    ) {
        if exists|at: int| reaction_at(self.reactions, target, at) {
            let at = choose|at: int| reaction_at(self.reactions, target, at);
            let row = self.reactions[at];
            if row.author != author {
                (self, None)
            } else {
                let marked = self.reactions.update(
                    at,
                    ReactionRowV { deletion_event_id: Some(deletion), ..row },
                );
                if row.target is Some && self.messages.dom().contains(row.target->0) && has_reaction(
                    self.messages[row.target->0].reactions,
                    author,
                ) {
                    let parent = self.messages[row.target->0];
                    let now = MessageV {
                        reactions: without_reaction(parent.reactions, author),
                        ..parent
                    };
                    (
                        CacheV {
                            messages: self.messages.insert(row.target->0, now),
                            reactions: marked,
                            ..self
                        },
                        Some(UpdateV { trigger: UpdateTrigger::ReactionRemoved, message: now }),
                    )
                } else {
                    (CacheV { reactions: marked, ..self }, None)
                }
            }
        } else if self.messages.dom().contains(target) && self.messages[target].author == author {
            let now = MessageV { deletion_event_id: Some(deletion), ..self.messages[target] };
            (
                CacheV { messages: self.messages.insert(target, now), ..self },
                Some(UpdateV { trigger: UpdateTrigger::MessageDeleted, message: now }),
            )
        } else {
            (self, None)
        }
    }

    /// The cache after `author` deletes all of `targets` in order by the event
    /// `deletion`, and the changes that this shows.
    pub open spec fn delete_all(self, author: PublicKey, targets: Seq<Seq<char>>, deletion: Seq<char>) -> (
        CacheV,
        Seq<UpdateV>,
    )
        decreases targets.len(),
    {
        if targets.len() == 0 {
            (self, Seq::empty())
        } else {
            let (before, shown) = self.delete_all(author, targets.drop_last(), deletion);
            let (after, update) = before.delete_one(author, targets.last(), deletion);
            (
                after,
                match update {
                    Some(u) => shown.push(u),
                    None => shown,
                },
            )
        }
    }

    /// The cache after those of the deletions `rows` that `author` made of
    /// the message `id` have been applied to it.
    pub open spec fn replay_deletions(self, rows: Seq<DeletionRowV>, author: PublicKey, id: Seq<char>) -> CacheV
        decreases rows.len(),
    {
        if rows.len() == 0 {
            self
        } else {
            let before = self.replay_deletions(rows.drop_last(), author, id);
            if rows.last().author == author && rows.last().targets.contains(id) {
                before.delete_one(author, id, rows.last().id).0
            } else {
                before
            }
        }
    }

    /// The cache once the chat message `m` is filed with the reactions that
    /// are stored for it. The delivery status that it had is kept.
    pub open spec fn file_message(self, m: MarmotMessage) -> CacheV {
        CacheV {
            messages: self.messages.insert(
                m.id@,
                MessageV {
                    id: m.id@,
                    author: m.pubkey,
                    created_at: m.created_at,
                    content: m.content@,
                    deletion_event_id: None,
                    delivery_status: if self.messages.dom().contains(m.id@) {
                        self.messages[m.id@].delivery_status
                    } else {
                        None
                    },
                    reactions: stored_reactions(self.reactions, m.id@),
                },
            ),
            ..self
        }
    }

    /// The cache once the chat message `m` has been taken in: what arrived
    /// for it before is applied to it.
    pub open spec fn after_chat_message(self, m: MarmotMessage) -> CacheV {
        self.file_message(m).replay_deletions(self.deletions, m.pubkey, m.id@)
    }

    /// The cache once the reaction event `m` is stored.
    pub open spec fn store_reaction(self, m: MarmotMessage) -> CacheV {
        if self.has_reaction_row(m.id@) {
            self
        } else {
            CacheV {
                reactions: self.reactions.push(
                    ReactionRowV {
                        id: m.id@,
                        author: m.pubkey,
                        created_at: m.created_at,
                        target: reaction_target(m.tags@),
                        emoji: text_of(m.emoji),
                        deletion_event_id: None,
                    },
                ),
                ..self
            }
        }
    }

    /// The cache once the reaction `m` is applied to its target.
    pub open spec fn apply_reaction(self, m: MarmotMessage) -> CacheV {
        let target = reaction_target(m.tags@);
        if target is Some && self.messages.dom().contains(target->0) && m.emoji is Some {
            CacheV {
                messages: self.messages.insert(
                    target->0,
                    MessageV {
                        reactions: with_reaction(
                            self.messages[target->0].reactions,
                            ReactionV {
                                author: m.pubkey,
                                emoji: m.emoji->0@,
                                created_at: m.created_at,
                                reaction_id: m.id@,
                            },
                        ),
                        ..self.messages[target->0]
                    },
                ),
                ..self
            }
        } else {
            self
        }
    }

    /// The cache once the reaction event `m` has been taken in. One that this
    /// account sent itself has been applied already.
    pub open spec fn after_reaction(self, m: MarmotMessage) -> CacheV {
        if self.outgoing.contains(m.id@) {
            self
        } else {
            self.store_reaction(m).apply_reaction(m)
        }
    }

    /// The cache once the deletion event `m` is stored.
    pub open spec fn store_deletion(self, m: MarmotMessage) -> CacheV {
        if self.has_deletion_row(m.id@) {
            self
        } else {
            CacheV {
                deletions: self.deletions.push(
                    DeletionRowV {
                        id: m.id@,
                        author: m.pubkey,
                        targets: deletion_targets(m.tags@),
                    },
                ),
                ..self
            }
        }
    }

    /// The cache once the deletion event `m` has been taken in, and the
    /// changes that this shows. One that this account sent itself has been
    /// applied already.
    pub open spec fn after_deletion(self, m: MarmotMessage) -> (CacheV, Seq<UpdateV>) {
        if self.outgoing.contains(m.id@) {
            (self, Seq::empty())
        } else {
            self.store_deletion(m).delete_all(m.pubkey, deletion_targets(m.tags@), m.id@)
        }
    }
}

// ---------------------------------------------------------------------------
// The cache itself
// ---------------------------------------------------------------------------

impl UserReaction {
    pub fn copy(&self) -> (c: UserReaction)
        ensures
            c@ == self@,
    {
        UserReaction {
            author: self.author,
            emoji: self.emoji.clone(),
            created_at: self.created_at,
            reaction_id: self.reaction_id.clone(),
        }
    }
}

fn copy_reactions(reactions: &Vec<UserReaction>) -> (c: Vec<UserReaction>)
    ensures
        reaction_views(c@) == reaction_views(reactions@),
{
    let mut c: Vec<UserReaction> = Vec::new();
    let mut i: usize = 0;
    while i < reactions.len()
        invariant
            i <= reactions.len(),
            c.len() == i,
            forall|k: int| 0 <= k < i ==> (#[trigger] c[k])@ == reactions[k]@,
        decreases reactions.len() - i,
    {
        c.push(reactions[i].copy());
        i = i + 1;
    }
    assert(reaction_views(c@) =~= reaction_views(reactions@));
    c
}

impl ChatMessage {
    pub fn is_deleted(&self) -> (deleted: bool)
        ensures
            deleted == self@.is_deleted(),
            deleted <==> self.deletion_event_id is Some,
    {
        self.deletion_event_id.is_some()
    }

    pub fn copy(&self) -> (c: ChatMessage)
        ensures
            c@ == self@,
    {
        ChatMessage {
            id: self.id.clone(),
            author: self.author,
            created_at: self.created_at,
            content: self.content.clone(),
            deletion_event_id: copy_text(&self.deletion_event_id),
            delivery_status: self.delivery_status,
            reactions: copy_reactions(&self.reactions),
        }
    }
}

fn copy_text(s: &Option<String>) -> (c: Option<String>)
    ensures
        text_of(c) == text_of(*s),
{
    match s {
        Some(s) => Some(s.clone()),
        None => None,
    }
}

/// Takes the reactions of `author` out; says whether there were any.
fn remove_reaction(reactions: &mut Vec<UserReaction>, author: &PublicKey) -> (removed: bool)
    ensures
        reaction_views(final(reactions)@) == without_reaction(reaction_views(old(reactions)@), *author),
        removed == has_reaction(reaction_views(old(reactions)@), *author),
{
    let mut kept: Vec<UserReaction> = Vec::new();
    let mut removed = false;
    let mut i: usize = 0;
    let ghost all = reaction_views(reactions@);
    assert(all.take(0) =~= Seq::empty());
    assert(reaction_views(kept@) =~= without_reaction(all.take(0), *author)) by {
        reveal(Seq::filter);
    }
    while i < reactions.len()
        invariant
            i <= reactions.len(),
            all == reaction_views(reactions@),
            *reactions == *old(reactions),
            reaction_views(kept@) == without_reaction(all.take(i as int), *author),
            removed == has_reaction(all.take(i as int), *author),
        decreases reactions.len() - i,
    {
        let ghost next = all.take(i + 1);
        let ghost upto = all.take(i as int);
        let ghost pred = |x: ReactionV| x.author != *author;
        assert(next =~= upto.push(all[i as int]));
        assert(next.drop_last() =~= upto);
        assert(without_reaction(next, *author) == (if pred(all[i as int]) {
            without_reaction(upto, *author).push(all[i as int])
        } else {
            without_reaction(upto, *author)
        })) by {
            reveal(Seq::filter);
        }
        if reactions[i].author == *author {
            removed = true;
            assert(next[i as int].author == *author);
            assert(has_reaction(next, *author));
        } else {
            let ghost before = kept@;
            kept.push(reactions[i].copy());
            assert(reaction_views(kept@) =~= reaction_views(before).push(all[i as int]));
            assert(has_reaction(next, *author) == has_reaction(upto, *author)) by {
                if has_reaction(next, *author) {
                    let k = choose|k: int| 0 <= k < next.len() && (#[trigger] next[k]).author == *author;
                    assert(upto[k].author == *author);
                }
                if has_reaction(upto, *author) {
                    let k = choose|k: int| 0 <= k < upto.len() && (#[trigger] upto[k]).author == *author;
                    assert(next[k].author == *author);
                }
            }
        }
        i = i + 1;
    }
    assert(all.take(all.len() as int) =~= all);
    *reactions = kept;
    removed
}

/// Adds `r`, in the place of an earlier reaction of the same user.
fn add_reaction(reactions: &mut Vec<UserReaction>, r: UserReaction)
    ensures
        reaction_views(final(reactions)@) == with_reaction(reaction_views(old(reactions)@), r@),
{
    remove_reaction(reactions, &r.author);
    let ghost before = reactions@;
    reactions.push(r);
    assert(reaction_views(reactions@) =~= reaction_views(before).push(r@));
}

/// The identifiers of `messages` are pairwise different.
spec fn ids_differ(messages: Seq<ChatMessage>) -> bool {
    forall|i: int, j: int| 0 <= i < j < messages.len() ==> messages[i].id@ != messages[j].id@
}

spec fn filed_at(messages: Seq<ChatMessage>, id: Seq<char>, at: int) -> bool {
    0 <= at < messages.len() && messages[at].id@ == id
}

/// The messages by identifier.
spec fn message_map(messages: Seq<ChatMessage>) -> Map<Seq<char>, MessageV> {
    Map::new(
        |id: Seq<char>| exists|at: int| filed_at(messages, id, at),
        |id: Seq<char>| messages[choose|at: int| filed_at(messages, id, at)]@,
    )
}

proof fn lemma_filed(messages: Seq<ChatMessage>, at: int)
    requires
        ids_differ(messages),
        0 <= at < messages.len(),
    ensures
        message_map(messages).dom().contains(messages[at].id@),
        message_map(messages)[messages[at].id@] == messages[at]@,
{
    let id = messages[at].id@;
    assert(filed_at(messages, id, at));
    let other = choose|i: int| filed_at(messages, id, i);
    assert(filed_at(messages, id, other));
    if other < at {
        assert(messages[other].id@ != messages[at].id@);
    } else if at < other {
        assert(messages[at].id@ != messages[other].id@);
    }
}

/// Putting a message in the place of the one with the same identifier.
proof fn lemma_map_update(messages: Seq<ChatMessage>, at: int, m: ChatMessage)
    requires
        ids_differ(messages),
        0 <= at < messages.len(),
        m.id@ == messages[at].id@,
    ensures
        ids_differ(messages.update(at, m)),
        message_map(messages.update(at, m)) == message_map(messages).insert(m.id@, m@),
{
    let after = messages.update(at, m);
    assert forall|i: int, j: int| 0 <= i < j < after.len() implies after[i].id@ != after[j].id@ by {
        assert(messages[i].id@ != messages[j].id@);
    }
    let x = message_map(after);
    let y = message_map(messages).insert(m.id@, m@);
    assert forall|id: Seq<char>| x.dom().contains(id) <==> y.dom().contains(id) by {
        if x.dom().contains(id) {
            let i = choose|i: int| filed_at(after, id, i);
            assert(filed_at(after, id, i));
            assert(filed_at(messages, id, i));
        }
        if y.dom().contains(id) {
            if id == m.id@ {
                assert(filed_at(after, id, at));
            } else {
                let i = choose|i: int| filed_at(messages, id, i);
                assert(filed_at(messages, id, i));
                assert(filed_at(after, id, i));
            }
        }
    }
    assert forall|id: Seq<char>| x.dom().contains(id) implies x[id] == y[id] by {
        let i = choose|i: int| filed_at(after, id, i);
        assert(filed_at(after, id, i));
        lemma_filed(after, i);
        if i != at {
            lemma_filed(messages, i);
        }
        assert(ids_differ(after));
        if i != at {
            if i < at {
                assert(after[i].id@ != after[at].id@);
            } else {
                assert(after[at].id@ != after[i].id@);
            }
        }
    }
    assert(x =~= y);
}

/// Adding a message with a new identifier.
proof fn lemma_map_push(messages: Seq<ChatMessage>, m: ChatMessage)
    requires
        ids_differ(messages),
        forall|at: int| !filed_at(messages, m.id@, at),
    ensures
        ids_differ(messages.push(m)),
        message_map(messages.push(m)) == message_map(messages).insert(m.id@, m@),
{
    let after = messages.push(m);
    assert forall|i: int, j: int| 0 <= i < j < after.len() implies after[i].id@ != after[j].id@ by {
        if j < messages.len() {
            assert(messages[i].id@ != messages[j].id@);
        } else {
            assert(!filed_at(messages, m.id@, i));
        }
    }
    let x = message_map(after);
    let y = message_map(messages).insert(m.id@, m@);
    assert(filed_at(after, m.id@, messages.len() as int));
    assert forall|id: Seq<char>| x.dom().contains(id) <==> y.dom().contains(id) by {
        if x.dom().contains(id) && id != m.id@ {
            let i = choose|i: int| filed_at(after, id, i);
            assert(filed_at(after, id, i));
            assert(filed_at(messages, id, i));
        }
        if y.dom().contains(id) && id != m.id@ {
            let i = choose|i: int| filed_at(messages, id, i);
            assert(filed_at(messages, id, i));
            assert(filed_at(after, id, i));
        }
    }
    assert forall|id: Seq<char>| x.dom().contains(id) implies x[id] == y[id] by {
        let i = choose|i: int| filed_at(after, id, i);
        assert(filed_at(after, id, i));
        lemma_filed(after, i);
        if i < messages.len() {
            lemma_filed(messages, i);
            assert(!filed_at(messages, m.id@, i));
        }
    }
    assert(x =~= y);
}

spec fn row_views(rows: Seq<ReactionRow>) -> Seq<ReactionRowV> {
    rows.map_values(|r: ReactionRow| r@)
}

spec fn deletion_views(rows: Seq<DeletionRow>) -> Seq<DeletionRowV> {
    rows.map_values(|d: DeletionRow| d@)
}

/// The messages, reactions and deletions of one group as one account sees them.
pub struct MessageCache {
    messages: Vec<ChatMessage>,
    reactions: Vec<ReactionRow>,
    deletions: Vec<DeletionRow>,
    outgoing: Vec<String>,
}

impl View for MessageCache {
    type V = CacheV;

    closed spec fn view(&self) -> CacheV {
        CacheV {
            messages: message_map(self.messages@),
            reactions: row_views(self.reactions@),
            deletions: deletion_views(self.deletions@),
            outgoing: texts(self.outgoing@).to_set(),
        }
    }
}

/// The events that a deletion names, in order.
pub fn extract_deletion_target_ids(tags: &Vec<Tag>) -> (targets: Vec<String>)
    ensures
        texts(targets@) == deletion_targets(tags@),
{
    let mut targets: Vec<String> = Vec::new();
    let mut i: usize = 0;
    assert(texts(targets@) =~= deletion_targets(tags@.take(0)));
    while i < tags.len()
        invariant
            i <= tags.len(),
            texts(targets@) == deletion_targets(tags@.take(i as int)),
        decreases tags.len() - i,
    {
        assert(tags@.take(i + 1).drop_last() =~= tags@.take(i as int));
        if tags[i].is("e") {
            if let Some(content) = tags[i].content() {
                let ghost before = targets@;
                targets.push(content.clone());
                assert(texts(targets@) =~= texts(before).push(content@));
            }
        }
        i = i + 1;
    }
    assert(tags@.take(tags.len() as int) =~= tags@);
    targets
}

/// The message that a reaction reacts to; an error where it names none.
pub fn extract_reaction_target_id(tags: &Vec<Tag>) -> (target: Result<String>)
    ensures
        target is Ok <==> reaction_target(tags@) is Some,
        target matches Ok(id) ==> reaction_target(tags@) == Some(id@),
        target matches Err(e) ==> (e matches WhitenoiseError::MessageAggregation(m) && m@
            == "Reaction does not reference a message"@),
{
    match find_tag_content(tags, "e") {
        Some(content) => Ok(content.clone()),
        None => Err(
            WhitenoiseError::MessageAggregation(
                String::from_str("Reaction does not reference a message"),
            ),
        ),
    }
}

impl MessageCache {
    /// No two messages have the same identifier, and the value is well-formed.
    #[verifier::type_invariant]
    spec fn inv(self) -> bool {
        &&& ids_differ(self.messages@)
        &&& self@.wf()
    }

    /// A cache that holds nothing.
    pub fn new() -> (cache: MessageCache)
        ensures
            cache@.wf(),
            cache@ == (CacheV {
                messages: Map::empty(),
                reactions: Seq::empty(),
                deletions: Seq::empty(),
                outgoing: Set::empty(),
            }),
    {
        let cache = MessageCache {
            messages: Vec::new(),
            reactions: Vec::new(),
            deletions: Vec::new(),
            outgoing: Vec::new(),
        };
        assert(cache@.messages =~= Map::empty());
        assert(cache@.reactions =~= Seq::empty());
        assert(cache@.deletions =~= Seq::empty());
        assert(cache@.outgoing =~= Set::empty());
        cache
    }

    fn position(&self, id: &str) -> (at: Option<usize>)
        ensures
            at is Some <==> self@.messages.dom().contains(id@),
            at matches Some(i) ==> filed_at(self.messages@, id@, i as int) && self@.messages[id@]
                == self.messages[i as int]@,
    {
        proof {
            use_type_invariant(self);
        }
        let mut i: usize = 0;
        while i < self.messages.len()
            invariant
                self.inv(),
                i <= self.messages.len(),
                forall|k: int| 0 <= k < i ==> !filed_at(self.messages@, id@, k),
            decreases self.messages.len() - i,
        {
            if same_text(self.messages[i].id.as_str(), id) {
                proof {
                    lemma_filed(self.messages@, i as int);
                }
                return Some(i);
            }
            i = i + 1;
        }
        assert(forall|k: int| !filed_at(self.messages@, id@, k));
        None
    }

    /// Files a message under its identifier.
    fn put(&mut self, m: ChatMessage)
        ensures
            final(self)@.wf(),
            final(self)@ == (CacheV {
                messages: old(self)@.messages.insert(m.id@, m@),
                ..old(self)@
            }),
    {
        proof {
            use_type_invariant(&*self);
        }
        let ghost before = self.messages@;
        match self.position(m.id.as_str()) {
            Some(at) => {
                proof {
                    lemma_map_update(before, at as int, m);
                }
                let mut messages: Vec<ChatMessage> = Vec::new();
                std::mem::swap(&mut messages, &mut self.messages);
                messages.set(at, m);
                self.messages = messages;
            },
            None => {
                proof {
                    assert forall|at: int| !filed_at(before, m.id@, at) by {
                        if filed_at(before, m.id@, at) {
                            lemma_filed(before, at);
                        }
                    }
                    lemma_map_push(before, m);
                }
                let mut messages: Vec<ChatMessage> = Vec::new();
                std::mem::swap(&mut messages, &mut self.messages);
                messages.push(m);
                self.messages = messages;
            },
        }
    }

    /// The message `id` as it is now.
    pub fn find_by_id(&self, id: &str) -> (m: Option<ChatMessage>)
        ensures
            self@.wf(),
            m is Some <==> self@.messages.dom().contains(id@),
            m matches Some(c) ==> c@ == self@.messages[id@],
    {
        proof {
            use_type_invariant(self);
        }
        match self.position(id) {
            Some(at) => Some(self.messages[at].copy()),
            None => None,
        }
    }

    /// The stored reaction `id`, unless it was deleted.
    fn find_reaction_by_id(&self, id: &str) -> (at: Option<usize>)
        ensures
            at is Some <==> exists|i: int| reaction_at(self@.reactions, id@, i),
            at matches Some(i) ==> reaction_at(self@.reactions, id@, i as int) && (choose|i: int|
                reaction_at(self@.reactions, id@, i)) == i,
    {
        proof {
            use_type_invariant(self);
        }
        let mut i: usize = 0;
        while i < self.reactions.len()
            invariant
                self.inv(),
                i <= self.reactions.len(),
                forall|k: int| 0 <= k < i ==> !reaction_at(self@.reactions, id@, k),
            decreases self.reactions.len() - i,
        {
            assert(self@.reactions[i as int] == self.reactions[i as int]@);
            if self.reactions[i].deletion_event_id.is_none() && same_text(self.reactions[i].id.as_str(), id) {
                proof {
                    assert(reaction_at(self@.reactions, id@, i as int));
                    let other = choose|k: int| reaction_at(self@.reactions, id@, k);
                    assert(reaction_at(self@.reactions, id@, other));
                    if other < i {
                        assert(self@.reactions[other].id != self@.reactions[i as int].id);
                    } else if i < other {
                        assert(self@.reactions[i as int].id != self@.reactions[other].id);
                    }
                }
                return Some(i);
            }
            i = i + 1;
        }
        assert(forall|k: int| !reaction_at(self@.reactions, id@, k));
        None
    }

    /// Whether this account sent the event itself.
    pub fn has_delivery_status(&self, id: &str) -> (sent: bool)
        ensures
            sent == self@.outgoing.contains(id@),
    {
        let mut i: usize = 0;
        while i < self.outgoing.len()
            invariant
                i <= self.outgoing.len(),
                forall|k: int| 0 <= k < i ==> texts(self.outgoing@)[k] != id@,
            decreases self.outgoing.len() - i,
        {
            if same_text(self.outgoing[i].as_str(), id) {
                assert(texts(self.outgoing@)[i as int] == id@);
                return true;
            }
            i = i + 1;
        }
        false
    }

    /// Notes that this account sent the event itself.
    pub fn note_outgoing(&mut self, id: String)
        ensures
            final(self)@.wf(),
            final(self)@ == (CacheV { outgoing: old(self)@.outgoing.insert(id@), ..old(self)@ }),
            forall|t: Seq<char>|
                final(self)@.outgoing.contains(t) <==> old(self)@.outgoing.contains(t) || t == id@,
    {
        proof {
            use_type_invariant(&*self);
        }
        let ghost before = texts(self.outgoing@);
        let mut outgoing: Vec<String> = Vec::new();
        std::mem::swap(&mut outgoing, &mut self.outgoing);
        outgoing.push(id);
        self.outgoing = outgoing;
        proof {
            let after = texts(self.outgoing@);
            assert(after =~= before.push(id@));
            assert forall|t: Seq<char>| after.to_set().contains(t) <==> before.to_set().insert(
                id@,
            ).contains(t) by {
                if before.contains(t) {
                    let k = choose|k: int| 0 <= k < before.len() && before[k] == t;
                    assert(after[k] == t);
                }
                if after.contains(t) && t != id@ {
                    let k = choose|k: int| 0 <= k < after.len() && after[k] == t;
                    assert(before[k] == t);
                }
                assert(after[before.len() as int] == id@);
            }
            assert(after.to_set() =~= before.to_set().insert(id@));
        }
    }

    /// Sets the delivery status of a cached message.
    pub fn update_delivery_status(&mut self, id: &str, status: DeliveryStatus)
        ensures
            final(self)@.wf(),
            old(self)@.messages.dom().contains(id@) ==> final(self)@ == (CacheV {
                messages: old(self)@.messages.insert(
                    id@,
                    MessageV { delivery_status: Some(status), ..old(self)@.messages[id@] },
                ),
                ..old(self)@
            }),
            !old(self)@.messages.dom().contains(id@) ==> final(self)@ == old(self)@,
            old(self)@.messages.dom().contains(id@) ==> final(self)@.messages[id@].delivery_status
                == Some(status) && final(self)@.messages[id@].content == old(self)@.messages[id@].content
                && final(self)@.messages[id@].reactions == old(self)@.messages[id@].reactions
                && final(self)@.messages[id@].deletion_event_id
                == old(self)@.messages[id@].deletion_event_id,
    {
        proof {
            use_type_invariant(&*self);
        }
        if let Some(mut m) = self.find_by_id(id) {
            m.delivery_status = Some(status);
            self.put(m);
        }
    }

    /// Marks a stored reaction as deleted by an event.
    fn mark_reaction_deleted(&mut self, at: usize, deletion_event_id: &str)
        requires
            at < old(self)@.reactions.len(),
        ensures
            final(self)@.wf(),
            final(self)@ == (CacheV {
                reactions: old(self)@.reactions.update(
                    at as int,
                    ReactionRowV {
                        deletion_event_id: Some(deletion_event_id@),
                        ..old(self)@.reactions[at as int]
                    },
                ),
                ..old(self)@
            }),
    {
        proof {
            use_type_invariant(&*self);
        }
        let ghost before = self.reactions@;
        let row = ReactionRow {
            id: self.reactions[at].id.clone(),
            author: self.reactions[at].author,
            created_at: self.reactions[at].created_at,
            target: copy_text(&self.reactions[at].target),
            emoji: copy_text(&self.reactions[at].emoji),
            deletion_event_id: Some(String::from_str(deletion_event_id)),
        };
        let mut reactions: Vec<ReactionRow> = Vec::new();
        std::mem::swap(&mut reactions, &mut self.reactions);
        reactions.set(at, row);
        let ghost after = row_views(reactions@);
        assert(after =~= row_views(before).update(
            at as int,
            ReactionRowV {
                deletion_event_id: Some(deletion_event_id@),
                ..row_views(before)[at as int]
            },
        ));
        assert forall|i: int, j: int| 0 <= i < j < after.len() implies after[i].id != after[j].id by {
            assert(old(self)@.reactions[i].id != old(self)@.reactions[j].id);
        }
        self.reactions = reactions;
    }

    /// Takes a reaction of `author` from the message it was made to, and
    /// returns that message if it showed one.
    fn remove_reaction_from_parent(&mut self, at: usize) -> (parent: Option<ChatMessage>)
        requires
            at < old(self)@.reactions.len(),
        ensures
            final(self)@.wf(),
            ({
                let before = old(self)@;
                let row = before.reactions[at as int];
                if row.target is Some && before.messages.dom().contains(row.target->0)
                    && has_reaction(before.messages[row.target->0].reactions, row.author) {
                    let now = MessageV {
                        reactions: without_reaction(
                            before.messages[row.target->0].reactions,
                            row.author,
                        ),
                        ..before.messages[row.target->0]
                    };
                    &&& parent is Some
                    &&& parent->0@ == now
                    &&& final(self)@ == (CacheV {
                        messages: before.messages.insert(row.target->0, now),
                        ..before
                    })
                } else {
                    &&& parent is None
                    &&& final(self)@ == before
                }
            }),
    {
        proof {
            use_type_invariant(&*self);
        }
        let author = self.reactions[at].author;
        assert(self@.reactions[at as int] == self.reactions[at as int]@);
        let parent_id = match &self.reactions[at].target {
            Some(id) => id.clone(),
            None => {
                return None;
            },
        };
        match self.find_by_id(parent_id.as_str()) {
            None => None,
            Some(mut parent) => {
                if remove_reaction(&mut parent.reactions, &author) {
                    let shown = parent.copy();
                    self.put(parent);
                    Some(shown)
                } else {
                    None
                }
            },
        }
    }

    /// Applies the deletion event `deletion_event_id` to a single target, and
    /// returns the change to show. What it deletes is marked with it.
    ///
    /// Only authors may delete their own reactions or messages. A deletion
    /// whose author is not the target's author changes nothing.
    pub fn apply_single_deletion(
        &mut self,
        deletion_author: &PublicKey,
        target_id: &str,
        deletion_event_id: &str,
    ) -> (update: Option<Update>)
        ensures
            final(self)@.wf(),
            final(self)@ == old(self)@.delete_one(
                *deletion_author,
                target_id@,
                deletion_event_id@,
            ).0,
            update is Some <==> old(self)@.delete_one(
                *deletion_author,
                target_id@,
                deletion_event_id@,
            ).1 is Some,
            update matches Some(u) ==> old(self)@.delete_one(
                *deletion_author,
                target_id@,
                deletion_event_id@,
            ).1 == Some(u@),
    {
        proof {
            use_type_invariant(&*self);
        }
        if let Some(at) = self.find_reaction_by_id(target_id) {
            assert(self@.reactions[at as int] == self.reactions[at as int]@);
            if self.reactions[at].author != *deletion_author {
                return None;
            }
            let parent = self.remove_reaction_from_parent(at);
            self.mark_reaction_deleted(at, deletion_event_id);
            return match parent {
                Some(message) => Some(Update { trigger: UpdateTrigger::ReactionRemoved, message }),
                None => None,
            };
        }
        match self.find_by_id(target_id) {
            Some(mut message) => {
                if message.author != *deletion_author {
                    return None;
                }
                message.deletion_event_id = Some(String::from_str(deletion_event_id));
                let shown = message.copy();
                self.put(message);
                Some(Update { trigger: UpdateTrigger::MessageDeleted, message: shown })
            },
            None => None,
        }
    }

    /// Applies a deletion to all its targets, and returns the changes to show.
    fn apply_deletions_to_targets(
        &mut self,
        author: &PublicKey,
        targets: &Vec<String>,
        deletion_event_id: &str,
    ) -> (updates: Vec<Update>)
        ensures
            final(self)@.wf(),
            final(self)@ == old(self)@.delete_all(*author, texts(targets@), deletion_event_id@).0,
            update_views(updates@) == old(self)@.delete_all(*author, texts(targets@), deletion_event_id@).1,
    {
        proof {
            use_type_invariant(&*self);
        }
        let mut updates: Vec<Update> = Vec::new();
        let mut i: usize = 0;
        let ghost all = texts(targets@);
        assert(all.take(0) =~= Seq::empty());
        assert(update_views(updates@) =~= Seq::empty());
        while i < targets.len()
            invariant
                i <= targets.len(),
                self@.wf(),
                all == texts(targets@),
                self@ == old(self)@.delete_all(
                    *author,
                    all.take(i as int),
                    deletion_event_id@,
                ).0,
                update_views(updates@) == old(self)@.delete_all(
                    *author,
                    all.take(i as int),
                    deletion_event_id@,
                ).1,
            decreases targets.len() - i,
        {
            let ghost shown = updates@;
            assert(all.take(i + 1).drop_last() =~= all.take(i as int));
            assert(all.take(i + 1).last() == targets[i as int]@);
            if let Some(update) = self.apply_single_deletion(
                author,
                targets[i].as_str(),
                deletion_event_id,
            ) {
                updates.push(update);
                assert(update_views(updates@) =~= update_views(shown).push(update@));
            }
            i = i + 1;
        }
        assert(all.take(all.len() as int) =~= all);
        updates
    }

    /// Takes in a deletion and returns the changes to show.
    ///
    /// A deletion that this account sent itself was applied when it was sent,
    /// so its echo changes nothing. A target that is not cached yet is dealt
    /// with when it arrives.
    pub fn cache_deletion(&mut self, message: &MarmotMessage) -> (updates: Vec<Update>)
        ensures
            final(self)@.wf(),
            final(self)@ == old(self)@.after_deletion(*message).0,
            update_views(updates@) == old(self)@.after_deletion(*message).1,
    {
        proof {
            use_type_invariant(&*self);
        }
        if self.has_delivery_status(message.id.as_str()) {
            let none: Vec<Update> = Vec::new();
            assert(update_views(none@) =~= Seq::empty());
            return none;
        }
        let targets = extract_deletion_target_ids(&message.tags);
        self.insert_deletion(message, &targets);
        self.apply_deletions_to_targets(&message.pubkey, &targets, message.id.as_str())
    }

    fn insert_deletion(&mut self, message: &MarmotMessage, targets: &Vec<String>)
        requires
            texts(targets@) == deletion_targets(message.tags@),
        ensures
            final(self)@.wf(),
            final(self)@ == old(self)@.store_deletion(*message),
    {
        proof {
            use_type_invariant(&*self);
        }
        let mut i: usize = 0;
        while i < self.deletions.len()
            invariant
                self.inv(),
                *self == *old(self),
                i <= self.deletions.len(),
                forall|k: int| 0 <= k < i ==> (#[trigger] self@.deletions[k]).id != message.id@,
            decreases self.deletions.len() - i,
        {
            assert(self@.deletions[i as int] == self.deletions[i as int]@);
            if self.deletions[i].id == message.id {
                assert(self@.deletions[i as int].id == message.id@);
                return;
            }
            i = i + 1;
        }
        let mut copied: Vec<String> = Vec::new();
        let mut k: usize = 0;
        while k < targets.len()
            invariant
                self.inv(),
                *self == *old(self),
                k <= targets.len(),
                copied.len() == k,
                forall|j: int| 0 <= j < k ==> (#[trigger] copied[j])@ == targets[j]@,
            decreases targets.len() - k,
        {
            copied.push(targets[k].clone());
            k = k + 1;
        }
        assert(texts(copied@) =~= texts(targets@));
        let row = DeletionRow { id: message.id.clone(), author: message.pubkey, targets: copied };
        let ghost before = self.deletions@;
        let mut deletions: Vec<DeletionRow> = Vec::new();
        std::mem::swap(&mut deletions, &mut self.deletions);
        deletions.push(row);
        let ghost after = deletion_views(deletions@);
        assert(after =~= deletion_views(before).push(row@));
        assert forall|i: int, j: int| 0 <= i < j < after.len() implies after[i].id != after[j].id by {
            if j < before.len() {
                assert(old(self)@.deletions[i].id != old(self)@.deletions[j].id);
            } else {
                assert(after[i] == old(self)@.deletions[i]);
            }
        }
        self.deletions = deletions;
    }

    fn insert_reaction(&mut self, message: &MarmotMessage)
        ensures
            final(self)@.wf(),
            final(self)@ == old(self)@.store_reaction(*message),
    {
        proof {
            use_type_invariant(&*self);
        }
        let mut i: usize = 0;
        while i < self.reactions.len()
            invariant
                self.inv(),
                *self == *old(self),
                i <= self.reactions.len(),
                forall|k: int| 0 <= k < i ==> (#[trigger] self@.reactions[k]).id != message.id@,
            decreases self.reactions.len() - i,
        {
            assert(self@.reactions[i as int] == self.reactions[i as int]@);
            if self.reactions[i].id == message.id {
                assert(self@.reactions[i as int].id == message.id@);
                return;
            }
            i = i + 1;
        }
        let target = match find_tag_content(&message.tags, "e") {
            Some(content) => Some(content.clone()),
            None => None,
        };
        let row = ReactionRow {
            id: message.id.clone(),
            author: message.pubkey,
            created_at: message.created_at,
            target,
            emoji: copy_text(&message.emoji),
            deletion_event_id: None,
        };
        let ghost before = self.reactions@;
        let mut reactions: Vec<ReactionRow> = Vec::new();
        proof {
            let emptied = MessageCache { reactions, ..*self };
            assert(emptied@.messages == self@.messages);
            assert(emptied@.deletions == self@.deletions);
            assert(emptied.inv());
        }
        std::mem::swap(&mut reactions, &mut self.reactions);
        reactions.push(row);
        let ghost after = row_views(reactions@);
        assert(after =~= row_views(before).push(row@));
        assert forall|i: int, j: int| 0 <= i < j < after.len() implies after[i].id != after[j].id by {
            if j < before.len() {
                assert(old(self)@.reactions[i].id != old(self)@.reactions[j].id);
            } else {
                assert(after[i] == old(self)@.reactions[i]);
            }
        }
        self.reactions = reactions;
    }

    /// Takes in a reaction and returns its target as it is now.
    ///
    /// There is nothing to return where the target is not cached yet, and
    /// where this account sent the reaction itself. A reaction that names no
    /// message is an error, and so is one to a cached message whose content
    /// is not a valid emoji.
    pub fn cache_reaction(&mut self, message: &MarmotMessage) -> (target: Result<Option<ChatMessage>>)
        ensures
            final(self)@.wf(),
            final(self)@ == old(self)@.after_reaction(*message),
            ({
                let before = old(self)@;
                let aim = reaction_target(message.tags@);
                if before.outgoing.contains(message.id@) {
                    target matches Ok(None)
                } else if aim is None {
                    target matches Err(WhitenoiseError::MessageAggregation(m)) && m@
                        == "Reaction does not reference a message"@
                } else if !before.messages.dom().contains(aim->0) {
                    target matches Ok(None)
                } else if message.emoji is None {
                    target matches Err(WhitenoiseError::MessageAggregation(m)) && m@
                        == "Reaction content is not a valid emoji"@
                } else {
                    &&& target matches Ok(Some(m))
                    &&& m@ == final(self)@.messages[aim->0]
                }
            }),
    {
        proof {
            use_type_invariant(&*self);
        }
        if self.has_delivery_status(message.id.as_str()) {
            return Ok(None);
        }
        self.insert_reaction(message);
        self.apply_reaction_to_target(message)
    }

    /// Applies a reaction to its target message, and returns the updated target.
    fn apply_reaction_to_target(&mut self, reaction: &MarmotMessage) -> (target: Result<
        Option<ChatMessage>,
    >)
        ensures
            final(self)@.wf(),
            final(self)@ == old(self)@.apply_reaction(*reaction),
            ({
                let before = old(self)@;
                let aim = reaction_target(reaction.tags@);
                if aim is None {
                    target matches Err(WhitenoiseError::MessageAggregation(m)) && m@
                        == "Reaction does not reference a message"@
                } else if !before.messages.dom().contains(aim->0) {
                    target matches Ok(None)
                } else if reaction.emoji is None {
                    target matches Err(WhitenoiseError::MessageAggregation(m)) && m@
                        == "Reaction content is not a valid emoji"@
                } else {
                    &&& target matches Ok(Some(m))
                    &&& m@ == final(self)@.messages[aim->0]
                }
            }),
    {
        proof {
            use_type_invariant(&*self);
        }
        let target_id = match extract_reaction_target_id(&reaction.tags) {
            Ok(id) => id,
            Err(e) => {
                return Err(e);
            },
        };
        match self.find_by_id(target_id.as_str()) {
            None => Ok(None),
            Some(mut target) => {
                let emoji = match &reaction.emoji {
                    Some(emoji) => emoji.clone(),
                    None => {
                        return Err(
                            WhitenoiseError::MessageAggregation(
                                String::from_str("Reaction content is not a valid emoji"),
                            ),
                        );
                    },
                };
                add_reaction(
                    &mut target.reactions,
                    UserReaction {
                        author: reaction.pubkey,
                        emoji,
                        created_at: reaction.created_at,
                        reaction_id: reaction.id.clone(),
                    },
                );
                let shown = target.copy();
                self.put(target);
                Ok(Some(shown))
            },
        }
    }

    /// The reactions stored for a message that was not there when they arrived.
    fn find_orphaned_reactions(&self, id: &str) -> (reactions: Vec<UserReaction>)
        ensures
            reaction_views(reactions@) == stored_reactions(self@.reactions, id@),
    {
        let mut reactions: Vec<UserReaction> = Vec::new();
        let mut i: usize = 0;
        assert(reaction_views(reactions@) =~= stored_reactions(self@.reactions.take(0), id@));
        while i < self.reactions.len()
            invariant
                i <= self.reactions.len(),
                reaction_views(reactions@) == stored_reactions(self@.reactions.take(i as int), id@),
            decreases self.reactions.len() - i,
        {
            let ghost next = self@.reactions.take(i + 1);
            assert(next.drop_last() =~= self@.reactions.take(i as int));
            assert(next.last() == self.reactions[i as int]@);
            let row = &self.reactions[i];
            if row.deletion_event_id.is_none() {
                if let Some(target) = &row.target {
                    if let Some(emoji) = &row.emoji {
                        if same_text(target.as_str(), id) {
                            add_reaction(
                                &mut reactions,
                                UserReaction {
                                    author: row.author,
                                    emoji: emoji.clone(),
                                    created_at: row.created_at,
                                    reaction_id: row.id.clone(),
                                },
                            );
                        }
                    }
                }
            }
            i = i + 1;
        }
        assert(self@.reactions.take(self@.reactions.len() as int) =~= self@.reactions);
        reactions
    }

    /// Applies the deletions that arrived before the message `id` of `author`.
    fn apply_orphaned_deletions(&mut self, id: &str, author: &PublicKey)
        ensures
            final(self)@.wf(),
            final(self)@ == old(self)@.replay_deletions(old(self)@.deletions, *author, id@),
    {
        proof {
            use_type_invariant(&*self);
        }
        let ghost rows = self@.deletions;
        let mut i: usize = 0;
        assert(rows.take(0) =~= Seq::empty());
        while i < self.deletions.len()
            invariant
                self@.wf(),
                rows == old(self)@.deletions,
                rows == deletion_views(self.deletions@),
                i <= self.deletions.len(),
                self@ == old(self)@.replay_deletions(rows.take(i as int), *author, id@),
            decreases self.deletions.len() - i,
        {
            let ghost next = rows.take(i + 1);
            assert(next.drop_last() =~= rows.take(i as int));
            assert(next.last() == self.deletions[i as int]@);
            if self.deletions[i].author == *author && contains_text(&self.deletions[i].targets, id) {
                proof {
                    lemma_delete_keeps(self@, *author, id@, next.last().id, id@);
                }
                let deletion_event_id = self.deletions[i].id.clone();
                self.apply_single_deletion(author, id, deletion_event_id.as_str());
                assert(self@.deletions == rows);
            }
            i = i + 1;
        }
        assert(rows.take(rows.len() as int) =~= rows);
    }

    /// Takes in a chat message and returns it as it is shown.
    ///
    /// A message that was sent from here keeps its delivery status when its
    /// echo arrives. Reactions and deletions that came before it are applied.
    pub fn cache_chat_message(&mut self, message: &MarmotMessage) -> (shown: ChatMessage)
        ensures
            final(self)@.wf(),
            final(self)@ == old(self)@.after_chat_message(*message),
            final(self)@.messages.dom().contains(message.id@),
            shown@ == final(self)@.messages[message.id@],
    {
        proof {
            use_type_invariant(&*self);
        }
        let delivery_status = match self.find_by_id(message.id.as_str()) {
            Some(existing) => existing.delivery_status,
            None => None,
        };
        let reactions = self.find_orphaned_reactions(message.id.as_str());
        self.put(
            ChatMessage {
                id: message.id.clone(),
                author: message.pubkey,
                created_at: message.created_at,
                content: message.content.clone(),
                deletion_event_id: None,
                delivery_status,
                reactions,
            },
        );
        self.apply_orphaned_deletions(message.id.as_str(), &message.pubkey);
        proof {
            lemma_replay_keeps_message(
                old(self)@.file_message(*message),
                old(self)@.deletions,
                message.pubkey,
                message.id@,
                message.id@,
            );
        }
        self.find_by_id(message.id.as_str()).unwrap()
    }
}

/// Whether `list` holds a string with the given text.
fn contains_text(list: &Vec<String>, text: &str) -> (found: bool)
    ensures
        found == texts(list@).contains(text@),
{
    let mut i: usize = 0;
    while i < list.len()
        invariant
            i <= list.len(),
            forall|k: int| 0 <= k < i ==> texts(list@)[k] != text@,
        decreases list.len() - i,
    {
        if same_text(list[i].as_str(), text) {
            assert(texts(list@)[i as int] == text@);
            return true;
        }
        i = i + 1;
    }
    false
}

/// A deletion takes no message out of the cache and stores no event.
proof fn lemma_delete_keeps(
    c: CacheV,
    author: PublicKey,
    target: Seq<char>,
    deletion: Seq<char>,
    id: Seq<char>,
)
    requires
        c.wf(),
    ensures
        c.delete_one(author, target, deletion).0.wf(),
        c.messages.dom().contains(id) <==> c.delete_one(author, target, deletion).0.messages.dom().contains(id),
        c.delete_one(author, target, deletion).0.deletions == c.deletions,
        c.delete_one(author, target, deletion).0.outgoing == c.outgoing,
{
    let after = c.delete_one(author, target, deletion).0;
    if exists|at: int| reaction_at(c.reactions, target, at) {
        let at = choose|at: int| reaction_at(c.reactions, target, at);
        assert(reaction_at(c.reactions, target, at));
        assert forall|i: int, j: int| 0 <= i < j < after.reactions.len() implies after.reactions[i].id
            != after.reactions[j].id by {
            assert(c.reactions[i].id != c.reactions[j].id);
        }
    }
}

proof fn lemma_replay_keeps_message(
    c: CacheV,
    rows: Seq<DeletionRowV>,
    author: PublicKey,
    target: Seq<char>,
    id: Seq<char>,
)
    requires
        c.wf(),
    ensures
        c.replay_deletions(rows, author, target).wf(),
        c.messages.dom().contains(id) <==> c.replay_deletions(
            rows,
            author,
            target,
        ).messages.dom().contains(id),
    decreases rows.len(),
{
    if rows.len() > 0 {
        lemma_replay_keeps_message(c, rows.drop_last(), author, target, id);
        lemma_delete_keeps(
            c.replay_deletions(rows.drop_last(), author, target),
            author,
            target,
            rows.last().id,
            id,
        );
    }
}

} // verus!
