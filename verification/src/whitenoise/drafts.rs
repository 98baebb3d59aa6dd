//! Unsent message drafts, one for each group of an account.

use vstd::prelude::*;

use super::nostr::{EventId, PublicKey};
use super::text::same_bytes;

verus! {

/// A draft that was saved for a group.
#[derive(Clone, Debug)]
pub struct Draft {
    /// The number of the draft; none before it is saved.
    pub id: Option<i64>,
    pub account_pubkey: PublicKey,
    pub mls_group_id: Vec<u8>,
    pub content: String,
    pub reply_to_id: Option<EventId>,
    /// The attachments, each as JSON.
    pub media_attachments: Vec<String>,
    /// When the draft was first saved, in milliseconds.
    pub created_at: i64,
    /// When the draft was last saved, in milliseconds.
    pub updated_at: i64,
}

/// The value of a [`Draft`].
#[verifier::ext_equal]
pub struct DraftV {
    pub id: Option<i64>,
    pub account_pubkey: PublicKey,
    pub mls_group_id: Seq<u8>,
    pub content: Seq<char>,
    pub reply_to_id: Option<EventId>,
    pub media_attachments: Seq<Seq<char>>,
    pub created_at: i64,
    pub updated_at: i64,
}

impl View for Draft {
    type V = DraftV;

    open spec fn view(&self) -> DraftV {
        DraftV {
            id: self.id,
            account_pubkey: self.account_pubkey,
            mls_group_id: self.mls_group_id@,
            content: self.content@,
            reply_to_id: self.reply_to_id,
            media_attachments: self.media_attachments@.map_values(|m: String| m@),
            created_at: self.created_at,
            updated_at: self.updated_at,
        }
    }
}

/// The draft that saving gives a group: the number and the time of creation of
/// the draft that the group had stay, if it had one.
pub open spec fn saved_draft(
    drafts: Map<Seq<u8>, DraftV>,
    account_pubkey: PublicKey,
    next_id: i64,
    mls_group_id: Seq<u8>,
    content: Seq<char>,
    reply_to_id: Option<EventId>,
    media_attachments: Seq<Seq<char>>,
    now: i64,
) -> DraftV {
    let had = drafts.dom().contains(mls_group_id);
    DraftV {
        id: if had {
            drafts[mls_group_id].id
        } else {
            Some(next_id)
        },
        account_pubkey,
        mls_group_id,
        content,
        reply_to_id,
        media_attachments,
        created_at: if had {
            drafts[mls_group_id].created_at
        } else {
            now
        },
        updated_at: now,
    }
}

/// The drafts of an account.
#[derive(Debug)]
pub struct Drafts {
    account_pubkey: PublicKey,
    drafts: Vec<Draft>,
    next_id: i64,
}

impl Drafts {
    /// Whose drafts these are.
    pub closed spec fn account(self) -> PublicKey {
        self.account_pubkey
    }

    /// The draft of each group that has one.
    pub closed spec fn by_group(self) -> Map<Seq<u8>, DraftV> {
        Map::new(
            |group: Seq<u8>| exists|i: int|
                0 <= i < self.drafts@.len() && (#[trigger] self.drafts@[i]).mls_group_id@ == group,
            |group: Seq<u8>|
                self.drafts@[choose|i: int|
                    0 <= i < self.drafts@.len() && (#[trigger] self.drafts@[i]).mls_group_id@ == group]@,
        )
    }

    /// The number that the next new draft gets.
    pub closed spec fn spec_next_id(self) -> i64 {
        self.next_id
    }

    /// No two drafts have the same group or the same number, and every number
    /// was given out.
    #[verifier::type_invariant]
    spec fn wf(self) -> bool {
        &&& forall|i: int, j: int|
            0 <= i < j < self.drafts@.len() ==> (#[trigger] self.drafts@[i]).mls_group_id@ != (
            #[trigger] self.drafts@[j]).mls_group_id@ && self.drafts@[i].id != self.drafts@[j].id
        &&& forall|i: int|
            0 <= i < self.drafts@.len() ==> (#[trigger] self.drafts@[i]).id is Some
                && self.drafts@[i].id->0 < self.next_id
    }

    proof fn lemma_at(self, i: int)
        requires
            self.wf(),
            0 <= i < self.drafts@.len(),
        ensures
            self.by_group().dom().contains(self.drafts@[i].mls_group_id@),
            self.by_group()[self.drafts@[i].mls_group_id@] == self.drafts@[i]@,
    {
        let group = self.drafts@[i].mls_group_id@;
        let k = choose|k: int|
            0 <= k < self.drafts@.len() && (#[trigger] self.drafts@[k]).mls_group_id@ == group;
        assert(0 <= k < self.drafts@.len() && self.drafts@[k].mls_group_id@ == group);
        assert(k == i);
    }

    /// An account without drafts.
    pub fn new(account_pubkey: PublicKey) -> (drafts: Drafts)
        ensures
            drafts.account() == account_pubkey,
            drafts.by_group() == Map::<Seq<u8>, DraftV>::empty(),
            drafts.spec_next_id() == 1,
    {
        let drafts = Drafts { account_pubkey, drafts: Vec::new(), next_id: 1 };
        assert(drafts.by_group() =~= Map::empty());
        drafts
    }

    fn position(&self, mls_group_id: &Vec<u8>) -> (at: Option<usize>)
        ensures
            match at {
                Some(i) => i < self.drafts@.len() && self.drafts@[i as int].mls_group_id@ == mls_group_id@,
                None => forall|i: int|
                    0 <= i < self.drafts@.len() ==> (#[trigger] self.drafts@[i]).mls_group_id@
                        != mls_group_id@,
            },
    {
        let mut i: usize = 0;
        while i < self.drafts.len()
            invariant
                i <= self.drafts.len(),
                forall|k: int|
                    0 <= k < i ==> (#[trigger] self.drafts@[k]).mls_group_id@ != mls_group_id@,
            decreases self.drafts.len() - i,
        {
            if same_bytes(&self.drafts[i].mls_group_id, mls_group_id) {
                return Some(i);
            }
            i = i + 1;
        }
        None
    }

    /// The number that the next new draft gets.
    pub fn next_id(&self) -> (id: i64)
        ensures
            id == self.spec_next_id(),
    {
        self.next_id
    }

    /// The draft of a group, if it has one. A draft that was saved has a number.
    pub fn load(&self, mls_group_id: &Vec<u8>) -> (draft: Option<&Draft>)
        ensures
            match draft {
                Some(d) => {
                    &&& self.by_group().dom().contains(mls_group_id@)
                    &&& d@ == self.by_group()[mls_group_id@]
                    &&& d@.id is Some
                    &&& d@.id->0 < self.spec_next_id()
                },
                None => !self.by_group().dom().contains(mls_group_id@),
            },
    {
        proof {
            use_type_invariant(self);
        }
        match self.position(mls_group_id) {
            Some(i) => {
                proof {
                    self.lemma_at(i as int);
                }
                Some(&self.drafts[i])
            },
            None => None,
        }
    }

    /// Saves the draft of a group in place of the one that it had, whose
    /// number and time of creation it keeps.
    pub fn save(
        &mut self,
        mls_group_id: Vec<u8>,
        content: String,
        reply_to_id: Option<EventId>,
        media_attachments: Vec<String>,
        now: i64,
    )
        requires
            old(self).spec_next_id() < i64::MAX,
        ensures
            final(self).account() == old(self).account(),
            final(self).by_group() == old(self).by_group().insert(
                mls_group_id@,
                saved_draft(
                    old(self).by_group(),
                    old(self).account(),
                    old(self).spec_next_id(),
                    mls_group_id@,
                    content@,
                    reply_to_id,
                    media_attachments@.map_values(|m: String| m@),
                    now,
                ),
            ),
            final(self).spec_next_id() == old(self).spec_next_id() + if old(
                self,
            ).by_group().dom().contains(mls_group_id@) {
                0int
            } else {
                1
            },
    {
        proof {
            use_type_invariant(&*self);
        }
        let ghost before = *self;
        let ghost group = mls_group_id@;
        match self.position(&mls_group_id) {
            Some(i) => {
                proof {
                    before.lemma_at(i as int);
                }
                let draft = Draft {
                    id: self.drafts[i].id,
                    account_pubkey: self.account_pubkey,
                    mls_group_id,
                    content,
                    reply_to_id,
                    media_attachments,
                    created_at: self.drafts[i].created_at,
                    updated_at: now,
                };
                let mut drafts: Vec<Draft> = Vec::new();
                std::mem::swap(&mut drafts, &mut self.drafts);
                drafts.set(i, draft);
                self.drafts = drafts;
                proof {
                    lemma_put(before, *self, group, i as int);
                }
            },
            None => {
                let draft = Draft {
                    id: Some(self.next_id),
                    account_pubkey: self.account_pubkey,
                    mls_group_id,
                    content,
                    reply_to_id,
                    media_attachments,
                    created_at: now,
                    updated_at: now,
                };
                self.next_id = self.next_id + 1;
                let mut drafts: Vec<Draft> = Vec::new();
                std::mem::swap(&mut drafts, &mut self.drafts);
                drafts.push(draft);
                self.drafts = drafts;
                proof {
                    lemma_put(before, *self, group, before.drafts@.len() as int);
                }
            },
        }
    }

    /// Removes the draft of a group. It is no error if there is none.
    pub fn delete(&mut self, mls_group_id: &Vec<u8>)
        ensures
            final(self).account() == old(self).account(),
            final(self).spec_next_id() == old(self).spec_next_id(),
            final(self).by_group() == old(self).by_group().remove(mls_group_id@),
    {
        proof {
            use_type_invariant(&*self);
        }
        let ghost before = *self;
        let ghost group = mls_group_id@;
        match self.position(mls_group_id) {
            Some(i) => {
                let mut drafts: Vec<Draft> = Vec::new();
                std::mem::swap(&mut drafts, &mut self.drafts);
                let _removed = drafts.remove(i);
                self.drafts = drafts;
                proof {
                    lemma_removed(before, *self, group, i as int);
                }
            },
            None => {
                assert(self.by_group() =~= before.by_group().remove(group));
            },
        }
    }
}

proof fn lemma_put(before: Drafts, after: Drafts, group: Seq<u8>, at: int)
    requires
        before.wf(),
        after.wf(),
        0 <= at < after.drafts@.len(),
        after.drafts@[at].mls_group_id@ == group,
        before.drafts@.len() <= after.drafts@.len() <= before.drafts@.len() + 1,
        at == before.drafts@.len() || before.drafts@.len() == after.drafts@.len(),
        at < before.drafts@.len() ==> before.drafts@[at].mls_group_id@ == group,
        forall|i: int|
            0 <= i < after.drafts@.len() && i != at ==> i < before.drafts@.len()
                && #[trigger] after.drafts@[i] == before.drafts@[i],
    ensures
        after.by_group() == before.by_group().insert(group, after.drafts@[at]@),
{
    after.lemma_at(at);
    let put = before.by_group().insert(group, after.drafts@[at]@);
    assert forall|g: Seq<u8>| after.by_group().dom().contains(g) <==> put.dom().contains(g) by {
        if after.by_group().dom().contains(g) && g != group {
            let i = choose|i: int|
                0 <= i < after.drafts@.len() && (#[trigger] after.drafts@[i]).mls_group_id@ == g;
            assert(before.drafts@[i].mls_group_id@ == g);
        }
        if before.by_group().dom().contains(g) && g != group {
            let i = choose|i: int|
                0 <= i < before.drafts@.len() && (#[trigger] before.drafts@[i]).mls_group_id@ == g;
            assert(after.drafts@[i].mls_group_id@ == g);
        }
    }
    assert forall|g: Seq<u8>| put.dom().contains(g) implies #[trigger] after.by_group()[g] == put[g] by {
        if g != group {
            let i = choose|i: int|
                0 <= i < before.drafts@.len() && (#[trigger] before.drafts@[i]).mls_group_id@ == g;
            assert(after.drafts@[i].mls_group_id@ == g);
            before.lemma_at(i);
            after.lemma_at(i);
        }
    }
    assert(after.by_group() =~= put);
}

proof fn lemma_removed(before: Drafts, after: Drafts, group: Seq<u8>, at: int)
    requires
        before.wf(),
        after.wf(),
        0 <= at < before.drafts@.len(),
        before.drafts@[at].mls_group_id@ == group,
        after.drafts@ == before.drafts@.remove(at),
    ensures
        after.by_group() == before.by_group().remove(group),
{
    let rest = before.by_group().remove(group);
    assert forall|g: Seq<u8>| after.by_group().dom().contains(g) <==> rest.dom().contains(g) by {
        if after.by_group().dom().contains(g) {
            let i = choose|i: int|
                0 <= i < after.drafts@.len() && (#[trigger] after.drafts@[i]).mls_group_id@ == g;
            let k = if i < at {
                i
            } else {
                i + 1
            };
            assert(before.drafts@[k].mls_group_id@ == g);
            assert(before.drafts@[at].mls_group_id@ == group);
        }
        if rest.dom().contains(g) {
            let k = choose|k: int|
                0 <= k < before.drafts@.len() && (#[trigger] before.drafts@[k]).mls_group_id@ == g;
            let i = if k < at {
                k
            } else {
                k - 1
            };
            assert(after.drafts@[i].mls_group_id@ == g);
        }
    }
    assert forall|g: Seq<u8>| rest.dom().contains(g) implies #[trigger] after.by_group()[g] == rest[g] by {
        let k = choose|k: int|
            0 <= k < before.drafts@.len() && (#[trigger] before.drafts@[k]).mls_group_id@ == g;
        let i = if k < at {
            k
        } else {
            k - 1
        };
        assert(after.drafts@[i] == before.drafts@[k]);
        before.lemma_at(k);
        after.lemma_at(i);
    }
    assert(after.by_group() =~= rest);
}

/// What was saved for a group is what is loaded for it, and the drafts of
/// other groups stay as they are.
pub proof fn saved_drafts_are_loaded(
    drafts: Map<Seq<u8>, DraftV>,
    account_pubkey: PublicKey,
    next_id: i64,
    group: Seq<u8>,
    content: Seq<char>,
    reply_to_id: Option<EventId>,
    media: Seq<Seq<char>>,
    now: i64,
    other: Seq<u8>,
)
    ensures
        ({
            let draft = saved_draft(
                drafts,
                account_pubkey,
                next_id,
                group,
                content,
                reply_to_id,
                media,
                now,
            );
            let after = drafts.insert(group, draft);
            &&& after.dom().contains(group)
            &&& after[group].content == content
            &&& after[group].reply_to_id == reply_to_id
            &&& after[group].media_attachments == media
            &&& after[group].mls_group_id == group
            &&& after[group].account_pubkey == account_pubkey
            &&& after[group].id is Some || drafts.dom().contains(group)
            &&& other != group ==> (after.dom().contains(other) <==> drafts.dom().contains(other))
            &&& other != group && drafts.dom().contains(other) ==> after[other] == drafts[other]
        }),
{
}

/// Saving again for a group keeps the draft's number and changes its content.
pub proof fn saving_again_keeps_the_number(
    drafts: Map<Seq<u8>, DraftV>,
    account_pubkey: PublicKey,
    next_id: i64,
    group: Seq<u8>,
    content: Seq<char>,
    reply_to_id: Option<EventId>,
    media: Seq<Seq<char>>,
    now: i64,
)
    requires
        drafts.dom().contains(group),
    ensures
        ({
            let draft = saved_draft(
                drafts,
                account_pubkey,
                next_id,
                group,
                content,
                reply_to_id,
                media,
                now,
            );
            draft.id == drafts[group].id && draft.created_at == drafts[group].created_at
                && draft.content == content
        }),
{
}

/// The draft that is saved is of the account and the group, says what was
/// handed over, and was updated just now. The first of a group gets the next
/// number and was created just now as well; a later one keeps both.
pub proof fn a_saved_draft_holds_what_was_handed_over(
    drafts: Map<Seq<u8>, DraftV>,
    account_pubkey: PublicKey,
    next_id: i64,
    group: Seq<u8>,
    content: Seq<char>,
    reply_to_id: Option<EventId>,
    media: Seq<Seq<char>>,
    now: i64,
)
    ensures
        ({
            let draft = saved_draft(
                drafts,
                account_pubkey,
                next_id,
                group,
                content,
                reply_to_id,
                media,
                now,
            );
            &&& draft.account_pubkey == account_pubkey && draft.mls_group_id == group
            &&& draft.content == content && draft.reply_to_id == reply_to_id && draft.media_attachments
                == media
            &&& draft.updated_at == now
            &&& !drafts.dom().contains(group) ==> draft.id == Some(next_id) && draft.created_at == now
            &&& drafts.dom().contains(group) ==> draft.id == drafts[group].id && draft.created_at
                == drafts[group].created_at
        }),
{
}

/// The value of a draft holds what the draft holds, column by column.
pub proof fn a_draft_shows_every_column(draft: Draft, i: int)
    ensures
        draft@.id == draft.id && draft@.account_pubkey == draft.account_pubkey && draft@.reply_to_id
            == draft.reply_to_id && draft@.created_at == draft.created_at && draft@.updated_at
            == draft.updated_at,
        draft@.mls_group_id == draft.mls_group_id@,
        draft@.content == draft.content@,
        draft@.media_attachments.len() == draft.media_attachments@.len(),
        0 <= i < draft.media_attachments@.len() ==> draft@.media_attachments[i]
            == draft.media_attachments@[i]@,
{
}

/// A deleted draft is gone, and deleting again changes nothing.
pub proof fn deleted_drafts_are_gone(drafts: Map<Seq<u8>, DraftV>, group: Seq<u8>)
    ensures
        !drafts.remove(group).dom().contains(group),
        drafts.remove(group).remove(group) == drafts.remove(group),
{
    assert(drafts.remove(group).remove(group) =~= drafts.remove(group));
}

} // verus!
