//! Keys, identifiers and events as the library handles them, and what the
//! `nostr_sdk` crate computes on them.

use nostr_sdk::JsonUtil;
use vstd::prelude::*;
use vstd::std_specs::cmp::{PartialEqSpec, PartialEqSpecImpl};

use super::text::same_text;

verus! {

pub const KIND_METADATA: u16 = 0;

pub const KIND_CONTACT_LIST: u16 = 3;

pub const KIND_EVENT_DELETION: u16 = 5;

pub const KIND_REACTION: u16 = 7;

pub const KIND_CHAT_MESSAGE: u16 = 9;

pub const KIND_MLS_WELCOME: u16 = 444;

pub const KIND_MLS_GROUP_MESSAGE: u16 = 445;

pub const KIND_GIFT_WRAP: u16 = 1059;

pub const KIND_MUTE_LIST: u16 = 10000;

pub const KIND_RELAY_LIST: u16 = 10002;

pub const KIND_INBOX_RELAYS: u16 = 10050;

pub const KIND_MLS_KEY_PACKAGE_RELAYS: u16 = 10051;

/// The hexadecimal digit for `d`, in lower case.
pub open spec fn hex_char(d: nat) -> char {
    if d < 10 {
        ('0' as nat + d) as char
    } else {
        ('a' as nat + (d - 10)) as char
    }
}

/// `bytes` written in hexadecimal, two lower-case digits each.
pub open spec fn hex_text(bytes: Seq<u8>) -> Seq<char> {
    Seq::new(
        2 * bytes.len(),
        |i: int|
            if i % 2 == 0 {
                hex_char((bytes[i / 2] / 16) as nat)
            } else {
                hex_char((bytes[i / 2] % 16) as nat)
            },
    )
}

/// A Nostr public key.
#[derive(Clone, Copy, Debug)]
pub struct PublicKey {
    pub bytes: [u8; 32],
}

/// The identifier of a Nostr event.
#[derive(Clone, Copy, Debug)]
pub struct EventId {
    pub bytes: [u8; 32],
}

fn same_32(a: &[u8; 32], b: &[u8; 32]) -> (same: bool)
    ensures
        same == (*a == *b),
{
    let mut i: usize = 0;
    while i < 32
        invariant
            i <= 32,
            forall|k: int| 0 <= k < i ==> a[k] == b[k],
        decreases 32 - i,
    {
        if a[i] != b[i] {
            return false;
        }
        i = i + 1;
    }
    assert(*a =~= *b);
    true
}

impl PartialEq for PublicKey {
    fn eq(&self, other: &Self) -> (same: bool) {
        same_32(&self.bytes, &other.bytes)
    }
}

impl PartialEqSpecImpl for PublicKey {
    open spec fn obeys_eq_spec() -> bool {
        true
    }

    open spec fn eq_spec(&self, other: &Self) -> bool {
        self.bytes == other.bytes
    }
}

impl PartialEq for EventId {
    fn eq(&self, other: &Self) -> (same: bool) {
        same_32(&self.bytes, &other.bytes)
    }
}

impl PartialEqSpecImpl for EventId {
    open spec fn obeys_eq_spec() -> bool {
        true
    }

    open spec fn eq_spec(&self, other: &Self) -> bool {
        self.bytes == other.bytes
    }
}

impl PublicKey {
    pub open spec fn spec_hex(self) -> Seq<char> {
        hex_text(self.bytes@)
    }

    pub fn to_hex(&self) -> (text: String)
        ensures
            text@ == self.spec_hex(),
    {
        public_key_hex(&self.bytes)
    }
}

/// Calls `nostr_sdk::PublicKey::to_hex`: two lower-case hexadecimal digits for each byte.
#[verifier::external_body]
fn public_key_hex(bytes: &[u8; 32]) -> (text: String)
    ensures
        text@ == hex_text(bytes@),
{
    nostr_sdk::PublicKey::from_byte_array(*bytes).to_hex()
}

impl EventId {
    pub open spec fn spec_hex(self) -> Seq<char> {
        hex_text(self.bytes@)
    }

    pub fn to_hex(&self) -> (text: String)
        ensures
            text@ == self.spec_hex(),
    {
        event_id_hex(&self.bytes)
    }
}

/// Calls `nostr_sdk::EventId::to_hex`: two lower-case hexadecimal digits for each byte.
#[verifier::external_body]
fn event_id_hex(bytes: &[u8; 32]) -> (text: String)
    ensures
        text@ == hex_text(bytes@),
{
    nostr_sdk::EventId::from_byte_array(*bytes).to_hex()
}

/// The bytes of the key that `nostr_sdk::PublicKey::parse` reads from a text, if it reads one.
pub uninterp spec fn nostr_public_key(text: Seq<char>) -> Option<Seq<u8>>;

/// The bytes of the identifier that `nostr_sdk::EventId::parse` reads from a text, if it reads one.
pub uninterp spec fn nostr_event_id(text: Seq<char>) -> Option<Seq<u8>>;

/// Calls `nostr_sdk::PublicKey::parse`, which reads hexadecimal, bech32 and
/// `nostr:` URIs. What it reads depends on the text alone, and the
/// hexadecimal form of 32 bytes gives those bytes back.
#[verifier::external_body]
pub(crate) fn parse_public_key(text: &str) -> (key: Option<PublicKey>)
    ensures
        key is Some <==> nostr_public_key(text@) is Some,
        key matches Some(k) ==> nostr_public_key(text@) == Some(k.bytes@),
        forall|k: PublicKey| #[trigger] k.spec_hex() == text@ ==> key == Some(k),
{
    match nostr_sdk::PublicKey::parse(text) {
        Ok(key) => Some(PublicKey { bytes: key.to_bytes() }),
        Err(_) => None,
    }
}

/// Calls `nostr_sdk::EventId::parse`, which reads hexadecimal, bech32 and
/// `nostr:` URIs. What it reads depends on the text alone, and the
/// hexadecimal form of 32 bytes gives those bytes back.
#[verifier::external_body]
pub(crate) fn parse_event_id(text: &str) -> (id: Option<EventId>)
    ensures
        id is Some <==> nostr_event_id(text@) is Some,
        id matches Some(e) ==> nostr_event_id(text@) == Some(e.bytes@),
        forall|e: EventId| #[trigger] e.spec_hex() == text@ ==> id == Some(e),
{
    match nostr_sdk::EventId::parse(text) {
        Ok(id) => Some(EventId { bytes: id.to_bytes() }),
        Err(_) => None,
    }
}

/// Calls `nostr_sdk::PublicKey::from_slice`: any 32 bytes are a key, and
/// anything else is refused with one message.
#[verifier::external_body]
pub(crate) fn public_key_from_slice(bytes: &Vec<u8>) -> (key: Result<PublicKey, String>)
    ensures
        key is Ok <==> bytes.len() == 32,
        key matches Ok(k) ==> k.bytes@ == bytes@,
        key matches Err(e) ==> e@ == "Invalid public key"@,
{
    match nostr_sdk::PublicKey::from_slice(bytes) {
        Ok(key) => Ok(PublicKey { bytes: key.to_bytes() }),
        Err(error) => Err(error.to_string()),
    }
}

/// What `nostr_sdk::Metadata::from_json` makes of a text: the metadata,
/// written out as JSON again, or the message of the error.
pub uninterp spec fn nostr_metadata(json: Seq<char>) -> Result<Seq<char>, Seq<char>>;

/// Calls `nostr_sdk::Metadata::from_json` and hands the metadata on as JSON.
#[verifier::external_body]
pub(crate) fn parse_metadata(json: &str) -> (metadata: Result<String, String>)
    ensures
        metadata is Ok <==> nostr_metadata(json@) is Ok,
        metadata matches Ok(m) ==> m@ == nostr_metadata(json@)->Ok_0,
        metadata matches Err(e) ==> e@ == nostr_metadata(json@)->Err_0,
{
    match nostr_sdk::Metadata::from_json(json) {
        Ok(metadata) => metadata.try_as_json().map_err(|error| error.to_string()),
        Err(error) => Err(error.to_string()),
    }
}

/// Lexicographic order on texts.
pub open spec fn text_precedes(a: Seq<char>, b: Seq<char>) -> bool {
    ||| exists|k: int|
        0 <= k < a.len() && k < b.len() && #[trigger] a[k] < b[k] && a.take(k) == b.take(k)
    ||| a.len() < b.len() && a == b.take(a.len() as int)
}

/// The order in which keys are listed: that of their hexadecimal texts.
pub open spec fn key_precedes(a: PublicKey, b: PublicKey) -> bool {
    text_precedes(a.spec_hex(), b.spec_hex())
}

/// The first byte that differs decides how two keys are ordered.
proof fn lemma_key_order(a: PublicKey, b: PublicKey, at: int)
    requires
        0 <= at < 32,
        forall|i: int| 0 <= i < at ==> a.bytes[i] == b.bytes[i],
        a.bytes[at] < b.bytes[at],
    ensures
        key_precedes(a, b),
        !key_precedes(b, a),
{
    let x = a.spec_hex();
    let y = b.spec_hex();
    assert forall|i: int| 0 <= i < 2 * at implies x[i] == y[i] by {
        assert(a.bytes[i / 2] == b.bytes[i / 2]);
    }
    let k = if a.bytes[at] / 16 == b.bytes[at] / 16 {
        2 * at + 1
    } else {
        2 * at
    };
    assert(x.take(k) =~= y.take(k));
    assert(x[k] < y[k]);
    assert forall|j: int| 0 <= j < 64 && #[trigger] y[j] < x[j] implies y.take(j) != x.take(j) by {
        if y.take(j) == x.take(j) && j > k {
            assert(y.take(j)[k] == x.take(j)[k]);
        }
    }
}

/// Whether `a` comes before `b` in hexadecimal order.
fn key_before(a: &PublicKey, b: &PublicKey) -> (before: bool)
    ensures
        before == key_precedes(*a, *b),
{
    let mut i: usize = 0;
    while i < 32
        invariant
            i <= 32,
            forall|k: int| 0 <= k < i ==> a.bytes[k] == b.bytes[k],
        decreases 32 - i,
    {
        if a.bytes[i] < b.bytes[i] {
            proof {
                lemma_key_order(*a, *b, i as int);
            }
            return true;
        }
        if b.bytes[i] < a.bytes[i] {
            proof {
                lemma_key_order(*b, *a, i as int);
            }
            return false;
        }
        i = i + 1;
    }
    assert(a.bytes =~= b.bytes);
    false
}

/// `listed` holds the keys of `keys`, each once, in hexadecimal order.
pub open spec fn lists_each_once(listed: Seq<PublicKey>, keys: Seq<PublicKey>) -> bool {
    &&& forall|i: int, j: int|
        0 <= i < j < listed.len() ==> key_precedes(#[trigger] listed[i], #[trigger] listed[j])
    &&& forall|k: PublicKey| listed.contains(k) <==> keys.contains(k)
}

/// Two different keys are ordered one way or the other, and the order is transitive.
proof fn lemma_key_order_total(a: PublicKey, b: PublicKey)
    ensures
        a == b || key_precedes(a, b) || key_precedes(b, a),
        key_precedes(a, b) ==> a != b,
{
    if forall|i: int| 0 <= i < 32 ==> a.bytes[i] == b.bytes[i] {
        assert(a.bytes =~= b.bytes);
    } else {
        let at = lemma_first_difference(a, b, 0);
        if a.bytes[at] < b.bytes[at] {
            lemma_key_order(a, b, at);
        } else {
            lemma_key_order(b, a, at);
        }
    }
}

proof fn lemma_first_difference(a: PublicKey, b: PublicKey, from: int) -> (at: int)
    requires
        0 <= from <= 32,
        forall|i: int| 0 <= i < from ==> a.bytes[i] == b.bytes[i],
        exists|i: int| 0 <= i < 32 && a.bytes[i] != b.bytes[i],
    ensures
        0 <= at < 32,
        forall|i: int| 0 <= i < at ==> a.bytes[i] == b.bytes[i],
        a.bytes[at] != b.bytes[at],
    decreases 32 - from,
{
    if from < 32 && a.bytes[from] == b.bytes[from] {
        lemma_first_difference(a, b, from + 1)
    } else {
        from
    }
}

proof fn lemma_key_order_transitive(a: PublicKey, b: PublicKey, c: PublicKey)
    requires
        key_precedes(a, b),
        key_precedes(b, c),
    ensures
        key_precedes(a, c),
{
    let x = a.spec_hex();
    let y = b.spec_hex();
    let z = c.spec_hex();
    let k = choose|k: int|
        0 <= k < x.len() && k < y.len() && #[trigger] x[k] < y[k] && x.take(k) == y.take(k);
    let m = choose|m: int|
        0 <= m < y.len() && m < z.len() && #[trigger] y[m] < z[m] && y.take(m) == z.take(m);
    let n = if k < m {
        k
    } else {
        m
    };
    assert forall|i: int| 0 <= i < n implies x[i] == z[i] by {
        assert(x.take(k)[i] == y.take(k)[i]);
        assert(y.take(m)[i] == z.take(m)[i]);
    }
    if k < m {
        assert(y.take(m)[k] == z.take(m)[k]);
    } else if m < k {
        assert(x.take(k)[m] == y.take(k)[m]);
    }
    assert(x[n] < z[n]);
    assert(x.take(n) =~= z.take(n));
}

/// The keys of `keys` in hexadecimal order, without repetitions.
pub fn sort_and_dedup(keys: &Vec<PublicKey>) -> (listed: Vec<PublicKey>)
    ensures
        lists_each_once(listed@, keys@),
        forall|k: PublicKey| listed@.contains(k) <==> keys@.contains(k),
        forall|i: int, j: int|
            0 <= i < j < listed@.len() ==> (#[trigger] listed@[i]) != (#[trigger] listed@[j])
                && key_precedes(listed@[i], listed@[j]),
{
    let mut listed: Vec<PublicKey> = Vec::new();
    let mut n: usize = 0;
    while n < keys.len()
        invariant
            n <= keys.len(),
            lists_each_once(listed@, keys@.take(n as int)),
        decreases keys.len() - n,
    {
        let key = keys[n];
        let ghost before = listed@;
        let mut at: usize = 0;
        while at < listed.len() && key_before(&listed[at], &key)
            invariant
                at <= listed.len(),
                listed@ == before,
                forall|i: int| 0 <= i < at ==> key_precedes(#[trigger] before[i], key),
            decreases listed.len() - at,
        {
            at = at + 1;
        }
        let known = at < listed.len() && listed[at] == key;
        if !known {
            listed.insert(at, key);
        }
        proof {
            lemma_listed(before, keys@.take(n as int), key, at as int, listed@);
            assert(keys@.take(n + 1) =~= keys@.take(n as int).push(key));
        }
        n = n + 1;
    }
    assert(keys@.take(keys.len() as int) =~= keys@);
    assert forall|i: int, j: int| 0 <= i < j < listed@.len() implies (#[trigger] listed@[i]) != (
    #[trigger] listed@[j]) && key_precedes(listed@[i], listed@[j]) by {
        lemma_key_order_total(listed@[i], listed@[j]);
    }
    listed
}

proof fn lemma_listed(
    before: Seq<PublicKey>,
    keys: Seq<PublicKey>,
    key: PublicKey,
    at: int,
    after: Seq<PublicKey>,
)
    requires
        lists_each_once(before, keys),
        0 <= at <= before.len(),
        forall|i: int| 0 <= i < at ==> key_precedes(#[trigger] before[i], key),
        at < before.len() ==> !key_precedes(before[at], key),
        after == (if at < before.len() && before[at] == key {
            before
        } else {
            before.insert(at, key)
        }),
    ensures
        lists_each_once(after, keys.push(key)),
{
    if at < before.len() && before[at] == key {
        assert forall|k: PublicKey| after.contains(k) <==> keys.push(key).contains(k) by {
            if keys.contains(k) {
                let i = choose|i: int| 0 <= i < keys.len() && keys[i] == k;
                assert(keys.push(key)[i] == k);
            }
            if keys.push(key).contains(k) && k != key {
                let i = choose|i: int| 0 <= i < keys.push(key).len() && keys.push(key)[i] == k;
                assert(keys[i] == k);
            }
            assert(keys.push(key)[keys.len() as int] == key);
            assert(before[at] == key);
        }
    } else {
        assert forall|j: int| at <= j < before.len() implies key_precedes(key, #[trigger] before[j]) by {
            lemma_key_order_total(before[at], key);
            if at < j {
                assert(key_precedes(before[at], before[j]));
                lemma_key_order_transitive(key, before[at], before[j]);
            }
        }
        assert forall|i: int, j: int| 0 <= i < j < after.len() implies key_precedes(
            #[trigger] after[i],
            #[trigger] after[j],
        ) by {
            if j < at {
                assert(key_precedes(before[i], before[j]));
            } else if i > at {
                assert(key_precedes(before[i - 1], before[j - 1]));
            } else if i < at && j > at {
                assert(key_precedes(before[i], before[j - 1]));
            }
        }
        assert forall|k: PublicKey| after.contains(k) <==> keys.push(key).contains(k) by {
            if after.contains(k) && k != key {
                let i = choose|i: int| 0 <= i < after.len() && after[i] == k;
                if i < at {
                    assert(before[i] == k);
                } else {
                    assert(before[i - 1] == k);
                }
                assert(before.contains(k));
                let m = choose|m: int| 0 <= m < keys.len() && keys[m] == k;
                assert(keys.push(key)[m] == k);
            }
            assert(keys.push(key)[keys.len() as int] == key);
            assert(after[at] == key);
            if keys.push(key).contains(k) && k != key {
                let i = choose|i: int| 0 <= i < keys.push(key).len() && keys.push(key)[i] == k;
                assert(keys[i] == k);
                assert(keys.contains(k));
                let m = choose|m: int| 0 <= m < before.len() && before[m] == k;
                if m < at {
                    assert(after[m] == k);
                } else {
                    assert(after[m + 1] == k);
                }
            }
        }
    }
}

/// A tag of an event: its name followed by its values.
#[derive(Debug)]
pub struct Tag {
    pub items: Vec<String>,
}

impl Tag {
    /// Whether the tag is called `name`.
    pub open spec fn spec_is(self, name: Seq<char>) -> bool {
        self.items.len() > 0 && self.items[0]@ == name
    }

    /// The first value of the tag.
    pub open spec fn spec_content(self) -> Option<Seq<char>> {
        if self.items.len() > 1 {
            Some(self.items[1]@)
        } else {
            None
        }
    }

    pub fn is(&self, name: &str) -> (r: bool)
        ensures
            r == self.spec_is(name@),
    {
        self.items.len() > 0 && same_text(self.items[0].as_str(), name)
    }

    pub fn content(&self) -> (r: Option<&String>)
        ensures
            r is Some <==> self.spec_content() is Some,
            r matches Some(s) ==> self.spec_content() == Some(s@),
    {
        if self.items.len() > 1 {
            Some(&self.items[1])
        } else {
            None
        }
    }
}

/// `at` is the position of the first tag called `name`.
pub open spec fn first_tag(tags: Seq<Tag>, name: Seq<char>, at: int) -> bool {
    &&& 0 <= at < tags.len()
    &&& tags[at].spec_is(name)
    &&& forall|i: int| 0 <= i < at ==> !(#[trigger] tags[i]).spec_is(name)
}

/// The first value of the first tag called `name`; none where there is no
/// such tag or that tag has no value.
pub open spec fn first_tag_content(tags: Seq<Tag>, name: Seq<char>) -> Option<Seq<char>> {
    if exists|at: int| first_tag(tags, name, at) {
        tags[choose|at: int| first_tag(tags, name, at)].spec_content()
    } else {
        None
    }
}

pub fn find_tag_content<'a>(tags: &'a Vec<Tag>, name: &str) -> (content: Option<&'a String>)
    ensures
        content is Some <==> first_tag_content(tags@, name@) is Some,
        content matches Some(s) ==> first_tag_content(tags@, name@) == Some(s@),
{
    let mut i: usize = 0;
    while i < tags.len()
        invariant
            i <= tags.len(),
            forall|k: int| 0 <= k < i ==> !(#[trigger] tags[k]).spec_is(name@),
        decreases tags.len() - i,
    {
        if tags[i].is(name) {
            proof {
                assert(first_tag(tags@, name@, i as int));
                let at = choose|at: int| first_tag(tags@, name@, at);
                assert(at == i) by {
                    if at < i {
                        assert(!tags[at].spec_is(name@));
                    } else if at > i {
                        assert(!tags@[i as int].spec_is(name@));
                    }
                }
            }
            return tags[i].content();
        }
        i = i + 1;
    }
    assert(forall|at: int| !first_tag(tags@, name@, at));
    None
}

/// The first tag of a name decides what is found under it: the item after the
/// name, or nothing where the tag ends there. Nothing is found where no tag
/// begins with the name.
pub proof fn first_tag_decides(tags: Seq<Tag>, name: Seq<char>, at: int)
    ensures
        0 <= at < tags.len() && tags[at].items@.len() >= 1 && tags[at].items@[0]@ == name && (
        forall|i: int|
            0 <= i < at ==> (#[trigger] tags[i]).items@.len() == 0 || tags[i].items@[0]@ != name)
            ==> first_tag_content(tags, name) == (if tags[at].items@.len() >= 2 {
            Some(tags[at].items@[1]@)
        } else {
            None
        }),
        (forall|i: int|
            0 <= i < tags.len() ==> (#[trigger] tags[i]).items@.len() == 0 || tags[i].items@[0]@
                != name) ==> first_tag_content(tags, name) is None,
{
    if first_tag(tags, name, at) {
        let found = choose|k: int| first_tag(tags, name, k);
        assert(first_tag(tags, name, found));
        if found < at {
            assert(!tags[found].spec_is(name));
        } else if at < found {
            assert(!tags[at].spec_is(name));
        }
    }
}

/// A byte is written as its two digits, the higher one first, out of
/// `0123456789abcdef`.
pub proof fn hex_has_two_digits_for_each_byte(bytes: Seq<u8>, i: int)
    requires
        0 <= i < bytes.len(),
    ensures
        hex_text(bytes).len() == 2 * bytes.len(),
        hex_text(bytes)[2 * i] == "0123456789abcdef"@[bytes[i] as int / 16],
        hex_text(bytes)[2 * i + 1] == "0123456789abcdef"@[bytes[i] as int % 16],
{
    reveal_strlit("0123456789abcdef");
    assert((2 * i) / 2 == i && (2 * i) % 2 == 0);
    assert((2 * i + 1) / 2 == i && (2 * i + 1) % 2 == 1);
    let high = bytes[i] as int / 16;
    let low = bytes[i] as int % 16;
    assert(0 <= high < 16 && 0 <= low < 16);
}

/// A key and an identifier are written as their bytes are, and are the same
/// exactly if their bytes are.
pub proof fn keys_and_identifiers_are_their_bytes(a: PublicKey, b: PublicKey, c: EventId, d: EventId)
    ensures
        a.spec_hex() == hex_text(a.bytes@),
        c.spec_hex() == hex_text(c.bytes@),
        PartialEqSpec::eq_spec(&a, &b) <==> a == b,
        PartialEqSpec::eq_spec(&c, &d) <==> c == d,
        a == b <==> forall|i: int| 0 <= i < 32 ==> #[trigger] a.bytes@[i] == b.bytes@[i],
        c == d <==> forall|i: int| 0 <= i < 32 ==> #[trigger] c.bytes@[i] == d.bytes@[i],
{
    if forall|i: int| 0 <= i < 32 ==> #[trigger] a.bytes@[i] == b.bytes@[i] {
        assert(a.bytes =~= b.bytes);
    }
    if forall|i: int| 0 <= i < 32 ==> #[trigger] c.bytes@[i] == d.bytes@[i] {
        assert(c.bytes =~= d.bytes);
    }
}

/// Keys are ordered by the first byte in which they differ, and two keys
/// without such a byte are one.
pub proof fn first_difference_orders_keys(a: PublicKey, b: PublicKey, at: int)
    ensures
        0 <= at < 32 && (forall|i: int| 0 <= i < at ==> a.bytes@[i] == b.bytes@[i])
            && a.bytes@[at] < b.bytes@[at] ==> key_precedes(a, b) && !key_precedes(b, a),
        (forall|i: int| 0 <= i < 32 ==> a.bytes@[i] == b.bytes@[i]) <==> a == b,
        !key_precedes(a, a),
{
    if 0 <= at < 32 && (forall|i: int| 0 <= i < at ==> a.bytes@[i] == b.bytes@[i]) && a.bytes@[at]
        < b.bytes@[at] {
        assert(forall|i: int| 0 <= i < at ==> a.bytes[i] == b.bytes[i]) by {
            assert(forall|i: int| 0 <= i < 32 ==> a.bytes[i] == a.bytes@[i]);
            assert(forall|i: int| 0 <= i < 32 ==> b.bytes[i] == b.bytes@[i]);
        }
        lemma_key_order(a, b, at);
    }
    if forall|i: int| 0 <= i < 32 ==> a.bytes@[i] == b.bytes@[i] {
        assert(a.bytes =~= b.bytes);
    }
    lemma_key_order_total(a, a);
}

/// A signed Nostr event.
#[derive(Debug)]
pub struct Event {
    pub id: EventId,
    pub pubkey: PublicKey,
    /// Seconds since the Unix epoch.
    pub created_at: u64,
    pub kind: u16,
    pub tags: Vec<Tag>,
    pub content: String,
}

} // verus!
