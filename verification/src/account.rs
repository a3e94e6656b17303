//! Accounts: what names one, what its keys come from, and how far along its
//! one-time keys it stands.

use vstd::prelude::*;

use crate::consts::{ADDR_HASH_LEN, ADDR_TAG_LEN};
use crate::error::Error;
use crate::scrubbed::Scrubbed;

verus! {

/// An account's name: the tag half of its address.
#[derive(Clone, Copy, Debug, PartialEq, Eq)]
pub struct Tag {
    pub bytes: [u8; ADDR_TAG_LEN],
}

impl View for Tag {
    type V = Seq<u8>;

    open spec fn view(&self) -> Seq<u8> {
        self.bytes@
    }
}

/// `a` comes before `b` in byte order, the first difference deciding.
pub open spec fn bytes_below(a: Seq<u8>, b: Seq<u8>) -> bool {
    exists|i: int| differs_first_at(a, b, i) && a[i] < b[i]
}

/// `a` and `b` agree before `i` and not at `i`.
pub open spec fn differs_first_at(a: Seq<u8>, b: Seq<u8>, i: int) -> bool {
    &&& 0 <= i < a.len()
    &&& i < b.len()
    &&& a[i] != b[i]
    &&& forall|j: int| 0 <= j < i ==> a[j] == b[j]
}

/// How two tags stand in the order a store keeps them in.
#[derive(Clone, Copy, Debug, PartialEq, Eq, Structural)]
pub enum TagOrder {
    Before,
    Same,
    After,
}

impl Tag {
    /// The tag's bytes.
    pub fn as_slice(&self) -> (bytes: &[u8])
        ensures
            bytes@ == self@,
    {
        self.bytes.as_slice()
    }

    /// Whether this tag comes before, is, or comes after `other`.
    pub fn against(&self, other: &Tag) -> (order: TagOrder)
        ensures
            order == TagOrder::Before <==> bytes_below(self@, other@),
            order == TagOrder::Same <==> *self == *other,
            order == TagOrder::After <==> bytes_below(other@, self@),
    {
        let mut i: usize = 0;
        while i < ADDR_TAG_LEN
            invariant
                i <= ADDR_TAG_LEN,
                forall|j: int| 0 <= j < i ==> self@[j] == other@[j],
            decreases ADDR_TAG_LEN - i,
        {
            if self.bytes[i] != other.bytes[i] {
                proof {
                    assert(self@[i as int] != other@[i as int]);
                    lemma_first_difference(self@, other@, i as int);
                }
                return if self.bytes[i] < other.bytes[i] {
                    TagOrder::Before
                } else {
                    TagOrder::After
                };
            }
            i = i + 1;
        }
        proof {
            assert(self@ =~= other@);
            lemma_same_tag(*self, *other);
        }
        TagOrder::Same
    }
}

/// Two tags with the same bytes are the same tag.
pub proof fn lemma_same_tag(a: Tag, b: Tag)
    requires
        a@ == b@,
    ensures
        a == b,
{
    assert forall|i: int| 0 <= i < ADDR_TAG_LEN implies a.bytes[i] == b.bytes[i] by {
        assert(a@[i] == b@[i]);
    }
    assert(a.bytes =~= b.bytes);
}

/// The first difference decides the order, one way only.
pub proof fn lemma_first_difference(a: Seq<u8>, b: Seq<u8>, i: int)
    requires
        differs_first_at(a, b, i),
    ensures
        bytes_below(a, b) <==> a[i] < b[i],
        bytes_below(b, a) <==> b[i] < a[i],
{
    assert(differs_first_at(b, a, i));
    if bytes_below(a, b) {
        let j = choose|j: int| differs_first_at(a, b, j) && a[j] < b[j];
        assert(j == i);
    }
    if bytes_below(b, a) {
        let j = choose|j: int| differs_first_at(b, a, j) && b[j] < a[j];
        assert(j == i);
    }
}

/// The byte order is strict and transitive.
pub proof fn lemma_bytes_below_transitive(a: Seq<u8>, b: Seq<u8>, c: Seq<u8>)
    requires
        bytes_below(a, b),
        bytes_below(b, c),
    ensures
        bytes_below(a, c),
{
    let i = choose|i: int| differs_first_at(a, b, i) && a[i] < b[i];
    let j = choose|j: int| differs_first_at(b, c, j) && b[j] < c[j];
    let k = if i < j {
        i
    } else {
        j
    };
    assert(differs_first_at(a, c, k));
}

/// No bytes come before themselves.
pub proof fn lemma_bytes_below_irreflexive(a: Seq<u8>)
    ensures
        !bytes_below(a, a),
{
}

/// Of two different tags, one comes before the other.
pub proof fn lemma_apart(a: Tag, b: Tag)
    requires
        a != b,
    ensures
        bytes_below(a@, b@) || bytes_below(b@, a@),
{
    if a@ == b@ {
        lemma_same_tag(a, b);
    }
    lemma_some_difference(a@, b@, ADDR_TAG_LEN as nat);
}

proof fn lemma_some_difference(a: Seq<u8>, b: Seq<u8>, n: nat)
    requires
        a.len() == n,
        b.len() == n,
        a != b,
    ensures
        bytes_below(a, b) || bytes_below(b, a),
    decreases n,
{
    if n == 0 {
        assert(a =~= b);
    } else if a.drop_last() == b.drop_last() {
        assert(a =~= a.drop_last().push(a.last()));
        assert(b =~= b.drop_last().push(b.last()));
        assert forall|j: int| 0 <= j < n - 1 implies a[j] == b[j] by {
            assert(a.drop_last()[j] == b.drop_last()[j]);
        }
        assert(differs_first_at(a, b, n - 1));
        assert(differs_first_at(b, a, n - 1));
    } else {
        let (front, other) = (a.drop_last(), b.drop_last());
        lemma_some_difference(front, other, (n - 1) as nat);
        assert forall|j: int| 0 <= j < n - 1 implies front[j] == a[j] && other[j] == b[j] by {}
        if bytes_below(front, other) {
            let i = choose|i: int| differs_first_at(front, other, i) && front[i] < other[i];
            assert(differs_first_at(a, b, i));
        } else {
            let i = choose|i: int| differs_first_at(other, front, i) && other[i] < front[i];
            assert(differs_first_at(b, a, i));
        }
    }
}

/// Which key an account spends next. It only ever moves forward.
#[derive(Clone, Copy, Debug, PartialEq, Eq, Structural)]
pub struct WotsIndex {
    pub index: u32,
}

impl WotsIndex {
    /// The first key.
    pub fn zero() -> (first: WotsIndex)
        ensures
            first.index == 0,
    {
        WotsIndex { index: 0 }
    }

    /// The position as a number.
    pub fn get(self) -> (index: u32)
        ensures
            index == self.index,
    {
        self.index
    }

    /// The next key, or a refusal past the last there is.
    pub fn advanced(self) -> (next: Result<WotsIndex, Error>)
        ensures
            next == advanced_index(self),
    {
        if self.index == u32::MAX {
            Err(
                Error::Range {
                    what: "wots index",
                    min: 0,
                    max: u32::MAX as u64 - 1,
                    got: self.index as u64,
                },
            )
        } else {
            Ok(WotsIndex { index: self.index + 1 })
        }
    }
}

/// The key after `index`, where there is one.
pub open spec fn advanced_index(index: WotsIndex) -> Result<WotsIndex, Error> {
    if index.index == u32::MAX {
        Err(
            Error::Range {
                what: "wots index",
                min: 0,
                max: (u32::MAX - 1) as u64,
                got: index.index as u64,
            },
        )
    } else {
        Ok(WotsIndex { index: (index.index + 1) as u32 })
    }
}

/// The public identity of a key stream: the hash of its first public key.
#[derive(Clone, Copy, Debug, PartialEq, Eq)]
pub struct StreamId {
    pub bytes: [u8; ADDR_HASH_LEN],
}

impl View for StreamId {
    type V = Seq<u8>;

    open spec fn view(&self) -> Seq<u8> {
        self.bytes@
    }
}

impl StreamId {
    /// Whether the two name one key stream.
    pub fn same(&self, other: &StreamId) -> (same: bool)
        ensures
            same == (*self == *other),
    {
        let mut i: usize = 0;
        while i < ADDR_HASH_LEN
            invariant
                i <= ADDR_HASH_LEN,
                forall|j: int| 0 <= j < i ==> self@[j] == other@[j],
            decreases ADDR_HASH_LEN - i,
        {
            if self.bytes[i] != other.bytes[i] {
                assert(self@[i as int] != other@[i as int]);
                return false;
            }
            i = i + 1;
        }
        proof {
            assert forall|j: int| 0 <= j < ADDR_HASH_LEN implies self.bytes[j] == other.bytes[j] by {
                assert(self@[j] == other@[j]);
            }
            assert(self.bytes =~= other.bytes);
        }
        true
    }
}

/// Where an account's keys come from.
#[derive(Clone, Copy, Debug, PartialEq, Eq, Structural)]
pub enum AccountKind {
    /// The master seed, at an account index.
    Derived,
    /// A root of its own, held in the store.
    Imported,
}

/// What an account's keys are made from.
pub enum KeyMaterial {
    /// The master seed at `account_index`; `stream` is what that produces.
    Derived { account_index: u32, stream: StreamId },
    /// A root, the public components of the first address it was imported
    /// with, and the stream they produce.
    Imported { root: Scrubbed, components: Vec<u8>, stream: StreamId },
}

/// One account.
pub struct Account {
    pub tag: Tag,
    pub wots_index: WotsIndex,
    pub key_material: KeyMaterial,
}

/// An account as it leaves the store, key material and all.
pub struct AccountRecord {
    pub tag: Tag,
    pub wots_index: WotsIndex,
    pub key_material: KeyMaterial,
}

/// The stream identity the key material carries.
pub open spec fn stored_stream(material: KeyMaterial) -> StreamId {
    match material {
        KeyMaterial::Derived { account_index, stream } => stream,
        KeyMaterial::Imported { root, components, stream } => stream,
    }
}

/// Which kind the key material is.
pub open spec fn kind_of(material: KeyMaterial) -> AccountKind {
    match material {
        KeyMaterial::Derived { .. } => AccountKind::Derived,
        KeyMaterial::Imported { .. } => AccountKind::Imported,
    }
}

/// The refusal of a position that is not strictly ahead of `stored`.
pub open spec fn not_ahead(what: &'static str, stored: WotsIndex, target: WotsIndex) -> Error {
    Error::Range {
        what,
        min: (stored.index + 1) as u64,
        max: u32::MAX as u64,
        got: target.index as u64,
    }
}

impl Account {
    /// Which kind of account this is.
    pub fn kind(&self) -> (kind: AccountKind)
        ensures
            kind == kind_of(self.key_material),
    {
        match &self.key_material {
            KeyMaterial::Derived { .. } => AccountKind::Derived,
            KeyMaterial::Imported { .. } => AccountKind::Imported,
        }
    }

    /// Move to `target`, which must be strictly ahead of where the account
    /// stands; anything else is refused and moves nothing.
    pub fn advance_to(&mut self, target: WotsIndex) -> (moved: Result<(), Error>)
        ensures
            moved == if target.index > old(self).wots_index.index {
                Ok::<(), Error>(())
            } else {
                Err(not_ahead("wots index", old(self).wots_index, target))
            },
            *final(self) == (Account {
                wots_index: if moved is Ok {
                    target
                } else {
                    old(self).wots_index
                },
                ..*old(self)
            }),
    {
        if target.index <= self.wots_index.index {
            return Err(
                Error::Range {
                    what: "wots index",
                    min: self.wots_index.index as u64 + 1,
                    max: u32::MAX as u64,
                    got: target.index as u64,
                },
            );
        }
        self.wots_index = target;
        Ok(())
    }

    /// The account as the record it leaves the store in.
    pub fn to_record(self) -> (record: AccountRecord)
        ensures
            record == record_of(self),
    {
        AccountRecord {
            tag: self.tag,
            wots_index: self.wots_index,
            key_material: self.key_material,
        }
    }
}

/// The record an account leaves the store in.
pub open spec fn record_of(account: Account) -> AccountRecord {
    AccountRecord {
        tag: account.tag,
        wots_index: account.wots_index,
        key_material: account.key_material,
    }
}

/// Every key but the last has the key one further on after it. The last has
/// none, and the refusal names the positions that do.
pub proof fn law_the_next_key_is_one_further(index: WotsIndex, next: Result<WotsIndex, Error>)
    requires
        call_ensures(WotsIndex::advanced, (index,), next),
    ensures
        next == advanced_index(index),
        index.index < 0xffff_ffff ==> next is Ok && next->Ok_0.index == index.index + 1,
        index.index == 0xffff_ffff ==> next == Err::<WotsIndex, Error>(
            Error::Range { what: "wots index", min: 0, max: 0xffff_fffe, got: 0xffff_ffff },
        ),
{
}

/// A position's number is read back as it is, and the first one is nought.
pub proof fn law_a_position_is_its_number(index: WotsIndex, number: u32, first: WotsIndex)
    requires
        call_ensures(WotsIndex::get, (index,), number),
        call_ensures(WotsIndex::zero, (), first),
    ensures
        index == (WotsIndex { index: number }),
        first == (WotsIndex { index: 0 }),
{
}

/// An account moves to every position ahead of its own and to no other, and
/// nothing else of it changes. A refusal names the positions that are ahead.
pub proof fn law_an_account_only_moves_forward(
    account: &mut Account,
    target: WotsIndex,
    moved: Result<(), Error>,
)
    requires
        call_ensures(Account::advance_to, (account, target), moved),
    ensures
        moved is Ok <==> old(account).wots_index.index < target.index,
        moved is Ok ==> final(account).wots_index == target,
        moved is Err ==> *final(account) == *old(account),
        final(account).tag == old(account).tag,
        final(account).key_material == old(account).key_material,
        final(account).wots_index.index >= old(account).wots_index.index,
        moved matches Err(e) ==> e == (Error::Range {
            what: "wots index",
            min: (old(account).wots_index.index + 1) as u64,
            max: 0xffff_ffff,
            got: target.index as u64,
        }),
{
}

/// Where two tags first differ, the smaller byte comes first; where they differ
/// nowhere, they are one tag.
pub proof fn law_the_first_different_byte_orders_tags(a: Tag, b: Tag, i: int, order: TagOrder)
    requires
        call_ensures(Tag::against, (&a, &b), order),
        0 <= i <= 20,
        forall|j: int| 0 <= j < i ==> a@[j] == b@[j],
    ensures
        a@.len() == 20,
        i == 20 ==> order == TagOrder::Same,
        i < 20 && a@[i] < b@[i] ==> order == TagOrder::Before && bytes_below(a@, b@),
        i < 20 && a@[i] > b@[i] ==> order == TagOrder::After && bytes_below(b@, a@),
{
    if i == 20 {
        assert(a@ =~= b@);
        lemma_same_tag(a, b);
    } else if a@[i] != b@[i] {
        lemma_first_difference(a@, b@, i);
    }
}

/// Two streams are one exactly where all their bytes agree.
pub proof fn law_a_stream_is_its_bytes(a: StreamId, b: StreamId, same: bool)
    requires
        call_ensures(StreamId::same, (&a, &b), same),
    ensures
        a@.len() == 20,
        same <==> forall|i: int| 0 <= i < 20 ==> a@[i] == b@[i],
{
    if forall|i: int| 0 <= i < 20 ==> a@[i] == b@[i] {
        assert forall|j: int| 0 <= j < 20 implies a.bytes[j] == b.bytes[j] by {
            assert(a@[j] == b@[j]);
        }
        assert(a.bytes =~= b.bytes);
    }
}

/// An account with a root of its own is imported and any other is derived. Its
/// record carries its tag, its position and its key material as they are.
pub proof fn law_an_account_leaves_as_it_is(
    account: Account,
    kind: AccountKind,
    record: AccountRecord,
)
    requires
        call_ensures(Account::kind, (&account,), kind),
        call_ensures(Account::to_record, (account,), record),
    ensures
        kind == AccountKind::Imported <==> account.key_material is Imported,
        kind == AccountKind::Derived <==> account.key_material is Derived,
        record.tag == account.tag,
        record.wots_index == account.wots_index,
        record.key_material == account.key_material,
{
}

} // verus!
