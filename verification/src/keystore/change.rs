//! A change to a store: what one commit seals, and what memory holds once that
//! commit is durable. The two are kept the same here.

use vstd::prelude::*;

use crate::account::{lemma_bytes_below_irreflexive, lemma_same_tag, Account, KeyMaterial, Tag, WotsIndex};
#[allow(unused_imports)]
use crate::account::{bytes_below, not_ahead};
use crate::error::Error;
use crate::keystore::accounts::{Pending, Slot, SlotMap};
#[allow(unused_imports)]
use crate::keystore::accounts::{
    ascending, holds, lemma_update_keeps_order, moved, place_of, rank, slot_of, with_slot,
};
use crate::scrubbed::Scrubbed;

verus! {

/// What a change does.
pub enum Edit {
    /// A new store's first image: nothing in it yet.
    Fresh,
    /// Put the master seed into a store that holds none.
    Master(Scrubbed),
    /// Add an account.
    Account(Account),
    /// Move an account forward, setting both of its blocks.
    Advance { tag: Tag, next: WotsIndex, pending: Option<Pending>, settled: Option<Pending> },
    /// Move an account's open reservation to its settled block.
    Settle { tag: Tag, block: Pending },
}

/// A change staged on a store, under the generation its image carries.
pub struct Change {
    generation: u64,
    edit: Edit,
}

impl Change {
    /// The generation of the image that carries this change.
    pub closed spec fn next_generation(&self) -> u64 {
        self.generation
    }

    /// What the change does.
    pub closed spec fn what(&self) -> Edit {
        self.edit
    }

    pub(crate) fn new(generation: u64, edit: Edit) -> (change: Change)
        ensures
            change.next_generation() == generation,
            change.what() == edit,
    {
        Change { generation, edit }
    }

    /// The generation of the image that carries this change.
    pub fn generation(&self) -> (generation: u64)
        ensures
            generation == self.next_generation(),
    {
        self.generation
    }

    /// What the change does.
    pub fn edit(&self) -> (edit: &Edit)
        ensures
            *edit == self.what(),
    {
        &self.edit
    }

    pub(crate) fn into_parts(self) -> (parts: (u64, Edit))
        ensures
            parts.0 == self.next_generation(),
            parts.1 == self.what(),
    {
        (self.generation, self.edit)
    }
}

/// One record of an image: an account, by what its keys come from, where it
/// stands, and its two blocks.
pub struct Record {
    pub tag: Tag,
    pub key_material: KeyMaterial,
    pub wots_index: WotsIndex,
    pub pending: Option<Pending>,
    pub settled: Option<Pending>,
}

/// One record of an image about to be sealed. The position sealed is
/// `wots_index`, whatever the account's own still is.
pub struct RecordRef<'a> {
    pub tag: Tag,
    pub account: &'a Account,
    pub wots_index: WotsIndex,
    pub pending: Option<Pending>,
    pub settled: Option<Pending>,
}

impl<'a> View for RecordRef<'a> {
    type V = Record;

    open spec fn view(&self) -> Record {
        Record {
            tag: self.tag,
            key_material: self.account.key_material,
            wots_index: self.wots_index,
            pending: self.pending,
            settled: self.settled,
        }
    }
}

/// One account's position and blocks, in place of the ones its slot holds.
#[derive(Clone, Copy)]
pub struct Override {
    pub tag: Tag,
    pub index: WotsIndex,
    pub pending: Option<Pending>,
    pub settled: Option<Pending>,
}

/// The record a slot is sealed as. One the override does not name keeps its own
/// position and both of its blocks.
pub open spec fn record_from(slot: Slot, over: Option<Override>) -> Record {
    let (wots_index, pending, settled) = match over {
        Some(o) if o.tag == slot.account.tag => (o.index, o.pending, o.settled),
        _ => (slot.account.wots_index, slot.pending, slot.settled),
    };
    Record {
        tag: slot.account.tag,
        key_material: slot.account.key_material,
        wots_index,
        pending,
        settled,
    }
}

/// The slot of an account just added.
pub open spec fn new_slot(account: Account) -> Slot {
    Slot { account, pending: None, settled: None }
}

/// The records of an image: the slots, one of them perhaps overridden, and
/// perhaps one account more, in ascending order of tag.
pub open spec fn records_of(
    slots: Seq<Slot>,
    over: Option<Override>,
    extra: Option<Account>,
) -> Seq<Record> {
    let base = Seq::new(slots.len(), |i: int| record_from(slots[i], over));
    match extra {
        Some(account) => base.insert(rank(slots, account.tag), record_from(new_slot(account), None)),
        None => base,
    }
}

/// The accounts those records are sealed from, one for one: each slot's own, and
/// perhaps one more.
pub open spec fn accounts_of(slots: Seq<Slot>, extra: Option<Account>) -> Seq<Account> {
    let base = Seq::new(slots.len(), |i: int| slots[i].account);
    match extra {
        Some(account) => base.insert(rank(slots, account.tag), account),
        None => base,
    }
}

/// What an edit overrides in the image.
pub open spec fn override_of(slots: Seq<Slot>, edit: Edit) -> Option<Override> {
    match edit {
        Edit::Advance { tag, next, pending, settled } => Some(
            Override { tag, index: next, pending, settled },
        ),
        Edit::Settle { tag, block } => Some(
            Override {
                tag,
                index: slot_of(slots, tag).account.wots_index,
                pending: None,
                settled: Some(block),
            },
        ),
        _ => None,
    }
}

/// The account an edit adds to the image.
pub open spec fn extra_of(edit: Edit) -> Option<Account> {
    match edit {
        Edit::Account(account) => Some(account),
        _ => None,
    }
}

/// What memory holds once the edit's image is durable, or why it cannot.
pub open spec fn applied(slots: Seq<Slot>, edit: Edit) -> Result<Seq<Slot>, Error> {
    match edit {
        Edit::Fresh => Ok(slots),
        Edit::Master(_) => Ok(slots),
        Edit::Account(account) => Ok(with_slot(slots, new_slot(account))),
        Edit::Advance { tag, next, pending, settled } => if !holds(slots, tag) {
            Err(Error::NoSuchAccount)
        } else {
            let slot = slot_of(slots, tag);
            if next.index <= slot.account.wots_index.index {
                Err(not_ahead("wots index", slot.account.wots_index, next))
            } else {
                Ok(slots.update(place_of(slots, tag), moved(slot, next, pending, settled)))
            }
        },
        Edit::Settle { tag, block } => if !holds(slots, tag) {
            Err(Error::NoSuchAccount)
        } else {
            let slot = slot_of(slots, tag);
            Ok(
                slots.update(
                    place_of(slots, tag),
                    moved(slot, slot.account.wots_index, None, Some(block)),
                ),
            )
        },
    }
}

/// The edit can have been staged on these slots: an account it adds is new.
pub open spec fn stageable(slots: Seq<Slot>, edit: Edit) -> bool {
    edit matches Edit::Account(account) ==> !holds(slots, account.tag)
}

/// The image holds exactly what memory holds once the commit is durable:
/// sealing the changed slots again, with nothing overridden, is the same
/// records.
pub proof fn law_memory_is_the_image(slots: Seq<Slot>, edit: Edit)
    requires
        ascending(slots),
        applied(slots, edit) is Ok,
        stageable(slots, edit),
    ensures
        records_of(slots, override_of(slots, edit), extra_of(edit)) == records_of(
            applied(slots, edit)->Ok_0,
            None,
            None,
        ),
        ascending(applied(slots, edit)->Ok_0),
{
    let after = applied(slots, edit)->Ok_0;
    let sealed = records_of(slots, override_of(slots, edit), extra_of(edit));
    let again = records_of(after, None, None);
    match edit {
        Edit::Fresh => {
            assert(sealed =~= again);
        },
        Edit::Master(_) => {
            assert(sealed =~= again);
        },
        Edit::Account(account) => {
            lemma_insert(slots, account);
            assert(sealed =~= again);
        },
        Edit::Advance { tag, next, pending, settled } => {
            let at = place_of(slots, tag);
            lemma_update_keeps_order(slots, at, after[at]);
            lemma_tags_differ(slots, at);
            assert(sealed =~= again);
        },
        Edit::Settle { tag, block } => {
            let at = place_of(slots, tag);
            lemma_update_keeps_order(slots, at, after[at]);
            lemma_tags_differ(slots, at);
            assert(sealed =~= again);
        },
    }
}

/// No other slot has the tag of the one at `at`.
proof fn lemma_tags_differ(slots: Seq<Slot>, at: int)
    requires
        ascending(slots),
        0 <= at < slots.len(),
    ensures
        forall|i: int|
            0 <= i < slots.len() && i != at ==> #[trigger] slots[i].account.tag
                != slots[at].account.tag,
{
    lemma_bytes_below_irreflexive(slots[at].account.tag@);
    assert forall|i: int| 0 <= i < slots.len() && i != at implies #[trigger] slots[i].account.tag
        != slots[at].account.tag by {
        if i < at {
            assert(bytes_below(slots[i].account.tag@, slots[at].account.tag@));
        } else {
            assert(bytes_below(slots[at].account.tag@, slots[i].account.tag@));
        }
    }
}

/// A new account goes in at its rank, and the order stays.
proof fn lemma_insert(slots: Seq<Slot>, account: Account)
    requires
        ascending(slots),
        !holds(slots, account.tag),
    ensures
        0 <= rank(slots, account.tag) <= slots.len(),
        ascending(with_slot(slots, new_slot(account))),
{
    crate::keystore::accounts::lemma_absent_tag(slots, account.tag);
    crate::keystore::accounts::lemma_with_slot(
        slots,
        new_slot(account),
        rank(slots, account.tag),
    );
}

/// The account that is pointed to, where there is one.
pub open spec fn account_at(account: Option<&Account>) -> Option<Account> {
    match account {
        Some(account) => Some(*account),
        None => None,
    }
}

/// The records of an image and the accounts they point to: see [`records_of`] and
/// [`accounts_of`].
pub fn records_with<'a>(
    slots: &'a SlotMap,
    over: Option<Override>,
    extra: Option<&'a Account>,
) -> (records: Vec<RecordRef<'a>>)
    requires
        slots.wf(),
    ensures
        records@.map_values(|r: RecordRef<'a>| r@) == records_of(slots@, over, account_at(extra)),
        records@.map_values(|r: RecordRef<'a>| *r.account) == accounts_of(slots@, account_at(extra)),
{
    let mut out: Vec<RecordRef<'a>> = Vec::new();
    let mut i: usize = 0;
    while i < slots.len()
        invariant
            i <= slots@.len(),
            out@.len() == i,
            forall|j: int| 0 <= j < i ==> #[trigger] out@[j]@ == record_from(slots@[j], over),
            forall|j: int| 0 <= j < i ==> *(#[trigger] out@[j]).account == slots@[j].account,
        decreases slots@.len() - i,
    {
        let slot = slots.at(i);
        let (wots_index, pending, settled) = match over {
            Some(o) => if same_tag(&o.tag, &slot.account.tag) {
                (o.index, o.pending, o.settled)
            } else {
                (slot.account.wots_index, slot.pending, slot.settled)
            },
            None => (slot.account.wots_index, slot.pending, slot.settled),
        };
        out.push(
            RecordRef {
                tag: slot.account.tag,
                account: &slot.account,
                wots_index,
                pending,
                settled,
            },
        );
        i = i + 1;
    }
    let ghost base = out@;
    if let Some(account) = extra {
        let at = match slots.find(&account.tag) {
            Ok(at) => at + 1,
            Err(at) => at,
        };
        out.insert(
            at,
            RecordRef {
                tag: account.tag,
                account,
                wots_index: account.wots_index,
                pending: None,
                settled: None,
            },
        );
    }
    proof {
        assert(out@.map_values(|r: RecordRef<'a>| r@) =~= records_of(
            slots@,
            over,
            account_at(extra),
        ));
        assert(out@.map_values(|r: RecordRef<'a>| *r.account) =~= accounts_of(
            slots@,
            account_at(extra),
        ));
    }
    out
}

/// Whether two tags are the same.
pub fn same_tag(a: &Tag, b: &Tag) -> (same: bool)
    ensures
        same == (*a == *b),
{
    match a.against(b) {
        crate::account::TagOrder::Same => true,
        _ => false,
    }
}

/// Apply an edit to the slots, once its image is durable. An edit that cannot be
/// applied changes nothing.
pub(crate) fn apply(slots: &mut SlotMap, edit: Edit) -> (done: Result<Option<Scrubbed>, Error>)
    requires
        old(slots).wf(),
        stageable(old(slots)@, edit),
    ensures
        final(slots).wf(),
        match (done, applied(old(slots)@, edit)) {
            (Ok(master), Ok(after)) => {
                &&& final(slots)@ == after
                &&& master == match edit {
                    Edit::Master(master) => Some(master),
                    _ => None,
                }
            },
            (Err(e), Err(why)) => e == why && final(slots)@ == old(slots)@,
            _ => false,
        },
{
    match edit {
        Edit::Fresh => Ok(None),
        Edit::Master(master) => Ok(Some(master)),
        Edit::Account(account) => {
            let _added = slots.insert(Slot { account, pending: None, settled: None });
            Ok(None)
        },
        Edit::Advance { tag, next, pending, settled } => match slots.find(&tag) {
            Err(_) => Err(Error::NoSuchAccount),
            Ok(at) => match slots.advance(at, next, pending, settled) {
                Ok(_) => Ok(None),
                Err(e) => Err(e),
            },
        },
        Edit::Settle { tag, block } => match slots.find(&tag) {
            Err(_) => Err(Error::NoSuchAccount),
            Ok(at) => {
                slots.set(at, None, Some(block));
                Ok(None)
            },
        },
    }
}

proof fn lemma_rank_is_a_place(slots: Seq<Slot>, tag: Tag)
    ensures
        0 <= rank(slots, tag) <= slots.len(),
    decreases slots.len(),
{
    if slots.len() > 0 {
        lemma_rank_is_a_place(slots.drop_last(), tag);
    }
}

/// Every slot has a record of its own account: with the position and the blocks
/// of the override where it names the slot's tag, and with the slot's own where
/// it does not. An account added beside them has a record with its own position
/// and no blocks. There are no other records.
pub proof fn law_a_record_is_its_slots_own<'a>(
    slots: &'a SlotMap,
    over: Option<Override>,
    extra: Option<&'a Account>,
    i: int,
    records: Vec<RecordRef<'a>>,
) -> (places: (int, int))
    requires
        slots.wf(),
        0 <= i < slots@.len(),
        call_ensures(records_with, (slots, over, extra), records),
    ensures
        0 <= places.0 < records@.len(),
        records@[places.0].tag == slots@[i].account.tag,
        *records@[places.0].account == slots@[i].account,
        over matches Some(o) ==> o.tag == slots@[i].account.tag ==> records@[places.0].wots_index
            == o.index && records@[places.0].pending == o.pending && records@[places.0].settled
            == o.settled,
        (over is None || over->0.tag != slots@[i].account.tag) ==> records@[places.0].wots_index
            == slots@[i].account.wots_index && records@[places.0].pending == slots@[i].pending
            && records@[places.0].settled == slots@[i].settled,
        extra is None ==> records@.len() == slots@.len() && places.0 == i,
        extra matches Some(account) ==> {
            &&& records@.len() == slots@.len() + 1
            &&& 0 <= places.1 < records@.len()
            &&& places.1 != places.0
            &&& records@[places.1].tag == account.tag
            &&& *records@[places.1].account == *account
            &&& records@[places.1].wots_index == account.wots_index
            &&& records@[places.1].pending is None
            &&& records@[places.1].settled is None
        },
{
    let seen = records@.map_values(|r: RecordRef<'a>| r@);
    let behind = records@.map_values(|r: RecordRef<'a>| *r.account);
    assert(seen.len() == records@.len());
    let places = match extra {
        Some(account) => {
            lemma_rank_is_a_place(slots@, account.tag);
            let put = rank(slots@, account.tag);
            (if i < put {
                i
            } else {
                i + 1
            }, put)
        },
        None => (i, i),
    };
    assert(seen[places.0] == records@[places.0]@);
    assert(seen[places.1] == records@[places.1]@);
    assert(behind[places.0] == *records@[places.0].account);
    assert(behind[places.1] == *records@[places.1].account);
    places
}

/// A tag is lent as its bytes, and two tags are the same exactly where all their
/// bytes agree.
pub proof fn law_a_tag_is_its_bytes(a: Tag, b: Tag, same: bool, bytes: &[u8])
    requires
        call_ensures(same_tag, (&a, &b), same),
        call_ensures(Tag::as_slice, (&a,), bytes),
    ensures
        bytes@ == a.bytes@,
        same <==> forall|i: int| 0 <= i < 20 ==> a@[i] == b@[i],
{
    if forall|i: int| 0 <= i < 20 ==> a@[i] == b@[i] {
        assert(a@ =~= b@);
        lemma_same_tag(a, b);
    }
}

} // verus!
