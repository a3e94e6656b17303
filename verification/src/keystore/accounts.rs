//! The accounts a store holds, keyed by tag and never by position.

use vstd::prelude::*;

use crate::account::{
    lemma_apart, lemma_bytes_below_irreflexive, lemma_bytes_below_transitive, Account, Tag, TagOrder,
    WotsIndex,
};
#[allow(unused_imports)]
use crate::account::{bytes_below, not_ahead};
use crate::error::Error;

verus! {

/// The figures a spend was reserved with: the ledger balance its plan was built
/// against, and the block it must land by.
#[derive(Clone, Copy, Debug, PartialEq, Eq, Structural)]
pub struct Figures {
    pub balance: u64,
    pub block_to_live: u64,
}

/// A reservation: the key it spends, what that key signs, and the figures.
#[derive(Clone, Copy, Debug, PartialEq, Eq)]
pub struct Pending {
    pub spent_index: WotsIndex,
    pub digest: [u8; 32],
    pub figures: Option<Figures>,
}

/// One account with its open reservation, and the last settled one.
pub struct Slot {
    pub account: Account,
    pub pending: Option<Pending>,
    pub settled: Option<Pending>,
}

/// Every account of a store, in ascending order of tag.
pub struct SlotMap {
    held: Vec<Slot>,
}

/// The tags stand in strictly ascending order, so no tag stands twice.
pub open spec fn ascending(slots: Seq<Slot>) -> bool {
    forall|i: int, j: int|
        #![trigger slots[i], slots[j]]
        0 <= i < j < slots.len() ==> bytes_below(slots[i].account.tag@, slots[j].account.tag@)
}

/// Some slot is `tag`'s.
pub open spec fn holds(slots: Seq<Slot>, tag: Tag) -> bool {
    exists|i: int| 0 <= i < slots.len() && #[trigger] slots[i].account.tag == tag
}

/// Where `tag`'s slot stands.
pub open spec fn place_of(slots: Seq<Slot>, tag: Tag) -> int {
    choose|i: int| 0 <= i < slots.len() && #[trigger] slots[i].account.tag == tag
}

/// `tag`'s slot.
pub open spec fn slot_of(slots: Seq<Slot>, tag: Tag) -> Slot {
    slots[place_of(slots, tag)]
}

/// How many slots do not come after `tag`: where a new slot of that tag goes.
pub open spec fn rank(slots: Seq<Slot>, tag: Tag) -> int
    decreases slots.len(),
{
    if slots.len() == 0 {
        0
    } else {
        rank(slots.drop_last(), tag) + if bytes_below(tag@, slots.last().account.tag@) {
            0int
        } else {
            1int
        }
    }
}

/// The slots with one more, put where its tag belongs.
pub open spec fn with_slot(slots: Seq<Slot>, slot: Slot) -> Seq<Slot> {
    slots.insert(rank(slots, slot.account.tag), slot)
}

/// In ascending slots the rank is where the first slot after `tag` stands.
proof fn lemma_rank(slots: Seq<Slot>, tag: Tag, at: int)
    requires
        ascending(slots),
        0 <= at <= slots.len(),
        forall|i: int| 0 <= i < at ==> !bytes_below(tag@, #[trigger] slots[i].account.tag@),
        at < slots.len() ==> bytes_below(tag@, slots[at].account.tag@),
    ensures
        rank(slots, tag) == at,
    decreases slots.len(),
{
    if slots.len() > 0 {
        let front = slots.drop_last();
        let last = slots.len() - 1;
        if at == slots.len() {
            lemma_rank(front, tag, at - 1);
        } else {
            if at < last {
                assert(front[at] == slots[at]);
                lemma_bytes_below_transitive(tag@, slots[at].account.tag@, slots[last].account.tag@);
            }
            lemma_rank(front, tag, at);
        }
    }
}

/// A slot before `tag` does not come after it.
proof fn lemma_not_both(a: Seq<u8>, b: Seq<u8>)
    requires
        bytes_below(a, b),
    ensures
        !bytes_below(b, a),
{
    if bytes_below(b, a) {
        lemma_bytes_below_transitive(a, b, a);
        lemma_bytes_below_irreflexive(a);
    }
}

/// The rank of a tag that is held is one past its place.
proof fn lemma_rank_of_held(slots: Seq<Slot>, tag: Tag, at: int)
    requires
        ascending(slots),
        0 <= at < slots.len(),
        slots[at].account.tag == tag,
    ensures
        rank(slots, tag) == at + 1,
{
    lemma_bytes_below_irreflexive(tag@);
    assert forall|i: int| 0 <= i < at + 1 implies !bytes_below(
        tag@,
        #[trigger] slots[i].account.tag@,
    ) by {
        if i < at {
            assert(bytes_below(slots[i].account.tag@, slots[at].account.tag@));
            lemma_not_both(slots[i].account.tag@, tag@);
        }
    }
    if at + 1 < slots.len() {
        assert(bytes_below(slots[at].account.tag@, slots[at + 1].account.tag@));
    }
    lemma_rank(slots, tag, at + 1);
}

/// One tag has one place.
pub proof fn lemma_one_place(slots: Seq<Slot>, tag: Tag, at: int)
    requires
        ascending(slots),
        0 <= at < slots.len(),
        slots[at].account.tag == tag,
    ensures
        holds(slots, tag),
        place_of(slots, tag) == at,
{
    let found = place_of(slots, tag);
    lemma_bytes_below_irreflexive(tag@);
    if found < at {
        assert(bytes_below(slots[found].account.tag@, slots[at].account.tag@));
    } else if at < found {
        assert(bytes_below(slots[at].account.tag@, slots[found].account.tag@));
    }
}

/// A new tag goes in where it belongs, and the order stays.
pub proof fn lemma_with_slot(slots: Seq<Slot>, slot: Slot, at: int)
    requires
        ascending(slots),
        0 <= at <= slots.len(),
        forall|i: int|
            0 <= i < at ==> bytes_below(#[trigger] slots[i].account.tag@, slot.account.tag@),
        at < slots.len() ==> bytes_below(slot.account.tag@, slots[at].account.tag@),
    ensures
        with_slot(slots, slot) == slots.insert(at, slot),
        ascending(with_slot(slots, slot)),
        !holds(slots, slot.account.tag),
{
    let tag = slot.account.tag;
    assert forall|i: int| 0 <= i < at implies !bytes_below(
        tag@,
        #[trigger] slots[i].account.tag@,
    ) by {
        lemma_not_both(slots[i].account.tag@, tag@);
    }
    lemma_rank(slots, tag, at);
    let out = slots.insert(at, slot);
    assert forall|i: int, j: int|
        #![trigger out[i], out[j]]
        0 <= i < j < out.len() implies bytes_below(out[i].account.tag@, out[j].account.tag@) by {
        let before = |k: int| if k < at { k } else { k - 1 };
        if i != at && j != at {
            assert(out[i] == slots[before(i)] && out[j] == slots[before(j)]);
        } else if j == at {
            assert(out[i] == slots[i]);
        } else {
            assert(out[j] == slots[j - 1]);
            if j - 1 > at {
                lemma_bytes_below_transitive(tag@, slots[at].account.tag@, slots[j - 1].account.tag@);
            }
        }
    }
    assert forall|i: int| 0 <= i < slots.len() implies #[trigger] slots[i].account.tag != tag by {
        lemma_bytes_below_irreflexive(tag@);
        if i > at && slots[i].account.tag == tag {
            lemma_bytes_below_transitive(tag@, slots[at].account.tag@, slots[i].account.tag@);
        }
    }
}

/// A tag that falls between two slots is not held, and its rank is there.
proof fn lemma_absent(slots: Seq<Slot>, tag: Tag, at: int)
    requires
        ascending(slots),
        0 <= at <= slots.len(),
        forall|i: int| 0 <= i < at ==> bytes_below(#[trigger] slots[i].account.tag@, tag@),
        at < slots.len() ==> bytes_below(tag@, slots[at].account.tag@),
    ensures
        !holds(slots, tag),
        rank(slots, tag) == at,
{
    assert forall|i: int| 0 <= i < at implies !bytes_below(
        tag@,
        #[trigger] slots[i].account.tag@,
    ) by {
        lemma_not_both(slots[i].account.tag@, tag@);
    }
    lemma_rank(slots, tag, at);
    assert forall|i: int| 0 <= i < slots.len() implies #[trigger] slots[i].account.tag != tag by {
        lemma_bytes_below_irreflexive(tag@);
        if i > at && slots[i].account.tag == tag {
            lemma_bytes_below_transitive(tag@, slots[at].account.tag@, slots[i].account.tag@);
        }
    }
}

/// A tag that is not held falls between two slots, at its rank.
pub proof fn lemma_absent_tag(slots: Seq<Slot>, tag: Tag)
    requires
        ascending(slots),
        !holds(slots, tag),
    ensures
        0 <= rank(slots, tag) <= slots.len(),
        forall|i: int|
            0 <= i < rank(slots, tag) ==> bytes_below(#[trigger] slots[i].account.tag@, tag@),
        rank(slots, tag) < slots.len() ==> bytes_below(
            tag@,
            slots[rank(slots, tag)].account.tag@,
        ),
    decreases slots.len(),
{
    if slots.len() > 0 {
        let front = slots.drop_last();
        let last = slots.last().account.tag;
        assert(!holds(front, tag)) by {
            assert forall|i: int| 0 <= i < front.len() implies #[trigger] front[i].account.tag
                != tag by {
                assert(front[i] == slots[i]);
            }
        }
        lemma_absent_tag(front, tag);
        assert(slots[slots.len() - 1].account.tag != tag);
        lemma_apart(last, tag);
        let at = rank(front, tag);
        assert forall|i: int| 0 <= i < rank(slots, tag) implies bytes_below(
            #[trigger] slots[i].account.tag@,
            tag@,
        ) by {
            if i < at {
                assert(front[i] == slots[i]);
            } else if i < slots.len() - 1 {
                assert(front[at] == slots[at]);
                assert(bytes_below(slots[at].account.tag@, last@));
                lemma_bytes_below_transitive(tag@, slots[at].account.tag@, last@);
                lemma_not_both(tag@, last@);
            }
        }
        if at < front.len() {
            assert(front[at] == slots[at]);
            assert(bytes_below(slots[at].account.tag@, last@));
            lemma_bytes_below_transitive(tag@, slots[at].account.tag@, last@);
        }
    }
}

impl SlotMap {
    /// Every slot, in order.
    pub closed spec fn view(&self) -> Seq<Slot> {
        self.held@
    }

    /// The order holds.
    pub open spec fn wf(&self) -> bool {
        ascending(self.view())
    }

    /// No accounts.
    pub fn new() -> (slots: SlotMap)
        ensures
            slots.wf(),
            slots@ == Seq::<Slot>::empty(),
    {
        SlotMap { held: Vec::new() }
    }

    /// How many accounts there are.
    pub fn len(&self) -> (n: usize)
        ensures
            n == self@.len(),
    {
        self.held.len()
    }

    /// The slot at `i`, in order of tag.
    pub fn at(&self, i: usize) -> (slot: &Slot)
        requires
            i < self@.len(),
        ensures
            *slot == self@[i as int],
    {
        &self.held[i]
    }

    /// Where `tag`'s slot is: `Ok` with its place, or `Err` with the place it
    /// would take.
    pub fn find(&self, tag: &Tag) -> (place: Result<usize, usize>)
        requires
            self.wf(),
        ensures
            place is Ok <==> holds(self@, *tag),
            place matches Ok(at) ==> at < self@.len() && self@[at as int].account.tag == *tag
                && place_of(self@, *tag) == at,
            place matches Err(at) ==> at <= self@.len() && (forall|i: int|
                0 <= i < at ==> bytes_below(#[trigger] self@[i].account.tag@, tag@)) && (at
                < self@.len() ==> bytes_below(tag@, self@[at as int].account.tag@)),
            place matches Ok(at) ==> rank(self@, *tag) == at + 1,
            place matches Err(at) ==> rank(self@, *tag) == at,
    {
        let mut i: usize = 0;
        while i < self.held.len()
            invariant
                self.wf(),
                i <= self.held.len(),
                forall|j: int| 0 <= j < i ==> bytes_below(#[trigger] self@[j].account.tag@, tag@),
            decreases self.held.len() - i,
        {
            match self.held[i].account.tag.against(tag) {
                TagOrder::Before => {},
                TagOrder::Same => {
                    proof {
                        lemma_one_place(self@, *tag, i as int);
                        lemma_rank_of_held(self@, *tag, i as int);
                    }
                    return Ok(i);
                },
                TagOrder::After => {
                    proof {
                        lemma_absent(self@, *tag, i as int);
                    }
                    return Err(i);
                },
            }
            i = i + 1;
        }
        proof {
            lemma_absent(self@, *tag, i as int);
        }
        Err(i)
    }

    /// Put `slot` where its tag belongs. A tag already held is left as it is,
    /// and the slot is handed back.
    pub fn insert(&mut self, slot: Slot) -> (put: Result<(), Slot>)
        requires
            old(self).wf(),
        ensures
            final(self).wf(),
            put is Err <==> holds(old(self)@, slot.account.tag),
            put matches Err(back) ==> back == slot && final(self)@ == old(self)@,
            put is Ok ==> final(self)@ == with_slot(old(self)@, slot),
    {
        match self.find(&slot.account.tag) {
            Ok(_) => Err(slot),
            Err(at) => {
                proof {
                    lemma_with_slot(self@, slot, at as int);
                }
                self.held.insert(at, slot);
                Ok(())
            },
        }
    }

    /// Set both reservations of the slot at `at`.
    pub fn set(&mut self, at: usize, pending: Option<Pending>, settled: Option<Pending>)
        requires
            old(self).wf(),
            at < old(self)@.len(),
        ensures
            final(self).wf(),
            final(self)@ == old(self)@.update(
                at as int,
                moved(
                    old(self)@[at as int],
                    old(self)@[at as int].account.wots_index,
                    pending,
                    settled,
                ),
            ),
    {
        let ghost before = self@;
        self.held[at].pending = pending;
        self.held[at].settled = settled;
        proof {
            let index = before[at as int].account.wots_index;
            assert(self@ =~= before.update(at as int, moved(before[at as int], index, pending, settled)));
            lemma_update_keeps_order(before, at as int, self@[at as int]);
        }
    }

    /// Move the account at `at` forward to `next`, and set both of its
    /// reservations. One that cannot be moved there is left as it is.
    pub fn advance(
        &mut self,
        at: usize,
        next: WotsIndex,
        pending: Option<Pending>,
        settled: Option<Pending>,
    ) -> (done: Result<(), Error>)
        requires
            old(self).wf(),
            at < old(self)@.len(),
        ensures
            final(self).wf(),
            ({
                let slot = old(self)@[at as int];
                if next.index > slot.account.wots_index.index {
                    &&& done is Ok
                    &&& final(self)@ == old(self)@.update(
                        at as int,
                        moved(slot, next, pending, settled),
                    )
                } else {
                    &&& done == Err::<(), Error>(
                        not_ahead("wots index", slot.account.wots_index, next),
                    )
                    &&& final(self)@ == old(self)@
                }
            }),
    {
        let ghost before = self@;
        match self.held[at].account.advance_to(next) {
            Ok(_) => {
                self.set(at, pending, settled);
                assert(self@ =~= before.update(
                    at as int,
                    moved(before[at as int], next, pending, settled),
                ));
                Ok(())
            },
            Err(e) => {
                assert(self@ =~= before);
                Err(e)
            },
        }
    }

    /// The slots, as the plain vector they are kept in.
    pub fn into_slots(self) -> (slots: Vec<Slot>)
        ensures
            slots@ == self@,
    {
        self.held
    }
}

/// A slot at another position with other reservations: the same account.
pub open spec fn moved(
    slot: Slot,
    index: WotsIndex,
    pending: Option<Pending>,
    settled: Option<Pending>,
) -> Slot {
    Slot { account: Account { wots_index: index, ..slot.account }, pending, settled }
}

/// Replacing a slot by one of the same tag keeps the order.
pub proof fn lemma_update_keeps_order(slots: Seq<Slot>, at: int, slot: Slot)
    requires
        ascending(slots),
        0 <= at < slots.len(),
        slot.account.tag == slots[at].account.tag,
    ensures
        ascending(slots.update(at, slot)),
{
    let out = slots.update(at, slot);
    assert forall|i: int, j: int|
        #![trigger out[i], out[j]]
        0 <= i < j < out.len() implies bytes_below(out[i].account.tag@, out[j].account.tag@) by {
        assert(out[i].account.tag == slots[i].account.tag);
        assert(out[j].account.tag == slots[j].account.tag);
        assert(bytes_below(slots[i].account.tag@, slots[j].account.tag@));
    }
}

/// A tag is found at its own slot, and a tag that no slot has where it would
/// stand: after every slot before it and before every slot after it.
pub proof fn law_a_tag_is_found_where_it_stands(
    map: SlotMap,
    tag: Tag,
    at: int,
    place: Result<usize, usize>,
)
    requires
        map.wf(),
        call_ensures(SlotMap::find, (&map, &tag), place),
    ensures
        0 <= at < map@.len() && map@[at].account.tag == tag ==> place is Ok && place->Ok_0 == at,
        place matches Err(here) ==> here <= map@.len(),
        place matches Err(here) ==> 0 <= at < here ==> bytes_below(map@[at].account.tag@, tag@),
        place matches Err(here) ==> here <= at < map@.len() ==> bytes_below(
            tag@,
            map@[at].account.tag@,
        ),
        place is Ok ==> place->Ok_0 < map@.len() && map@[place->Ok_0 as int].account.tag == tag,
{
    if 0 <= at < map@.len() && map@[at].account.tag == tag {
        lemma_one_place(map@, tag, at);
    }
    if let Err(here) = place {
        if here < at && at < map@.len() {
            assert(bytes_below(map@[here as int].account.tag@, map@[at].account.tag@));
            lemma_bytes_below_transitive(
                tag@,
                map@[here as int].account.tag@,
                map@[at].account.tag@,
            );
        }
    }
}

/// A slot whose tag is new goes in as it is where it would stand, and those
/// before it and after it stay as they were.
pub proof fn law_a_slot_goes_in_as_it_is(
    map: &mut SlotMap,
    slot: Slot,
    put: Result<(), Slot>,
    at: usize,
)
    requires
        old(map).wf(),
        call_ensures(SlotMap::find, (&*old(map), &slot.account.tag), Err(at)),
        call_ensures(SlotMap::insert, (map, slot), put),
    ensures
        put is Ok,
        final(map)@.len() == old(map)@.len() + 1,
        final(map)@[at as int] == slot,
        forall|i: int| 0 <= i < at ==> #[trigger] final(map)@[i] == old(map)@[i],
        forall|i: int| at < i < final(map)@.len() ==> #[trigger] final(map)@[i] == old(map)@[i - 1],
{
}

/// A slot whose tag is held comes back as it is, and changes nothing.
pub proof fn law_a_held_tag_is_not_replaced(
    map: &mut SlotMap,
    slot: Slot,
    put: Result<(), Slot>,
    at: int,
)
    requires
        old(map).wf(),
        0 <= at < old(map)@.len(),
        old(map)@[at].account.tag == slot.account.tag,
        call_ensures(SlotMap::insert, (map, slot), put),
    ensures
        put == Err::<(), Slot>(slot),
        final(map)@ == old(map)@,
{
    lemma_one_place(old(map)@, slot.account.tag, at);
}

/// Moving a slot forward sets its position and both of its blocks, setting its
/// blocks sets those, and neither touches anything else of it or any other
/// slot. A slot is moved to every position ahead of its own and to no other.
pub proof fn law_a_slot_is_moved_and_set_by_itself(
    mover: &mut SlotMap,
    setter: &mut SlotMap,
    at: usize,
    next: WotsIndex,
    pending: Option<Pending>,
    settled: Option<Pending>,
    i: int,
    done: Result<(), Error>,
)
    requires
        old(mover).wf(),
        old(setter).wf(),
        at < old(mover)@.len(),
        at < old(setter)@.len(),
        0 <= i,
        call_ensures(SlotMap::advance, (mover, at, next, pending, settled), done),
        call_ensures(SlotMap::set, (setter, at, pending, settled), ()),
    ensures
        final(mover)@.len() == old(mover)@.len(),
        final(setter)@.len() == old(setter)@.len(),
        i < old(mover)@.len() && i != at ==> final(mover)@[i] == old(mover)@[i],
        i < old(setter)@.len() && i != at ==> final(setter)@[i] == old(setter)@[i],
        done is Ok <==> old(mover)@[at as int].account.wots_index.index < next.index,
        done is Err ==> final(mover)@ == old(mover)@,
        done is Ok ==> {
            let (was, now) = (old(mover)@[at as int], final(mover)@[at as int]);
            &&& now.account.tag == was.account.tag
            &&& now.account.key_material == was.account.key_material
            &&& now.account.wots_index == next
            &&& now.pending == pending
            &&& now.settled == settled
        },
        final(setter)@[at as int].account == old(setter)@[at as int].account,
        final(setter)@[at as int].pending == pending,
        final(setter)@[at as int].settled == settled,
{
}

/// An empty map has no slots, and a map lends, counts and gives up its slots as
/// they are.
pub proof fn law_a_map_gives_up_its_slots_as_they_are(
    empty: SlotMap,
    map: SlotMap,
    n: usize,
    i: usize,
    slot: &Slot,
    slots: Vec<Slot>,
)
    requires
        call_ensures(SlotMap::new, (), empty),
        call_ensures(SlotMap::len, (&map,), n),
        i < map@.len(),
        call_ensures(SlotMap::at, (&map, i), slot),
        call_ensures(SlotMap::into_slots, (map,), slots),
    ensures
        empty@.len() == 0,
        n == map@.len(),
        *slot == map@[i as int],
        slots@.len() == map@.len() && slots@[i as int] == *slot,
{
}

} // verus!
