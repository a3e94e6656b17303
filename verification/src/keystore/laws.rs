//! What holds of a store whatever is done to it: no account is lost, no
//! position steps back, no key is reserved twice, and a handle that saw an error
//! does nothing more.

use vstd::prelude::*;

use crate::account::{
    advanced_index, bytes_below, stored_stream, Account, KeyMaterial, StreamId, Tag, WotsIndex,
};
use crate::error::Error;
use crate::keystore::accounts::{
    ascending, holds, lemma_absent_tag, lemma_one_place, place_of, rank, slot_of, Figures, Pending,
    Slot,
};
use crate::keystore::change::{
    applied, extra_of, law_memory_is_the_image, override_of, record_from, records_of,
    stageable, Change, Edit, Record,
};
use crate::keystore::commit::Layout;
use crate::keystore::format::{Parsed, VERSION};
use crate::keystore::store::{
    accepts, add_refusal, adopt_refusal, advance_refusal, advance_to_refusal, finished,
    poison_refusal, recomputed_as, recomputed_stream, root_held, sealed_master, secret_bytes,
    settle_refusal, stream_held, to_recompute, upgraded, viewed, Model, Recomputed, Standing,
};

verus! {

/// The account an edit names, where it names one.
pub open spec fn named(edit: Edit) -> Option<Tag> {
    match edit {
        Edit::Account(account) => Some(account.tag),
        Edit::Advance { tag, .. } => Some(tag),
        Edit::Settle { tag, .. } => Some(tag),
        _ => None,
    }
}

/// No account is ever lost, changes what its keys come from, or steps back: an
/// account that was there is there after every change, no less far along. And
/// the accounts stay in order, each tag once.
pub proof fn law_no_account_is_lost_and_none_steps_back(slots: Seq<Slot>, edit: Edit, tag: Tag)
    requires
        ascending(slots),
        stageable(slots, edit),
        applied(slots, edit) is Ok,
        holds(slots, tag),
    ensures
        ascending(applied(slots, edit)->Ok_0),
        holds(applied(slots, edit)->Ok_0, tag),
        slot_of(applied(slots, edit)->Ok_0, tag).account.key_material == slot_of(
            slots,
            tag,
        ).account.key_material,
        slot_of(applied(slots, edit)->Ok_0, tag).account.wots_index.index >= slot_of(
            slots,
            tag,
        ).account.wots_index.index,
        named(edit) != Some(tag) ==> slot_of(applied(slots, edit)->Ok_0, tag) == slot_of(
            slots,
            tag,
        ),
{
    let after = applied(slots, edit)->Ok_0;
    let at = place_of(slots, tag);
    law_memory_is_the_image(slots, edit);
    match edit {
        Edit::Fresh => {},
        Edit::Master(_) => {},
        Edit::Account(account) => {
            lemma_absent_tag(slots, account.tag);
            let put = rank(slots, account.tag);
            let now = if at < put {
                at
            } else {
                at + 1
            };
            assert(after[now] == slots[at]);
            lemma_one_place(after, tag, now);
        },
        Edit::Advance { tag: moved_tag, next, pending, settled } => {
            let put = place_of(slots, moved_tag);
            assert(after[at].account.tag == tag);
            lemma_one_place(after, tag, at);
            if at == put {
                lemma_one_place(slots, moved_tag, at);
            }
        },
        Edit::Settle { tag: settled_tag, block } => {
            let put = place_of(slots, settled_tag);
            assert(after[at].account.tag == tag);
            lemma_one_place(after, tag, at);
            if at == put {
                lemma_one_place(slots, settled_tag, at);
            }
        },
    }
}

/// The account an edit names has, once it is applied, exactly what the edit
/// says: a new account its own tag, position and key material and no blocks, a
/// moved one the position and the two blocks given, a settled one its
/// reservation in the settled block and none open.
pub proof fn law_an_edit_does_what_it_says(slots: Seq<Slot>, edit: Edit)
    requires
        ascending(slots),
        stageable(slots, edit),
        applied(slots, edit) is Ok,
    ensures
        match edit {
            Edit::Account(account) => {
                let after = applied(slots, edit)->Ok_0;
                &&& holds(after, account.tag)
                &&& slot_of(after, account.tag).account == account
                &&& slot_of(after, account.tag).pending is None
                &&& slot_of(after, account.tag).settled is None
            },
            Edit::Advance { tag, next, pending, settled } => {
                let after = slot_of(applied(slots, edit)->Ok_0, tag);
                &&& holds(applied(slots, edit)->Ok_0, tag)
                &&& after.account.wots_index == next
                &&& next.index > slot_of(slots, tag).account.wots_index.index
                &&& after.pending == pending
                &&& after.settled == settled
            },
            Edit::Settle { tag, block } => {
                let after = slot_of(applied(slots, edit)->Ok_0, tag);
                &&& holds(applied(slots, edit)->Ok_0, tag)
                &&& after.account == slot_of(slots, tag).account
                &&& after.pending is None
                &&& after.settled == Some(block)
            },
            _ => applied(slots, edit)->Ok_0 == slots,
        },
{
    let after = applied(slots, edit)->Ok_0;
    law_memory_is_the_image(slots, edit);
    match edit {
        Edit::Account(account) => {
            lemma_absent_tag(slots, account.tag);
            lemma_one_place(after, account.tag, rank(slots, account.tag));
        },
        Edit::Advance { tag, next, pending, settled } => {
            let at = place_of(slots, tag);
            lemma_one_place(after, tag, at);
        },
        Edit::Settle { tag, block } => {
            let at = place_of(slots, tag);
            lemma_one_place(after, tag, at);
        },
        _ => {},
    }
}

/// The slots after a list of edits, each applied where it could be staged.
pub open spec fn run(slots: Seq<Slot>, edits: Seq<Edit>) -> Option<Seq<Slot>>
    decreases edits.len(),
{
    if edits.len() == 0 {
        Some(slots)
    } else {
        match run(slots, edits.drop_last()) {
            Some(before) => if stageable(before, edits.last()) && applied(before, edits.last()) is Ok {
                Some(applied(before, edits.last())->Ok_0)
            } else {
                None
            },
            None => None,
        }
    }
}

/// Over any history, no account is lost and none steps back.
pub proof fn law_a_history_only_moves_forward(slots: Seq<Slot>, edits: Seq<Edit>, tag: Tag)
    requires
        ascending(slots),
        run(slots, edits) is Some,
        holds(slots, tag),
    ensures
        ascending(run(slots, edits)->0),
        holds(run(slots, edits)->0, tag),
        slot_of(run(slots, edits)->0, tag).account.key_material == slot_of(
            slots,
            tag,
        ).account.key_material,
        slot_of(run(slots, edits)->0, tag).account.wots_index.index >= slot_of(
            slots,
            tag,
        ).account.wots_index.index,
    decreases edits.len(),
{
    if edits.len() > 0 {
        law_a_history_only_moves_forward(slots, edits.drop_last(), tag);
        law_no_account_is_lost_and_none_steps_back(
            run(slots, edits.drop_last())->0,
            edits.last(),
            tag,
        );
    }
}

/// The reservation of an account's current key, as it is staged.
pub open spec fn reservation(slots: Seq<Slot>, tag: Tag, digest: [u8; 32], figures: Figures) -> Edit {
    let current = slot_of(slots, tag).account.wots_index;
    Edit::Advance {
        tag,
        next: WotsIndex { index: (current.index + 1) as u32 },
        pending: Some(Pending { spent_index: current, digest, figures: Some(figures) }),
        settled: None,
    }
}

/// No key is ever reserved twice: after a key is reserved and whatever comes
/// next, the key the account would reserve then is a later one.
pub proof fn law_no_key_is_reserved_twice(
    m: Model,
    tag: Tag,
    digest: [u8; 32],
    figures: Figures,
    edits: Seq<Edit>,
)
    requires
        m.standing is Live,
        ascending(m.standing->Live_slots),
        advance_refusal(m, tag) is None,
        run(
            applied(
                m.standing->Live_slots,
                reservation(m.standing->Live_slots, tag, digest, figures),
            )->Ok_0,
            edits,
        ) is Some,
    ensures
        ({
            let slots = m.standing->Live_slots;
            let first = applied(slots, reservation(slots, tag, digest, figures));
            &&& first is Ok
            &&& holds(run(first->Ok_0, edits)->0, tag)
            &&& slot_of(run(first->Ok_0, edits)->0, tag).account.wots_index.index > slot_of(
                slots,
                tag,
            ).account.wots_index.index
        }),
{
    let slots = m.standing->Live_slots;
    let edit = reservation(slots, tag, digest, figures);
    assert(advanced_index(slot_of(slots, tag).account.wots_index) is Ok);
    law_an_edit_does_what_it_says(slots, edit);
    law_no_account_is_lost_and_none_steps_back(slots, edit, tag);
    law_a_history_only_moves_forward(applied(slots, edit)->Ok_0, edits, tag);
}

/// An open reservation refuses every advance of its account, and names the key
/// it holds; settling it is what lets the account go on, and the block is kept
/// under the settled one, digest and figures and all.
pub proof fn law_a_reservation_holds_until_it_is_settled(
    m: Model,
    tag: Tag,
    digest: [u8; 32],
    figures: Figures,
    target: WotsIndex,
    change: Change,
    layout: Layout,
)
    requires
        m.standing is Live,
        ascending(m.standing->Live_slots),
        advance_refusal(m, tag) is None,
        change.what() == reservation(m.standing->Live_slots, tag, digest, figures),
    ensures
        ({
            let spent = slot_of(m.standing->Live_slots, tag).account.wots_index;
            let block = Pending { spent_index: spent, digest, figures: Some(figures) };
            let after = finished(m, change, Ok(layout));
            &&& advance_refusal(after, tag) == Some(
                Error::PendingUnresolved { spent_index: spent.index },
            )
            &&& advance_to_refusal(after, tag, target) == Some(
                Error::PendingUnresolved { spent_index: spent.index },
            )
            &&& change.next_generation() < u64::MAX ==> settle_refusal(after, tag) is None
            &&& slot_of(after.standing->Live_slots, tag).pending == Some(block)
            &&& applied(after.standing->Live_slots, Edit::Settle { tag, block }) is Ok
            &&& slot_of(
                applied(after.standing->Live_slots, Edit::Settle { tag, block })->Ok_0,
                tag,
            ).settled == Some(block)
        }),
{
    let slots = m.standing->Live_slots;
    let edit = change.what();
    assert(advanced_index(slot_of(slots, tag).account.wots_index) is Ok);
    law_an_edit_does_what_it_says(slots, edit);
    law_no_account_is_lost_and_none_steps_back(slots, edit, tag);
    let after = applied(slots, edit)->Ok_0;
    let block = slot_of(after, tag).pending->0;
    law_an_edit_does_what_it_says(after, Edit::Settle { tag, block });
}

/// A block is kept in step with the position it spent, and an account never has
/// an open reservation and a settled one at once.
pub open spec fn in_step(slot: Slot) -> bool {
    &&& slot.pending matches Some(block) ==> block.spent_index.index + 1
        == slot.account.wots_index.index
    &&& slot.settled matches Some(block) ==> block.spent_index.index + 1
        == slot.account.wots_index.index
    &&& !(slot.pending is Some && slot.settled is Some)
}

/// Every account's blocks are in step.
pub open spec fn all_in_step(slots: Seq<Slot>) -> bool {
    forall|i: int| 0 <= i < slots.len() ==> in_step(#[trigger] slots[i])
}

/// The account is added where its key material was found to produce this.
pub open spec fn added(m: Model, account: Account, recomputed: Recomputed) -> bool {
    &&& recomputed_as(recomputed, to_recompute(m, account))
    &&& add_refusal(m, account, recomputed) is None
}

/// The edit is one an operation stages on this store.
pub open spec fn staged_by(m: Model, edit: Edit) -> bool {
    match edit {
        Edit::Fresh => true,
        Edit::Master(_) => adopt_refusal(m) is None,
        Edit::Account(account) => exists|recomputed: Recomputed| #[trigger]
            added(m, account, recomputed),
        Edit::Advance { tag, next, pending, settled } => {
            ||| advance_refusal(m, tag) is None && exists|digest: [u8; 32], figures: Figures|
                edit == #[trigger] reservation(m.standing->Live_slots, tag, digest, figures)
            ||| advance_to_refusal(m, tag, next) is None && pending is None && settled is None
        },
        Edit::Settle { tag, block } => settle_refusal(m, tag) is None && slot_of(
            m.standing->Live_slots,
            tag,
        ).pending == Some(block),
    }
}

/// Whatever an operation stages, the blocks stay in step: a settled block is
/// retained until the position moves, and no longer.
pub proof fn law_the_blocks_stay_in_step(m: Model, edit: Edit)
    requires
        m.standing is Live,
        ascending(m.standing->Live_slots),
        all_in_step(m.standing->Live_slots),
        staged_by(m, edit),
    ensures
        applied(m.standing->Live_slots, edit) is Ok,
        all_in_step(applied(m.standing->Live_slots, edit)->Ok_0),
{
    let slots = m.standing->Live_slots;
    match edit {
        Edit::Account(account) => {
            lemma_absent_tag(slots, account.tag);
            let after = applied(slots, edit)->Ok_0;
            let at = rank(slots, account.tag);
            assert forall|i: int| 0 <= i < after.len() implies in_step(#[trigger] after[i]) by {
                if i < at {
                    assert(after[i] == slots[i]);
                } else if i > at {
                    assert(after[i] == slots[i - 1]);
                }
            }
        },
        Edit::Advance { tag, next, pending, settled } => {
            let at = place_of(slots, tag);
            assert(in_step(slots[at]));
            assert(advance_refusal(m, tag) is None ==> advanced_index(
                slot_of(slots, tag).account.wots_index,
            ) is Ok);
        },
        Edit::Settle { tag, block } => {
            let at = place_of(slots, tag);
            assert(in_step(slots[at]));
        },
        _ => {},
    }
}

/// No two accounts have one key stream.
pub open spec fn streams_apart(slots: Seq<Slot>) -> bool {
    forall|i: int, j: int|
        0 <= i < j < slots.len() ==> stored_stream(#[trigger] slots[i].account.key_material)
            != stored_stream(#[trigger] slots[j].account.key_material)
}

/// The account carries the stream its key material was found to produce.
pub open spec fn carries_own_stream(account: Account, recomputed: Recomputed) -> bool {
    recomputed_stream(account, recomputed) == Ok::<StreamId, Error>(
        stored_stream(account.key_material),
    )
}

/// A derived account that is added carries its own stream: where there is a
/// master seed to produce it from, one that carries another is refused.
pub proof fn law_an_added_derived_account_carries_its_own_stream(
    m: Model,
    account: Account,
    recomputed: Recomputed,
)
    requires
        m.standing is Live,
        account.key_material is Derived,
        added(m, account, recomputed),
    ensures
        carries_own_stream(account, recomputed),
{
}

/// One key stream, one account: where the accounts of a store have streams of
/// their own, they still have once an account is added that carries its own.
pub proof fn law_one_key_stream_one_account(m: Model, account: Account, recomputed: Recomputed)
    requires
        m.standing is Live,
        ascending(m.standing->Live_slots),
        streams_apart(m.standing->Live_slots),
        add_refusal(m, account, recomputed) is None,
        carries_own_stream(account, recomputed),
    ensures
        streams_apart(applied(m.standing->Live_slots, Edit::Account(account))->Ok_0),
{
    let slots = m.standing->Live_slots;
    let after = applied(slots, Edit::Account(account))->Ok_0;
    let at = rank(slots, account.tag);
    lemma_absent_tag(slots, account.tag);
    assert forall|i: int, j: int| 0 <= i < j < after.len() implies stored_stream(
        #[trigger] after[i].account.key_material,
    ) != stored_stream(#[trigger] after[j].account.key_material) by {
        let before = |k: int|
            if k < at {
                k
            } else {
                k - 1
            };
        if i != at && j != at {
            assert(after[i] == slots[before(i)] && after[j] == slots[before(j)]);
        } else if i == at {
            assert(after[j] == slots[before(j)]);
        } else {
            assert(after[i] == slots[before(i)]);
        }
    }
}

/// An account whose stream, root or tag is in the store is refused, whatever
/// else holds of it.
pub proof fn law_a_second_account_on_one_stream_is_refused(
    m: Model,
    account: Account,
    recomputed: Recomputed,
    at: int,
)
    requires
        m.standing is Live,
        0 <= at < m.standing->Live_slots.len(),
        recomputed_stream(account, recomputed) == Ok::<StreamId, Error>(
            stored_stream(m.standing->Live_slots[at].account.key_material),
        ),
    ensures
        add_refusal(m, account, recomputed) is Some,
        !holds(m.standing->Live_slots, account.tag) ==> add_refusal(m, account, recomputed) == Some(
            if root_held(m.standing->Live_slots, account) {
                Error::Exists { what: "imported root" }
            } else {
                Error::Exists { what: "key stream" }
            },
        ),
{
    assert(stream_held(
        m.standing->Live_slots,
        stored_stream(m.standing->Live_slots[at].account.key_material),
    ));
}

/// A poisoned handle refuses everything, naming the error that poisoned it.
pub proof fn law_a_poisoned_handle_refuses_everything(
    m: Model,
    first: Error,
    account: Account,
    recomputed: Recomputed,
    tag: Tag,
    target: WotsIndex,
    change: Change,
)
    requires
        m.standing == Standing::Poisoned(first),
    ensures
        poison_refusal(m) == Some(Error::Poisoned { first: Box::new(first) }),
        adopt_refusal(m) == poison_refusal(m),
        add_refusal(m, account, recomputed) == poison_refusal(m),
        advance_refusal(m, tag) == poison_refusal(m),
        advance_to_refusal(m, tag, target) == poison_refusal(m),
        settle_refusal(m, tag) == poison_refusal(m),
        !accepts(m, change),
{
}

/// A commit that fails changes nothing a handle holds but to poison it, and a
/// commit that succeeds moves the store on by one generation and leaves an image
/// of this build's version on disk.
pub proof fn law_each_commit_is_one_generation(
    m: Model,
    change: Change,
    outcome: Result<Layout, Error>,
)
    requires
        accepts(m, change),
        change.what() !is Fresh,
    ensures
        outcome matches Err(e) ==> finished(m, change, outcome) == (Model {
            standing: Standing::Poisoned(e),
            ..m
        }),
        finished(m, change, outcome).standing matches Standing::Live { generation, .. }
            ==> generation == m.standing->Live_generation + 1,
        finished(m, change, outcome).standing is Live ==> finished(
            m,
            change,
            outcome,
        ).on_disk_version == VERSION,
        finished(m, change, outcome).opened_version == m.opened_version,
        finished(m, change, outcome).key == m.key,
        finished(m, change, outcome).salt == m.salt,
        finished(m, change, outcome).kdf == m.kdf,
{
}

/// A master seed, once adopted, is never replaced.
pub proof fn law_a_master_seed_is_never_replaced(
    m: Model,
    change: Change,
    outcome: Result<Layout, Error>,
)
    requires
        m.standing is Live,
        m.master is Some,
        staged_by(m, change.what()),
    ensures
        adopt_refusal(m) == Some(Error::Exists { what: "master seed" }),
        finished(m, change, outcome).master == m.master,
{
}

/// An older format is crossed by the first write and never by the read: a handle
/// reports no crossing until a commit has succeeded, and from then on the
/// version it read, unless that is the one every image is sealed in.
pub proof fn law_the_first_write_crosses_the_format(
    m: Model,
    change: Change,
    outcome: Result<Layout, Error>,
)
    requires
        accepts(m, change),
        m.on_disk_version == m.opened_version,
    ensures
        upgraded(m) is None,
        outcome is Err ==> upgraded(finished(m, change, outcome)) is None,
        outcome is Ok ==> upgraded(finished(m, change, outcome)) == if m.opened_version == VERSION {
            None::<u16>
        } else {
            Some(m.opened_version)
        },
{
}

/// The same key material, secrets by their bytes.
pub open spec fn same_material(a: KeyMaterial, b: KeyMaterial) -> bool {
    match (a, b) {
        (
            KeyMaterial::Derived { account_index: i, stream: s },
            KeyMaterial::Derived { account_index: j, stream: t },
        ) => i == j && s == t,
        (
            KeyMaterial::Imported { root: r, components: c, stream: s },
            KeyMaterial::Imported { root: q, components: d, stream: t },
        ) => r@ == q@ && c@ == d@ && s == t,
        _ => false,
    }
}

/// The slot is the one the record was sealed from.
pub open spec fn sealed_from(slot: Slot, record: Record) -> bool {
    &&& slot.account.tag == record.tag
    &&& same_material(slot.account.key_material, record.key_material)
    &&& slot.account.wots_index == record.wots_index
    &&& slot.pending == record.pending
    &&& slot.settled == record.settled
}

/// The image opens as what it was sealed from: the generation, the records and
/// the master seed of the change it carries.
pub open spec fn opens_as_sealed(parsed: Parsed, m: Model, change: Change) -> bool {
    let slots = m.standing->Live_slots;
    let records = records_of(slots, override_of(slots, change.what()), extra_of(change.what()));
    &&& parsed.generation == change.next_generation()
    &&& secret_bytes(parsed.master) == sealed_master(m, change.what())
    &&& parsed.slots@.len() == records.len()
    &&& forall|i: int|
        0 <= i < records.len() ==> sealed_from(#[trigger] parsed.slots@[i], records[i])
}

/// The same slot, secrets by their bytes.
pub open spec fn same_slot(a: Slot, b: Slot) -> bool {
    &&& a.account.tag == b.account.tag
    &&& same_material(a.account.key_material, b.account.key_material)
    &&& a.account.wots_index == b.account.wots_index
    &&& a.pending == b.pending
    &&& a.settled == b.settled
}

/// The handle is one an open made of this image: the generation, the accounts
/// and the master seed are the image's.
pub open spec fn opened_from(m: Model, parsed: Parsed) -> bool {
    &&& m.standing == Standing::Live { generation: parsed.generation, slots: parsed.slots@ }
    &&& m.master == secret_bytes(parsed.master)
}

/// The two handles hold one store: the generation, every account with both of
/// its blocks, and the master seed, secrets by their bytes.
pub open spec fn same_store(a: Model, b: Model) -> bool {
    match (a.standing, b.standing) {
        (
            Standing::Live { generation: g, slots: s },
            Standing::Live { generation: h, slots: t },
        ) => {
            &&& g == h
            &&& a.master == b.master
            &&& s.len() == t.len()
            &&& forall|i: int| #![trigger s[i]] #![trigger t[i]] 0 <= i < s.len() ==> same_slot(s[i], t[i])
        },
        _ => false,
    }
}

/// What an open gives back is what was committed: the image of a change, opening
/// as it was sealed, holds exactly what the handle that committed it holds --
/// the generation, every account with both of its blocks, and the master seed.
pub proof fn law_an_open_gives_back_what_was_committed(
    m: Model,
    change: Change,
    layout: Layout,
    parsed: Parsed,
    opened: Model,
)
    requires
        accepts(m, change),
        ascending(m.standing->Live_slots),
        applied(m.standing->Live_slots, change.what()) is Ok,
        opens_as_sealed(parsed, m, change),
        opened_from(opened, parsed),
    ensures
        same_store(finished(m, change, Ok(layout)), opened),
        parsed.slots.wf(),
{
    let slots = m.standing->Live_slots;
    let edit = change.what();
    let after = applied(slots, edit)->Ok_0;
    let records = records_of(slots, override_of(slots, edit), extra_of(edit));
    law_memory_is_the_image(slots, edit);
    assert forall|i: int| 0 <= i < after.len() implies same_slot(
        after[i],
        #[trigger] parsed.slots@[i],
    ) by {
        assert(sealed_from(parsed.slots@[i], records[i]));
        assert(records[i] == record_from(after[i], None));
    }
    lemma_same_slots_ascend(after, parsed.slots@);
}

proof fn lemma_same_slots_ascend(a: Seq<Slot>, b: Seq<Slot>)
    requires
        ascending(a),
        a.len() == b.len(),
        forall|i: int| 0 <= i < a.len() ==> same_slot(a[i], #[trigger] b[i]),
    ensures
        ascending(b),
{
    assert forall|i: int, j: int|
        #![trigger b[i], b[j]]
        0 <= i < j < b.len() implies bytes_below(b[i].account.tag@, b[j].account.tag@) by {
        assert(same_slot(a[i], b[i]) && same_slot(a[j], b[j]));
        assert(bytes_below(a[i].account.tag@, a[j].account.tag@));
    }
}

/// Two handles on one store say the same of it: the generation, the tags in
/// order, every account's view and stream, and the master seed.
pub proof fn law_one_store_is_reported_alike(a: Model, b: Model, tag: Tag)
    requires
        same_store(a, b),
        ascending(a.standing->Live_slots),
    ensures
        ({
            let (s, t) = (a.standing->Live_slots, b.standing->Live_slots);
            &&& a.standing->Live_generation == b.standing->Live_generation
            &&& a.master == b.master
            &&& Seq::new(s.len(), |i: int| s[i].account.tag) == Seq::new(
                t.len(),
                |i: int| t[i].account.tag,
            )
            &&& holds(s, tag) == holds(t, tag)
            &&& holds(s, tag) ==> viewed(slot_of(s, tag)) == viewed(slot_of(t, tag))
            &&& holds(s, tag) ==> stored_stream(slot_of(s, tag).account.key_material)
                == stored_stream(slot_of(t, tag).account.key_material)
            &&& ascending(t)
        }),
{
    let (s, t) = (a.standing->Live_slots, b.standing->Live_slots);
    lemma_same_slots_ascend(s, t);
    assert(Seq::new(s.len(), |i: int| s[i].account.tag) =~= Seq::new(
        t.len(),
        |i: int| t[i].account.tag,
    ));
    if holds(s, tag) {
        let at = place_of(s, tag);
        assert(same_slot(s[at], t[at]));
        lemma_one_place(t, tag, at);
    }
    if holds(t, tag) {
        let at = place_of(t, tag);
        assert(same_slot(s[at], t[at]));
        lemma_one_place(s, tag, at);
    }
}

/// One commit of an operation, ended well.
pub open spec fn committed(before: Model, after: Model, change: Change, layout: Layout) -> bool {
    &&& accepts(before, change)
    &&& staged_by(before, change.what())
    &&& after == finished(before, change, Ok(layout))
}

/// The store went on from `before` to `after`: by one commit, or by a handle
/// dropped and the store opened again. A commit that failed is a reopen either
/// way: of the store before it, or of the store its commit made.
pub open spec fn goes_on(before: Model, after: Model) -> bool {
    ||| exists|change: Change, layout: Layout| #[trigger] committed(before, after, change, layout)
    ||| same_store(before, after)
}

/// A store's lifetime: every handle on it, each going on from the one before.
pub open spec fn lifetime(handles: Seq<Model>) -> bool {
    &&& handles.len() > 0
    &&& handles[0].standing is Live
    &&& ascending(handles[0].standing->Live_slots)
    &&& forall|i: int| 0 < i < handles.len() ==> goes_on(handles[i - 1], #[trigger] handles[i])
}

/// An imported account the edit adds carries its own stream: what its root was
/// found to produce is what it carries. Of a derived account nothing is asked.
pub open spec fn adds_its_own(m: Model, edit: Edit) -> bool {
    edit matches Edit::Account(account) ==> account.key_material is Imported ==> exists|
        recomputed: Recomputed,
    | #[trigger]
        added(m, account, recomputed) && carries_own_stream(account, recomputed)
}

/// One commit of an operation, ended well, that adds no imported account but one
/// that carries its own stream.
pub open spec fn committed_genuinely(
    before: Model,
    after: Model,
    change: Change,
    layout: Layout,
) -> bool {
    committed(before, after, change, layout) && adds_its_own(before, change.what())
}

/// Every imported account added in a lifetime carries its own stream.
pub open spec fn accounts_are_genuine(handles: Seq<Model>) -> bool {
    forall|i: int| 0 < i < handles.len() ==> {
        ||| exists|change: Change, layout: Layout| #[trigger]
            committed_genuinely(handles[i - 1], handles[i], change, layout)
        ||| same_store(handles[i - 1], #[trigger] handles[i])
    }
}

proof fn lemma_committed(before: Model, after: Model, change: Change, layout: Layout)
    requires
        before.standing is Live,
        ascending(before.standing->Live_slots),
        committed(before, after, change, layout),
    ensures
        applied(before.standing->Live_slots, change.what()) is Ok,
        after.standing == (Standing::Live {
            generation: change.next_generation(),
            slots: applied(before.standing->Live_slots, change.what())->Ok_0,
        }),
        ascending(after.standing->Live_slots),
{
    let slots = before.standing->Live_slots;
    let edit = change.what();
    if let Edit::Advance { tag, next, .. } = edit {
        assert(advance_refusal(before, tag) is None ==> advanced_index(
            slot_of(slots, tag).account.wots_index,
        ) is Ok);
    }
    law_memory_is_the_image(slots, edit);
}

/// Over a store's whole lifetime, through every commit and every reopen, no
/// account is lost and none steps back, and the accounts stay in order.
pub proof fn law_a_lifetime_only_moves_forward(handles: Seq<Model>, i: int, tag: Tag)
    requires
        lifetime(handles),
        0 <= i < handles.len(),
    ensures
        handles[i].standing is Live,
        ascending(handles[i].standing->Live_slots),
        holds(handles[0].standing->Live_slots, tag) ==> {
            let first = slot_of(handles[0].standing->Live_slots, tag);
            let now = slot_of(handles[i].standing->Live_slots, tag);
            &&& holds(handles[i].standing->Live_slots, tag)
            &&& same_material(now.account.key_material, first.account.key_material)
            &&& now.account.wots_index.index >= first.account.wots_index.index
        },
    decreases i,
{
    if i > 0 {
        law_a_lifetime_only_moves_forward(handles, i - 1, tag);
        let (before, after) = (handles[i - 1], handles[i]);
        assert(goes_on(before, after));
        let s = before.standing->Live_slots;
        if same_store(before, after) {
            law_one_store_is_reported_alike(before, after, tag);
            if holds(s, tag) {
                let at = place_of(s, tag);
                assert(same_slot(s[at], after.standing->Live_slots[at]));
                lemma_one_place(after.standing->Live_slots, tag, at);
            }
        } else {
            let (change, layout) = choose|change: Change, layout: Layout| #[trigger]
                committed(before, after, change, layout);
            lemma_committed(before, after, change, layout);
            if holds(s, tag) {
                law_no_account_is_lost_and_none_steps_back(s, change.what(), tag);
            }
        }
    }
}

/// One key stream, one account, over a store's whole lifetime and across kinds:
/// where every imported account carries the stream its root produces, no two
/// accounts ever have one stream, through every commit and every reopen. A new
/// store has none to begin with.
pub proof fn law_one_key_stream_one_account_for_life(handles: Seq<Model>, i: int, a: Tag, b: Tag)
    requires
        lifetime(handles),
        accounts_are_genuine(handles),
        streams_apart(handles[0].standing->Live_slots),
        0 <= i < handles.len(),
    ensures
        streams_apart(handles[i].standing->Live_slots),
        ({
            let slots = handles[i].standing->Live_slots;
            holds(slots, a) && holds(slots, b) && a != b ==> stored_stream(
                slot_of(slots, a).account.key_material,
            ) != stored_stream(slot_of(slots, b).account.key_material)
        }),
    decreases i,
{
    if i > 0 {
        law_one_key_stream_one_account_for_life(handles, i - 1, a, b);
        law_a_lifetime_only_moves_forward(handles, i - 1, a);
        let (before, after) = (handles[i - 1], handles[i]);
        if same_store(before, after) {
            lemma_streams_stay_apart(
                before.standing->Live_slots,
                after.standing->Live_slots,
            );
        } else {
            let (change, layout) = choose|change: Change, layout: Layout| #[trigger]
                committed_genuinely(before, after, change, layout);
            lemma_committed(before, after, change, layout);
            lemma_a_commit_keeps_streams_apart(before, change.what());
        }
    }
    let slots = handles[i].standing->Live_slots;
    if holds(slots, a) && holds(slots, b) && a != b {
        let (x, y) = (place_of(slots, a), place_of(slots, b));
        assert(x < y || y < x);
    }
}

/// The same slots have the same streams.
proof fn lemma_streams_stay_apart(a: Seq<Slot>, b: Seq<Slot>)
    requires
        streams_apart(a),
        a.len() == b.len(),
        forall|i: int|
            0 <= i < a.len() ==> stored_stream(a[i].account.key_material) == stored_stream(
                #[trigger] b[i].account.key_material,
            ),
    ensures
        streams_apart(b),
{
    assert forall|i: int, j: int| 0 <= i < j < b.len() implies stored_stream(
        #[trigger] b[i].account.key_material,
    ) != stored_stream(#[trigger] b[j].account.key_material) by {
        assert(stored_stream(a[i].account.key_material) != stored_stream(a[j].account.key_material));
    }
}

proof fn lemma_a_commit_keeps_streams_apart(m: Model, edit: Edit)
    requires
        m.standing is Live,
        ascending(m.standing->Live_slots),
        streams_apart(m.standing->Live_slots),
        staged_by(m, edit),
        adds_its_own(m, edit),
        applied(m.standing->Live_slots, edit) is Ok,
    ensures
        streams_apart(applied(m.standing->Live_slots, edit)->Ok_0),
{
    let slots = m.standing->Live_slots;
    match edit {
        Edit::Account(account) => {
            let recomputed = if account.key_material is Imported {
                choose|recomputed: Recomputed| #[trigger]
                    added(m, account, recomputed) && carries_own_stream(account, recomputed)
            } else {
                choose|recomputed: Recomputed| #[trigger] added(m, account, recomputed)
            };
            if account.key_material is Derived {
                law_an_added_derived_account_carries_its_own_stream(m, account, recomputed);
            }
            law_one_key_stream_one_account(m, account, recomputed);
        },
        _ => {
            lemma_streams_stay_apart(slots, applied(slots, edit)->Ok_0);
        },
    }
}

/// A store reopens as it was left: after any lifetime, what a handle holds once
/// its last commit has ended is what an open makes of that commit's image,
/// opening as it was sealed, and both say the same of it.
pub proof fn law_a_store_reopens_as_it_was_left(
    handles: Seq<Model>,
    change: Change,
    layout: Layout,
    parsed: Parsed,
    opened: Model,
    tag: Tag,
)
    requires
        lifetime(handles),
        committed(handles.last(), finished(handles.last(), change, Ok(layout)), change, layout),
        opens_as_sealed(parsed, handles.last(), change),
        opened_from(opened, parsed),
    ensures
        ({
            let left = finished(handles.last(), change, Ok(layout));
            let (s, t) = (left.standing->Live_slots, opened.standing->Live_slots);
            &&& same_store(left, opened)
            &&& left.standing->Live_generation == opened.standing->Live_generation
            &&& left.master == opened.master
            &&& holds(s, tag) == holds(t, tag)
            &&& holds(s, tag) ==> viewed(slot_of(s, tag)) == viewed(slot_of(t, tag))
            &&& holds(s, tag) ==> stored_stream(slot_of(s, tag).account.key_material)
                == stored_stream(slot_of(t, tag).account.key_material)
            &&& lifetime(handles.push(left).push(opened))
        }),
{
    let last = handles.last();
    let left = finished(last, change, Ok(layout));
    law_a_lifetime_only_moves_forward(handles, handles.len() - 1, tag);
    lemma_committed(last, left, change, layout);
    law_an_open_gives_back_what_was_committed(last, change, layout, parsed, opened);
    law_one_store_is_reported_alike(left, opened, tag);
    let after = handles.push(left).push(opened);
    assert forall|i: int| 0 < i < after.len() implies goes_on(after[i - 1], #[trigger] after[i]) by {
        if i < handles.len() {
            assert(goes_on(handles[i - 1], handles[i]));
        }
    }
}

} // verus!
