//! What a handle answers, said of the calls themselves: what each one accepts,
//! what it refuses and with what, and what one call says of another before it.

use vstd::prelude::*;

#[allow(unused_imports)]
use crate::account::{bytes_below, stored_stream};
#[allow(unused_imports)]
use crate::account::{Account, AccountKind, AccountRecord, KeyMaterial, StreamId, Tag, WotsIndex};
use crate::error::Error;
#[allow(unused_imports)]
use crate::keystore::accounts::{
    ascending, holds, lemma_absent_tag, lemma_one_place, lemma_with_slot, rank, slot_of, with_slot,
};
use crate::keystore::accounts::{Figures, Pending, Slot};
#[allow(unused_imports)]
use crate::keystore::change::{applied, law_memory_is_the_image, stageable, RecordRef};
use crate::keystore::change::{Change, Edit};
use crate::keystore::commit::Commit;
#[allow(unused_imports)]
use crate::keystore::laws::named;
#[allow(unused_imports)]
use crate::keystore::store::{
    accepts, add_refusal, advance_refusal, advance_to_refusal, root_held, same_root, stream_held,
};
#[allow(unused_imports)]
use crate::keystore::store::{Model, Standing};
use crate::keystore::store::{
    AccountView, AdvanceReceipt, Done, Keystore, Recompute, Recomputed, SealRequest,
};
use crate::scrubbed::Scrubbed;

verus! {

/// A slot that is seen to be `tag`'s is the one the store finds.
proof fn lemma_found(ks: Keystore, tag: Tag)
    requires
        ks.wf(),
        ks.model().standing is Live,
    ensures
        ({
            let slots = ks.model().standing->Live_slots;
            &&& forall|i: int|
                0 <= i < slots.len() && (#[trigger] slots[i]).account.tag == tag ==> holds(slots, tag)
                    && slot_of(slots, tag) == slots[i]
            &&& (forall|i: int| 0 <= i < slots.len() ==> (#[trigger] slots[i]).account.tag != tag)
                ==> !holds(slots, tag)
        }),
{
    ks.law_a_handle_is_in_order();
    let slots = ks.model().standing->Live_slots;
    assert forall|i: int|
        0 <= i < slots.len() && (#[trigger] slots[i]).account.tag == tag implies holds(slots, tag)
        && slot_of(slots, tag) == slots[i] by {
        lemma_one_place(slots, tag, i);
    }
}

/// A poisoned handle answers every call with the error that poisoned it.
pub proof fn law_a_poisoned_handle_refuses_everything(
    ks: Keystore,
    first: Error,
    tag: Tag,
    target: WotsIndex,
    digest: [u8; 32],
    figures: Figures,
    pending: Option<Pending>,
    settled: Option<Pending>,
    master: Scrubbed,
    account: Account,
    recomputed: Recomputed,
)
    requires
        ks.wf(),
        ks.model().standing == Standing::Poisoned(first),
    ensures
        forall|out: Result<u64, Error>|
            #[trigger] call_ensures(Keystore::generation, (&ks,), out) ==> out == Err::<
                u64,
                Error,
            >(Error::Poisoned { first: Box::new(first) }),
        forall|out: Result<Option<AccountView>, Error>|
            #[trigger] call_ensures(Keystore::view, (&ks, &tag), out) ==> out == Err::<
                Option<AccountView>,
                Error,
            >(Error::Poisoned { first: Box::new(first) }),
        forall|out: Result<StreamId, Error>|
            #[trigger] call_ensures(Keystore::stream_id, (&ks, &tag), out) ==> out == Err::<
                StreamId,
                Error,
            >(Error::Poisoned { first: Box::new(first) }),
        forall|out: Result<Vec<Tag>, Error>|
            #[trigger] call_ensures(Keystore::tags, (&ks,), out) ==> out == Err::<
                Vec<Tag>,
                Error,
            >(Error::Poisoned { first: Box::new(first) }),
        forall|out: Result<Option<&Scrubbed>, Error>|
            #[trigger] call_ensures(Keystore::master, (&ks,), out) ==> out == Err::<
                Option<&Scrubbed>,
                Error,
            >(Error::Poisoned { first: Box::new(first) }),
        forall|out: Result<Vec<AccountRecord>, Error>|
            #[trigger] call_ensures(Keystore::into_records, (ks,), out) ==> out == Err::<
                Vec<AccountRecord>,
                Error,
            >(Error::Poisoned { first: Box::new(first) }),
        forall|out: Result<Change, Error>|
            #[trigger] call_ensures(Keystore::adopt_master, (&ks, &master), out) ==> out
                == Err::<Change, Error>(Error::Poisoned { first: Box::new(first) }),
        forall|out: Result<Change, Error>|
            #[trigger] call_ensures(Keystore::add, (&ks, account, recomputed), out) ==> out
                == Err::<Change, Error>(Error::Poisoned { first: Box::new(first) }),
        forall|out: Result<Change, Error>|
            #[trigger] call_ensures(Keystore::persist_advance, (&ks, &tag, &digest, figures), out)
                ==> out == Err::<Change, Error>(Error::Poisoned { first: Box::new(first) }),
        forall|out: Result<Change, Error>|
            #[trigger] call_ensures(Keystore::persist_advance_to, (&ks, &tag, target), out) ==> out
                == Err::<Change, Error>(Error::Poisoned { first: Box::new(first) }),
        forall|out: Result<Change, Error>|
            #[trigger] call_ensures(
                Keystore::advance_committed,
                (&ks, &tag, target, pending, settled),
                out,
            ) ==> out == Err::<Change, Error>(Error::Poisoned { first: Box::new(first) }),
        forall|out: Result<Change, Error>|
            #[trigger] call_ensures(Keystore::persist_settled, (&ks, &tag), out) ==> out
                == Err::<Change, Error>(Error::Poisoned { first: Box::new(first) }),
{
}

/// A held account with no reservation open, a key left and a generation left
/// reserves its key, whichever key that is: the key, the digest and the figures
/// are what was asked for, the position moves on by one, the settled block is
/// released, and the image is the next generation's.
pub proof fn law_a_free_account_reserves_its_key(
    ks: Keystore,
    tag: Tag,
    digest: [u8; 32],
    figures: Figures,
    at: int,
    staged: Result<Change, Error>,
)
    requires
        ks.wf(),
        call_ensures(Keystore::persist_advance, (&ks, &tag, &digest, figures), staged),
        ks.model().standing is Live,
        ks.model().standing->Live_generation < u64::MAX,
        0 <= at < ks.model().standing->Live_slots.len(),
        ks.model().standing->Live_slots[at].account.tag == tag,
        ks.model().standing->Live_slots[at].pending is None,
        ks.model().standing->Live_slots[at].account.wots_index.index < u32::MAX,
    ensures
        advance_refusal(ks.model(), tag) is None,
        staged matches Ok(change) && ({
            let slot = ks.model().standing->Live_slots[at];
            &&& change.next_generation() == ks.model().standing->Live_generation + 1
            &&& change.what() is Advance
            &&& change.what()->Advance_tag == tag
            &&& change.what()->Advance_next.index == slot.account.wots_index.index + 1
            &&& change.what()->Advance_pending == Some(
                Pending { spent_index: slot.account.wots_index, digest, figures: Some(figures) },
            )
            &&& change.what()->Advance_settled is None
        }),
{
    lemma_found(ks, tag);
}

/// A key is not reserved where there is no such account, where a reservation is
/// open, at the last key, and at the last generation; each is refused as what it
/// is, the first of them first.
pub proof fn law_a_reservation_is_refused_for_its_reason(
    ks: Keystore,
    tag: Tag,
    digest: [u8; 32],
    figures: Figures,
    at: int,
    staged: Result<Change, Error>,
)
    requires
        ks.wf(),
        call_ensures(Keystore::persist_advance, (&ks, &tag, &digest, figures), staged),
        ks.model().standing is Live,
    ensures
        (forall|i: int|
            0 <= i < ks.model().standing->Live_slots.len() ==> (
            #[trigger] ks.model().standing->Live_slots[i]).account.tag != tag) ==> staged == Err::<
            Change,
            Error,
        >(Error::NoSuchAccount),
        0 <= at < ks.model().standing->Live_slots.len()
            && ks.model().standing->Live_slots[at].account.tag == tag ==> {
            let slot = ks.model().standing->Live_slots[at];
            &&& slot.pending matches Some(open) ==> staged == Err::<Change, Error>(
                Error::PendingUnresolved { spent_index: open.spent_index.index },
            )
            &&& slot.pending is None && slot.account.wots_index.index == 0xffff_ffff ==> staged
                == Err::<Change, Error>(
                Error::Range { what: "wots index", min: 0, max: 0xffff_fffe, got: 0xffff_ffff },
            )
            &&& slot.pending is None && slot.account.wots_index.index < 0xffff_ffff
                && ks.model().standing->Live_generation == u64::MAX ==> staged == Err::<Change, Error>(
                Error::Range {
                    what: "keystore generation",
                    min: 0,
                    max: 0xffff_ffff_ffff_fffe,
                    got: 0xffff_ffff_ffff_ffff,
                },
            )
        },
{
    lemma_found(ks, tag);
}

/// A held account with no reservation open and a generation left moves to every
/// position ahead of its own, the next one and the last one among them. No key
/// is reserved, and the settled block is released.
pub proof fn law_a_free_account_moves_to_any_position_ahead(
    ks: Keystore,
    tag: Tag,
    target: WotsIndex,
    at: int,
    staged: Result<Change, Error>,
)
    requires
        ks.wf(),
        call_ensures(Keystore::persist_advance_to, (&ks, &tag, target), staged),
        ks.model().standing is Live,
        ks.model().standing->Live_generation < u64::MAX,
        0 <= at < ks.model().standing->Live_slots.len(),
        ks.model().standing->Live_slots[at].account.tag == tag,
        ks.model().standing->Live_slots[at].pending is None,
        ks.model().standing->Live_slots[at].account.wots_index.index < target.index,
    ensures
        advance_to_refusal(ks.model(), tag, target) is None,
        staged matches Ok(change) && ({
            &&& change.next_generation() == ks.model().standing->Live_generation + 1
            &&& change.what() is Advance
            &&& change.what()->Advance_tag == tag
            &&& change.what()->Advance_next == target
            &&& change.what()->Advance_pending is None
            &&& change.what()->Advance_settled is None
        }),
{
    lemma_found(ks, tag);
}

/// An account is not moved where there is none of that tag, where a reservation
/// is open, to a position that is not ahead, and at the last generation; each is
/// refused as what it is, the first of them first.
pub proof fn law_a_move_is_refused_for_its_reason(
    ks: Keystore,
    tag: Tag,
    target: WotsIndex,
    at: int,
    staged: Result<Change, Error>,
)
    requires
        ks.wf(),
        call_ensures(Keystore::persist_advance_to, (&ks, &tag, target), staged),
        ks.model().standing is Live,
    ensures
        (forall|i: int|
            0 <= i < ks.model().standing->Live_slots.len() ==> (
            #[trigger] ks.model().standing->Live_slots[i]).account.tag != tag) ==> staged == Err::<
            Change,
            Error,
        >(Error::NoSuchAccount),
        0 <= at < ks.model().standing->Live_slots.len()
            && ks.model().standing->Live_slots[at].account.tag == tag ==> {
            let slot = ks.model().standing->Live_slots[at];
            let stored = slot.account.wots_index.index;
            &&& slot.pending matches Some(open) ==> staged == Err::<Change, Error>(
                Error::PendingUnresolved { spent_index: open.spent_index.index },
            )
            &&& slot.pending is None && target.index <= stored ==> staged == Err::<Change, Error>(
                Error::Range {
                    what: "wots index for tag",
                    min: (stored + 1) as u64,
                    max: 0xffff_ffff,
                    got: target.index as u64,
                },
            )
            &&& slot.pending is None && stored < target.index && ks.model().standing->Live_generation
                == u64::MAX ==> staged == Err::<Change, Error>(
                Error::Range {
                    what: "keystore generation",
                    min: 0,
                    max: 0xffff_ffff_ffff_fffe,
                    got: 0xffff_ffff_ffff_ffff,
                },
            )
        },
{
    lemma_found(ks, tag);
}

/// An open reservation is settled as it stands, wherever there is a generation
/// left. With no such account, nothing open or no generation left, the refusal
/// says which.
pub proof fn law_an_open_reservation_is_settled_as_it_stands(
    ks: Keystore,
    tag: Tag,
    at: int,
    staged: Result<Change, Error>,
)
    requires
        ks.wf(),
        call_ensures(Keystore::persist_settled, (&ks, &tag), staged),
        ks.model().standing is Live,
    ensures
        (forall|i: int|
            0 <= i < ks.model().standing->Live_slots.len() ==> (
            #[trigger] ks.model().standing->Live_slots[i]).account.tag != tag) ==> staged == Err::<
            Change,
            Error,
        >(Error::NoSuchAccount),
        0 <= at < ks.model().standing->Live_slots.len()
            && ks.model().standing->Live_slots[at].account.tag == tag ==> {
            let slot = ks.model().standing->Live_slots[at];
            let generation = ks.model().standing->Live_generation;
            &&& slot.pending is None ==> staged == Err::<Change, Error>(Error::NothingPending)
            &&& slot.pending is Some && generation == u64::MAX ==> staged == Err::<Change, Error>(
                Error::Range {
                    what: "keystore generation",
                    min: 0,
                    max: 0xffff_ffff_ffff_fffe,
                    got: 0xffff_ffff_ffff_ffff,
                },
            )
            &&& slot.pending is Some && generation < u64::MAX ==> {
                &&& staged is Ok
                &&& staged->Ok_0.next_generation() == generation + 1
                &&& staged->Ok_0.what() is Settle
                &&& staged->Ok_0.what()->Settle_tag == tag
                &&& staged->Ok_0.what()->Settle_block == slot.pending->0
            }
        },
{
    lemma_found(ks, tag);
}

/// A store without a master seed adopts any that it is given, while there is a
/// generation left; one that has a master seed keeps it.
pub proof fn law_a_store_adopts_one_master_seed(
    ks: Keystore,
    master: Scrubbed,
    staged: Result<Change, Error>,
)
    requires
        ks.wf(),
        call_ensures(Keystore::adopt_master, (&ks, &master), staged),
        ks.model().standing is Live,
    ensures
        ks.model().master is Some ==> staged == Err::<Change, Error>(
            Error::Exists { what: "master seed" },
        ),
        ks.model().master is None && ks.model().standing->Live_generation == u64::MAX ==> staged
            == Err::<Change, Error>(
            Error::Range {
                what: "keystore generation",
                min: 0,
                max: 0xffff_ffff_ffff_fffe,
                got: 0xffff_ffff_ffff_ffff,
            },
        ),
        ks.model().master is None && ks.model().standing->Live_generation < u64::MAX ==> {
            &&& staged is Ok
            &&& staged->Ok_0.next_generation() == ks.model().standing->Live_generation + 1
            &&& staged->Ok_0.what() is Master
            &&& staged->Ok_0.what()->Master_0@ == master@
        },
{
}

/// The commit that sets a position and both blocks takes them as they are
/// given, under the next generation, and only the last generation refuses it.
pub proof fn law_a_move_is_staged_as_it_is_given(
    ks: Keystore,
    tag: Tag,
    next: WotsIndex,
    pending: Option<Pending>,
    settled: Option<Pending>,
    staged: Result<Change, Error>,
)
    requires
        ks.wf(),
        call_ensures(Keystore::advance_committed, (&ks, &tag, next, pending, settled), staged),
        ks.model().standing is Live,
    ensures
        ks.model().standing->Live_generation < u64::MAX ==> {
            &&& staged is Ok
            &&& staged->Ok_0.next_generation() == ks.model().standing->Live_generation + 1
            &&& staged->Ok_0.what() == (Edit::Advance { tag, next, pending, settled })
        },
        ks.model().standing->Live_generation == u64::MAX ==> staged == Err::<Change, Error>(
            Error::Range {
                what: "keystore generation",
                min: 0,
                max: 0xffff_ffff_ffff_fffe,
                got: 0xffff_ffff_ffff_ffff,
            },
        ),
{
}

/// An account is new to a store where no slot has its tag, its imported root or
/// the stream its key material produces. Every new account whose key material
/// reproduces it is taken as it is, under the next generation, and only the last
/// generation refuses it.
pub proof fn law_a_new_account_is_taken_as_it_is(
    ks: Keystore,
    account: Account,
    recomputed: Recomputed,
    incoming: StreamId,
    staged: Result<Change, Error>,
)
    requires
        ks.wf(),
        call_ensures(Keystore::add, (&ks, account, recomputed), staged),
        ks.model().standing is Live,
        match recomputed {
            Recomputed::Root { stream } => account.key_material is Imported && incoming == stream,
            Recomputed::Master { tag, stream } => {
                &&& account.key_material is Derived
                &&& tag == account.tag
                &&& stream == account.key_material->Derived_stream
                &&& incoming == stream
            },
            Recomputed::Carried => {
                &&& account.key_material is Derived
                &&& incoming == account.key_material->Derived_stream
            },
        },
        forall|i: int|
            #![trigger ks.model().standing->Live_slots[i]]
            0 <= i < ks.model().standing->Live_slots.len() ==> {
                let held = ks.model().standing->Live_slots[i].account;
                &&& held.tag != account.tag
                &&& held.key_material is Imported && account.key_material is Imported
                    ==> held.key_material->Imported_root@ != account.key_material->Imported_root@
                &&& held.key_material is Imported ==> held.key_material->Imported_stream != incoming
                &&& held.key_material is Derived ==> held.key_material->Derived_stream != incoming
            },
    ensures
        ks.model().standing->Live_generation < u64::MAX ==> {
            &&& add_refusal(ks.model(), account, recomputed) is None
            &&& staged is Ok
            &&& staged->Ok_0.next_generation() == ks.model().standing->Live_generation + 1
            &&& staged->Ok_0.what() == Edit::Account(account)
        },
        ks.model().standing->Live_generation == u64::MAX ==> staged == Err::<Change, Error>(
            Error::Range {
                what: "keystore generation",
                min: 0,
                max: 0xffff_ffff_ffff_fffe,
                got: 0xffff_ffff_ffff_ffff,
            },
        ),
{
    lemma_found(ks, account.tag);
}

/// An account is refused for its tag, its imported root, its key material or
/// its stream, in that order, and for nothing else but the last generation.
pub proof fn law_an_account_is_refused_for_its_reason(
    ks: Keystore,
    account: Account,
    recomputed: Recomputed,
    at: int,
    staged: Result<Change, Error>,
)
    requires
        ks.wf(),
        call_ensures(Keystore::add, (&ks, account, recomputed), staged),
        ks.model().standing is Live,
    ensures
        ({
            let slots = ks.model().standing->Live_slots;
            let is_held = 0 <= at < slots.len();
            let held = slots[at].account;
            let tag_is_new = forall|i: int|
                0 <= i < slots.len() ==> (#[trigger] slots[i]).account.tag != account.tag;
            let root_is_new = forall|i: int|
                #![trigger slots[i]]
                0 <= i < slots.len() ==> !(slots[i].account.key_material is Imported
                    && account.key_material is Imported
                    && slots[i].account.key_material->Imported_root@
                    == account.key_material->Imported_root@);
            &&& is_held && held.tag == account.tag ==> staged == Err::<Change, Error>(
                Error::Exists { what: "account tag" },
            )
            &&& is_held && tag_is_new && held.key_material is Imported && account.key_material is Imported
                && held.key_material->Imported_root@ == account.key_material->Imported_root@ ==> staged
                == Err::<Change, Error>(Error::Exists { what: "imported root" })
            &&& tag_is_new && root_is_new ==> match recomputed {
                Recomputed::Master { tag, stream } => account.key_material is Derived ==> {
                    &&& tag != account.tag ==> staged == Err::<Change, Error>(
                        Error::DerivedTagNotReproduced {
                            account_index: account.key_material->Derived_account_index,
                        },
                    )
                    &&& tag == account.tag && stream != account.key_material->Derived_stream
                        ==> staged == Err::<Change, Error>(Error::StreamIdNotReproduced)
                    &&& is_held && tag == account.tag && stream
                        == account.key_material->Derived_stream && (held.key_material is Imported && held.key_material->Imported_stream == stream
                        || held.key_material is Derived && held.key_material->Derived_stream == stream)
                        ==> staged == Err::<Change, Error>(Error::Exists { what: "key stream" })
                },
                Recomputed::Root { stream } => is_held && (held.key_material is Imported
                    && held.key_material->Imported_stream == stream || held.key_material is Derived
                    && held.key_material->Derived_stream == stream) ==> staged == Err::<Change, Error>(
                    Error::Exists { what: "key stream" },
                ),
                Recomputed::Carried => is_held && account.key_material is Derived && (held.key_material is Imported
                    && held.key_material->Imported_stream == account.key_material->Derived_stream
                    || held.key_material is Derived && held.key_material->Derived_stream
                    == account.key_material->Derived_stream) ==> staged == Err::<Change, Error>(
                    Error::Exists { what: "key stream" },
                ),
            }
            &&& ks.model().standing->Live_generation == u64::MAX ==> staged is Err
            &&& staged matches Err(Error::Range { what, min, max, got }) ==> what
                == "keystore generation" && min == 0 && max == 0xffff_ffff_ffff_fffe && got
                == 0xffff_ffff_ffff_ffff && ks.model().standing->Live_generation == u64::MAX
        }),
{
    lemma_found(ks, account.tag);
    let slots = ks.model().standing->Live_slots;
    if 0 <= at < slots.len() {
        let held = slots[at].account;
        assert(same_root(held, account) ==> root_held(slots, account));
        assert(stream_held(slots, stored_stream(held.key_material)));
    }
}

/// An imported account's stream is made again from its root, whatever the store
/// holds; a derived one's from the master seed, where the store holds one.
pub proof fn law_what_is_recomputed_goes_by_the_kind(
    ks: Keystore,
    account: Account,
    asked: Recompute,
)
    requires
        call_ensures(Keystore::recompute, (&ks, &account), asked),
    ensures
        account.key_material is Imported ==> asked == Recompute::Root,
        account.key_material is Derived && ks.model().master is Some ==> asked == Recompute::Master,
        account.key_material is Derived && ks.model().master is None ==> asked == Recompute::Carried,
{
}

/// A slot the edit does not name is there afterwards as it was, and a slot there
/// afterwards that the edit does not name was there before.
proof fn lemma_unnamed_slots(slots: Seq<Slot>, edit: Edit, tag: Tag)
    requires
        ascending(slots),
        stageable(slots, edit),
        applied(slots, edit) is Ok,
        named(edit) != Some(tag),
    ensures
        ({
            let after = applied(slots, edit)->Ok_0;
            &&& ascending(after)
            &&& forall|i: int|
                0 <= i < slots.len() && (#[trigger] slots[i]).account.tag == tag ==> after.contains(
                    slots[i],
                )
            &&& forall|j: int|
                0 <= j < after.len() && (#[trigger] after[j]).account.tag == tag ==> slots.contains(
                    after[j],
                )
        }),
{
    law_memory_is_the_image(slots, edit);
    let after = applied(slots, edit)->Ok_0;
    match edit {
        Edit::Account(account) => {
            lemma_absent_tag(slots, account.tag);
            let put = rank(slots, account.tag);
            assert forall|i: int|
                0 <= i < slots.len() && (#[trigger] slots[i]).account.tag == tag implies after.contains(
                slots[i],
            ) by {
                let now = if i < put {
                    i
                } else {
                    i + 1
                };
                assert(after[now] == slots[i]);
            }
            assert forall|j: int|
                0 <= j < after.len() && (#[trigger] after[j]).account.tag == tag implies slots.contains(
                after[j],
            ) by {
                let was = if j < put {
                    j
                } else {
                    j - 1
                };
                assert(j != put);
                assert(slots[was] == after[j]);
            }
        },
        _ => {
            assert forall|i: int|
                0 <= i < slots.len() && (#[trigger] slots[i]).account.tag == tag implies after.contains(
                slots[i],
            ) by {
                assert(after[i] == slots[i]);
            }
            assert forall|j: int|
                0 <= j < after.len() && (#[trigger] after[j]).account.tag == tag implies slots.contains(
                after[j],
            ) by {
                assert(after[j] == slots[j]);
            }
        },
    }
}

/// Once an account's commit has ended well, the store holds that very account,
/// with the tag, the position and the key material it was added with, and with
/// no reservation; one generation on, and one account more.
pub proof fn law_an_added_account_is_held_as_it_was_given(
    ks: &mut Keystore,
    commit: Commit,
    account: Account,
    done: Result<Done, Error>,
) -> (at: int)
    requires
        old(ks).wf(),
        accepts(old(ks).model(), commit.staged()),
        commit.staged().what() == Edit::Account(account),
        commit.outcome() is Ok,
        call_ensures(Keystore::finish, (ks, commit), done),
    ensures
        done is Ok && done->Ok_0 is Added,
        final(ks).model().standing is Live,
        final(ks).model().standing->Live_generation == old(ks).model().standing->Live_generation + 1,
        final(ks).model().standing->Live_slots.len() == old(ks).model().standing->Live_slots.len() + 1,
        0 <= at < final(ks).model().standing->Live_slots.len(),
        final(ks).model().standing->Live_slots[at].account.tag == account.tag,
        final(ks).model().standing->Live_slots[at].account.wots_index == account.wots_index,
        final(ks).model().standing->Live_slots[at].account.key_material == account.key_material,
        final(ks).model().standing->Live_slots[at].pending is None,
        final(ks).model().standing->Live_slots[at].settled is None,
{
    old(ks).law_a_handle_is_in_order();
    let slots = old(ks).model().standing->Live_slots;
    lemma_absent_tag(slots, account.tag);
    rank(slots, account.tag)
}

/// Once a move's commit has ended well, the account is at the position it was
/// moved to, with the two blocks it was given and nothing else changed, and the
/// receipt names the account and the position. Behind or at its own position an
/// account is never put: that poisons the handle.
pub proof fn law_a_moved_account_is_where_it_was_moved(
    ks: &mut Keystore,
    commit: Commit,
    at: int,
    done: Result<Done, Error>,
)
    requires
        old(ks).wf(),
        accepts(old(ks).model(), commit.staged()),
        commit.staged().what() is Advance,
        commit.outcome() is Ok,
        call_ensures(Keystore::finish, (ks, commit), done),
        0 <= at < old(ks).model().standing->Live_slots.len(),
        old(ks).model().standing->Live_slots[at].account.tag == commit.staged().what()->Advance_tag,
    ensures
        ({
            let was = old(ks).model().standing->Live_slots[at];
            let asked = commit.staged().what();
            &&& was.account.wots_index.index < asked->Advance_next.index ==> {
                let now = final(ks).model().standing->Live_slots[at];
                &&& done is Ok && done->Ok_0 is Advanced
                &&& done->Ok_0->Advanced_0.of() == asked->Advance_tag
                &&& done->Ok_0->Advanced_0.attested() == asked->Advance_next
                &&& final(ks).model().standing is Live
                &&& final(ks).model().standing->Live_generation
                    == old(ks).model().standing->Live_generation + 1
                &&& final(ks).model().standing->Live_slots.len()
                    == old(ks).model().standing->Live_slots.len()
                &&& now.account.tag == was.account.tag
                &&& now.account.key_material == was.account.key_material
                &&& now.account.wots_index == asked->Advance_next
                &&& now.pending == asked->Advance_pending
                &&& now.settled == asked->Advance_settled
            }
            &&& was.account.wots_index.index >= asked->Advance_next.index ==> {
                let why = Error::Range {
                    what: "wots index",
                    min: (was.account.wots_index.index + 1) as u64,
                    max: 0xffff_ffff,
                    got: asked->Advance_next.index as u64,
                };
                &&& done == Err::<Done, Error>(why)
                &&& final(ks).model().standing == Standing::Poisoned(why)
            }
        }),
{
    lemma_found(*old(ks), commit.staged().what()->Advance_tag);
    old(ks).law_a_handle_is_in_order();
    lemma_one_place(
        old(ks).model().standing->Live_slots,
        commit.staged().what()->Advance_tag,
        at,
    );
}

/// A durable move of an account that is not there poisons the handle, and says
/// that there is none.
pub proof fn law_a_move_of_no_account_poisons(
    ks: &mut Keystore,
    commit: Commit,
    done: Result<Done, Error>,
)
    requires
        old(ks).wf(),
        accepts(old(ks).model(), commit.staged()),
        commit.staged().what() is Advance,
        commit.outcome() is Ok,
        call_ensures(Keystore::finish, (ks, commit), done),
        forall|i: int|
            0 <= i < old(ks).model().standing->Live_slots.len() ==> (
            #[trigger] old(ks).model().standing->Live_slots[i]).account.tag
                != commit.staged().what()->Advance_tag,
    ensures
        done == Err::<Done, Error>(Error::NoSuchAccount),
        final(ks).model().standing == Standing::Poisoned(Error::NoSuchAccount),
{
    lemma_found(*old(ks), commit.staged().what()->Advance_tag);
}

/// Once a settlement's commit has ended well, the block is the settled one,
/// nothing is open, and the account itself is as it was.
pub proof fn law_a_settled_reservation_is_kept(
    ks: &mut Keystore,
    commit: Commit,
    at: int,
    done: Result<Done, Error>,
)
    requires
        old(ks).wf(),
        accepts(old(ks).model(), commit.staged()),
        commit.staged().what() is Settle,
        commit.outcome() is Ok,
        call_ensures(Keystore::finish, (ks, commit), done),
        0 <= at < old(ks).model().standing->Live_slots.len(),
        old(ks).model().standing->Live_slots[at].account.tag == commit.staged().what()->Settle_tag,
    ensures
        done is Ok && done->Ok_0 is Settled,
        final(ks).model().standing is Live,
        final(ks).model().standing->Live_generation == old(ks).model().standing->Live_generation + 1,
        final(ks).model().standing->Live_slots.len() == old(ks).model().standing->Live_slots.len(),
        final(ks).model().standing->Live_slots[at].account
            == old(ks).model().standing->Live_slots[at].account,
        final(ks).model().standing->Live_slots[at].pending is None,
        final(ks).model().standing->Live_slots[at].settled == Some(
            commit.staged().what()->Settle_block,
        ),
{
    lemma_found(*old(ks), commit.staged().what()->Settle_tag);
    old(ks).law_a_handle_is_in_order();
    lemma_one_place(old(ks).model().standing->Live_slots, commit.staged().what()->Settle_tag, at);
}

/// A commit touches the account it names and no other: every other one is there
/// before and after with the same position, the same key material and the same
/// blocks.
pub proof fn law_a_commit_leaves_other_accounts_alone(
    ks: &mut Keystore,
    commit: Commit,
    tag: Tag,
    done: Result<Done, Error>,
)
    requires
        old(ks).wf(),
        accepts(old(ks).model(), commit.staged()),
        call_ensures(Keystore::finish, (ks, commit), done),
        done is Ok,
        match commit.staged().what() {
            Edit::Fresh => true,
            Edit::Master(_) => true,
            Edit::Account(account) => account.tag != tag,
            Edit::Advance { tag: named, .. } => named != tag,
            Edit::Settle { tag: named, .. } => named != tag,
        },
    ensures
        final(ks).model().standing is Live,
        forall|i: int|
            #![trigger old(ks).model().standing->Live_slots[i]]
            0 <= i < old(ks).model().standing->Live_slots.len()
                && old(ks).model().standing->Live_slots[i].account.tag == tag
                ==> final(ks).model().standing->Live_slots.contains(
                old(ks).model().standing->Live_slots[i],
            ),
        forall|j: int|
            #![trigger final(ks).model().standing->Live_slots[j]]
            0 <= j < final(ks).model().standing->Live_slots.len()
                && final(ks).model().standing->Live_slots[j].account.tag == tag
                ==> old(ks).model().standing->Live_slots.contains(
                final(ks).model().standing->Live_slots[j],
            ),
{
    old(ks).law_a_handle_is_in_order();
    lemma_unnamed_slots(old(ks).model().standing->Live_slots, commit.staged().what(), tag);
}

/// A commit that failed leaves its error in the handle and nothing else changed.
/// One that ended well leaves the version this build seals on disk and the files
/// as the commit left them, and changes neither the directory, the key and what
/// it is derived with, nor what was read at the open; the master seed is another
/// only where it was adopted, and is the one that was.
pub proof fn law_a_commit_changes_what_it_says(
    ks: &mut Keystore,
    commit: Commit,
    done: Result<Done, Error>,
)
    requires
        old(ks).wf(),
        accepts(old(ks).model(), commit.staged()),
        call_ensures(Keystore::finish, (ks, commit), done),
    ensures
        commit.outcome() matches Err(e) ==> done == Err::<Done, Error>(e) && final(ks).model()
            == (Model { standing: Standing::Poisoned(e), ..old(ks).model() }),
        commit.outcome() matches Ok(layout) ==> final(ks).model().layout == layout
            && final(ks).model().on_disk_version == 4,
        final(ks).model().dir == old(ks).model().dir,
        final(ks).model().key == old(ks).model().key,
        final(ks).model().kdf == old(ks).model().kdf,
        final(ks).model().salt == old(ks).model().salt,
        final(ks).model().nonce_seed == old(ks).model().nonce_seed,
        final(ks).model().opened_version == old(ks).model().opened_version,
        final(ks).model().limits == old(ks).model().limits,
        done is Ok ==> final(ks).model().standing is Live
            && final(ks).model().standing->Live_generation == old(ks).model().standing->Live_generation + if commit.staged().what() is Fresh {
            0int
        } else {
            1int
        },
        done is Ok && commit.staged().what() is Master ==> final(ks).model().master == Some(
            commit.staged().what()->Master_0@,
        ) && done->Ok_0 is Adopted,
        commit.staged().what() !is Master ==> final(ks).model().master == old(ks).model().master,
        done is Ok && commit.staged().what() is Fresh ==> done->Ok_0 is Created,
        commit.outcome() is Ok && (commit.staged().what() is Fresh || commit.staged().what() is Master)
            ==> done is Ok && final(ks).model().standing->Live_slots
            == old(ks).model().standing->Live_slots,
{
}

/// What a handle answers of an account is that account's own: its tag, its
/// kind, its position, its blocks and its stream. Of a tag no slot has it
/// answers that there is none.
pub proof fn law_an_account_is_answered_for_as_it_is(
    ks: Keystore,
    tag: Tag,
    at: int,
    view: Result<Option<AccountView>, Error>,
    stream: Result<StreamId, Error>,
)
    requires
        ks.wf(),
        ks.model().standing is Live,
        call_ensures(Keystore::view, (&ks, &tag), view),
        call_ensures(Keystore::stream_id, (&ks, &tag), stream),
    ensures
        0 <= at < ks.model().standing->Live_slots.len()
            && ks.model().standing->Live_slots[at].account.tag == tag ==> {
            let slot = ks.model().standing->Live_slots[at];
            &&& view is Ok && view->Ok_0 is Some
            &&& view->Ok_0->0.tag == tag
            &&& view->Ok_0->0.wots_index == slot.account.wots_index
            &&& view->Ok_0->0.pending == slot.pending
            &&& view->Ok_0->0.settled == slot.settled
            &&& slot.account.key_material matches KeyMaterial::Derived { stream: own, .. }
                ==> view->Ok_0->0.kind == AccountKind::Derived && stream == Ok::<StreamId, Error>(own)
            &&& slot.account.key_material matches KeyMaterial::Imported { stream: own, .. }
                ==> view->Ok_0->0.kind == AccountKind::Imported && stream == Ok::<StreamId, Error>(own)
        },
        (forall|i: int|
            0 <= i < ks.model().standing->Live_slots.len() ==> (
            #[trigger] ks.model().standing->Live_slots[i]).account.tag != tag) ==> view == Ok::<
            Option<AccountView>,
            Error,
        >(None) && stream == Err::<StreamId, Error>(Error::NoSuchAccount),
{
    lemma_found(ks, tag);
}

/// A live handle answers what it holds: its generation, its master seed, its
/// directory, and its tags and its records, one of each for each account and in
/// the accounts' order.
pub proof fn law_a_live_handle_answers_what_it_holds(
    ks: Keystore,
    generation: Result<u64, Error>,
    master: Result<Option<&Scrubbed>, Error>,
    tags: Result<Vec<Tag>, Error>,
    records: Result<Vec<AccountRecord>, Error>,
    dir: &str,
    at: int,
)
    requires
        ks.wf(),
        ks.model().standing is Live,
        call_ensures(Keystore::generation, (&ks,), generation),
        call_ensures(Keystore::master, (&ks,), master),
        call_ensures(Keystore::tags, (&ks,), tags),
        call_ensures(Keystore::into_records, (ks,), records),
        call_ensures(Keystore::dir, (&ks,), dir),
    ensures
        generation == Ok::<u64, Error>(ks.model().standing->Live_generation),
        dir@ == ks.model().dir,
        master is Ok,
        ks.model().master is None ==> master->Ok_0 is None,
        ks.model().master matches Some(seed) ==> master->Ok_0 is Some && master->Ok_0->0@ == seed,
        tags is Ok && tags->Ok_0@.len() == ks.model().standing->Live_slots.len(),
        records is Ok && records->Ok_0@.len() == ks.model().standing->Live_slots.len(),
        0 <= at < ks.model().standing->Live_slots.len() ==> {
            let account = ks.model().standing->Live_slots[at].account;
            &&& tags->Ok_0@[at] == account.tag
            &&& records->Ok_0@[at].tag == account.tag
            &&& records->Ok_0@[at].wots_index == account.wots_index
            &&& records->Ok_0@[at].key_material == account.key_material
        },
{
}

/// A crossing is reported exactly where the version on disk is not the one that
/// was read, and the version reported is the one that was read.
pub proof fn law_a_crossing_names_the_version_read(ks: Keystore, version: Option<u16>)
    requires
        call_ensures(Keystore::upgraded_from, (&ks,), version),
    ensures
        ks.model().opened_version == ks.model().on_disk_version ==> version is None,
        ks.model().opened_version != ks.model().on_disk_version ==> version == Some(
            ks.model().opened_version,
        ),
{
}

/// A receipt answers for the account and the position it was made out for.
pub proof fn law_a_receipt_answers_what_it_attests(
    receipt: AdvanceReceipt,
    tag: Tag,
    index: WotsIndex,
)
    requires
        call_ensures(AdvanceReceipt::tag, (&receipt,), tag),
        call_ensures(AdvanceReceipt::index, (&receipt,), index),
    ensures
        receipt.of() == tag,
        receipt.attested() == index,
{
}

/// The image that carries an account holds a record of it with its tag, its own
/// position, its key material and no blocks, whatever that position is.
pub proof fn law_an_added_account_is_sealed_as_it_was_given<'a>(
    ks: &'a Keystore,
    change: &'a Change,
    account: Account,
    request: SealRequest<'a>,
) -> (at: int)
    requires
        ks.wf(),
        accepts(ks.model(), *change),
        change.what() == Edit::Account(account),
        call_ensures(Keystore::seal, (ks, change), request),
    ensures
        request.records@.len() == ks.model().standing->Live_slots.len() + 1,
        0 <= at < request.records@.len(),
        request.records@[at].tag == account.tag,
        *request.records@[at].account == account,
        request.records@[at].wots_index == account.wots_index,
        request.records@[at].pending is None,
        request.records@[at].settled is None,
{
    ks.law_a_handle_is_in_order();
    let slots = ks.model().standing->Live_slots;
    lemma_absent_tag(slots, account.tag);
    let at = rank(slots, account.tag);
    let seen = request.records@.map_values(|r: RecordRef<'a>| r@);
    let behind = request.records@.map_values(|r: RecordRef<'a>| *r.account);
    assert(seen.len() == slots.len() + 1);
    assert(seen[at] == request.records@[at]@);
    assert(behind[at] == *request.records@[at].account);
    at
}

/// The image that carries a change holds a record of every account of the store
/// with its tag and its key material. The account the change moves has the
/// position and the blocks it is moved to; the one it settles keeps its
/// position and has the block settled and none open; and every other keeps its
/// position and both of its blocks.
pub proof fn law_a_held_account_is_sealed_as_it_will_stand<'a>(
    ks: &'a Keystore,
    change: &'a Change,
    i: int,
    request: SealRequest<'a>,
) -> (at: int)
    requires
        ks.wf(),
        accepts(ks.model(), *change),
        call_ensures(Keystore::seal, (ks, change), request),
        0 <= i < ks.model().standing->Live_slots.len(),
    ensures
        0 <= at < request.records@.len(),
        change.what() !is Account ==> request.records@.len() == ks.model().standing->Live_slots.len()
            && at == i,
        ({
            let slot = ks.model().standing->Live_slots[i];
            let record = request.records@[at];
            &&& record.tag == slot.account.tag
            &&& *record.account == slot.account
            &&& match change.what() {
                Edit::Advance { tag, next, pending, settled } => if tag == slot.account.tag {
                    record.wots_index == next && record.pending == pending && record.settled == settled
                } else {
                    record.wots_index == slot.account.wots_index && record.pending == slot.pending
                        && record.settled == slot.settled
                },
                Edit::Settle { tag, block } => if tag == slot.account.tag {
                    record.wots_index == slot.account.wots_index && record.pending is None
                        && record.settled == Some(block)
                } else {
                    record.wots_index == slot.account.wots_index && record.pending == slot.pending
                        && record.settled == slot.settled
                },
                _ => record.wots_index == slot.account.wots_index && record.pending == slot.pending
                    && record.settled == slot.settled,
            }
        }),
{
    ks.law_a_handle_is_in_order();
    let slots = ks.model().standing->Live_slots;
    let at = match change.what() {
        Edit::Account(account) => if i < rank(slots, account.tag) {
            i
        } else {
            i + 1
        },
        _ => i,
    };
    if let Edit::Account(account) = change.what() {
        lemma_absent_tag(slots, account.tag);
    }
    if let Edit::Settle { tag, block } = change.what() {
        if tag == slots[i].account.tag {
            lemma_one_place(slots, tag, i);
        }
    }
    let seen = request.records@.map_values(|r: RecordRef<'a>| r@);
    let behind = request.records@.map_values(|r: RecordRef<'a>| *r.account);
    assert(seen.len() == request.records@.len());
    assert(seen[at] == request.records@[at]@);
    assert(behind[at] == *request.records@[at].account);
    at
}

/// An image's records stand in ascending order of tag, so that no tag has two.
pub proof fn law_sealed_records_are_in_order<'a>(
    ks: &'a Keystore,
    change: &'a Change,
    i: int,
    j: int,
    request: SealRequest<'a>,
)
    requires
        ks.wf(),
        accepts(ks.model(), *change),
        call_ensures(Keystore::seal, (ks, change), request),
        0 <= i < j < request.records@.len(),
    ensures
        bytes_below(request.records@[i].tag@, request.records@[j].tag@),
{
    ks.law_a_handle_is_in_order();
    let slots = ks.model().standing->Live_slots;
    let seen = request.records@.map_values(|r: RecordRef<'a>| r@);
    assert(seen[i] == request.records@[i]@ && seen[j] == request.records@[j]@);
    match change.what() {
        Edit::Account(account) => {
            lemma_absent_tag(slots, account.tag);
            let put = rank(slots, account.tag);
            let slot = Slot { account, pending: None, settled: None };
            lemma_with_slot(slots, slot, put);
            let after = with_slot(slots, slot);
            assert(seen.len() == slots.len() + 1);
            assert(after == slots.insert(put, slot));
            assert forall|k: int| 0 <= k < seen.len() implies #[trigger] seen[k].tag
                == after[k].account.tag by {
                if k < put {
                    assert(after[k] == slots[k]);
                } else if k > put {
                    assert(after[k] == slots[k - 1]);
                }
            }
            assert(bytes_below(after[i].account.tag@, after[j].account.tag@));
        },
        _ => {
            assert(seen.len() == slots.len());
            assert(seen[i].tag == slots[i].account.tag && seen[j].tag == slots[j].account.tag);
            assert(bytes_below(slots[i].account.tag@, slots[j].account.tag@));
        },
    }
}

/// An image is sealed under the store's own key, cost, salt and nonce seed and
/// the generation the change was staged for. It carries the master seed the
/// change adopts, or else the store's own.
pub proof fn law_an_image_is_sealed_under_the_stores_own_key<'a>(
    ks: &'a Keystore,
    change: &'a Change,
    request: SealRequest<'a>,
)
    requires
        ks.wf(),
        accepts(ks.model(), *change),
        call_ensures(Keystore::seal, (ks, change), request),
    ensures
        request.generation == change.next_generation(),
        request.generation == ks.model().standing->Live_generation + if change.what() is Fresh {
            0int
        } else {
            1int
        },
        request.kdf == ks.model().kdf,
        request.salt@ == ks.model().salt,
        request.key@ == ks.model().key,
        request.nonce_seed@ == ks.model().nonce_seed,
        change.what() is Master ==> request.master is Some && request.master->0@
            == change.what()->Master_0@,
        change.what() !is Master ==> (request.master is Some <==> ks.model().master is Some) && (
        request.master is Some ==> ks.model().master == Some(request.master->0@)),
{
}

/// What is staged is what is read back off the change.
pub proof fn law_a_change_answers_what_was_staged(change: Change, generation: u64, edit: &Edit)
    requires
        call_ensures(Change::generation, (&change,), generation),
        call_ensures(Change::edit, (&change,), edit),
    ensures
        change.next_generation() == generation,
        change.what() == *edit,
{
}

/// A handle in order can be asked anything at any time, whatever it holds and
/// whatever it is given; only an account is added with what was recomputed being
/// what had to be.
pub proof fn law_a_handle_can_be_asked_anything(
    ks: Keystore,
    tag: Tag,
    target: WotsIndex,
    digest: [u8; 32],
    figures: Figures,
    pending: Option<Pending>,
    settled: Option<Pending>,
    master: Scrubbed,
    account: Account,
    recomputed: Recomputed,
    asked: Recompute,
)
    requires
        ks.wf(),
        call_ensures(Keystore::recompute, (&ks, &account), asked),
    ensures
        call_requires(Keystore::generation, (&ks,)),
        call_requires(Keystore::view, (&ks, &tag)),
        call_requires(Keystore::stream_id, (&ks, &tag)),
        call_requires(Keystore::tags, (&ks,)),
        call_requires(Keystore::master, (&ks,)),
        call_requires(Keystore::into_records, (ks,)),
        call_requires(Keystore::adopt_master, (&ks, &master)),
        call_requires(Keystore::persist_advance, (&ks, &tag, &digest, figures)),
        call_requires(Keystore::persist_advance_to, (&ks, &tag, target)),
        call_requires(Keystore::advance_committed, (&ks, &tag, target, pending, settled)),
        call_requires(Keystore::persist_settled, (&ks, &tag)),
        asked == Recompute::Root && recomputed is Root ==> call_requires(
            Keystore::add,
            (&ks, account, recomputed),
        ),
        asked == Recompute::Master && recomputed is Master ==> call_requires(
            Keystore::add,
            (&ks, account, recomputed),
        ),
        asked == Recompute::Carried && recomputed is Carried ==> call_requires(
            Keystore::add,
            (&ks, account, recomputed),
        ),
{
}

/// What a handle stages it can seal and commit, whichever operation staged it,
/// and take in once the commit has ended.
pub proof fn law_what_is_staged_can_be_committed<'a>(
    ks: &'a Keystore,
    change: &'a Change,
    tag: Tag,
    target: WotsIndex,
    digest: [u8; 32],
    figures: Figures,
    master: Scrubbed,
    account: Account,
    recomputed: Recomputed,
    image: Scrubbed,
)
    requires
        ks.wf(),
        call_ensures(Keystore::adopt_master, (ks, &master), Ok(*change)) || call_ensures(
            Keystore::add,
            (ks, account, recomputed),
            Ok(*change),
        ) || call_ensures(Keystore::persist_advance, (ks, &tag, &digest, figures), Ok(*change))
            || call_ensures(Keystore::persist_advance_to, (ks, &tag, target), Ok(*change))
            || call_ensures(Keystore::persist_settled, (ks, &tag), Ok(*change)),
    ensures
        accepts(ks.model(), *change),
        call_requires(Keystore::seal, (ks, change)),
        call_requires(Keystore::commit, (ks, *change, image)),
{
}

} // verus!
