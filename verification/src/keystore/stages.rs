//! What each stage of an open and of a creation makes of its finding, said of
//! the calls themselves, and what a store is at the end of a run of good ones.

use vstd::prelude::*;

use crate::error::{Error, IoKind};
use crate::keystore::change::Change;
use crate::keystore::creating::{
    Claimed, Costed, Creating, Derived, Directory, DirectorySeen, Empty, LayoutKind, Private, Vacant,
};
#[allow(unused_imports)]
use crate::keystore::creating::occupied;
use crate::keystore::format::{Header, ImageLimits, Kdf, Parsed, Reading};
#[allow(unused_imports)]
use crate::keystore::opening::{
    open_slot, reading_wf, slot_bytes, slot_length, sort_slots, take_lock,
};
use crate::keystore::opening::{
    Checked, Cleared, Found, Headed, Keyed, LockTry, Locked, Measured, Opening, SlotOpenFailure,
    SlotZeroHeld, SlotZeroRead, SlotsHeld, SlotsRead, SnapshotRead, TempSeen, Whole,
};
#[allow(unused_imports)]
use crate::keystore::slots::{content_bytes, reading_of, sort, take};
use crate::keystore::slots::{Content, Taken};
use crate::keystore::store::{Init, Keystore, Unlock};
#[allow(unused_imports)]
use crate::keystore::store::accepts;
use crate::scrubbed::Scrubbed;

verus! {

/// A lock that was taken is held; one another holder has is refused as locked;
/// and a failure is named by what failed.
pub proof fn law_a_lock_is_taken_or_refused(
    tried: LockTry,
    taken: Result<(), Error>,
    found: Found,
    opened: Result<Locked, Error>,
    empty: Empty,
    claimed: Result<Claimed, Error>,
)
    requires
        call_ensures(take_lock, (tried,), taken),
        call_ensures(Found::lock, (found, tried), opened),
        call_ensures(Empty::lock, (empty, tried), claimed),
    ensures
        taken == match tried {
            LockTry::Taken => Ok::<(), Error>(()),
            LockTry::WouldBlock => Err(Error::Locked),
            LockTry::NotOpened(kind) => Err(Error::Io { op: "open lock", kind }),
            LockTry::Failed(kind) => Err(Error::Io { op: "flock", kind }),
        },
        match taken {
            Ok(_) => opened is Ok && opened->Ok_0.site() == found.site() && claimed is Ok
                && claimed->Ok_0.plot() == empty.plot(),
            Err(e) => opened == Err::<Locked, Error>(e) && claimed == Err::<Claimed, Error>(e),
        },
{
}

/// Every snapshot whose length is at most an image's longest is read, to its
/// last byte. One that is longer is refused with the lengths there are; an
/// absent one is a missing store; and any other failure is named.
pub proof fn law_every_length_within_the_limit_is_read(
    cleared: Cleared,
    stat: Result<u64, IoKind>,
    next: Result<Measured, Error>,
)
    requires
        call_ensures(Cleared::stat, (cleared, stat), next),
    ensures
        stat matches Ok(len) ==> len <= cleared.site().limits.max ==> next is Ok
            && next->Ok_0.length() == len && next->Ok_0.site() == cleared.site(),
        stat matches Ok(len) ==> len > cleared.site().limits.max ==> next == Err::<Measured, Error>(
            Error::Range {
                what: "keystore image length",
                min: cleared.site().limits.min as u64,
                max: cleared.site().limits.max as u64,
                got: len,
            },
        ),
        stat == Err::<u64, IoKind>(IoKind::NotFound) ==> next == Err::<Measured, Error>(
            Error::Missing,
        ),
        stat matches Err(kind) ==> kind != IoKind::NotFound ==> next == Err::<Measured, Error>(
            Error::Io { op: "stat snapshot", kind },
        ),
{
}

/// Every slot file no longer than a frame around the longest image, and than
/// memory can hold, is read, to its last byte. One that is longer is refused with
/// the lengths there are.
pub proof fn law_every_slot_within_the_limit_is_read(
    limits: ImageLimits,
    stat: Result<u64, IoKind>,
    len: Result<usize, Error>,
    read: Result<Scrubbed, IoKind>,
    bytes: Result<Scrubbed, Error>,
)
    requires
        call_ensures(slot_length, (limits, stat), len),
        call_ensures(slot_bytes, (read,), bytes),
    ensures
        stat matches Ok(n) ==> n <= limits.max + 46 && n <= usize::MAX ==> len is Ok && len->Ok_0 == n,
        stat matches Ok(n) ==> n > limits.max + 46 || n > usize::MAX ==> len == Err::<usize, Error>(
            Error::Range {
                what: "keystore image length",
                min: limits.min as u64,
                max: limits.max as u64,
                got: n,
            },
        ),
        stat matches Err(kind) ==> len == Err::<usize, Error>(Error::Io { op: "stat slot", kind }),
        read matches Ok(held) ==> bytes == Ok::<Scrubbed, Error>(held),
        read matches Err(kind) ==> bytes == Err::<Scrubbed, Error>(Error::Io { op: "read slot", kind }),
{
}

/// A slot file that opens is there and one that is not found is not. One that
/// another program holds is named as held, and any other failure by its kind.
pub proof fn law_a_slot_file_is_there_or_not(
    outcome: Result<(), SlotOpenFailure>,
    there: Result<bool, Error>,
    cleared: Cleared,
    zero: Result<SlotZeroHeld, Error>,
    held: SlotZeroHeld,
    one: Result<SlotsHeld, Error>,
)
    requires
        call_ensures(open_slot, (outcome,), there),
        call_ensures(Cleared::slot_zero, (cleared, outcome), zero),
        call_ensures(SlotZeroHeld::slot_one, (held, outcome), one),
    ensures
        outcome is Ok ==> there == Ok::<bool, Error>(true),
        outcome matches Err(failure) ==> {
            &&& failure.kind == IoKind::NotFound ==> there == Ok::<bool, Error>(false)
            &&& failure.kind != IoKind::NotFound && failure.code == Some(32i32) ==> there == Err::<
                bool,
                Error,
            >(Error::HeldOpen { code: 32 })
            &&& failure.kind != IoKind::NotFound && failure.code != Some(32i32) ==> there == Err::<
                bool,
                Error,
            >(Error::Io { op: "open slot", kind: failure.kind })
        },
        match there {
            Ok(true) => {
                &&& zero is Ok && zero->Ok_0.site() == cleared.site()
                &&& one is Ok && one->Ok_0.site() == held.site() && one->Ok_0.has_one()
            },
            Ok(false) => {
                &&& zero == Err::<SlotZeroHeld, Error>(Error::Missing)
                &&& one is Ok && one->Ok_0.site() == held.site() && !one->Ok_0.has_one()
            },
            Err(e) => zero == Err::<SlotZeroHeld, Error>(e) && one == Err::<SlotsHeld, Error>(e),
        },
{
}

/// A directory that passes, a snapshot that is there, and a temp that is absent
/// or gone each let an open go on with what it carries; a directory that does
/// not pass, a snapshot that is not there and a temp that stays each end it.
pub proof fn law_an_open_goes_on_or_says_why_not(
    opening: Opening,
    verdict: Result<(), Error>,
    checked: Result<Checked, Error>,
    looking: Checked,
    exists: bool,
    found: Result<Found, Error>,
    locked: Locked,
    seen: TempSeen,
    cleared: Result<Cleared, Error>,
)
    requires
        call_ensures(Opening::directory, (opening, verdict), checked),
        call_ensures(Checked::snapshot, (looking, exists), found),
        call_ensures(Locked::temp, (locked, seen), cleared),
    ensures
        verdict is Ok ==> checked is Ok && checked->Ok_0.site() == opening.site(),
        verdict matches Err(e) ==> checked == Err::<Checked, Error>(e),
        exists ==> found is Ok && found->Ok_0.site() == looking.site(),
        !exists ==> found == Err::<Found, Error>(Error::Missing),
        seen == TempSeen::Absent || seen == TempSeen::Removed ==> cleared is Ok
            && cleared->Ok_0.site() == locked.site(),
        seen matches TempSeen::NotRemoved(kind) ==> cleared == Err::<Cleared, Error>(
            Error::Io { op: "remove stale temp", kind },
        ),
{
}

/// A snapshot that was read to the length it was found to have, and no further
/// byte after it, is the image; a single byte more refuses it, and a failure is
/// named by what failed.
pub proof fn law_a_snapshot_is_read_whole_or_refused(
    measured: Measured,
    read: SnapshotRead,
    next: Result<Whole, Error>,
    len: usize,
)
    requires
        call_ensures(Measured::read, (measured, read), next),
        call_ensures(Measured::len, (&measured,), len),
    ensures
        len == measured.length(),
        match read {
            SnapshotRead::NotOpened(kind) => next == Err::<Whole, Error>(
                Error::Io { op: "open snapshot", kind },
            ),
            SnapshotRead::NotRead(kind) => next == Err::<Whole, Error>(
                Error::Io { op: "read snapshot", kind },
            ),
            SnapshotRead::Read { image, extra } => match extra {
                Err(kind) => next == Err::<Whole, Error>(Error::Io { op: "read snapshot", kind }),
                Ok(more) => {
                    &&& more == 0 ==> next is Ok && next->Ok_0.bytes() == image && next->Ok_0.site()
                        == measured.site()
                    &&& more > 0 ==> next == Err::<Whole, Error>(
                        Error::Corrupt { what: "snapshot grew while being read", offset: len },
                    )
                },
            },
        },
{
}

/// A header, a key and an image's contents that could not be had end an open
/// with their own error.
pub proof fn law_what_could_not_be_had_ends_an_open(
    whole: Whole,
    headed: Result<Headed, Error>,
    named: Headed,
    keyed: Result<Keyed, Error>,
    ready: Keyed,
    store: Result<Keystore, Error>,
    e: Error,
)
    requires
        call_ensures(Whole::header, (whole, Err(e)), headed),
        call_ensures(Headed::key, (named, Err(e)), keyed),
        call_ensures(Keyed::parsed, (ready, Err(e)), store),
    ensures
        headed == Err::<Headed, Error>(e),
        keyed == Err::<Keyed, Error>(e),
        store == Err::<Keystore, Error>(e),
{
}

/// A snapshot that is found good at every stage opens, whatever is in it: the
/// store is at the generation, with the accounts and with the master seed that
/// the image held, under the key that was derived and the cost and salt its
/// header named, in the directory and with the entropy and the limits the open
/// was begun with, and in the version that was read.
pub proof fn law_a_good_snapshot_opens_as_it_is(
    dir: &str,
    unlock: &Unlock,
    limits: ImageLimits,
    temp: TempSeen,
    len: u64,
    image: Scrubbed,
    header: Header,
    key: Scrubbed,
    parsed: Parsed,
    opening: Opening,
    checked: Result<Checked, Error>,
    found: Result<Found, Error>,
    locked: Result<Locked, Error>,
    cleared: Result<Cleared, Error>,
    measured: Result<Measured, Error>,
    whole: Result<Whole, Error>,
    headed: Result<Headed, Error>,
    keyed: Result<Keyed, Error>,
    store: Result<Keystore, Error>,
)
    requires
        temp == TempSeen::Absent || temp == TempSeen::Removed,
        len <= limits.max,
        parsed.slots.wf(),
        call_ensures(Opening::begin, (dir, unlock, limits), opening),
        call_ensures(Opening::directory, (opening, Ok(())), checked),
        call_ensures(Checked::snapshot, (checked->Ok_0, true), found),
        call_ensures(Found::lock, (found->Ok_0, LockTry::Taken), locked),
        call_ensures(Locked::temp, (locked->Ok_0, temp), cleared),
        call_ensures(Cleared::stat, (cleared->Ok_0, Ok(len)), measured),
        call_ensures(
            Measured::read,
            (measured->Ok_0, (SnapshotRead::Read { image, extra: Ok(0) })),
            whole,
        ),
        call_ensures(Whole::header, (whole->Ok_0, Ok(header)), headed),
        call_ensures(Headed::key, (headed->Ok_0, Ok(key)), keyed),
        call_ensures(Keyed::parsed, (keyed->Ok_0, Ok(parsed)), store),
    ensures
        measured->Ok_0.length() == len,
        whole->Ok_0.bytes() == image,
        keyed->Ok_0.bytes() == image,
        keyed->Ok_0.secret() == key,
        store is Ok,
        store->Ok_0.wf(),
        store->Ok_0.model().dir == dir@,
        store->Ok_0.model().standing is Live,
        store->Ok_0.model().standing->Live_generation == parsed.generation,
        store->Ok_0.model().standing->Live_slots == parsed.slots@,
        parsed.master is None ==> store->Ok_0.model().master is None,
        parsed.master matches Some(seed) ==> store->Ok_0.model().master == Some(seed@),
        store->Ok_0.model().key == key@,
        store->Ok_0.model().kdf == header.kdf,
        store->Ok_0.model().salt == header.salt@,
        store->Ok_0.model().nonce_seed == unlock.nonce_seed@,
        store->Ok_0.model().opened_version == header.version,
        store->Ok_0.model().on_disk_version == header.version,
        store->Ok_0.model().layout is Rename,
        store->Ok_0.model().limits == limits,
{
}

/// An opened snapshot answers what its image held: the generation, the master
/// seed, and each account's tag.
pub proof fn law_an_opened_store_answers_what_its_image_held(
    keyed: Keyed,
    parsed: Parsed,
    store: Keystore,
    generation: Result<u64, Error>,
    tags: Result<Vec<crate::account::Tag>, Error>,
    master: Result<Option<&Scrubbed>, Error>,
)
    requires
        parsed.slots.wf(),
        call_ensures(Keyed::parsed, (keyed, Ok(parsed)), Ok(store)),
        call_ensures(Keystore::generation, (&store,), generation),
        call_ensures(Keystore::tags, (&store,), tags),
        call_ensures(Keystore::master, (&store,), master),
    ensures
        generation == Ok::<u64, Error>(parsed.generation),
        tags is Ok && tags->Ok_0@.len() == parsed.slots@.len(),
        forall|i: int|
            0 <= i < parsed.slots@.len() ==> #[trigger] tags->Ok_0@[i] == parsed.slots@[i].account.tag,
        master is Ok,
        master->Ok_0 is Some <==> parsed.master is Some,
        parsed.master matches Some(seed) ==> master->Ok_0->0@ == seed@,
{
}

/// What a stage lends is what it holds.
pub proof fn law_a_stage_lends_what_it_holds(
    whole: Whole,
    image: &Scrubbed,
    headed: Headed,
    kdf: Kdf,
    salt: &[u8],
    keyed: Keyed,
    opened: &Scrubbed,
    key: &Scrubbed,
    read: SlotZeroRead,
    there: bool,
    slots: SlotsRead,
    zero: &Content<Scrubbed>,
    one: &Content<Scrubbed>,
)
    requires
        call_ensures(Whole::image, (&whole,), image),
        call_ensures(Headed::kdf, (&headed,), kdf),
        call_ensures(Headed::salt, (&headed,), salt),
        call_ensures(Keyed::image, (&keyed,), opened),
        call_ensures(Keyed::key, (&keyed,), key),
        call_ensures(SlotZeroRead::holds_one, (&read,), there),
        call_ensures(SlotsRead::slot_zero, (&slots,), zero),
        call_ensures(SlotsRead::slot_one, (&slots,), one),
    ensures
        *image == whole.bytes(),
        kdf == headed.says().kdf,
        salt@ == headed.says().salt@,
        *opened == keyed.bytes(),
        *key == keyed.secret(),
        there == read.has_one(),
        *zero == slots.zero(),
        *one == slots.one(),
{
}

/// Both slots are sorted each by its own bytes. A slot 0 that is not there is a
/// missing store, and one that could not be read, or is of a later version, is
/// refused first. A slot 1 that is not there is absent, one longer than any
/// frame is torn, and one that could not be read otherwise is refused.
pub proof fn law_both_slots_are_sorted_by_their_own_bytes(
    read0: Option<Result<Scrubbed, Error>>,
    read1: Option<Result<Scrubbed, Error>>,
    max: usize,
    slots: Result<(Content<Scrubbed>, Content<Scrubbed>), Error>,
    sorted0: Result<Content<Scrubbed>, Error>,
    sorted1: Result<Content<Scrubbed>, Error>,
)
    requires
        call_ensures(sort_slots, (read0, read1, max), slots),
        read0 matches Some(Ok(bytes)) ==> call_ensures(sort, (Some(bytes), max), sorted0),
        read1 matches Some(Ok(bytes)) ==> call_ensures(sort, (Some(bytes), max), sorted1),
    ensures
        read0 is None ==> slots == Err::<(Content<Scrubbed>, Content<Scrubbed>), Error>(
            Error::Missing,
        ),
        read0 matches Some(Err(e)) ==> slots == Err::<(Content<Scrubbed>, Content<Scrubbed>), Error>(
            e,
        ),
        read0 matches Some(Ok(_)) ==> {
            &&& sorted0 matches Err(e) ==> slots == Err::<
                (Content<Scrubbed>, Content<Scrubbed>),
                Error,
            >(e)
            &&& sorted0 matches Ok(slot0) ==> match read1 {
                None => slots is Ok && content_bytes(slots->Ok_0.0) == content_bytes(slot0)
                    && slots->Ok_0.1 is Absent,
                Some(Err(Error::Range { .. })) => slots is Ok && content_bytes(slots->Ok_0.0)
                    == content_bytes(slot0) && slots->Ok_0.1 is Torn,
                Some(Err(e)) => slots == Err::<(Content<Scrubbed>, Content<Scrubbed>), Error>(e),
                Some(Ok(_)) => match sorted1 {
                    Ok(slot1) => slots is Ok && content_bytes(slots->Ok_0.0) == content_bytes(slot0)
                        && content_bytes(slots->Ok_0.1) == content_bytes(slot1),
                    Err(e) => slots == Err::<(Content<Scrubbed>, Content<Scrubbed>), Error>(e),
                },
            }
        },
{
}

/// The stages that read the slots one after the other sort them as the two are
/// sorted together, and carry the rest along.
pub proof fn law_slots_read_in_turn_are_sorted_alike(
    held: SlotsHeld,
    read0: Result<Scrubbed, Error>,
    read1: Option<Result<Scrubbed, Error>>,
    first: Result<SlotZeroRead, Error>,
    second: Result<SlotsRead, Error>,
    slots: Result<(Content<Scrubbed>, Content<Scrubbed>), Error>,
)
    requires
        read1 is Some <==> held.has_one(),
        call_ensures(SlotsHeld::read_zero, (held, read0), first),
        first is Ok ==> call_ensures(SlotZeroRead::read_one, (first->Ok_0, read1), second),
        call_ensures(sort_slots, (Some(read0), read1, held.site().limits.max), slots),
    ensures
        first matches Err(e) ==> slots == Err::<(Content<Scrubbed>, Content<Scrubbed>), Error>(e),
        first is Ok && second is Err ==> slots == Err::<
            (Content<Scrubbed>, Content<Scrubbed>),
            Error,
        >(second->Err_0),
        first is Ok && second is Ok ==> {
            &&& slots is Ok
            &&& content_bytes(second->Ok_0.zero()) == content_bytes(slots->Ok_0.0)
            &&& content_bytes(second->Ok_0.one()) == content_bytes(slots->Ok_0.1)
            &&& second->Ok_0.site() == held.site()
            &&& second->Ok_0.has_one() == held.has_one()
        },
{
}

/// An open in the slot layout is the store of the image that is taken, in the
/// directory and with the entropy and the limits it was begun with. The next
/// commit goes to the other slot, flushes the newest first, and makes slot 0 a
/// frame where it is none.
pub proof fn law_slots_open_as_the_image_that_is_taken(
    slots: SlotsRead,
    slot0: Content<Reading>,
    slot1: Content<Reading>,
    key: Result<Scrubbed, Error>,
    taken: Result<Taken, Error>,
    store: Result<Keystore, Error>,
)
    requires
        reading_of(slots.zero(), slot0),
        reading_of(slots.one(), slot1),
        reading_wf(slot0),
        reading_wf(slot1),
        call_ensures(take, (slot0, slot1, key), taken),
        call_ensures(SlotsRead::take, (slots, slot0, slot1, key), store),
    ensures
        taken matches Err(e) ==> store == Err::<Keystore, Error>(e),
        taken matches Ok(t) ==> {
            let m = store->Ok_0.model();
            &&& store is Ok
            &&& store->Ok_0.wf()
            &&& m.dir == slots.site().dir@
            &&& m.nonce_seed == slots.site().nonce_seed@
            &&& m.limits == slots.site().limits
            &&& m.standing is Live
            &&& m.standing->Live_generation == t.parsed.generation
            &&& m.standing->Live_slots == t.parsed.slots@
            &&& m.master is Some <==> t.parsed.master is Some
            &&& t.parsed.master matches Some(seed) ==> m.master == Some(seed@)
            &&& m.key == t.key@
            &&& m.kdf == t.kdf
            &&& m.salt == t.salt@
            &&& m.opened_version == t.version
            &&& m.on_disk_version == t.version
            &&& m.layout is Slots
            &&& m.layout->Slots_0.held0
            &&& m.layout->Slots_0.held1 == slots.has_one()
            &&& m.layout->Slots_0.newest == Some(t.newest)
            &&& !m.layout->Slots_0.on_device
            &&& m.layout->Slots_0.vacate <==> slots.zero() is Other
        },
{
}

/// Two slots that can both be held and read open, from the beginning to the
/// reading of the second, with what the open was begun with.
pub proof fn law_slots_that_can_be_read_are_read(
    dir: &str,
    unlock: &Unlock,
    limits: ImageLimits,
    temp: TempSeen,
    there: Result<(), SlotOpenFailure>,
    opening: Opening,
    checked: Result<Checked, Error>,
    found: Result<Found, Error>,
    locked: Result<Locked, Error>,
    cleared: Result<Cleared, Error>,
    zero: Result<SlotZeroHeld, Error>,
    held: Result<SlotsHeld, Error>,
)
    requires
        temp == TempSeen::Absent || temp == TempSeen::Removed,
        there is Ok || there->Err_0.kind == IoKind::NotFound,
        call_ensures(Opening::begin, (dir, unlock, limits), opening),
        call_ensures(Opening::directory, (opening, Ok(())), checked),
        call_ensures(Checked::snapshot, (checked->Ok_0, true), found),
        call_ensures(Found::lock, (found->Ok_0, LockTry::Taken), locked),
        call_ensures(Locked::temp, (locked->Ok_0, temp), cleared),
        call_ensures(Cleared::slot_zero, (cleared->Ok_0, Ok(())), zero),
        call_ensures(SlotZeroHeld::slot_one, (zero->Ok_0, there), held),
    ensures
        held is Ok,
        held->Ok_0.has_one() <==> there is Ok,
        held->Ok_0.site().dir@ == dir@,
        held->Ok_0.site().nonce_seed@ == unlock.nonce_seed@,
        held->Ok_0.site().limits == limits,
{
}

/// A directory is a store's where its snapshot is there, and in the slot layout
/// where slot 1 is, and nowhere else; a creation is refused there, asked before
/// the lock and under it alike.
pub proof fn law_a_directory_with_a_store_is_refused(
    kind: LayoutKind,
    snapshot: bool,
    slot1: bool,
    what: Option<&'static str>,
    private: Private,
    empty: Result<Empty, Error>,
    claimed: Claimed,
    vacant: Result<Vacant, Error>,
)
    requires
        call_ensures(occupied, (kind, snapshot, slot1), what),
        call_ensures(Private::files, (private, snapshot, slot1), empty),
        call_ensures(Claimed::files, (claimed, snapshot, slot1), vacant),
        private.plot().kind == kind,
        claimed.plot().kind == kind,
    ensures
        snapshot ==> what == Some("snapshot"),
        slot1 && kind == LayoutKind::Slots ==> what == Some("snapshot"),
        !snapshot && !slot1 ==> what is None,
        !snapshot && kind == LayoutKind::Rename ==> what is None,
        what is Some ==> empty == Err::<Empty, Error>(Error::Exists { what: "snapshot" }) && vacant
            == Err::<Vacant, Error>(Error::Exists { what: "snapshot" }),
        what is None ==> empty is Ok && empty->Ok_0.plot() == private.plot() && vacant is Ok
            && vacant->Ok_0.plot() == claimed.plot(),
{
}

/// A directory that is there or was made and one that passes let a creation go
/// on with what it carries. One that could not be made is named, and one that
/// does not pass, a cost that is not accepted, a key that could not be had and
/// a flush that failed each end it with their own error.
pub proof fn law_a_creation_goes_on_or_says_why_not(
    creating: Creating,
    seen: DirectorySeen,
    directory: Result<Directory, Error>,
    looking: Directory,
    verdict: Result<(), Error>,
    private: Result<Private, Error>,
    vacant: Vacant,
    costed: Result<Costed, Error>,
    priced: Costed,
    keyed: Result<Derived, Error>,
    derived: Derived,
    made: Result<(Keystore, Change), Error>,
    e: Error,
)
    requires
        call_ensures(Creating::directory, (creating, seen), directory),
        call_ensures(Directory::checked, (looking, verdict), private),
        call_ensures(Vacant::costed, (vacant, Err(e)), costed),
        call_ensures(Costed::key, (priced, Err(e)), keyed),
        call_ensures(Derived::parent_flushed, (derived, Err(e)), made),
    ensures
        seen == DirectorySeen::There || seen == DirectorySeen::Created ==> directory is Ok
            && directory->Ok_0.plot() == creating.plot(),
        seen matches DirectorySeen::NotCreated(kind) ==> directory == Err::<Directory, Error>(
            Error::Io { op: "create directory", kind },
        ),
        verdict is Ok ==> private is Ok && private->Ok_0.plot() == looking.plot(),
        verdict matches Err(why) ==> private == Err::<Private, Error>(why),
        costed == Err::<Costed, Error>(e),
        keyed == Err::<Derived, Error>(e),
        made == Err::<(Keystore, Change), Error>(e),
{
}

/// A creation that finds nothing in its way makes an empty store at generation
/// nought with no master seed, under the key that was derived at the cost that
/// was accepted and with the salt and the entropy that were given, and stages
/// its first image. In the rename layout there is nothing more to know; in the
/// slot layout neither slot is there, and slot 0 has yet to become a frame.
pub proof fn law_a_clear_directory_becomes_an_empty_store(
    dir: &str,
    init: &Init,
    kind: LayoutKind,
    limits: ImageLimits,
    seen: DirectorySeen,
    slot1: bool,
    cost: Kdf,
    key: Scrubbed,
    creating: Creating,
    directory: Result<Directory, Error>,
    private: Result<Private, Error>,
    empty: Result<Empty, Error>,
    claimed: Result<Claimed, Error>,
    vacant: Result<Vacant, Error>,
    costed: Result<Costed, Error>,
    derived: Result<Derived, Error>,
    made: Result<(Keystore, Change), Error>,
)
    requires
        seen == DirectorySeen::There || seen == DirectorySeen::Created,
        slot1 ==> kind == LayoutKind::Rename,
        call_ensures(Creating::begin, (dir, init, kind, limits), creating),
        call_ensures(Creating::directory, (creating, seen), directory),
        call_ensures(Directory::checked, (directory->Ok_0, Ok(())), private),
        call_ensures(Private::files, (private->Ok_0, false, slot1), empty),
        call_ensures(Empty::lock, (empty->Ok_0, LockTry::Taken), claimed),
        call_ensures(Claimed::files, (claimed->Ok_0, false, slot1), vacant),
        call_ensures(Vacant::costed, (vacant->Ok_0, Ok(cost)), costed),
        call_ensures(Costed::key, (costed->Ok_0, Ok(key)), derived),
        call_ensures(Derived::parent_flushed, (derived->Ok_0, Ok(())), made),
    ensures
        vacant->Ok_0.plot().kdf == init.kdf,
        costed->Ok_0.cost() == cost,
        costed->Ok_0.plot().salt@ == init.salt@,
        derived->Ok_0.plot().dir@ == dir@,
        made is Ok,
        made->Ok_0.0.wf(),
        ({
            let m = made->Ok_0.0.model();
            &&& m.dir == dir@
            &&& m.standing is Live
            &&& m.standing->Live_generation == 0
            &&& m.standing->Live_slots.len() == 0
            &&& m.master is None
            &&& m.key == key@
            &&& m.kdf == cost
            &&& m.salt == init.salt@
            &&& m.nonce_seed == init.nonce_seed@
            &&& m.opened_version == 4
            &&& m.on_disk_version == 4
            &&& m.limits == limits
            &&& kind == LayoutKind::Rename ==> m.layout is Rename
            &&& kind == LayoutKind::Slots ==> m.layout is Slots && !m.layout->Slots_0.held0
                && !m.layout->Slots_0.held1 && m.layout->Slots_0.newest is None
                && m.layout->Slots_0.on_device && m.layout->Slots_0.vacate
        }),
        made->Ok_0.1.next_generation() == 0,
        made->Ok_0.1.what() is Fresh,
        accepts(made->Ok_0.0.model(), made->Ok_0.1),
{
}

/// What a creation derives its key with is what it was given, and the key is
/// derived at the cost that was accepted.
pub proof fn law_a_creation_lends_what_it_holds(
    vacant: Vacant,
    asked: Kdf,
    costed: Costed,
    kdf: Kdf,
    salt: &[u8],
)
    requires
        call_ensures(Vacant::kdf, (&vacant,), asked),
        call_ensures(Costed::kdf, (&costed,), kdf),
        call_ensures(Costed::salt, (&costed,), salt),
    ensures
        asked == vacant.plot().kdf,
        kdf == costed.cost(),
        salt@ == costed.plot().salt@,
{
}

} // verus!
