//! What a power cut can leave of a commit, and what an open makes of it.
//!
//! A write that was never flushed is lost, lands, or lands in part; a flushed
//! one stays. At every step of a commit that began with the newest image on the
//! device, what is left opens as that image or the one it was writing, and from
//! the step that flushes the new image on, as the new one. In the slot layout a
//! commit brings the newest image there first. In the rename layout a commit may
//! begin with a snapshot whose directory entry was never flushed, because the
//! commit before it ended there; until its own flush an older snapshot can still
//! be left, and no receipt attests the one that is lost. From any beginning, over
//! any history, what is left is never older than a receipt attests.
//!
//! That a flush once returned is on the device is the premise, and so is that
//! bytes torn from two writes are not themselves an intact frame of a third image.

use vstd::prelude::*;

use crate::error::Error;
use crate::keystore::commit::{
    is_held, layout_after, rename_steps, slot_steps, slot_write, standing_flush, target_of, Layout,
    SlotFiles,
};
use crate::keystore::format::{Header, Reading};
use crate::keystore::medium::Action;
use crate::keystore::slots::{
    candidate_taken, framed, headers, key_header, law_frame_round_trips, read_content, same_key,
    sorted, too_long, Candidate, Content,
};

verus! {

/// The two slot files: what the device holds of each, and what a read gives,
/// which is what was written last.
pub struct SlotDisk {
    pub stable0: Option<Seq<u8>>,
    pub stable1: Option<Seq<u8>>,
    pub cached0: Option<Seq<u8>>,
    pub cached1: Option<Seq<u8>>,
}

/// One step, done to the slot files.
pub open spec fn slot_step(disk: SlotDisk, action: Action<Seq<u8>>) -> SlotDisk {
    match action {
        Action::WriteSlot { slot, create, bytes } => if slot == 0 {
            SlotDisk { cached0: Some(bytes), ..disk }
        } else {
            SlotDisk { cached1: Some(bytes), ..disk }
        },
        Action::FlushSlot { slot } | Action::FlushStanding { slot } => if slot == 0 {
            SlotDisk { stable0: disk.cached0, ..disk }
        } else {
            SlotDisk { stable1: disk.cached1, ..disk }
        },
        _ => disk,
    }
}

/// Steps, done in order.
pub open spec fn slot_run(disk: SlotDisk, actions: Seq<Action<Seq<u8>>>) -> SlotDisk
    decreases actions.len(),
{
    if actions.len() == 0 {
        disk
    } else {
        slot_step(slot_run(disk, actions.drop_last()), actions.last())
    }
}

/// What an open takes of the two slot files, where `read` is what reading an
/// image's header and opening it under the store's key gives.
pub open spec fn slots_open(
    slot0: Option<Seq<u8>>,
    slot1: Option<Seq<u8>>,
    max: nat,
    read: spec_fn(Seq<u8>) -> Reading,
) -> Result<Candidate, Error> {
    match (sorted(slot0, max), sorted(slot1, max)) {
        (Ok(slot0), Ok(slot1)) => candidate_taken(
            read_content(slot0, read),
            read_content(slot1, read),
            Ok::<(), Error>(()),
        ),
        (Err(e), _) => Err(e),
        (_, Err(e)) => Err(e),
    }
}

/// The header the store's key comes from, of the two slot files.
pub open spec fn slots_key(
    slot0: Option<Seq<u8>>,
    slot1: Option<Seq<u8>>,
    max: nat,
    read: spec_fn(Seq<u8>) -> Reading,
) -> Result<Header, Error> {
    match (sorted(slot0, max), sorted(slot1, max)) {
        (Ok(slot0), Ok(slot1)) => key_header(
            headers(read_content(slot0, read)),
            headers(read_content(slot1, read)),
        ),
        (Err(e), _) => Err(e),
        (_, Err(e)) => Err(e),
    }
}

/// The bytes open under the store's key.
pub open spec fn opens(reading: Reading, key: Header) -> bool {
    match (reading.header, reading.parsed) {
        (Ok(header), Ok(_)) => same_key(header, key),
        _ => false,
    }
}

/// The bytes are a spoilt write: a frame whose check does not hold, or no frame
/// and nothing that opens under the store's key.
pub open spec fn spoilt(
    bytes: Seq<u8>,
    max: nat,
    read: spec_fn(Seq<u8>) -> Reading,
    key: Header,
) -> bool {
    ||| sorted(Some(bytes), max) == Ok::<Content<Seq<u8>>, Error>(Content::Torn)
    ||| sorted(Some(bytes), max) == Ok::<Content<Seq<u8>>, Error>(Content::Other(bytes)) && !opens(
        read(bytes),
        key,
    )
}

/// What a power cut can leave of one slot file: what the device holds, what was
/// written last, or -- where a write was never flushed -- a spoilt mix, or the
/// vacant frame, which an unflushed write before the last may have put there.
pub open spec fn may_be_left(
    stable: Option<Seq<u8>>,
    cached: Option<Seq<u8>>,
    left: Option<Seq<u8>>,
    max: nat,
    read: spec_fn(Seq<u8>) -> Reading,
    key: Header,
) -> bool {
    ||| left == stable
    ||| left == cached
    ||| stable != cached && left is Some && (spoilt(left->0, max, read, key) || left->0 == framed(
        seq![],
    ))
}

/// The two slot files open as `old_image`, under `key`.
pub open spec fn holds_store(
    slot0: Option<Seq<u8>>,
    slot1: Option<Seq<u8>>,
    max: nat,
    read: spec_fn(Seq<u8>) -> Reading,
    old_image: Candidate,
    key: Header,
) -> bool {
    &&& slots_open(slot0, slot1, max, read) == Ok::<Candidate, Error>(old_image)
    &&& slots_key(slot0, slot1, max, read) is Ok
    &&& same_key(slots_key(slot0, slot1, max, read)->Ok_0, key)
}

/// A power cut after any step of a commit in the slot layout leaves the old
/// image or the new one, and once the new one has been flushed, the new one. The
/// older image is never what an open steps back to from there, and what is left
/// is a store under the same key again.
///
/// `disk` is the slot files as the handle found them. Once the newest slot is
/// known to be on the device they open as `old_image`, both as read and as the
/// device holds them, and `k` counts the steps done from there on.
pub proof fn law_a_power_cut_leaves_the_old_image_or_the_new(
    files: SlotFiles,
    disk: SlotDisk,
    image: Seq<u8>,
    max: usize,
    read: spec_fn(Seq<u8>) -> Reading,
    old_image: Candidate,
    key: Header,
    k: int,
    left0: Option<Seq<u8>>,
    left1: Option<Seq<u8>>,
)
    requires
        files.wf(),
        files.newest == Some(old_image.slot),
        files.on_device || is_held(files, old_image.slot),
        0 < image.len(),
        !too_long(image.len(), max as nat),
        ({
            let found = slot_run(disk, standing_flush(files));
            &&& old_image.slot == 0 ==> found.cached0 == found.stable0
            &&& old_image.slot == 1 ==> found.cached1 == found.stable1
            &&& holds_store(found.stable0, found.stable1, max as nat, read, old_image, key)
            &&& holds_store(found.cached0, found.cached1, max as nat, read, old_image, key)
        }),
        opens(read(image), key),
        read(image).parsed->Ok_0.generation > old_image.parsed.generation,
        standing_flush(files).len() <= k <= slot_steps(files, image, max).actions.len(),
        ({
            let disk_then = slot_run(disk, slot_steps(files, image, max).actions.take(k));
            &&& may_be_left(disk_then.stable0, disk_then.cached0, left0, max as nat, read, key)
            &&& may_be_left(disk_then.stable1, disk_then.cached1, left1, max as nat, read, key)
        }),
    ensures
        slots_open(left0, left1, max as nat, read) is Ok,
        ({
            let taken = slots_open(left0, left1, max as nat, read)->Ok_0;
            &&& holds_store(left0, left1, max as nat, read, taken, key)
            &&& taken.parsed == old_image.parsed || taken.parsed == read(image).parsed->Ok_0
            &&& k >= standing_flush(files).len() + 2 ==> taken.parsed == read(image).parsed->Ok_0
                && taken.slot == target_of(files)
        }),
{
    let flush = standing_flush(files);
    let target = target_of(files);
    let steps = slot_steps(files, image, max).actions;
    let write = slot_write(files, target, image);
    let vacant = slot_write(files, 0, seq![]);
    let found = slot_run(disk, flush);
    law_frame_round_trips(image, max as nat);
    law_frame_round_trips(seq![], max as nat);
    assert(steps.take(flush.len() as int) =~= flush);
    if k > flush.len() {
        lemma_next_step(disk, steps, flush.len() as int);
        assert(steps[flush.len() as int] == write[0]);
    }
    if k > flush.len() + 1 {
        lemma_next_step(disk, steps, flush.len() as int + 1);
        assert(steps[flush.len() as int + 1] == write[1]);
    }
    if k > flush.len() + 2 {
        lemma_next_step(disk, steps, flush.len() as int + 2);
        assert(steps[flush.len() as int + 2] == vacant[0]);
    }
    if k > flush.len() + 3 {
        lemma_next_step(disk, steps, flush.len() as int + 3);
        assert(steps[flush.len() as int + 3] == vacant[1]);
    }
}

/// A commit that ran to its end leaves the slot files as the next commit needs
/// them: both as read and as the device holds them, they open as the new image,
/// and the slot it is in is on the device.
pub proof fn law_a_commit_leaves_what_the_next_one_needs(
    files: SlotFiles,
    disk: SlotDisk,
    image: Seq<u8>,
    max: usize,
    read: spec_fn(Seq<u8>) -> Reading,
    old_image: Candidate,
    key: Header,
)
    requires
        files.wf(),
        files.newest == Some(old_image.slot),
        files.on_device || is_held(files, old_image.slot),
        0 < image.len(),
        !too_long(image.len(), max as nat),
        ({
            let found = slot_run(disk, standing_flush(files));
            &&& old_image.slot == 0 ==> found.cached0 == found.stable0
            &&& old_image.slot == 1 ==> found.cached1 == found.stable1
            &&& holds_store(found.stable0, found.stable1, max as nat, read, old_image, key)
        }),
        opens(read(image), key),
        read(image).parsed->Ok_0.generation > old_image.parsed.generation,
    ensures
        ({
            let disk_then = slot_run(disk, slot_steps(files, image, max).actions);
            let new_image = Candidate {
                slot: target_of(files),
                version: read(image).header->Ok_0.version,
                parsed: read(image).parsed->Ok_0,
            };
            &&& disk_then.stable0 == disk_then.cached0
            &&& disk_then.stable1 == disk_then.cached1
            &&& holds_store(
                disk_then.stable0,
                disk_then.stable1,
                max as nat,
                read,
                new_image,
                key,
            )
            &&& layout_after(Layout::Slots(files)) matches Layout::Slots(after)
            &&& after.newest == Some(new_image.slot)
            &&& after.on_device
            &&& is_held(after, new_image.slot)
            &&& standing_flush(after) =~= seq![]
        }),
{
    let flush = standing_flush(files);
    let steps = slot_steps(files, image, max).actions;
    let write = slot_write(files, target_of(files), image);
    let vacant = slot_write(files, 0, seq![]);
    law_frame_round_trips(image, max as nat);
    law_frame_round_trips(seq![], max as nat);
    assert(steps.take(flush.len() as int) =~= flush);
    lemma_next_step(disk, steps, flush.len() as int);
    assert(steps[flush.len() as int] == write[0]);
    lemma_next_step(disk, steps, flush.len() as int + 1);
    assert(steps[flush.len() as int + 1] == write[1]);
    if steps.len() > flush.len() + 2 {
        lemma_next_step(disk, steps, flush.len() as int + 2);
        assert(steps[flush.len() as int + 2] == vacant[0]);
        lemma_next_step(disk, steps, flush.len() as int + 3);
        assert(steps[flush.len() as int + 3] == vacant[1]);
    }
    assert(steps.take(steps.len() as int) =~= steps);
}

/// One step more.
proof fn lemma_next_step(disk: SlotDisk, steps: Seq<Action<Seq<u8>>>, k: int)
    requires
        0 <= k < steps.len(),
    ensures
        slot_run(disk, steps.take(k + 1)) == slot_step(slot_run(disk, steps.take(k)), steps[k]),
{
    assert(steps.take(k + 1).drop_last() =~= steps.take(k));
}

/// The two slot files open under `key`, at a generation no older than `floor`.
pub open spec fn opens_no_older(
    slot0: Option<Seq<u8>>,
    slot1: Option<Seq<u8>>,
    max: nat,
    read: spec_fn(Seq<u8>) -> Reading,
    key: Header,
    floor: u64,
) -> bool {
    &&& slots_open(slot0, slot1, max, read) is Ok
    &&& holds_store(slot0, slot1, max, read, slots_open(slot0, slot1, max, read)->Ok_0, key)
    &&& slots_open(slot0, slot1, max, read)->Ok_0.parsed.generation >= floor
}

/// Whatever a power cut leaves of the slot files now opens at a generation no
/// older than `floor`.
pub open spec fn outlives(
    disk: SlotDisk,
    max: nat,
    read: spec_fn(Seq<u8>) -> Reading,
    key: Header,
    floor: u64,
) -> bool {
    forall|left0: Option<Seq<u8>>, left1: Option<Seq<u8>>|
        #![trigger opens_no_older(left0, left1, max, read, key, floor)]
        may_be_left(disk.stable0, disk.cached0, left0, max, read, key) && may_be_left(
            disk.stable1,
            disk.cached1,
            left1,
            max,
            read,
            key,
        ) ==> opens_no_older(left0, left1, max, read, key, floor)
}

/// What a handle knows of the slot files is so: the newest slot is the one an
/// open of what is read takes, it is there, and where it is said to be on the
/// device it is.
pub open spec fn knows(
    files: SlotFiles,
    disk: SlotDisk,
    max: nat,
    read: spec_fn(Seq<u8>) -> Reading,
) -> bool {
    &&& slots_open(disk.cached0, disk.cached1, max, read) matches Ok(taken)
    &&& files.newest == Some(taken.slot)
    &&& is_held(files, taken.slot)
    &&& files.on_device ==> if taken.slot == 0 {
        disk.stable0 == disk.cached0
    } else {
        disk.stable1 == disk.cached1
    }
}

/// The image is one a commit writes over what is read: it opens under the store's
/// key, at a later generation.
pub open spec fn is_next(
    image: Seq<u8>,
    disk: SlotDisk,
    max: usize,
    read: spec_fn(Seq<u8>) -> Reading,
    key: Header,
) -> bool {
    &&& 0 < image.len()
    &&& !too_long(image.len(), max as nat)
    &&& opens(read(image), key)
    &&& read(image).parsed->Ok_0.generation > slots_open(
        disk.cached0,
        disk.cached1,
        max as nat,
        read,
    )->Ok_0.parsed.generation
}

/// No step of a commit takes back what a power cut could not, and from the flush
/// of the new image on, no power cut can take the new image back.
pub proof fn law_no_step_takes_a_generation_back(
    files: SlotFiles,
    disk: SlotDisk,
    image: Seq<u8>,
    max: usize,
    read: spec_fn(Seq<u8>) -> Reading,
    key: Header,
    floor: u64,
    k: int,
)
    requires
        outlives(disk, max as nat, read, key, floor),
        knows(files, disk, max as nat, read),
        is_next(image, disk, max, read, key),
        0 <= k <= slot_steps(files, image, max).actions.len(),
    ensures
        ({
            let disk_then = slot_run(disk, slot_steps(files, image, max).actions.take(k));
            &&& outlives(disk_then, max as nat, read, key, floor)
            &&& k >= standing_flush(files).len() + 2 ==> outlives(
                disk_then,
                max as nat,
                read,
                key,
                read(image).parsed->Ok_0.generation,
            )
        }),
{
    let flush = standing_flush(files);
    let target = target_of(files);
    let steps = slot_steps(files, image, max).actions;
    let write = slot_write(files, target, image);
    let vacant = slot_write(files, 0, seq![]);
    let found = slot_run(disk, flush);
    let n = max as nat;
    let disk_then = slot_run(disk, steps.take(k));
    let new_generation = read(image).parsed->Ok_0.generation;
    law_frame_round_trips(image, n);
    law_frame_round_trips(seq![], n);
    assert(opens_no_older(disk.cached0, disk.cached1, n, read, key, floor));
    if k < flush.len() {
        assert(steps.take(k) =~= seq![]);
        assert(disk_then == disk);
    } else {
        assert(steps.take(flush.len() as int) =~= flush);
        if flush.len() == 1 {
            assert(flush.drop_last() =~= seq![]);
            assert(slot_run(disk, seq![]) == disk);
            assert(found == slot_step(disk, flush[0]));
        } else {
            assert(found == disk);
        }
        if k > flush.len() {
            lemma_next_step(disk, steps, flush.len() as int);
            assert(steps[flush.len() as int] == write[0]);
        }
        if k > flush.len() + 1 {
            lemma_next_step(disk, steps, flush.len() as int + 1);
            assert(steps[flush.len() as int + 1] == write[1]);
        }
        if k > flush.len() + 2 {
            lemma_next_step(disk, steps, flush.len() as int + 2);
            assert(steps[flush.len() as int + 2] == vacant[0]);
        }
        if k > flush.len() + 3 {
            lemma_next_step(disk, steps, flush.len() as int + 3);
            assert(steps[flush.len() as int + 3] == vacant[1]);
        }
        let stands = if k >= flush.len() + 2 {
            new_generation
        } else {
            floor
        };
        assert forall|left0: Option<Seq<u8>>, left1: Option<Seq<u8>>|
            #![trigger opens_no_older(left0, left1, n, read, key, floor)]
            may_be_left(disk_then.stable0, disk_then.cached0, left0, n, read, key) && may_be_left(
                disk_then.stable1,
                disk_then.cached1,
                left1,
                n,
                read,
                key,
            ) implies opens_no_older(left0, left1, n, read, key, floor) && opens_no_older(
            left0,
            left1,
            n,
            read,
            key,
            stands,
        ) by {
            assert(may_be_left(disk.stable0, disk.cached0, left0, n, read, key) && may_be_left(
                disk.stable1,
                disk.cached1,
                left1,
                n,
                read,
                key,
            ) ==> opens_no_older(left0, left1, n, read, key, floor));
        }
        assert forall|left0: Option<Seq<u8>>, left1: Option<Seq<u8>>|
            #![trigger opens_no_older(left0, left1, n, read, key, stands)]
            may_be_left(disk_then.stable0, disk_then.cached0, left0, n, read, key) && may_be_left(
                disk_then.stable1,
                disk_then.cached1,
                left1,
                n,
                read,
                key,
            ) implies opens_no_older(left0, left1, n, read, key, stands) by {
            assert(opens_no_older(left0, left1, n, read, key, floor));
        }
    }
}

/// What happens to the slot files of a store, one thing after another: a commit
/// as far as it gets -- its process may end after any step -- or a power cut, of
/// which a read then gives what was left.
pub enum Happening {
    Commit { files: SlotFiles, image: Seq<u8>, steps: int },
    PowerCut { left0: Option<Seq<u8>>, left1: Option<Seq<u8>> },
}

/// The slot files, and the newest generation a receipt attests.
pub struct Moment {
    pub disk: SlotDisk,
    pub attested: u64,
}

/// It can happen now.
pub open spec fn may_happen(
    now: Moment,
    what: Happening,
    max: usize,
    read: spec_fn(Seq<u8>) -> Reading,
    key: Header,
) -> bool {
    match what {
        Happening::Commit { files, image, steps } => {
            &&& knows(files, now.disk, max as nat, read)
            &&& is_next(image, now.disk, max, read, key)
            &&& 0 <= steps <= slot_steps(files, image, max).actions.len()
        },
        Happening::PowerCut { left0, left1 } => {
            &&& may_be_left(now.disk.stable0, now.disk.cached0, left0, max as nat, read, key)
            &&& may_be_left(now.disk.stable1, now.disk.cached1, left1, max as nat, read, key)
        },
    }
}

/// What it leaves. Only a commit whose every step was done hands out a receipt.
pub open spec fn happened(
    now: Moment,
    what: Happening,
    max: usize,
    read: spec_fn(Seq<u8>) -> Reading,
) -> Moment {
    match what {
        Happening::Commit { files, image, steps } => {
            let actions = slot_steps(files, image, max).actions;
            Moment {
                disk: slot_run(now.disk, actions.take(steps)),
                attested: if steps == actions.len() {
                    read(image).parsed->Ok_0.generation
                } else {
                    now.attested
                },
            }
        },
        Happening::PowerCut { left0, left1 } => Moment {
            disk: SlotDisk { stable0: left0, stable1: left1, cached0: left0, cached1: left1 },
            attested: now.attested,
        },
    }
}

/// A store's slot files over time, each moment what happened in the one before
/// left.
pub open spec fn passes(
    moments: Seq<Moment>,
    what: Seq<Happening>,
    max: usize,
    read: spec_fn(Seq<u8>) -> Reading,
    key: Header,
) -> bool {
    &&& moments.len() == what.len() + 1
    &&& forall|i: int| #![trigger what[i]]
        0 <= i < what.len() ==> may_happen(moments[i], what[i], max, read, key) && moments[i + 1]
            == happened(moments[i], what[i], max, read)
}

/// No open ever gives back an older state than a receipt attests: over any
/// history of commits, of processes that end at any step, and of power cuts, what
/// is read, and whatever a power cut leaves, opens at a generation no older than
/// any attested so far -- and what is attested never goes back.
pub proof fn law_a_receipt_outlives_every_power_cut(
    moments: Seq<Moment>,
    what: Seq<Happening>,
    max: usize,
    read: spec_fn(Seq<u8>) -> Reading,
    key: Header,
    i: int,
    j: int,
)
    requires
        passes(moments, what, max, read, key),
        outlives(moments[0].disk, max as nat, read, key, moments[0].attested),
        0 <= i <= j < moments.len(),
    ensures
        outlives(moments[j].disk, max as nat, read, key, moments[j].attested),
        moments[i].attested <= moments[j].attested,
        opens_no_older(
            moments[j].disk.cached0,
            moments[j].disk.cached1,
            max as nat,
            read,
            key,
            moments[i].attested,
        ),
    decreases j,
{
    let n = max as nat;
    if j > 0 {
        let before = moments[j - 1];
        let after = moments[j];
        let happening = what[j - 1];
        law_a_receipt_outlives_every_power_cut(
            moments,
            what,
            max,
            read,
            key,
            if i < j {
                i
            } else {
                j - 1
            },
            j - 1,
        );
        match happening {
            Happening::Commit { files, image, steps } => {
                let actions = slot_steps(files, image, max).actions;
                law_no_step_takes_a_generation_back(
                    files,
                    before.disk,
                    image,
                    max,
                    read,
                    key,
                    before.attested,
                    steps,
                );
                assert(opens_no_older(
                    before.disk.cached0,
                    before.disk.cached1,
                    n,
                    read,
                    key,
                    before.attested,
                ));
            },
            Happening::PowerCut { left0, left1 } => {
                assert(opens_no_older(left0, left1, n, read, key, before.attested));
            },
        }
    }
    assert(opens_no_older(
        moments[j].disk.cached0,
        moments[j].disk.cached1,
        n,
        read,
        key,
        moments[j].attested,
    ));
}

/// A creation cut short leaves no store or the new one: slot 0, whose name is
/// what says a store is there, is written only once slot 1 holds the image on
/// the device.
pub proof fn law_a_creation_cut_short_leaves_no_store_or_the_new_one(
    image: Seq<u8>,
    max: usize,
    read: spec_fn(Seq<u8>) -> Reading,
    key: Header,
    k: int,
    left0: Option<Seq<u8>>,
    left1: Option<Seq<u8>>,
)
    requires
        0 < image.len(),
        !too_long(image.len(), max as nat),
        read(image).header == Ok::<Header, Error>(key),
        read(image).parsed is Ok,
        ({
            let files = SlotFiles {
                held0: false,
                held1: false,
                newest: None,
                on_device: true,
                vacate: true,
            };
            let none = SlotDisk { stable0: None, stable1: None, cached0: None, cached1: None };
            let steps = slot_steps(files, image, max).actions;
            let disk_then = slot_run(none, steps.take(k));
            &&& 0 <= k <= steps.len()
            &&& may_be_left(disk_then.stable0, disk_then.cached0, left0, max as nat, read, key)
            &&& may_be_left(disk_then.stable1, disk_then.cached1, left1, max as nat, read, key)
        }),
    ensures
        left0 is Some ==> slots_open(left0, left1, max as nat, read) == Ok::<Candidate, Error>(
            Candidate { slot: 1, version: key.version, parsed: read(image).parsed->Ok_0 },
        ),
        k == 4 ==> left0 is Some,
        k < 3 ==> left0 is None,
{
    let files = SlotFiles {
        held0: false,
        held1: false,
        newest: None,
        on_device: true,
        vacate: true,
    };
    let none = SlotDisk { stable0: None, stable1: None, cached0: None, cached1: None };
    let steps = slot_steps(files, image, max).actions;
    law_frame_round_trips(image, max as nat);
    law_frame_round_trips(seq![], max as nat);
    assert(steps.len() == 4);
    assert(steps.take(0) =~= seq![]);
    if k > 0 {
        lemma_next_step(none, steps, 0);
        assert(steps[0] == slot_write(files, 1, image)[0]);
    }
    if k > 1 {
        lemma_next_step(none, steps, 1);
        assert(steps[1] == slot_write(files, 1, image)[1]);
    }
    if k > 2 {
        lemma_next_step(none, steps, 2);
        assert(steps[2] == slot_write(files, 0, seq![])[0]);
    }
    if k > 3 {
        lemma_next_step(none, steps, 3);
        assert(steps[3] == slot_write(files, 0, seq![])[1]);
    }
}

/// A store whose creation has ended outlives every power cut from there on, at the
/// generation of its first image.
pub proof fn law_a_new_store_outlives_every_power_cut(
    image: Seq<u8>,
    max: usize,
    read: spec_fn(Seq<u8>) -> Reading,
    key: Header,
)
    requires
        0 < image.len(),
        !too_long(image.len(), max as nat),
        read(image).header == Ok::<Header, Error>(key),
        read(image).parsed is Ok,
    ensures
        ({
            let files = SlotFiles {
                held0: false,
                held1: false,
                newest: None,
                on_device: true,
                vacate: true,
            };
            let none = SlotDisk { stable0: None, stable1: None, cached0: None, cached1: None };
            let disk = slot_run(none, slot_steps(files, image, max).actions);
            &&& outlives(disk, max as nat, read, key, read(image).parsed->Ok_0.generation)
            &&& layout_after(Layout::Slots(files)) matches Layout::Slots(after)
            &&& knows(after, disk, max as nat, read)
        }),
{
    let files = SlotFiles {
        held0: false,
        held1: false,
        newest: None,
        on_device: true,
        vacate: true,
    };
    let none = SlotDisk { stable0: None, stable1: None, cached0: None, cached1: None };
    let steps = slot_steps(files, image, max).actions;
    law_frame_round_trips(image, max as nat);
    law_frame_round_trips(seq![], max as nat);
    assert(steps.len() == 4);
    assert(steps.take(0) =~= seq![]);
    lemma_next_step(none, steps, 0);
    assert(steps[0] == slot_write(files, 1, image)[0]);
    lemma_next_step(none, steps, 1);
    assert(steps[1] == slot_write(files, 1, image)[1]);
    lemma_next_step(none, steps, 2);
    assert(steps[2] == slot_write(files, 0, seq![])[0]);
    lemma_next_step(none, steps, 3);
    assert(steps[3] == slot_write(files, 0, seq![])[1]);
    assert(steps.take(4) =~= steps);
}

/// The order the crash argument rests on. The slot holding the newest image is
/// flushed before anything is written, unless it is known to be on the device;
/// it is itself written only after the other slot's new image has been flushed;
/// and every write is flushed by the very next step.
pub proof fn law_the_newest_slot_is_written_last(
    files: SlotFiles,
    image: Seq<u8>,
    max: usize,
    i: int,
)
    requires
        files.wf(),
        0 <= i < slot_steps(files, image, max).actions.len(),
    ensures
        ({
            let steps = slot_steps(files, image, max).actions;
            &&& files.newest matches Some(newest) ==> !files.on_device ==> steps[0] == (Action::<
                Seq<u8>,
            >::FlushStanding { slot: newest })
            &&& steps[i] matches Action::WriteSlot { slot, .. } ==> i + 1 < steps.len() && steps[i
                + 1] == (Action::<Seq<u8>>::FlushSlot { slot })
            &&& steps[i] matches Action::WriteSlot { slot, .. } ==> Some(slot) == files.newest
                ==> i >= 2 && steps[i - 1] == (Action::<Seq<u8>>::FlushSlot {
                slot: target_of(files),
            }) && target_of(files) != slot
        }),
{
    let steps = slot_steps(files, image, max).actions;
    let flush = standing_flush(files);
    let target = target_of(files);
    if steps.len() > flush.len() {
        assert(steps[flush.len() as int] == slot_write(files, target, image)[0]);
        assert(steps[flush.len() as int + 1] == slot_write(files, target, image)[1]);
        if steps.len() > flush.len() + 2 {
            assert(steps[flush.len() as int + 2] == slot_write(files, 0, seq![])[0]);
            assert(steps[flush.len() as int + 3] == slot_write(files, 0, seq![])[1]);
        }
    }
    if flush.len() == 1 {
        assert(steps[0] == flush[0]);
    }
}

/// A file as a name in the directory has it: its bytes, and whether they are on
/// the device.
pub struct Named {
    pub bytes: Seq<u8>,
    pub flushed: bool,
}

/// The snapshot and the temp: the file the device's directory has under the
/// snapshot's name, every file renamed to it since the directory was last
/// flushed, and the temp.
pub struct RenameDisk {
    pub stable: Option<Named>,
    pub pending: Seq<Named>,
    pub temp: Option<Named>,
}

/// What a read of the snapshot gives: the file renamed in last.
pub open spec fn snapshot_read(disk: RenameDisk) -> Option<Seq<u8>> {
    if disk.pending.len() > 0 {
        Some(disk.pending.last().bytes)
    } else {
        match disk.stable {
            Some(named) => Some(named.bytes),
            None => None,
        }
    }
}

/// One step, done to the snapshot and the temp.
pub open spec fn rename_step(disk: RenameDisk, action: Action<Seq<u8>>) -> RenameDisk {
    match action {
        Action::WriteTemp { bytes } => RenameDisk {
            temp: Some(Named { bytes, flushed: false }),
            ..disk
        },
        Action::FsyncFile => match disk.temp {
            Some(temp) => RenameDisk { temp: Some(Named { flushed: true, ..temp }), ..disk },
            None => disk,
        },
        Action::Rename => match disk.temp {
            Some(temp) => RenameDisk { pending: disk.pending.push(temp), temp: None, ..disk },
            None => disk,
        },
        Action::FsyncDir => if disk.pending.len() > 0 {
            RenameDisk { stable: Some(disk.pending.last()), pending: seq![], ..disk }
        } else {
            disk
        },
        _ => disk,
    }
}

/// Steps, done in order.
pub open spec fn rename_run(disk: RenameDisk, actions: Seq<Action<Seq<u8>>>) -> RenameDisk
    decreases actions.len(),
{
    if actions.len() == 0 {
        disk
    } else {
        rename_step(rename_run(disk, actions.drop_last()), actions.last())
    }
}

/// A power cut can leave this file under the snapshot's name: the device's own,
/// or any that was renamed in since the directory was last flushed.
pub open spec fn may_name(disk: RenameDisk, named: Named) -> bool {
    disk.stable == Some(named) || disk.pending.contains(named)
}

/// What a power cut can leave as the snapshot: nothing where the device has none,
/// or one of the files it can leave under that name -- whole where its bytes were
/// flushed, and anything at all where they were not.
pub open spec fn may_be_named(disk: RenameDisk, left: Option<Seq<u8>>) -> bool {
    match left {
        None => disk.stable is None,
        Some(bytes) => exists|named: Named| #[trigger]
            may_name(disk, named) && (named.flushed ==> bytes == named.bytes),
    }
}

/// The directory has been flushed since the last rename, and the snapshot with
/// it: `snapshot` is on the device, by name and by its bytes.
pub open spec fn is_settled(disk: RenameDisk, snapshot: Option<Seq<u8>>) -> bool {
    &&& disk.pending.len() == 0
    &&& disk.stable == match snapshot {
        Some(bytes) => Some(Named { bytes, flushed: true }),
        None => None,
    }
}

/// A power cut after any step of a commit in the rename layout leaves the new
/// snapshot, whole, or what a power cut before the commit could have left; until
/// the rename, only that; and once the directory has been flushed, the new one.
///
/// Where the commit began with the snapshot on the device, what could have been
/// left before it is that snapshot, so what is left is the old one or the new.
/// Where it began with a snapshot that was renamed in and whose directory was not
/// flushed, an older one can still be left until this commit's own flush.
pub proof fn law_a_power_cut_leaves_the_old_snapshot_or_the_new(
    disk: RenameDisk,
    snapshot: Option<Seq<u8>>,
    image: Seq<u8>,
    k: int,
    left: Option<Seq<u8>>,
)
    requires
        0 <= k <= rename_steps(image).actions.len(),
        may_be_named(rename_run(disk, rename_steps(image).actions.take(k)), left),
    ensures
        may_be_named(disk, left) || left == Some(image),
        k < 3 ==> may_be_named(disk, left),
        k == 4 ==> left == Some(image),
        is_settled(disk, snapshot) ==> left == snapshot || left == Some(image),
        is_settled(disk, snapshot) && k < 3 ==> left == snapshot,
{
    let then = rename_run(disk, rename_steps(image).actions.take(k));
    lemma_rename_steps(disk, image, k);
    if let Some(bytes) = left {
        let named = choose|named: Named| #[trigger]
            may_name(then, named) && (named.flushed ==> bytes == named.bytes);
        if k == 3 && then.pending.contains(named) {
            let i = choose|i: int| 0 <= i < then.pending.len() && then.pending[i] == named;
            if i < disk.pending.len() {
                assert(disk.pending[i] == named);
            }
        }
        assert(may_name(disk, named) || named == (Named { bytes: image, flushed: true }));
        if may_be_named(disk, left) {
            let before = choose|named: Named| #[trigger]
                may_name(disk, named) && (named.flushed ==> bytes == named.bytes);
            assert(may_name(disk, before));
        }
    }
}

/// Where each step of a commit leaves the snapshot's names.
proof fn lemma_rename_steps(disk: RenameDisk, image: Seq<u8>, k: int)
    requires
        0 <= k <= rename_steps(image).actions.len(),
    ensures
        ({
            let then = rename_run(disk, rename_steps(image).actions.take(k));
            let renamed = Named { bytes: image, flushed: true };
            &&& k < 3 ==> then.stable == disk.stable && then.pending == disk.pending
            &&& k == 3 ==> then.stable == disk.stable && then.pending == disk.pending.push(renamed)
            &&& k == 4 ==> then.stable == Some(renamed) && then.pending.len() == 0
        }),
{
    let steps = rename_steps(image).actions;
    assert(steps.take(0) =~= seq![]);
    assert(rename_run(disk, steps.take(0)) == disk);
    if k > 0 {
        lemma_next_rename_step(disk, steps, 0);
    }
    if k > 1 {
        lemma_next_rename_step(disk, steps, 1);
    }
    if k > 2 {
        lemma_next_rename_step(disk, steps, 2);
    }
    if k > 3 {
        lemma_next_rename_step(disk, steps, 3);
    }
}

proof fn lemma_next_rename_step(disk: RenameDisk, steps: Seq<Action<Seq<u8>>>, k: int)
    requires
        0 <= k < steps.len(),
    ensures
        rename_run(disk, steps.take(k + 1)) == rename_step(
            rename_run(disk, steps.take(k)),
            steps[k],
        ),
{
    assert(steps.take(k + 1).drop_last() =~= steps.take(k));
}

/// The snapshot opens under `key`, at a generation no older than `floor`.
pub open spec fn snapshot_no_older(
    left: Option<Seq<u8>>,
    read: spec_fn(Seq<u8>) -> Reading,
    key: Header,
    floor: u64,
) -> bool {
    match left {
        Some(bytes) => opens(read(bytes), key) && read(bytes).parsed->Ok_0.generation >= floor,
        None => false,
    }
}

/// Whatever a power cut leaves as the snapshot now opens at a generation no older
/// than `floor`.
pub open spec fn rename_outlives(
    disk: RenameDisk,
    read: spec_fn(Seq<u8>) -> Reading,
    key: Header,
    floor: u64,
) -> bool {
    forall|left: Option<Seq<u8>>| #[trigger]
        may_be_named(disk, left) ==> snapshot_no_older(left, read, key, floor)
}

/// The image is one a commit writes over the snapshot that is read: it opens under
/// the store's key, at a later generation.
pub open spec fn is_next_snapshot(
    image: Seq<u8>,
    disk: RenameDisk,
    read: spec_fn(Seq<u8>) -> Reading,
    key: Header,
) -> bool {
    &&& opens(read(image), key)
    &&& snapshot_read(disk) matches Some(bytes) ==> read(image).parsed->Ok_0.generation > read(
        bytes,
    ).parsed->Ok_0.generation
}

/// What is read is one of the things a power cut can leave.
proof fn lemma_read_may_be_named(disk: RenameDisk)
    ensures
        may_be_named(disk, snapshot_read(disk)),
{
    if disk.pending.len() > 0 {
        assert(disk.pending[disk.pending.len() - 1] == disk.pending.last());
        assert(may_name(disk, disk.pending.last()));
    } else if disk.stable is Some {
        assert(may_name(disk, disk.stable->0));
    }
}

/// No step of a commit in the rename layout takes back what a power cut could not,
/// whether or not the snapshot it began with was on the device by name; and from
/// the flush of the directory on, no power cut can take the new image back.
pub proof fn law_no_rename_step_takes_a_generation_back(
    disk: RenameDisk,
    image: Seq<u8>,
    read: spec_fn(Seq<u8>) -> Reading,
    key: Header,
    floor: u64,
    k: int,
)
    requires
        rename_outlives(disk, read, key, floor),
        is_next_snapshot(image, disk, read, key),
        0 <= k <= rename_steps(image).actions.len(),
    ensures
        ({
            let then = rename_run(disk, rename_steps(image).actions.take(k));
            &&& rename_outlives(then, read, key, floor)
            &&& k == 4 ==> rename_outlives(then, read, key, read(image).parsed->Ok_0.generation)
            &&& k == 4 ==> is_settled(then, Some(image))
        }),
{
    let then = rename_run(disk, rename_steps(image).actions.take(k));
    let new_generation = read(image).parsed->Ok_0.generation;
    lemma_rename_steps(disk, image, k);
    lemma_read_may_be_named(disk);
    assert(snapshot_no_older(snapshot_read(disk), read, key, floor));
    assert forall|left: Option<Seq<u8>>| #[trigger] may_be_named(then, left) implies {
        &&& snapshot_no_older(left, read, key, floor)
        &&& k == 4 ==> snapshot_no_older(left, read, key, new_generation)
    } by {
        law_a_power_cut_leaves_the_old_snapshot_or_the_new(disk, None, image, k, left);
    }
}

/// A creation in the rename layout cut short leaves no store or the new one, and
/// one that has ended outlives every power cut from there on.
pub proof fn law_a_new_snapshot_outlives_every_power_cut(
    temp: Option<Named>,
    image: Seq<u8>,
    read: spec_fn(Seq<u8>) -> Reading,
    key: Header,
    k: int,
)
    requires
        opens(read(image), key),
        0 <= k <= rename_steps(image).actions.len(),
    ensures
        ({
            let none = RenameDisk { stable: None, pending: seq![], temp };
            let then = rename_run(none, rename_steps(image).actions.take(k));
            &&& forall|left: Option<Seq<u8>>| #[trigger]
                may_be_named(then, left) ==> left is None || left == Some(image)
            &&& k == 4 ==> rename_outlives(then, read, key, read(image).parsed->Ok_0.generation)
        }),
{
    let none = RenameDisk { stable: None, pending: seq![], temp };
    let then = rename_run(none, rename_steps(image).actions.take(k));
    assert forall|left: Option<Seq<u8>>| #[trigger] may_be_named(then, left) implies {
        &&& left is None || left == Some(image)
        &&& k == 4 ==> left == Some(image)
    } by {
        law_a_power_cut_leaves_the_old_snapshot_or_the_new(none, None, image, k, left);
    }
}

/// What happens to the snapshot of a store, one thing after another: a commit as
/// far as it gets -- a step may fail, or its process end after any -- or a power
/// cut, of which a read then gives what was left.
pub enum SnapshotHappening {
    Commit { image: Seq<u8>, steps: int },
    PowerCut { left: Option<Seq<u8>> },
}

/// The snapshot, and the newest generation a receipt attests.
pub struct SnapshotMoment {
    pub disk: RenameDisk,
    pub attested: u64,
}

/// It can happen now.
pub open spec fn snapshot_may(
    now: SnapshotMoment,
    what: SnapshotHappening,
    read: spec_fn(Seq<u8>) -> Reading,
    key: Header,
) -> bool {
    match what {
        SnapshotHappening::Commit { image, steps } => {
            &&& is_next_snapshot(image, now.disk, read, key)
            &&& 0 <= steps <= rename_steps(image).actions.len()
        },
        SnapshotHappening::PowerCut { left } => may_be_named(now.disk, left),
    }
}

/// What it leaves. Only a commit whose every step was done hands out a receipt.
pub open spec fn snapshot_after(
    now: SnapshotMoment,
    what: SnapshotHappening,
    read: spec_fn(Seq<u8>) -> Reading,
) -> SnapshotMoment {
    match what {
        SnapshotHappening::Commit { image, steps } => {
            let actions = rename_steps(image).actions;
            SnapshotMoment {
                disk: rename_run(now.disk, actions.take(steps)),
                attested: if steps == actions.len() {
                    read(image).parsed->Ok_0.generation
                } else {
                    now.attested
                },
            }
        },
        SnapshotHappening::PowerCut { left } => SnapshotMoment {
            disk: RenameDisk {
                stable: match left {
                    Some(bytes) => Some(Named { bytes, flushed: true }),
                    None => None,
                },
                pending: seq![],
                temp: None,
            },
            attested: now.attested,
        },
    }
}

/// A store's snapshot over time, each moment what happened in the one before left.
pub open spec fn snapshot_passes(
    moments: Seq<SnapshotMoment>,
    what: Seq<SnapshotHappening>,
    read: spec_fn(Seq<u8>) -> Reading,
    key: Header,
) -> bool {
    &&& moments.len() == what.len() + 1
    &&& forall|i: int| #![trigger what[i]]
        0 <= i < what.len() ==> snapshot_may(moments[i], what[i], read, key) && moments[i + 1]
            == snapshot_after(moments[i], what[i], read)
}

/// In the rename layout too, no open ever gives back an older state than a receipt
/// attests: over any history of commits that end at any step and of power cuts,
/// what is read, and whatever a power cut leaves, opens at a generation no older
/// than any attested so far -- and what is attested never goes back.
pub proof fn law_a_receipt_outlives_every_power_cut_by_rename(
    moments: Seq<SnapshotMoment>,
    what: Seq<SnapshotHappening>,
    read: spec_fn(Seq<u8>) -> Reading,
    key: Header,
    i: int,
    j: int,
)
    requires
        snapshot_passes(moments, what, read, key),
        rename_outlives(moments[0].disk, read, key, moments[0].attested),
        0 <= i <= j < moments.len(),
    ensures
        rename_outlives(moments[j].disk, read, key, moments[j].attested),
        moments[i].attested <= moments[j].attested,
        snapshot_no_older(snapshot_read(moments[j].disk), read, key, moments[i].attested),
    decreases j,
{
    if j > 0 {
        let before = moments[j - 1];
        let after = moments[j];
        let happening = what[j - 1];
        law_a_receipt_outlives_every_power_cut_by_rename(
            moments,
            what,
            read,
            key,
            if i < j {
                i
            } else {
                j - 1
            },
            j - 1,
        );
        assert(after == snapshot_after(before, happening, read));
        match happening {
            SnapshotHappening::Commit { image, steps } => {
                law_no_rename_step_takes_a_generation_back(
                    before.disk,
                    image,
                    read,
                    key,
                    before.attested,
                    steps,
                );
                lemma_read_may_be_named(before.disk);
            },
            SnapshotHappening::PowerCut { left } => {
                assert forall|again: Option<Seq<u8>>| #[trigger]
                    may_be_named(after.disk, again) implies snapshot_no_older(
                    again,
                    read,
                    key,
                    after.attested,
                ) by {
                    assert(again == left);
                }
            },
        }
    }
    lemma_read_may_be_named(moments[j].disk);
}

} // verus!
