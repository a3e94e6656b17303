//! What a commit does step by step, said of the calls themselves: which steps
//! there are, what each is recorded as, and how an interruption is answered.

use vstd::prelude::*;

use crate::error::{Error, IoKind};
use crate::keystore::change::Change;
use crate::keystore::commit::{Commit, SlotFiles};
use crate::keystore::creating::Derived;
#[allow(unused_imports)]
use crate::keystore::medium::{
    action_bytes, call_of, holding_directory, io, law_a_name_is_held_by_the_directory_before_it,
    parent_of, portable, slot_path, stale_temp_unlinked, step_op, torn_write,
};
use crate::keystore::medium::{Action, Call, Instrumented, Op, StoreFile};
#[allow(unused_imports)]
use crate::keystore::slots::frame;
use crate::keystore::store::{Done, Keystore};
#[allow(unused_imports)]
use crate::keystore::store::{accepts, Standing};
use crate::scrubbed::Scrubbed;

verus! {

/// A commit in the rename layout writes the whole image to the temp, flushes it,
/// renames it over the snapshot and flushes the directory, in that order, and
/// leaves the layout as it is. Nothing refuses it beforehand.
pub proof fn law_a_snapshot_is_replaced_in_four_steps(
    ks: Keystore,
    change: Change,
    image: Scrubbed,
    commit: Commit,
)
    requires
        ks.wf(),
        accepts(ks.model(), change),
        ks.model().layout is Rename,
        call_ensures(Keystore::commit, (&ks, change, image), commit),
    ensures
        commit.staged() == change,
        commit.done() == 0,
        commit.failure() is None,
        commit.steps().refusal is None,
        commit.leaves() is Rename,
        commit.steps().actions.len() == 4,
        commit.steps().actions[0] == (Action::WriteTemp { bytes: image@ }),
        commit.steps().actions[1] is FsyncFile,
        commit.steps().actions[2] is Rename,
        commit.steps().actions[3] is FsyncDir,
{
}

/// A commit in the slot layout whose image a frame can hold flushes the newest
/// slot first, unless it is known to be on the device. It writes the image's
/// frame to the slot that is not the newest, slot 1 where neither is, creating
/// it only where it is not there, and flushes it. Where slot 0 is no frame yet,
/// the vacant frame is written to it last of all and flushed. Afterwards the
/// slot written is the newest, and on the device.
pub proof fn law_an_image_goes_to_the_other_slot(
    ks: Keystore,
    change: Change,
    image: Scrubbed,
    plain: &[u8],
    nothing: &[u8],
    whole: Scrubbed,
    vacant: Scrubbed,
    commit: Commit,
)
    requires
        ks.wf(),
        accepts(ks.model(), change),
        ks.model().layout is Slots,
        call_ensures(Keystore::commit, (&ks, change, image), commit),
        plain@ == image@,
        nothing@ == Seq::<u8>::empty(),
        call_ensures(frame, (plain, ks.model().limits.max), Ok(whole)),
        call_ensures(frame, (nothing, ks.model().limits.max), Ok(vacant)),
        ({
            let files = ks.model().layout->Slots_0;
            &&& !files.on_device && files.newest == Some(0usize) ==> files.held0
            &&& !files.on_device && files.newest == Some(1usize) ==> files.held1
        }),
    ensures
        commit.staged() == change,
        commit.done() == 0,
        commit.failure() is None,
        commit.steps().refusal is None,
        ({
            let files = ks.model().layout->Slots_0;
            let target = if files.newest == Some(1usize) {
                0usize
            } else {
                1usize
            };
            let flushes = files.newest is Some && !files.on_device;
            let vacates = files.newest != Some(1usize) && files.vacate;
            let first: int = if flushes {
                1
            } else {
                0
            };
            let there = if target == 0 {
                files.held0
            } else {
                files.held1
            };
            let actions = commit.steps().actions;
            &&& actions.len() == first + if vacates {
                4int
            } else {
                2int
            }
            &&& flushes ==> actions[0] == (Action::<Seq<u8>>::FlushStanding { slot: files.newest->0 })
            &&& actions[first] == (Action::WriteSlot { slot: target, create: !there, bytes: whole@ })
            &&& actions[first + 1] == (Action::<Seq<u8>>::FlushSlot { slot: target })
            &&& vacates ==> actions[first + 2] == (Action::WriteSlot {
                slot: 0usize,
                create: !files.held0,
                bytes: vacant@,
            }) && actions[first + 3] == (Action::<Seq<u8>>::FlushSlot { slot: 0 })
            &&& commit.leaves() is Slots
            &&& commit.leaves()->Slots_0.newest == Some(target)
            &&& commit.leaves()->Slots_0.on_device
            &&& !commit.leaves()->Slots_0.vacate
            &&& commit.leaves()->Slots_0.held0 == (files.held0 || target == 0 || files.vacate)
            &&& commit.leaves()->Slots_0.held1 == (files.held1 || target == 1)
        }),
{
    ks.law_a_handle_is_in_order();
    assert(nothing@ =~= seq![]);
}

/// A commit in the slot layout whose newest slot is not there to be flushed ends
/// before any step. One whose image is too long for a frame ends after that
/// flush, and writes nothing.
pub proof fn law_a_commit_that_cannot_be_made_writes_nothing(
    ks: Keystore,
    change: Change,
    image: Scrubbed,
    commit: Commit,
)
    requires
        ks.wf(),
        accepts(ks.model(), change),
        ks.model().layout is Slots,
        call_ensures(Keystore::commit, (&ks, change, image), commit),
    ensures
        ({
            let files = ks.model().layout->Slots_0;
            let max = ks.model().limits.max;
            let lost = !files.on_device && (files.newest == Some(0usize) && !files.held0
                || files.newest == Some(1usize) && !files.held1);
            &&& lost ==> commit.steps().actions.len() == 0 && commit.steps().refusal == Some(
                Error::Io { op: "flush_standing", kind: IoKind::NotFound },
            )
            &&& !lost && (image@.len() > max || image@.len() > 0xffff_ffff) ==> {
                &&& commit.steps().refusal == Some(
                    Error::Range {
                        what: "keystore slot payload length",
                        min: 0,
                        max: max as u64,
                        got: image@.len() as u64,
                    },
                )
                &&& commit.steps().actions.len() <= 1
                &&& forall|i: int|
                    0 <= i < commit.steps().actions.len() ==> (#[trigger] commit.steps().actions[i])
                        is FlushStanding
            }
        }),
{
    ks.law_a_handle_is_in_order();
}

/// A new store has neither slot, nothing to flush first, and a slot 0 that has
/// yet to become a frame.
pub proof fn law_a_new_store_has_neither_slot(files: SlotFiles)
    requires
        call_ensures(SlotFiles::fresh, (), files),
    ensures
        !files.held0 && !files.held1,
        files.newest is None,
        files.on_device,
        files.vacate,
{
}

/// The next step is the first that has not been performed, until one fails or
/// none is left.
pub proof fn law_the_next_step_is_the_first_not_performed(
    commit: Commit,
    next: Option<&Action<Scrubbed>>,
)
    requires
        commit.wf(),
        call_ensures(Commit::next, (&commit,), next),
    ensures
        commit.failure() is Some ==> next is None,
        commit.failure() is None && commit.done() == commit.steps().actions.len() ==> next is None,
        commit.failure() is None && commit.done() < commit.steps().actions.len() ==> next is Some
            && action_bytes(*next->0) == commit.steps().actions[commit.done() as int],
{
}

/// A step that succeeds is one more performed; one that fails ends the commit
/// with its error and performs nothing; and once a commit has ended, nothing
/// more is taken down. What the commit is of never changes.
pub proof fn law_a_step_is_taken_down_as_it_went(commit: &mut Commit, outcome: Result<(), Error>)
    requires
        old(commit).wf(),
        call_ensures(Commit::performed, (commit, outcome), ()),
    ensures
        final(commit).staged() == old(commit).staged(),
        final(commit).steps() == old(commit).steps(),
        final(commit).leaves() == old(commit).leaves(),
        old(commit).failure() is Some || old(commit).done() == old(commit).steps().actions.len()
            ==> final(commit).done() == old(commit).done() && final(commit).failure()
            == old(commit).failure(),
        old(commit).failure() is None && old(commit).done() < old(commit).steps().actions.len()
            && outcome is Ok ==> final(commit).done() == old(commit).done() + 1
            && final(commit).failure() is None,
        old(commit).failure() is None && old(commit).done() < old(commit).steps().actions.len()
            && outcome is Err ==> final(commit).done() == old(commit).done() && final(commit).failure()
            == Some(outcome->Err_0),
{
}

/// A handle takes a commit in only where every step of it was performed, none
/// failed and nothing refused it, and its files are then as the commit leaves
/// them. Otherwise the handle is poisoned by the failure, or else by the
/// refusal.
pub proof fn law_a_commit_ends_as_its_steps_did(
    ks: &mut Keystore,
    commit: Commit,
    done: Result<Done, Error>,
)
    requires
        old(ks).wf(),
        commit.wf(),
        commit.is_ended(),
        accepts(old(ks).model(), commit.staged()),
        call_ensures(Keystore::finish, (ks, commit), done),
    ensures
        done is Ok ==> commit.failure() is None && commit.steps().refusal is None && commit.done()
            == commit.steps().actions.len() && final(ks).model().layout == commit.leaves(),
        commit.failure() matches Some(e) ==> done == Err::<Done, Error>(e)
            && final(ks).model().standing == Standing::Poisoned(e),
        commit.failure() is None && commit.steps().refusal is Some ==> done == Err::<Done, Error>(
            commit.steps().refusal->0,
        ) && final(ks).model().standing == Standing::Poisoned(commit.steps().refusal->0),
        commit.failure() is None && commit.steps().refusal is None && (commit.staged().what() is Fresh
            || commit.staged().what() is Master || commit.staged().what() is Account) ==> done is Ok,
{
}

/// A step is recorded as what it does to which file of which directory, with how
/// many bytes.
pub proof fn law_a_step_is_recorded_as_what_it_does(
    dir: &str,
    action: Action<Scrubbed>,
    call: Call,
    op: Op,
)
    requires
        call_ensures(call_of, (dir, &action), call),
        call_ensures(step_op, (&action,), op),
    ensures
        match action {
            Action::WriteTemp { bytes } => op == Op::WriteTemp && call is WriteTemp
                && call->WriteTemp_path.dir@ == dir@ && call->WriteTemp_path.file == StoreFile::Temp
                && call->WriteTemp_len == bytes@.len(),
            Action::FsyncFile => op == Op::FsyncFile && call is FsyncFile && call->FsyncFile_path.dir@
                == dir@ && call->FsyncFile_path.file == StoreFile::Temp,
            Action::Rename => op == Op::Rename && call is Rename && call->Rename_from.dir@ == dir@
                && call->Rename_from.file == StoreFile::Temp && call->Rename_to.dir@ == dir@
                && call->Rename_to.file == StoreFile::Snapshot,
            Action::FsyncDir => op == Op::FsyncDir && call is FsyncDir && call->FsyncDir_dir@ == dir@,
            Action::FlushStanding { slot } => {
                &&& op == Op::FlushStanding && call is FlushStanding
                &&& call->FlushStanding_path.dir@ == dir@
                &&& slot == 0 ==> call->FlushStanding_path.file == StoreFile::Snapshot
                &&& slot != 0 ==> call->FlushStanding_path.file == StoreFile::Slot1
            },
            Action::WriteSlot { slot, create, bytes } => {
                &&& op == Op::WriteSlot && call is WriteSlot
                &&& call->WriteSlot_path.dir@ == dir@
                &&& call->WriteSlot_len == bytes@.len()
                &&& slot == 0 ==> call->WriteSlot_path.file == StoreFile::Snapshot
                &&& slot != 0 ==> call->WriteSlot_path.file == StoreFile::Slot1
            },
            Action::FlushSlot { slot } => {
                &&& op == Op::FlushSlot && call is FlushSlot
                &&& call->FlushSlot_path.dir@ == dir@
                &&& slot == 0 ==> call->FlushSlot_path.file == StoreFile::Snapshot
                &&& slot != 0 ==> call->FlushSlot_path.file == StoreFile::Slot1
            },
        },
{
}

/// Each file of a store has its own name, and slot 0's is the snapshot's.
pub proof fn law_each_file_has_its_own_name(
    file: StoreFile,
    name: &'static str,
    slot: usize,
    path: StoreFile,
)
    requires
        call_ensures(StoreFile::name, (file,), name),
        call_ensures(slot_path, (slot,), path),
    ensures
        file == StoreFile::Snapshot ==> name@ == "accounts.mks"@,
        file == StoreFile::Temp ==> name@ == "accounts.mks.tmp"@,
        file == StoreFile::Slot1 ==> name@ == "accounts.mks.1"@,
        file == StoreFile::Lock ==> name@ == "keystore.lock"@,
        slot == 0 ==> path == StoreFile::Snapshot,
        slot != 0 ==> path == StoreFile::Slot1,
{
}

/// Recording a step puts it at the end of the record. An armed countdown is one
/// call nearer, and the call it comes down to is the one it interrupts or tears;
/// one that has run out, or was never armed, does neither again. The two
/// countdowns know nothing of each other.
pub proof fn law_a_recorded_call_counts_down(recorder: &mut Instrumented, call: Call)
    requires
        call_ensures(Instrumented::record, (recorder, call), ()),
    ensures
        final(recorder).log() == old(recorder).log().push(call),
        final(recorder).is_stopping() <==> old(recorder).left_to_stop() == Some(1usize),
        final(recorder).is_tearing() <==> old(recorder).left_to_tear() == Some(1usize),
        old(recorder).left_to_stop() is None ==> final(recorder).left_to_stop() is None,
        old(recorder).left_to_tear() is None ==> final(recorder).left_to_tear() is None,
        old(recorder).left_to_stop() matches Some(n) ==> final(recorder).left_to_stop() is Some
            && final(recorder).left_to_stop()->0 == (if n == 0 {
            0
        } else {
            n - 1
        }),
        old(recorder).left_to_tear() matches Some(n) ==> final(recorder).left_to_tear() is Some
            && final(recorder).left_to_tear()->0 == (if n == 0 {
            0
        } else {
            n - 1
        }),
{
}

/// A recorder begins with nothing recorded and nothing armed. Arming one
/// countdown, or forgetting what was recorded, changes that and nothing else, and
/// the record is lent as it is.
pub proof fn law_arming_changes_nothing_else(
    fresh: Instrumented,
    stopper: &mut Instrumented,
    tearer: &mut Instrumented,
    emptied: &mut Instrumented,
    k: Option<usize>,
    seen: Instrumented,
    calls: &[Call],
    torn: bool,
)
    requires
        call_ensures(Instrumented::new, (), fresh),
        call_ensures(Instrumented::stop_after, (stopper, k), ()),
        call_ensures(Instrumented::tear_after, (tearer, k), ()),
        call_ensures(Instrumented::reset_calls, (emptied,), ()),
        call_ensures(Instrumented::calls, (&seen,), calls),
        call_ensures(Instrumented::tears, (&seen,), torn),
    ensures
        fresh.log().len() == 0,
        fresh.left_to_stop() is None && fresh.left_to_tear() is None,
        !fresh.is_stopping() && !fresh.is_tearing(),
        final(stopper).left_to_stop() == k,
        final(stopper).left_to_tear() == old(stopper).left_to_tear(),
        final(stopper).log() == old(stopper).log(),
        final(tearer).left_to_tear() == k,
        final(tearer).left_to_stop() == old(tearer).left_to_stop(),
        final(tearer).log() == old(tearer).log(),
        final(emptied).log().len() == 0,
        final(emptied).left_to_stop() == old(emptied).left_to_stop(),
        final(emptied).left_to_tear() == old(emptied).left_to_tear(),
        calls@ == seen.log(),
        torn == seen.is_tearing(),
{
}

/// A recorder told to stop at the next call answers that call's success with an
/// interruption, whatever the call and however many came before, and its failure
/// with the failure; told nothing, it answers as the call went.
pub proof fn law_the_call_counted_to_is_interrupted(
    recorder: &mut Instrumented,
    call: Call,
    op: Op,
    performed: Result<(), Error>,
    words: Error,
    outcome: Result<(), Error>,
)
    requires
        call_ensures(Instrumented::record, (recorder, call), ()),
        call_ensures(Instrumented::interrupt_here, (&*final(recorder), op, performed), outcome),
        call_ensures(io, (op, IoKind::Interrupted), words),
    ensures
        performed is Err ==> outcome == performed,
        performed is Ok && old(recorder).left_to_stop() == Some(1usize) ==> outcome == Err::<
            (),
            Error,
        >(words),
        performed is Ok && old(recorder).left_to_stop() != Some(1usize) ==> outcome == Ok::<(), Error>(
            (),
        ),
        words is Io && words->Io_kind == IoKind::Interrupted,
{
}

/// A torn write is answered by the first of its three parts that failed, and by
/// an interruption where none did.
pub proof fn law_a_torn_write_is_answered_by_its_first_failure(
    stood: Result<(), IoKind>,
    written: Result<(), Error>,
    left: Result<(), IoKind>,
    e: Error,
)
    requires
        call_ensures(torn_write, (stood, written, left), e),
    ensures
        stood matches Err(kind) ==> e == (Error::Io { op: "write_slot tear", kind }),
        stood is Ok && written is Err ==> e == written->Err_0,
        stood is Ok && written is Ok && left is Err ==> e == (Error::Io {
            op: "write_slot tear",
            kind: left->Err_0,
        }),
        stood is Ok && written is Ok && left is Ok ==> e == (Error::Io {
            op: "write_slot",
            kind: IoKind::Interrupted,
        }),
{
}

/// A leftover temp that was unlinked or was not there is out of the way, and any
/// other failure is named.
pub proof fn law_a_leftover_temp_is_out_of_the_way(
    outcome: Result<(), IoKind>,
    cleared: Result<(), Error>,
)
    requires
        call_ensures(stale_temp_unlinked, (outcome,), cleared),
    ensures
        cleared is Ok <==> outcome is Ok || outcome->Err_0 == IoKind::NotFound,
        cleared matches Err(e) ==> e == (Error::Io {
            op: "write_temp unlink stale temp",
            kind: outcome->Err_0,
        }),
{
}

/// An operation that failed is reported by its own words and the kind it failed
/// with.
pub proof fn law_a_failed_operation_is_reported_in_its_own_words(op: Op, kind: IoKind, e: Error)
    requires
        call_ensures(io, (op, kind), e),
    ensures
        e is Io,
        e->Io_kind == kind,
        op == Op::StatDirectory ==> e->Io_op == "stat directory",
        op == Op::CreateDirectory ==> e->Io_op == "create directory",
        op == Op::OpenLock ==> e->Io_op == "open lock",
        op == Op::Flock ==> e->Io_op == "flock",
        op == Op::RemoveStaleTemp ==> e->Io_op == "remove stale temp",
        op == Op::StatSnapshot ==> e->Io_op == "stat snapshot",
        op == Op::OpenSnapshot ==> e->Io_op == "open snapshot",
        op == Op::ReadSnapshot ==> e->Io_op == "read snapshot",
        op == Op::OpenSlot ==> e->Io_op == "open slot",
        op == Op::StatSlot ==> e->Io_op == "stat slot",
        op == Op::ReadSlot ==> e->Io_op == "read slot",
        op == Op::WriteTemp ==> e->Io_op == "write_temp",
        op == Op::WriteTempUnlink ==> e->Io_op == "write_temp unlink stale temp",
        op == Op::WriteTempOpen ==> e->Io_op == "write_temp open",
        op == Op::WriteTempWrite ==> e->Io_op == "write_temp write",
        op == Op::FsyncFile ==> e->Io_op == "fsync_file",
        op == Op::Rename ==> e->Io_op == "rename",
        op == Op::FsyncDirOpen ==> e->Io_op == "fsync_dir open",
        op == Op::FsyncDir ==> e->Io_op == "fsync_dir",
        op == Op::FsyncParentOpen ==> e->Io_op == "fsync_parent open",
        op == Op::FsyncParent ==> e->Io_op == "fsync_parent",
        op == Op::FlushStanding ==> e->Io_op == "flush_standing",
        op == Op::WriteSlotCreate ==> e->Io_op == "write_slot create",
        op == Op::WriteSlot ==> e->Io_op == "write_slot",
        op == Op::WriteSlotTear ==> e->Io_op == "write_slot tear",
        op == Op::FlushSlot ==> e->Io_op == "flush_slot",
        op == Op::ReadToken ==> e->Io_op == "read the process token",
        op == Op::ReadAccessList ==> e->Io_op == "read the directory's access list",
        op == Op::ReadOwner ==> e->Io_op == "read the directory's owner",
{
}

/// A directory is held by its parent, by `.` where that is empty, and by itself
/// where it has none.
pub proof fn law_a_directory_is_held_by_its_parent(
    dir: &str,
    parent: Option<String>,
    held_in: String,
)
    requires
        call_ensures(holding_directory, (dir, parent), held_in),
    ensures
        parent is None ==> held_in@ == dir@,
        parent matches Some(p) ==> p@.len() > 0 ==> held_in@ == p@,
        parent matches Some(p) ==> p@.len() == 0 ==> held_in@ == "."@,
{
}

/// A name under a directory is held by that directory, a name under the root by
/// the root, and a bare name by the working directory; the root holds itself. A
/// creation flushes the directory that holds the store's.
pub proof fn law_the_directory_before_a_name_is_flushed(
    dir: &str,
    front: Seq<char>,
    name: Seq<char>,
    held_in: String,
    derived: Derived,
    flushed: String,
)
    requires
        call_ensures(parent_of, (dir,), held_in),
        call_ensures(Derived::parent, (&derived,), flushed),
        portable(dir@),
        name.len() > 0,
        forall|i: int| 0 <= i < name.len() ==> #[trigger] name[i] != '/',
    ensures
        dir@ == name ==> held_in@ == "."@,
        dir@ == name.push('/') ==> held_in@ == "."@,
        dir@ == "/"@ + name ==> held_in@ == "/"@,
        front.len() > 0 && dir@ == front + "/"@ + name ==> held_in@ == front,
        front.len() > 0 && dir@ == (front + "/"@ + name).push('/') ==> held_in@ == front,
        dir@ == "/"@ ==> held_in@ == "/"@,
        derived.plot().dir@ == dir@ ==> flushed@ == held_in@,
{
    law_a_name_is_held_by_the_directory_before_it(front, name);
}

} // verus!
