//! One commit: which steps, in which order, and what the store's files are once
//! they are done.
//!
//! In the rename layout the whole image is written to a temp, flushed, renamed
//! over the snapshot, and the directory flushed. In the slot layout three rules
//! hold, each the crash argument's and not a convenience. The slot holding the
//! newest image is on the device before the other is written: a handle's first
//! commit flushes it as it found it. The write is flushed before the commit is
//! done. And a plain image in slot 0 is overwritten only once slot 1 holds a
//! flushed frame, with the vacant frame, which is what makes a build that reads
//! only the rename layout refuse the store from then on.

use vstd::prelude::*;

use crate::error::{Error, IoKind};
use crate::keystore::change::Change;
use crate::keystore::medium::{io, Action, Op};
#[allow(unused_imports)]
use crate::keystore::medium::{action_bytes, io_error};
use crate::keystore::slots::{build_frame, frame};
#[allow(unused_imports)]
use crate::keystore::slots::{framed, payload_refusal, too_long};
use crate::scrubbed::Scrubbed;

verus! {

/// The slot files of a store, and what its handle knows of them.
#[derive(Clone, Copy, Debug, PartialEq, Eq, Structural)]
pub struct SlotFiles {
    /// Slot 0 is there, and held open.
    pub held0: bool,
    /// Slot 1 is there, and held open.
    pub held1: bool,
    /// The slot holding the newest image, which no commit writes. `None` only
    /// before a new store's first commit.
    pub newest: Option<usize>,
    /// The newest slot is known to be on the device. False after an open, so a
    /// handle's first commit flushes it before writing the other: after a flush
    /// that failed, a later process can read a newer slot out of the cache
    /// although it never reached the disk.
    pub on_device: bool,
    /// Slot 0 has yet to become a frame: it holds a store in the rename layout,
    /// or nothing yet.
    pub vacate: bool,
}

/// Which files a store's image is kept in.
#[derive(Clone, Copy, Debug, PartialEq, Eq, Structural)]
pub enum Layout {
    /// One snapshot, replaced by a rename.
    Rename,
    /// Two slots, rewritten in place.
    Slots(SlotFiles),
}

impl SlotFiles {
    /// There are two slots, and the newest is one of them.
    pub open spec fn wf(&self) -> bool {
        self.newest matches Some(newest) ==> newest <= 1
    }

    /// Nothing held and nothing to protect: a new store before its first
    /// commit, which creates both files.
    pub fn fresh() -> (files: SlotFiles)
        ensures
            files == (SlotFiles {
                held0: false,
                held1: false,
                newest: None,
                on_device: true,
                vacate: true,
            }),
            files.wf(),
    {
        SlotFiles { held0: false, held1: false, newest: None, on_device: true, vacate: true }
    }
}

impl Layout {
    /// The slots, where there are any, are in order.
    pub open spec fn wf(&self) -> bool {
        match self {
            Layout::Rename => true,
            Layout::Slots(files) => files.wf(),
        }
    }
}

/// Slot `slot` is there.
pub open spec fn is_held(files: SlotFiles, slot: usize) -> bool {
    if slot == 0 {
        files.held0
    } else {
        files.held1
    }
}

/// The slot a commit writes: the one that does not hold the newest image, and
/// slot 1 where neither does.
pub open spec fn target_of(files: SlotFiles) -> usize {
    if files.newest == Some(1usize) {
        0
    } else {
        1
    }
}

/// A commit's steps, in order, and the refusal that ends it where one does.
pub struct Steps {
    pub actions: Seq<Action<Seq<u8>>>,
    pub refusal: Option<Error>,
}

/// The flush of the newest slot as it stands, unless it is known to be on the
/// device.
pub open spec fn standing_flush(files: SlotFiles) -> Seq<Action<Seq<u8>>> {
    match files.newest {
        Some(newest) => if files.on_device {
            seq![]
        } else {
            seq![Action::FlushStanding { slot: newest }]
        },
        None => seq![],
    }
}

/// The write of one slot, and its flush.
pub open spec fn slot_write(files: SlotFiles, slot: usize, payload: Seq<u8>) -> Seq<Action<Seq<u8>>> {
    seq![
        Action::WriteSlot { slot, create: !is_held(files, slot), bytes: framed(payload) },
        Action::FlushSlot { slot },
    ]
}

/// The steps of a commit in the slot layout.
pub open spec fn slot_steps(files: SlotFiles, image: Seq<u8>, max: usize) -> Steps {
    if files.newest is Some && !files.on_device && !is_held(files, files.newest->0) {
        Steps {
            actions: seq![],
            refusal: Some(io_error(Op::FlushStanding, IoKind::NotFound)),
        }
    } else if too_long(image.len(), max as nat) {
        Steps {
            actions: standing_flush(files),
            refusal: Some(payload_refusal(image.len(), max)),
        }
    } else {
        let target = target_of(files);
        let write = standing_flush(files) + slot_write(files, target, image);
        Steps {
            actions: if target == 1 && files.vacate {
                write + slot_write(files, 0, seq![])
            } else {
                write
            },
            refusal: None,
        }
    }
}

/// The steps of a commit in the rename layout.
pub open spec fn rename_steps(image: Seq<u8>) -> Steps {
    Steps {
        actions: seq![
            Action::WriteTemp { bytes: image },
            Action::FsyncFile,
            Action::Rename,
            Action::FsyncDir,
        ],
        refusal: None,
    }
}

/// The steps of a commit.
pub open spec fn steps_of(layout: Layout, image: Seq<u8>, max: usize) -> Steps {
    match layout {
        Layout::Rename => rename_steps(image),
        Layout::Slots(files) => slot_steps(files, image, max),
    }
}

/// What the store's files are once a commit is done.
pub open spec fn layout_after(layout: Layout) -> Layout {
    match layout {
        Layout::Rename => Layout::Rename,
        Layout::Slots(files) => {
            let target = target_of(files);
            Layout::Slots(
                SlotFiles {
                    held0: files.held0 || target == 0 || files.vacate,
                    held1: files.held1 || target == 1,
                    newest: Some(target),
                    on_device: true,
                    vacate: false,
                },
            )
        },
    }
}

/// A commit under way: the steps there are, how far along it is, and how it
/// ended.
pub struct Commit {
    change: Change,
    actions: Vec<Action<Scrubbed>>,
    refusal: Option<Error>,
    at: usize,
    failed: Option<Error>,
    layout: Layout,
}

/// The steps, over their bytes.
pub open spec fn all_bytes(actions: Seq<Action<Scrubbed>>) -> Seq<Action<Seq<u8>>> {
    Seq::new(actions.len(), |i: int| action_bytes(actions[i]))
}

impl Commit {
    /// The change this commit makes durable.
    pub closed spec fn staged(&self) -> Change {
        self.change
    }

    /// The steps, and the refusal that ends them where one does.
    pub closed spec fn steps(&self) -> Steps {
        Steps { actions: all_bytes(self.actions@), refusal: self.refusal }
    }

    /// How many steps have been performed without a failure.
    pub closed spec fn done(&self) -> nat {
        self.at as nat
    }

    /// The failure that ended it.
    pub closed spec fn failure(&self) -> Option<Error> {
        self.failed
    }

    /// What the store's files are if it succeeds.
    pub closed spec fn leaves(&self) -> Layout {
        self.layout
    }

    /// No more steps than there are have been performed.
    pub open spec fn wf(&self) -> bool {
        self.done() <= self.steps().actions.len() && self.leaves().wf()
    }

    /// Nothing is left to perform.
    pub open spec fn is_ended(&self) -> bool {
        self.failure() is Some || self.done() == self.steps().actions.len()
    }

    /// How the commit ended, once it has.
    pub open spec fn outcome(&self) -> Result<Layout, Error> {
        match (self.failure(), self.steps().refusal) {
            (Some(e), _) => Err(e),
            (None, Some(e)) => Err(e),
            (None, None) => Ok(self.leaves()),
        }
    }

    /// The commit of `image` in `layout`, carrying `change`, with nothing
    /// performed yet.
    pub(crate) fn begin(change: Change, layout: Layout, image: Scrubbed, max: usize) -> (commit:
        Commit)
        requires
            layout.wf(),
        ensures
            commit.wf(),
            commit.staged() == change,
            commit.steps() == steps_of(layout, image@, max),
            commit.done() == 0,
            commit.failure() is None,
            commit.leaves() == layout_after(layout),
    {
        let mut actions: Vec<Action<Scrubbed>> = Vec::new();
        let mut refusal: Option<Error> = None;
        match layout {
            Layout::Rename => {
                actions.push(Action::WriteTemp { bytes: image });
                actions.push(Action::FsyncFile);
                actions.push(Action::Rename);
                actions.push(Action::FsyncDir);
                assert(all_bytes(actions@) =~= rename_steps(image@).actions);
                Commit { change, actions, refusal, at: 0, failed: None, layout }
            },
            Layout::Slots(files) => {
                let mut lost = false;
                if let Some(newest) = files.newest {
                    if !files.on_device {
                        lost = !held(&files, newest);
                        if !lost {
                            actions.push(Action::FlushStanding { slot: newest });
                        }
                    }
                }
                assert(!lost ==> all_bytes(actions@) =~= standing_flush(files));
                let ghost flush = actions@;
                let target: usize = if files.newest == Some(1usize) {
                    0
                } else {
                    1
                };
                let after = Layout::Slots(
                    SlotFiles {
                        held0: files.held0 || target == 0 || files.vacate,
                        held1: files.held1 || target == 1,
                        newest: Some(target),
                        on_device: true,
                        vacate: false,
                    },
                );
                if lost {
                    refusal = Some(io(Op::FlushStanding, IoKind::NotFound));
                    assert(all_bytes(actions@) =~= seq![]);
                } else {
                    match frame(image.as_slice(), max) {
                        Err(e) => {
                            refusal = Some(e);
                        },
                        Ok(bytes) => {
                            actions.push(
                                Action::WriteSlot {
                                    slot: target,
                                    create: !held(&files, target),
                                    bytes,
                                },
                            );
                            actions.push(Action::FlushSlot { slot: target });
                            assert(all_bytes(actions@) =~= standing_flush(files) + slot_write(
                                files,
                                target,
                                image@,
                            ));
                            if target == 1 && files.vacate {
                                push_vacant(&mut actions, !files.held0);
                                assert(all_bytes(actions@) =~= standing_flush(files) + slot_write(
                                    files,
                                    target,
                                    image@,
                                ) + slot_write(files, 0, seq![]));
                            }
                        },
                    }
                }
                Commit { change, actions, refusal, at: 0, failed: None, layout: after }
            },
        }
    }

    /// The next step to perform, unless there is none left.
    pub fn next(&self) -> (action: Option<&Action<Scrubbed>>)
        requires
            self.wf(),
        ensures
            action is None <==> self.is_ended(),
            action matches Some(action) ==> action_bytes(*action)
                == self.steps().actions[self.done() as int],
    {
        if self.failed.is_none() && self.at < self.actions.len() {
            Some(&self.actions[self.at])
        } else {
            None
        }
    }

    /// Take down how the step just performed went. Nothing is performed once
    /// one has failed.
    pub fn performed(&mut self, outcome: Result<(), Error>)
        requires
            old(self).wf(),
        ensures
            final(self).wf(),
            final(self).staged() == old(self).staged(),
            final(self).steps() == old(self).steps(),
            final(self).leaves() == old(self).leaves(),
            final(self).done() == if old(self).is_ended() || outcome is Err {
                old(self).done()
            } else {
                old(self).done() + 1
            },
            final(self).failure() == if old(self).is_ended() {
                old(self).failure()
            } else {
                match outcome {
                    Ok(_) => None,
                    Err(e) => Some(e),
                }
            },
    {
        if self.failed.is_none() && self.at < self.actions.len() {
            match outcome {
                Ok(_) => {
                    self.at = self.at + 1;
                },
                Err(e) => {
                    self.failed = Some(e);
                },
            }
        }
    }

    /// How the commit ended, and the change it carried.
    pub(crate) fn finish(self) -> (ended: (Change, Result<Layout, Error>))
        requires
            self.wf(),
            self.is_ended(),
        ensures
            ended.0 == self.staged(),
            ended.1 == self.outcome(),
    {
        let outcome = match (self.failed, self.refusal) {
            (Some(e), _) => Err(e),
            (None, Some(e)) => Err(e),
            (None, None) => Ok(self.layout),
        };
        (self.change, outcome)
    }
}

fn held(files: &SlotFiles, slot: usize) -> (there: bool)
    ensures
        there == is_held(*files, slot),
{
    if slot == 0 {
        files.held0
    } else {
        files.held1
    }
}

/// The write of the vacant frame into slot 0, and its flush.
fn push_vacant(actions: &mut Vec<Action<Scrubbed>>, create: bool)
    ensures
        final(actions)@.len() == old(actions)@.len() + 2,
        final(actions)@.take(old(actions)@.len() as int) == old(actions)@,
        action_bytes(final(actions)@[old(actions)@.len() as int]) == (Action::WriteSlot {
            slot: 0usize,
            create,
            bytes: framed(seq![]),
        }),
        final(actions)@[old(actions)@.len() as int + 1] == (Action::<Scrubbed>::FlushSlot { slot: 0 }),
{
    let nothing: Vec<u8> = Vec::new();
    assert(nothing@ =~= seq![]);
    let vacant = build_frame(nothing.as_slice());
    let ghost before = actions@;
    actions.push(Action::WriteSlot { slot: 0, create, bytes: vacant });
    actions.push(Action::FlushSlot { slot: 0 });
    assert(actions@.take(before.len() as int) =~= before);
}

} // verus!
