//! The durable steps a commit is made of, and the recorder that counts them.
//!
//! A commit is a list of steps, each one thing done to the store's files:
//! [`crate::keystore::commit`] fixes which steps, in which order. In the rename
//! layout they are four -- write the temp, flush it, rename it over the
//! snapshot, flush the directory. In the slot layout a slot is written in place
//! and flushed, and the slot holding the newest image is known to be on the
//! device before the other is written. What performs a step hands back how it
//! went.
//!
//! One step stands outside the commit: the flush of the directory that holds
//! the store directory, which is where the store directory's own entry lives.
//! A new store makes it once, before its first commit.

use vstd::prelude::*;

use crate::error::{Error, IoKind};
use crate::scrubbed::Scrubbed;

verus! {

/// The snapshot, and slot 0.
pub const SNAPSHOT_NAME: &'static str = "accounts.mks";

/// The temp a rename replaces the snapshot with.
pub const TEMP_NAME: &'static str = "accounts.mks.tmp";

/// Slot 1.
pub const SLOT1_NAME: &'static str = "accounts.mks.1";

/// The lock.
pub const LOCK_NAME: &'static str = "keystore.lock";

/// One of the files of a store directory.
#[derive(Clone, Copy, Debug, PartialEq, Eq, Structural)]
pub enum StoreFile {
    Snapshot,
    Temp,
    Slot1,
    Lock,
}

/// The name a store's file has in its directory.
pub open spec fn file_name(file: StoreFile) -> Seq<char> {
    match file {
        StoreFile::Snapshot => SNAPSHOT_NAME@,
        StoreFile::Temp => TEMP_NAME@,
        StoreFile::Slot1 => SLOT1_NAME@,
        StoreFile::Lock => LOCK_NAME@,
    }
}

impl StoreFile {
    /// The file's name in the store directory.
    pub fn name(self) -> (name: &'static str)
        ensures
            name@ == file_name(self),
    {
        match self {
            StoreFile::Snapshot => SNAPSHOT_NAME,
            StoreFile::Temp => TEMP_NAME,
            StoreFile::Slot1 => SLOT1_NAME,
            StoreFile::Lock => LOCK_NAME,
        }
    }
}

/// The file slot `slot` is: 0 is the snapshot's own.
pub open spec fn slot_file(slot: usize) -> StoreFile {
    if slot == 0 {
        StoreFile::Snapshot
    } else {
        StoreFile::Slot1
    }
}

/// The file slot `slot` is.
pub fn slot_path(slot: usize) -> (file: StoreFile)
    ensures
        file == slot_file(slot),
{
    if slot == 0 {
        StoreFile::Snapshot
    } else {
        StoreFile::Slot1
    }
}

/// A file in a store directory, by the directory it is in and which it is.
#[derive(Debug, PartialEq, Eq)]
pub struct FilePath {
    pub dir: String,
    pub file: StoreFile,
}

/// What was being done to the store's files when a step failed.
#[derive(Clone, Copy, Debug, PartialEq, Eq, Structural)]
pub enum Op {
    StatDirectory,
    CreateDirectory,
    OpenLock,
    Flock,
    RemoveStaleTemp,
    StatSnapshot,
    OpenSnapshot,
    ReadSnapshot,
    OpenSlot,
    StatSlot,
    ReadSlot,
    WriteTemp,
    WriteTempUnlink,
    WriteTempOpen,
    WriteTempWrite,
    FsyncFile,
    Rename,
    FsyncDirOpen,
    FsyncDir,
    FsyncParentOpen,
    FsyncParent,
    FlushStanding,
    WriteSlotCreate,
    WriteSlot,
    WriteSlotTear,
    FlushSlot,
    ReadToken,
    ReadAccessList,
    ReadOwner,
}

/// The words an error names the operation by.
pub open spec fn op_text(op: Op) -> &'static str {
    match op {
        Op::StatDirectory => "stat directory",
        Op::CreateDirectory => "create directory",
        Op::OpenLock => "open lock",
        Op::Flock => "flock",
        Op::RemoveStaleTemp => "remove stale temp",
        Op::StatSnapshot => "stat snapshot",
        Op::OpenSnapshot => "open snapshot",
        Op::ReadSnapshot => "read snapshot",
        Op::OpenSlot => "open slot",
        Op::StatSlot => "stat slot",
        Op::ReadSlot => "read slot",
        Op::WriteTemp => "write_temp",
        Op::WriteTempUnlink => "write_temp unlink stale temp",
        Op::WriteTempOpen => "write_temp open",
        Op::WriteTempWrite => "write_temp write",
        Op::FsyncFile => "fsync_file",
        Op::Rename => "rename",
        Op::FsyncDirOpen => "fsync_dir open",
        Op::FsyncDir => "fsync_dir",
        Op::FsyncParentOpen => "fsync_parent open",
        Op::FsyncParent => "fsync_parent",
        Op::FlushStanding => "flush_standing",
        Op::WriteSlotCreate => "write_slot create",
        Op::WriteSlot => "write_slot",
        Op::WriteSlotTear => "write_slot tear",
        Op::FlushSlot => "flush_slot",
        Op::ReadToken => "read the process token",
        Op::ReadAccessList => "read the directory's access list",
        Op::ReadOwner => "read the directory's owner",
    }
}

/// The error of an operation that failed with `kind`.
pub open spec fn io_error(op: Op, kind: IoKind) -> Error {
    Error::Io { op: op_text(op), kind }
}

/// The error of an operation that failed with `kind`.
pub fn io(op: Op, kind: IoKind) -> (e: Error)
    ensures
        e == io_error(op, kind),
{
    let text = match op {
        Op::StatDirectory => "stat directory",
        Op::CreateDirectory => "create directory",
        Op::OpenLock => "open lock",
        Op::Flock => "flock",
        Op::RemoveStaleTemp => "remove stale temp",
        Op::StatSnapshot => "stat snapshot",
        Op::OpenSnapshot => "open snapshot",
        Op::ReadSnapshot => "read snapshot",
        Op::OpenSlot => "open slot",
        Op::StatSlot => "stat slot",
        Op::ReadSlot => "read slot",
        Op::WriteTemp => "write_temp",
        Op::WriteTempUnlink => "write_temp unlink stale temp",
        Op::WriteTempOpen => "write_temp open",
        Op::WriteTempWrite => "write_temp write",
        Op::FsyncFile => "fsync_file",
        Op::Rename => "rename",
        Op::FsyncDirOpen => "fsync_dir open",
        Op::FsyncDir => "fsync_dir",
        Op::FsyncParentOpen => "fsync_parent open",
        Op::FsyncParent => "fsync_parent",
        Op::FlushStanding => "flush_standing",
        Op::WriteSlotCreate => "write_slot create",
        Op::WriteSlot => "write_slot",
        Op::WriteSlotTear => "write_slot tear",
        Op::FlushSlot => "flush_slot",
        Op::ReadToken => "read the process token",
        Op::ReadAccessList => "read the directory's access list",
        Op::ReadOwner => "read the directory's owner",
    };
    Error::Io { op: text, kind }
}

/// How the unlink of a leftover temp went, before the temp is created new: one
/// that was not there is no failure.
pub fn stale_temp_unlinked(outcome: Result<(), IoKind>) -> (cleared: Result<(), Error>)
    ensures
        cleared == match outcome {
            Ok(_) => Ok::<(), Error>(()),
            Err(IoKind::NotFound) => Ok(()),
            Err(kind) => Err(io_error(Op::WriteTempUnlink, kind)),
        },
{
    match outcome {
        Ok(_) => Ok(()),
        Err(IoKind::NotFound) => Ok(()),
        Err(kind) => Err(io(Op::WriteTempUnlink, kind)),
    }
}

/// The path is read alike on every platform: its only separators are single
/// slashes, no drive or other prefix stands before it, and no component after
/// the first is a single dot, which is none.
pub open spec fn portable(path: Seq<char>) -> bool {
    &&& path.len() > 0
    &&& forall|i: int| 0 <= i < path.len() ==> #[trigger] path[i] != '\\'
    &&& !(path.len() >= 2 && path[1] == ':')
    &&& forall|i: int|
        0 < i < path.len() && path[i - 1] == '/' ==> #[trigger] path[i] != '/' && !(path[i] == '.'
            && (i + 1 == path.len() || path[i + 1] == '/'))
}

/// A path without its trailing slash, unless it is nothing else.
pub open spec fn unslashed(path: Seq<char>) -> Seq<char> {
    if path.len() > 1 && path.last() == '/' {
        path.drop_last()
    } else {
        path
    }
}

/// Where the last component of a path begins.
pub open spec fn component_start(path: Seq<char>) -> int
    decreases path.len(),
{
    if path.len() == 0 || path.last() == '/' {
        path.len() as int
    } else {
        component_start(path.drop_last())
    }
}

/// A portable path without its final component: nothing for the root, the empty
/// path for a single component, and the root for a component right under it.
pub open spec fn portable_parent(path: Seq<char>) -> Option<Seq<char>> {
    let bare = unslashed(path);
    let start = component_start(bare);
    if start == bare.len() {
        None
    } else if start <= 1 {
        Some(bare.take(start))
    } else {
        Some(bare.take(start - 1))
    }
}

/// Slashes are the path's only separators and no drive or other prefix stands
/// before it, on any platform.
pub open spec fn plain_path(path: Seq<char>) -> bool {
    &&& forall|i: int| 0 <= i < path.len() ==> #[trigger] path[i] != '\\'
    &&& !(path.len() >= 2 && path[1] == ':')
    &&& !(path.len() >= 2 && path[0] == '/' && path[1] == '/')
}

/// A path without what adds no component at its end: slashes, and single dots
/// that stand after one.
pub open spec fn settled_path(path: Seq<char>) -> Seq<char>
    decreases path.len(),
{
    if path.len() > 1 && (path.last() == '/' || (path.last() == '.' && path[path.len() - 2]
        == '/')) {
        settled_path(path.drop_last())
    } else {
        path
    }
}

/// A plain path without its final component, and without what adds none after
/// that: nothing for the empty path and for the root.
pub open spec fn plain_parent(path: Seq<char>) -> Option<Seq<char>> {
    let bare = settled_path(path);
    let start = component_start(bare);
    if start == bare.len() {
        None
    } else {
        Some(settled_path(bare.take(start)))
    }
}

/// `std::path::Path::parent`: the path without its final component, so a
/// shorter beginning of it. There is none for an empty path and for a root, and
/// the empty one for a single component. Slashes that repeat or trail, and single
/// dots after the first component, are no components; how many of them are left
/// at the end of the result is not said. Where the components of a path with a
/// backslash, with a colon where a drive's stands, or with two slashes in front
/// end is the platform's, and is not said either.
#[verifier::external_body]
fn path_parent(dir: &str) -> (parent: Option<String>)
    ensures
        parent matches Some(p) ==> p@.len() < dir@.len() && p@ == dir@.take(p@.len() as int),
        dir@.len() == 0 ==> parent is None,
        portable(dir@) ==> text_of(parent) == portable_parent(dir@),
        plain_path(dir@) ==> match (text_of(parent), plain_parent(dir@)) {
            (Some(p), Some(settled)) => settled_path(p) == settled,
            (None, None) => true,
            _ => false,
        },
{
    std::path::Path::new(dir).parent().and_then(|p| p.to_str()).map(|p| p.to_string())
}

/// The directory holding `dir`, given what its parent is: `.` for an empty
/// parent, which is what a bare relative name has, and `dir` itself where there
/// is none, which is a root.
pub open spec fn holding(dir: Seq<char>, parent: Option<Seq<char>>) -> Seq<char> {
    match parent {
        Some(p) => if p.len() == 0 {
            "."@
        } else {
            p
        },
        None => dir,
    }
}

/// The text of a path, where there is one.
pub open spec fn text_of(path: Option<String>) -> Option<Seq<char>> {
    match path {
        Some(p) => Some(p@),
        None => None,
    }
}

/// The directory holding `dir`, given its parent.
pub fn holding_directory(dir: &str, parent: Option<String>) -> (held_in: String)
    ensures
        held_in@ == holding(dir@, text_of(parent)),
{
    match parent {
        Some(p) => if p.as_str().unicode_len() == 0 {
            ".".to_owned()
        } else {
            p
        },
        None => dir.to_owned(),
    }
}

/// `found` holds the directory `dir`: exactly what its parent says where it is a
/// portable path, the directory its parent names where it is a plain one, and
/// otherwise some shorter beginning of it, the working directory or itself.
pub open spec fn holds_directory(found: Seq<char>, dir: Seq<char>) -> bool {
    &&& portable(dir) ==> found == holding(dir, portable_parent(dir))
    &&& plain_path(dir) ==> match plain_parent(dir) {
        None => found == dir,
        Some(settled) => if settled.len() == 0 {
            found == "."@
        } else {
            settled_path(found) == settled
        },
    }
    &&& exists|parent: Option<Seq<char>>|
        #![trigger holding(dir, parent)]
        found == holding(dir, parent) && (parent matches Some(p) ==> p.len() < dir.len() && p
            == dir.take(p.len() as int))
}

proof fn lemma_settled_path(path: Seq<char>)
    ensures
        path.len() > 0 ==> settled_path(path).len() > 0,
    decreases path.len(),
{
    if path.len() > 1 {
        lemma_settled_path(path.drop_last());
    }
}

/// The directory holding `dir`: its parent, `.` for a bare relative name, and
/// `dir` itself for a root, which has no parent to hold its entry.
pub fn parent_of(dir: &str) -> (held_in: String)
    ensures
        holds_directory(held_in@, dir@),
        dir@.len() == 0 ==> held_in@ == dir@,
{
    let parent = path_parent(dir);
    let ghost seen = text_of(parent);
    let held_in = holding_directory(dir, parent);
    assert(held_in@ == holding(dir@, seen));
    proof {
        if seen is Some {
            lemma_settled_path(seen->0);
        }
    }
    held_in
}

/// A bare name is held by the working directory, and a name under a directory by
/// that directory, with a slash after it or without.
pub proof fn law_a_name_is_held_by_the_directory_before_it(front: Seq<char>, name: Seq<char>)
    requires
        name.len() > 0,
        forall|i: int| 0 <= i < name.len() ==> #[trigger] name[i] != '/',
    ensures
        holding(name, portable_parent(name)) == "."@,
        holding(name.push('/'), portable_parent(name.push('/'))) == "."@,
        holding("/"@ + name, portable_parent("/"@ + name)) == "/"@,
        front.len() > 0 ==> holding(
            front + "/"@ + name,
            portable_parent(front + "/"@ + name),
        ) == front,
        front.len() > 0 ==> holding(
            (front + "/"@ + name).push('/'),
            portable_parent((front + "/"@ + name).push('/')),
        ) == front,
        holding("/"@, portable_parent("/"@)) == "/"@,
{
    reveal_strlit("/");
    let none = Seq::<char>::empty();
    lemma_component_start(none, name);
    assert(none + name =~= name);
    assert(name.push('/').drop_last() =~= name);
    assert(name.take(0) =~= none);
    lemma_component_start("/"@, name);
    assert(("/"@ + name).take(1) =~= "/"@);
    if front.len() > 0 {
        let path = front + "/"@ + name;
        lemma_component_start(front + "/"@, name);
        assert(path.push('/').drop_last() =~= path);
        assert(path.take(front.len() as int) =~= front);
    }
}

proof fn lemma_component_start(front: Seq<char>, name: Seq<char>)
    requires
        front.len() == 0 || front.last() == '/',
        forall|i: int| 0 <= i < name.len() ==> #[trigger] name[i] != '/',
    ensures
        component_start(front + name) == front.len(),
    decreases name.len(),
{
    if name.len() == 0 {
        assert(front + name =~= front);
    } else {
        assert((front + name).drop_last() =~= front + name.drop_last());
        lemma_component_start(front, name.drop_last());
    }
}

/// One durable step: what is done to which file, with what bytes.
pub enum Action<B> {
    /// Unlink a leftover temp, create the temp new, and write it in full.
    WriteTemp { bytes: B },
    /// Flush the temp: its bytes and its metadata.
    FsyncFile,
    /// Rename the temp over the snapshot.
    Rename,
    /// Flush the store directory.
    FsyncDir,
    /// Flush a slot as it stands.
    FlushStanding { slot: usize },
    /// Write a slot from its start, and set its length to what was written;
    /// `create` where there is no such file yet.
    WriteSlot { slot: usize, create: bool, bytes: B },
    /// Flush the slot just written.
    FlushSlot { slot: usize },
}

/// The same step, over the bytes themselves.
pub open spec fn action_bytes(action: Action<Scrubbed>) -> Action<Seq<u8>> {
    match action {
        Action::WriteTemp { bytes } => Action::WriteTemp { bytes: bytes@ },
        Action::FsyncFile => Action::FsyncFile,
        Action::Rename => Action::Rename,
        Action::FsyncDir => Action::FsyncDir,
        Action::FlushStanding { slot } => Action::FlushStanding { slot },
        Action::WriteSlot { slot, create, bytes } => Action::WriteSlot {
            slot,
            create,
            bytes: bytes@,
        },
        Action::FlushSlot { slot } => Action::FlushSlot { slot },
    }
}

/// The operation a step is.
pub open spec fn op_of<B>(action: Action<B>) -> Op {
    match action {
        Action::WriteTemp { .. } => Op::WriteTemp,
        Action::FsyncFile => Op::FsyncFile,
        Action::Rename => Op::Rename,
        Action::FsyncDir => Op::FsyncDir,
        Action::FlushStanding { .. } => Op::FlushStanding,
        Action::WriteSlot { .. } => Op::WriteSlot,
        Action::FlushSlot { .. } => Op::FlushSlot,
    }
}

/// One recorded step, with the arguments that matter.
#[derive(Debug, PartialEq, Eq)]
pub enum Call {
    WriteTemp { path: FilePath, len: usize },
    FsyncFile { path: FilePath },
    Rename { from: FilePath, to: FilePath },
    FsyncDir { dir: String },
    FlushStanding { path: FilePath },
    WriteSlot { path: FilePath, len: usize },
    FlushSlot { path: FilePath },
    /// The store directory's parent, as a new store names it.
    FsyncParent { dir: String },
}

/// `path` is `file` in `dir`.
pub open spec fn names(path: FilePath, dir: Seq<char>, file: StoreFile) -> bool {
    path.dir@ == dir && path.file == file
}

/// `call` is the record of `action` on the store in `dir`.
pub open spec fn records(call: Call, dir: Seq<char>, action: Action<Seq<u8>>) -> bool {
    match (call, action) {
        (Call::WriteTemp { path, len }, Action::WriteTemp { bytes }) => names(
            path,
            dir,
            StoreFile::Temp,
        ) && len == bytes.len(),
        (Call::FsyncFile { path }, Action::FsyncFile) => names(path, dir, StoreFile::Temp),
        (Call::Rename { from, to }, Action::Rename) => names(from, dir, StoreFile::Temp) && names(
            to,
            dir,
            StoreFile::Snapshot,
        ),
        (Call::FsyncDir { dir: flushed }, Action::FsyncDir) => flushed@ == dir,
        (Call::FlushStanding { path }, Action::FlushStanding { slot }) => names(
            path,
            dir,
            slot_file(slot),
        ),
        (Call::WriteSlot { path, len }, Action::WriteSlot { slot, create, bytes }) => names(
            path,
            dir,
            slot_file(slot),
        ) && len == bytes.len(),
        (Call::FlushSlot { path }, Action::FlushSlot { slot }) => names(path, dir, slot_file(slot)),
        _ => false,
    }
}

fn path_in(dir: &str, file: StoreFile) -> (path: FilePath)
    ensures
        names(path, dir@, file),
{
    FilePath { dir: dir.to_owned(), file }
}

/// The record of a step on the store in `dir`.
pub fn call_of(dir: &str, action: &Action<Scrubbed>) -> (call: Call)
    ensures
        records(call, dir@, action_bytes(*action)),
{
    match action {
        Action::WriteTemp { bytes } => Call::WriteTemp {
            path: path_in(dir, StoreFile::Temp),
            len: bytes.len(),
        },
        Action::FsyncFile => Call::FsyncFile { path: path_in(dir, StoreFile::Temp) },
        Action::Rename => Call::Rename {
            from: path_in(dir, StoreFile::Temp),
            to: path_in(dir, StoreFile::Snapshot),
        },
        Action::FsyncDir => Call::FsyncDir { dir: dir.to_owned() },
        Action::FlushStanding { slot } => Call::FlushStanding {
            path: path_in(dir, slot_path(*slot)),
        },
        Action::WriteSlot { slot, create: _, bytes } => Call::WriteSlot {
            path: path_in(dir, slot_path(*slot)),
            len: bytes.len(),
        },
        Action::FlushSlot { slot } => Call::FlushSlot { path: path_in(dir, slot_path(*slot)) },
    }
}

/// A recorder of the steps, which can be told to interrupt one.
///
/// Told to stop after the `k`-th, it lets that step be performed and answers
/// with an error in place of its result: a process that died once the call had
/// completed and before it used what came back. Told to tear the `k`-th, a slot
/// write, it has the slot left holding what a power cut could leave of a write
/// that was never flushed.
pub struct Instrumented {
    calls: Vec<Call>,
    to_stop: Option<usize>,
    to_tear: Option<usize>,
    stopping: bool,
    tearing: bool,
}

/// A countdown, one call later. Once it has run out it stays so.
pub open spec fn counted(left: Option<usize>) -> Option<usize> {
    match left {
        Some(n) => if n > 0 {
            Some((n - 1) as usize)
        } else {
            Some(n)
        },
        None => None,
    }
}

/// A countdown, `calls` calls later.
pub open spec fn counted_times(left: Option<usize>, calls: nat) -> Option<usize>
    decreases calls,
{
    if calls == 0 {
        left
    } else {
        counted(counted_times(left, (calls - 1) as nat))
    }
}

/// The next call is the one counted down to.
pub open spec fn fires(left: Option<usize>) -> bool {
    left == Some(1usize)
}

/// Counted from the arming, it is the `k`-th call that is interrupted, and no
/// other, however many come after it.
pub proof fn law_the_kth_call_is_interrupted(k: usize, nth: nat)
    requires
        nth >= 1,
    ensures
        fires(counted_times(Some(k), (nth - 1) as nat)) <==> nth == k,
{
    lemma_counted(k, (nth - 1) as nat);
}

proof fn lemma_counted(k: usize, calls: nat)
    ensures
        counted_times(Some(k), calls) == Some(
            if calls <= k {
                (k - calls) as usize
            } else {
                0
            },
        ),
    decreases calls,
{
    if calls > 0 {
        lemma_counted(k, (calls - 1) as nat);
    }
}

fn count(left: Option<usize>) -> (next: Option<usize>)
    ensures
        next == counted(left),
{
    match left {
        Some(n) => if n > 0 {
            Some(n - 1)
        } else {
            Some(n)
        },
        None => None,
    }
}

fn due(left: Option<usize>) -> (now: bool)
    ensures
        now == fires(left),
{
    match left {
        Some(n) => n == 1,
        None => false,
    }
}

impl Instrumented {
    /// Every step recorded, in order.
    pub closed spec fn log(&self) -> Seq<Call> {
        self.calls@
    }

    /// How many calls until one is interrupted.
    pub closed spec fn left_to_stop(&self) -> Option<usize> {
        self.to_stop
    }

    /// How many calls until a slot write is torn.
    pub closed spec fn left_to_tear(&self) -> Option<usize> {
        self.to_tear
    }

    /// The call recorded last is interrupted.
    pub closed spec fn is_stopping(&self) -> bool {
        self.stopping
    }

    /// The call recorded last is torn, if it is a slot write.
    pub closed spec fn is_tearing(&self) -> bool {
        self.tearing
    }

    /// Nothing recorded and nothing armed.
    pub fn new() -> (recorder: Instrumented)
        ensures
            recorder.log() == Seq::<Call>::empty(),
            recorder.left_to_stop() is None,
            recorder.left_to_tear() is None,
            !recorder.is_stopping(),
            !recorder.is_tearing(),
    {
        Instrumented {
            calls: Vec::new(),
            to_stop: None,
            to_tear: None,
            stopping: false,
            tearing: false,
        }
    }

    /// Interrupt the `k`-th call from here, counting from one. `None` disarms.
    pub fn stop_after(&mut self, k: Option<usize>)
        ensures
            final(self).left_to_stop() == k,
            final(self).log() == old(self).log(),
            final(self).left_to_tear() == old(self).left_to_tear(),
            final(self).is_stopping() == old(self).is_stopping(),
            final(self).is_tearing() == old(self).is_tearing(),
    {
        self.to_stop = k;
    }

    /// Tear the `k`-th call from here, which must be a slot write. `None`
    /// disarms.
    pub fn tear_after(&mut self, k: Option<usize>)
        ensures
            final(self).left_to_tear() == k,
            final(self).log() == old(self).log(),
            final(self).left_to_stop() == old(self).left_to_stop(),
            final(self).is_stopping() == old(self).is_stopping(),
            final(self).is_tearing() == old(self).is_tearing(),
    {
        self.to_tear = k;
    }

    /// Every step recorded, in order.
    pub fn calls(&self) -> (calls: &[Call])
        ensures
            calls@ == self.log(),
    {
        self.calls.as_slice()
    }

    /// Forget what was recorded. What is armed stays armed, and goes on
    /// counting from where it was armed.
    pub fn reset_calls(&mut self)
        ensures
            final(self).log() == Seq::<Call>::empty(),
            final(self).left_to_stop() == old(self).left_to_stop(),
            final(self).left_to_tear() == old(self).left_to_tear(),
            final(self).is_stopping() == old(self).is_stopping(),
            final(self).is_tearing() == old(self).is_tearing(),
    {
        self.calls = Vec::new();
    }

    /// Record a step, before it is performed.
    pub fn record(&mut self, call: Call)
        ensures
            final(self).log() == old(self).log().push(call),
            final(self).left_to_stop() == counted(old(self).left_to_stop()),
            final(self).left_to_tear() == counted(old(self).left_to_tear()),
            final(self).is_stopping() == fires(old(self).left_to_stop()),
            final(self).is_tearing() == fires(old(self).left_to_tear()),
    {
        self.calls.push(call);
        self.stopping = due(self.to_stop);
        self.tearing = due(self.to_tear);
        self.to_stop = count(self.to_stop);
        self.to_tear = count(self.to_tear);
    }

    /// Whether the slot write just recorded is to be torn.
    pub fn tears(&self) -> (torn: bool)
        ensures
            torn == self.is_tearing(),
    {
        self.tearing
    }

    /// What the step just recorded answers with, given how it went: its own
    /// error, or the interruption once it has been performed.
    pub fn interrupt_here(&self, op: Op, performed: Result<(), Error>) -> (outcome: Result<
        (),
        Error,
    >)
        ensures
            outcome == match performed {
                Err(e) => Err::<(), Error>(e),
                Ok(_) => if self.is_stopping() {
                    Err(io_error(op, IoKind::Interrupted))
                } else {
                    Ok(())
                },
            },
    {
        match performed {
            Err(e) => Err(e),
            Ok(_) => if self.stopping {
                Err(io(op, IoKind::Interrupted))
            } else {
                Ok(())
            },
        }
    }
}

/// What a torn slot write answers with: reading the slot as it stood, the write
/// itself, and leaving it torn come in that order, the first to fail is the
/// error, and where none does the write was interrupted.
pub fn torn_write(
    stood: Result<(), IoKind>,
    written: Result<(), Error>,
    left: Result<(), IoKind>,
) -> (e: Error)
    ensures
        e == match (stood, written, left) {
            (Err(kind), _, _) => io_error(Op::WriteSlotTear, kind),
            (_, Err(inner), _) => inner,
            (_, _, Err(kind)) => io_error(Op::WriteSlotTear, kind),
            _ => io_error(Op::WriteSlot, IoKind::Interrupted),
        },
{
    match stood {
        Err(kind) => io(Op::WriteSlotTear, kind),
        Ok(_) => match written {
            Err(inner) => inner,
            Ok(_) => match left {
                Err(kind) => io(Op::WriteSlotTear, kind),
                Ok(_) => io(Op::WriteSlot, IoKind::Interrupted),
            },
        },
    }
}

/// The operation a step is, for naming it in an error.
pub fn step_op(action: &Action<Scrubbed>) -> (op: Op)
    ensures
        op == op_of(*action),
{
    match action {
        Action::WriteTemp { .. } => Op::WriteTemp,
        Action::FsyncFile => Op::FsyncFile,
        Action::Rename => Op::Rename,
        Action::FsyncDir => Op::FsyncDir,
        Action::FlushStanding { .. } => Op::FlushStanding,
        Action::WriteSlot { .. } => Op::WriteSlot,
        Action::FlushSlot { .. } => Op::FlushSlot,
    }
}

} // verus!
