//! Opening a store: what is looked at, in which order, and what each finding
//! refuses.
//!
//! Every stage is a value the next one consumes, so a check cannot be skipped
//! or moved. The directory's permissions come first. The snapshot's name is
//! looked for before the lock file is touched, so an open that reports a missing
//! store leaves no lock behind. The lock is held before anything is read, so the
//! read is authoritative. A stale temp is removed and never adopted. Then the
//! image: the whole snapshot in the rename layout, the newer of the two slots in
//! the slot layout.

use vstd::prelude::*;

use crate::error::{Error, IoKind};
use crate::keystore::commit::{Layout, SlotFiles};
use crate::keystore::format::{Header, ImageLimits, Kdf, Parsed, Reading};
use crate::keystore::medium::{io, Op};
#[allow(unused_imports)]
use crate::keystore::medium::io_error;
use crate::keystore::slots::{sort, take, Content, OVERHEAD};
#[allow(unused_imports)]
use crate::keystore::slots::{
    candidate_taken, content_bytes, headers, image_taken, key_header, later_version, read_content,
    reading_of, sorted, Candidate,
};
use crate::keystore::store::{Keystore, StoreCrypto, Unlock};
#[allow(unused_imports)]
use crate::keystore::store::{secret_bytes, Model, Standing};
use crate::scrubbed::{copied, Scrubbed};

verus! {

/// How an attempt to take the lock went.
#[derive(Clone, Copy, Debug, PartialEq, Eq, Structural)]
pub enum LockTry {
    /// The lock file could not be opened or created.
    NotOpened(IoKind),
    /// The lock is held now.
    Taken,
    /// Another live holder has it.
    WouldBlock,
    /// The attempt itself failed.
    Failed(IoKind),
}

/// What an attempt to take the lock comes to.
pub open spec fn lock_outcome(tried: LockTry) -> Result<(), Error> {
    match tried {
        LockTry::NotOpened(kind) => Err(io_error(Op::OpenLock, kind)),
        LockTry::Taken => Ok(()),
        LockTry::WouldBlock => Err(Error::Locked),
        LockTry::Failed(kind) => Err(io_error(Op::Flock, kind)),
    }
}

/// What an attempt to take the lock comes to.
pub fn take_lock(tried: LockTry) -> (taken: Result<(), Error>)
    ensures
        taken == lock_outcome(tried),
{
    match tried {
        LockTry::NotOpened(kind) => Err(io(Op::OpenLock, kind)),
        LockTry::Taken => Ok(()),
        LockTry::WouldBlock => Err(Error::Locked),
        LockTry::Failed(kind) => Err(io(Op::Flock, kind)),
    }
}

/// What became of a temp an interrupted commit left.
#[derive(Clone, Copy, Debug, PartialEq, Eq, Structural)]
pub enum TempSeen {
    /// There was none.
    Absent,
    /// There was one, and it is gone.
    Removed,
    /// There was one, and it could not be removed.
    NotRemoved(IoKind),
}

/// How reading the whole snapshot went.
pub enum SnapshotRead {
    /// The file could not be opened.
    NotOpened(IoKind),
    /// Its bytes could not all be read.
    NotRead(IoKind),
    /// Its bytes, and how many more a further read found.
    Read { image: Scrubbed, extra: Result<usize, IoKind> },
}

/// How opening a slot file went, where it failed: the kind, and the system's own
/// code where there is one.
#[derive(Clone, Copy, Debug, PartialEq, Eq, Structural)]
pub struct SlotOpenFailure {
    pub kind: IoKind,
    pub code: Option<i32>,
}

/// The system's code for a file another program holds without sharing it.
pub const ERROR_SHARING_VIOLATION: i32 = 32;

/// What opening a slot file comes to: whether it is there, or the refusal.
pub open spec fn slot_opened(outcome: Result<(), SlotOpenFailure>) -> Result<bool, Error> {
    match outcome {
        Ok(_) => Ok(true),
        Err(failure) => if failure.kind == IoKind::NotFound {
            Ok(false)
        } else if failure.code == Some(ERROR_SHARING_VIOLATION) {
            Err(Error::HeldOpen { code: ERROR_SHARING_VIOLATION })
        } else {
            Err(io_error(Op::OpenSlot, failure.kind))
        },
    }
}

/// What opening a slot file comes to. A program that holds it without sharing
/// write access is named as such, before anything is read or reserved.
pub fn open_slot(outcome: Result<(), SlotOpenFailure>) -> (there: Result<bool, Error>)
    ensures
        there == slot_opened(outcome),
{
    match outcome {
        Ok(_) => Ok(true),
        Err(failure) => {
            if failure.kind == IoKind::NotFound {
                return Ok(false);
            }
            match failure.code {
                Some(code) => if code == ERROR_SHARING_VIOLATION {
                    Err(Error::HeldOpen { code })
                } else {
                    Err(io(Op::OpenSlot, failure.kind))
                },
                None => Err(io(Op::OpenSlot, failure.kind)),
            }
        },
    }
}

/// The refusal of a file no image or frame can be as long as.
pub open spec fn length_refusal(limits: ImageLimits, got: u64) -> Error {
    Error::Range {
        what: "keystore image length",
        min: limits.min as u64,
        max: limits.max as u64,
        got,
    }
}

/// How many bytes of a file to read: its length, where that is at most `most`.
pub open spec fn length_read(limits: ImageLimits, most: int, len: u64) -> Result<usize, Error> {
    if len > most || len > usize::MAX {
        Err(length_refusal(limits, len))
    } else {
        Ok(len as usize)
    }
}

fn refuse_length(limits: ImageLimits, got: u64) -> (e: Error)
    ensures
        e == length_refusal(limits, got),
{
    Error::Range {
        what: "keystore image length",
        min: limits.min as u64,
        max: limits.max as u64,
        got,
    }
}

/// How many bytes of a slot file to read, given what its length was found to be:
/// all of them, or none of a file longer than any frame, which nothing then
/// allocates for.
pub fn slot_length(limits: ImageLimits, stat: Result<u64, IoKind>) -> (len: Result<usize, Error>)
    ensures
        len == match stat {
            Err(kind) => Err(io_error(Op::StatSlot, kind)),
            Ok(len) => length_read(limits, OVERHEAD + limits.max, len),
        },
{
    match stat {
        Err(kind) => Err(io(Op::StatSlot, kind)),
        Ok(len) => {
            let within = if len as u128 <= limits.max as u128 + OVERHEAD as u128 {
                len <= usize::MAX as u64
            } else {
                false
            };
            if within {
                Ok(len as usize)
            } else {
                Err(refuse_length(limits, len))
            }
        },
    }
}

/// A slot file's bytes, given how reading them went.
pub fn slot_bytes(read: Result<Scrubbed, IoKind>) -> (bytes: Result<Scrubbed, Error>)
    ensures
        bytes == match read {
            Ok(bytes) => Ok(bytes),
            Err(kind) => Err(io_error(Op::ReadSlot, kind)),
        },
{
    match read {
        Ok(bytes) => Ok(bytes),
        Err(kind) => Err(io(Op::ReadSlot, kind)),
    }
}

/// What an open carries from its first stage to its last.
pub struct Site {
    pub dir: String,
    pub nonce_seed: Vec<u8>,
    pub limits: ImageLimits,
}

/// An open, with nothing looked at yet.
pub struct Opening {
    site: Site,
}

/// The directory is one nobody else can write to.
pub struct Checked {
    site: Site,
}

/// A snapshot is there by name.
pub struct Found {
    site: Site,
}

/// The lock is held.
pub struct Locked {
    site: Site,
}

/// No temp stands beside the snapshot.
pub struct Cleared {
    site: Site,
}

/// The snapshot's length is one an image can have.
pub struct Measured {
    site: Site,
    len: usize,
}

/// The snapshot has been read whole.
pub struct Whole {
    site: Site,
    image: Scrubbed,
}

/// The snapshot's header has been read.
pub struct Headed {
    site: Site,
    image: Scrubbed,
    header: Header,
}

/// The store's key has been derived.
pub struct Keyed {
    site: Site,
    image: Scrubbed,
    header: Header,
    key: Scrubbed,
}

/// Slot 0 is held.
pub struct SlotZeroHeld {
    site: Site,
}

/// Slot 0 is held, and slot 1 where there is one.
pub struct SlotsHeld {
    site: Site,
    held1: bool,
}

/// Slot 0 has been read and sorted.
pub struct SlotZeroRead {
    site: Site,
    held1: bool,
    slot0: Content<Scrubbed>,
}

/// Both slots have been read and sorted.
pub struct SlotsRead {
    site: Site,
    held1: bool,
    slot0: Content<Scrubbed>,
    slot1: Content<Scrubbed>,
}

impl Opening {
    pub closed spec fn site(&self) -> Site {
        self.site
    }

    /// Begin to open the store in `dir`.
    pub fn begin(dir: &str, unlock: &Unlock, limits: ImageLimits) -> (opening: Opening)
        ensures
            opening.site().dir@ == dir@,
            opening.site().nonce_seed@ == unlock.nonce_seed@,
            opening.site().limits == limits,
    {
        Opening {
            site: Site { dir: dir.to_owned(), nonce_seed: copied(unlock.nonce_seed), limits },
        }
    }

    /// What the permission check made of the directory.
    pub fn directory(self, checked: Result<(), Error>) -> (next: Result<Checked, Error>)
        ensures
            match (next, checked) {
                (Ok(next), Ok(_)) => next.site() == self.site(),
                (Err(e), Err(why)) => e == why,
                _ => false,
            },
    {
        match checked {
            Ok(_) => Ok(Checked { site: self.site }),
            Err(e) => Err(e),
        }
    }
}

impl Checked {
    pub closed spec fn site(&self) -> Site {
        self.site
    }

    /// Whether a snapshot is there. An absent one is not an empty store.
    pub fn snapshot(self, exists: bool) -> (next: Result<Found, Error>)
        ensures
            match next {
                Ok(next) => exists && next.site() == self.site(),
                Err(e) => !exists && e == Error::Missing,
            },
    {
        if exists {
            Ok(Found { site: self.site })
        } else {
            Err(Error::Missing)
        }
    }
}

impl Found {
    pub closed spec fn site(&self) -> Site {
        self.site
    }

    /// How taking the lock went.
    pub fn lock(self, tried: LockTry) -> (next: Result<Locked, Error>)
        ensures
            match (next, lock_outcome(tried)) {
                (Ok(next), Ok(_)) => next.site() == self.site(),
                (Err(e), Err(why)) => e == why,
                _ => false,
            },
    {
        match take_lock(tried) {
            Ok(_) => Ok(Locked { site: self.site }),
            Err(e) => Err(e),
        }
    }
}

impl Locked {
    pub closed spec fn site(&self) -> Site {
        self.site
    }

    /// What became of a stale temp.
    pub fn temp(self, seen: TempSeen) -> (next: Result<Cleared, Error>)
        ensures
            match (next, seen) {
                (Ok(next), TempSeen::Absent) | (Ok(next), TempSeen::Removed) => next.site()
                    == self.site(),
                (Err(e), TempSeen::NotRemoved(kind)) => e == io_error(Op::RemoveStaleTemp, kind),
                _ => false,
            },
    {
        match seen {
            TempSeen::Absent => Ok(Cleared { site: self.site }),
            TempSeen::Removed => Ok(Cleared { site: self.site }),
            TempSeen::NotRemoved(kind) => Err(io(Op::RemoveStaleTemp, kind)),
        }
    }
}

impl Cleared {
    pub closed spec fn site(&self) -> Site {
        self.site
    }

    /// What the snapshot's length was found to be, in the rename layout.
    pub fn stat(self, stat: Result<u64, IoKind>) -> (next: Result<Measured, Error>)
        ensures
            match (next, stat) {
                (Ok(next), Ok(len)) => {
                    &&& length_read(self.site().limits, self.site().limits.max as int, len) == Ok::<
                        usize,
                        Error,
                    >(next.length())
                    &&& next.site() == self.site()
                },
                (Err(e), Ok(len)) => length_read(
                    self.site().limits,
                    self.site().limits.max as int,
                    len,
                ) == Err::<usize, Error>(e),
                (Err(e), Err(kind)) => e == if kind == IoKind::NotFound {
                    Error::Missing
                } else {
                    io_error(Op::StatSnapshot, kind)
                },
                _ => false,
            },
    {
        match stat {
            Ok(len) => {
                if len > usize::MAX as u64 || len > self.site.limits.max as u64 {
                    return Err(refuse_length(self.site.limits, len));
                }
                Ok(Measured { site: self.site, len: len as usize })
            },
            Err(kind) => if kind == IoKind::NotFound {
                Err(Error::Missing)
            } else {
                Err(io(Op::StatSnapshot, kind))
            },
        }
    }

    /// How opening slot 0 went, in the slot layout.
    pub fn slot_zero(self, outcome: Result<(), SlotOpenFailure>) -> (next: Result<
        SlotZeroHeld,
        Error,
    >)
        ensures
            match (next, slot_opened(outcome)) {
                (Ok(next), Ok(there)) => there && next.site() == self.site(),
                (Err(e), Ok(there)) => !there && e == Error::Missing,
                (Err(e), Err(why)) => e == why,
                _ => false,
            },
    {
        match open_slot(outcome) {
            Ok(true) => Ok(SlotZeroHeld { site: self.site }),
            Ok(false) => Err(Error::Missing),
            Err(e) => Err(e),
        }
    }
}

impl Measured {
    pub closed spec fn site(&self) -> Site {
        self.site
    }

    pub closed spec fn length(&self) -> usize {
        self.len
    }

    /// How many bytes of the snapshot to read.
    pub fn len(&self) -> (len: usize)
        ensures
            len == self.length(),
    {
        self.len
    }

    /// How reading the snapshot went. One that grew while it was read is
    /// refused.
    pub fn read(self, read: SnapshotRead) -> (next: Result<Whole, Error>)
        ensures
            match (next, read) {
                (Ok(next), SnapshotRead::Read { image, extra }) => {
                    &&& extra == Ok::<usize, IoKind>(0)
                    &&& next.site() == self.site()
                    &&& next.bytes() == image
                },
                (Err(e), SnapshotRead::Read { image, extra }) => match extra {
                    Ok(n) => n != 0 && e == (Error::Corrupt {
                        what: "snapshot grew while being read",
                        offset: self.length(),
                    }),
                    Err(kind) => e == io_error(Op::ReadSnapshot, kind),
                },
                (Err(e), SnapshotRead::NotOpened(kind)) => e == io_error(Op::OpenSnapshot, kind),
                (Err(e), SnapshotRead::NotRead(kind)) => e == io_error(Op::ReadSnapshot, kind),
                _ => false,
            },
    {
        match read {
            SnapshotRead::NotOpened(kind) => Err(io(Op::OpenSnapshot, kind)),
            SnapshotRead::NotRead(kind) => Err(io(Op::ReadSnapshot, kind)),
            SnapshotRead::Read { image, extra } => match extra {
                Err(kind) => Err(io(Op::ReadSnapshot, kind)),
                Ok(n) => if n != 0 {
                    Err(
                        Error::Corrupt {
                            what: "snapshot grew while being read",
                            offset: self.len,
                        },
                    )
                } else {
                    Ok(Whole { site: self.site, image })
                },
            },
        }
    }
}

impl Whole {
    pub closed spec fn site(&self) -> Site {
        self.site
    }

    pub closed spec fn bytes(&self) -> Scrubbed {
        self.image
    }

    /// The snapshot, to read a header from.
    pub fn image(&self) -> (image: &Scrubbed)
        ensures
            *image == self.bytes(),
    {
        &self.image
    }

    /// What its header says. It is plaintext and is read before any key exists.
    pub fn header(self, header: Result<Header, Error>) -> (next: Result<Headed, Error>)
        ensures
            match (next, header) {
                (Ok(next), Ok(header)) => {
                    &&& next.site() == self.site()
                    &&& next.bytes() == self.bytes()
                    &&& next.says() == header
                },
                (Err(e), Err(why)) => e == why,
                _ => false,
            },
    {
        match header {
            Ok(header) => Ok(Headed { site: self.site, image: self.image, header }),
            Err(e) => Err(e),
        }
    }
}

impl Headed {
    pub closed spec fn site(&self) -> Site {
        self.site
    }

    pub closed spec fn bytes(&self) -> Scrubbed {
        self.image
    }

    pub closed spec fn says(&self) -> Header {
        self.header
    }

    /// What the key is derived at.
    pub fn kdf(&self) -> (kdf: Kdf)
        ensures
            kdf == self.says().kdf,
    {
        self.header.kdf
    }

    /// What the key is derived with.
    pub fn salt(&self) -> (salt: &[u8])
        ensures
            salt@ == self.says().salt@,
    {
        self.header.salt.as_slice()
    }

    /// The key those derive.
    pub fn key(self, key: Result<Scrubbed, Error>) -> (next: Result<Keyed, Error>)
        ensures
            match (next, key) {
                (Ok(next), Ok(key)) => {
                    &&& next.site() == self.site()
                    &&& next.bytes() == self.bytes()
                    &&& next.says() == self.says()
                    &&& next.secret() == key
                },
                (Err(e), Err(why)) => e == why,
                _ => false,
            },
    {
        match key {
            Ok(key) => Ok(
                Keyed { site: self.site, image: self.image, header: self.header, key },
            ),
            Err(e) => Err(e),
        }
    }
}

impl Keyed {
    pub closed spec fn site(&self) -> Site {
        self.site
    }

    pub closed spec fn bytes(&self) -> Scrubbed {
        self.image
    }

    pub closed spec fn says(&self) -> Header {
        self.header
    }

    pub closed spec fn secret(&self) -> Scrubbed {
        self.key
    }

    /// The snapshot, to open under the key.
    pub fn image(&self) -> (image: &Scrubbed)
        ensures
            *image == self.bytes(),
    {
        &self.image
    }

    /// The key.
    pub fn key(&self) -> (key: &Scrubbed)
        ensures
            *key == self.secret(),
    {
        &self.key
    }

    /// What opening the snapshot under the key gave: the store, holding exactly
    /// that.
    pub fn parsed(self, parsed: Result<Parsed, Error>) -> (store: Result<Keystore, Error>)
        requires
            parsed matches Ok(parsed) ==> parsed.slots.wf(),
        ensures
            match (store, parsed) {
                (Ok(store), Ok(parsed)) => {
                    &&& store.wf()
                    &&& store.model() == (Model {
                        dir: self.site().dir@,
                        standing: Standing::Live {
                            generation: parsed.generation,
                            slots: parsed.slots@,
                        },
                        master: secret_bytes(parsed.master),
                        key: self.secret()@,
                        kdf: self.says().kdf,
                        salt: self.says().salt@,
                        nonce_seed: self.site().nonce_seed@,
                        opened_version: self.says().version,
                        on_disk_version: self.says().version,
                        layout: Layout::Rename,
                        limits: self.site().limits,
                    })
                },
                (Err(e), Err(why)) => e == why,
                _ => false,
            },
    {
        match parsed {
            Ok(parsed) => {
                let crypto = StoreCrypto {
                    key: self.key,
                    kdf: self.header.kdf,
                    salt: self.header.salt,
                    nonce_seed: self.site.nonce_seed,
                };
                Ok(
                    Keystore::assemble(
                        self.site.dir,
                        parsed.generation,
                        parsed.slots,
                        parsed.master,
                        crypto,
                        self.header.version,
                        Layout::Rename,
                        self.site.limits,
                    ),
                )
            },
            Err(e) => Err(e),
        }
    }
}

impl SlotZeroHeld {
    pub closed spec fn site(&self) -> Site {
        self.site
    }

    /// How opening slot 1 went. There may be none.
    pub fn slot_one(self, outcome: Result<(), SlotOpenFailure>) -> (next: Result<SlotsHeld, Error>)
        ensures
            match (next, slot_opened(outcome)) {
                (Ok(next), Ok(there)) => next.site() == self.site() && next.has_one() == there,
                (Err(e), Err(why)) => e == why,
                _ => false,
            },
    {
        match open_slot(outcome) {
            Ok(there) => Ok(SlotsHeld { site: self.site, held1: there }),
            Err(e) => Err(e),
        }
    }
}

impl SlotsHeld {
    pub closed spec fn site(&self) -> Site {
        self.site
    }

    pub closed spec fn has_one(&self) -> bool {
        self.held1
    }

    /// Slot 0's bytes, or why they could not be read.
    pub fn read_zero(self, read: Result<Scrubbed, Error>) -> (next: Result<SlotZeroRead, Error>)
        ensures
            match (next, read) {
                (Ok(next), Ok(bytes)) => {
                    &&& next.site() == self.site()
                    &&& next.has_one() == self.has_one()
                    &&& sorted(Some(bytes@), self.site().limits.max as nat) == Ok::<
                        Content<Seq<u8>>,
                        Error,
                    >(content_bytes(next.zero()))
                },
                (Err(e), Ok(bytes)) => {
                    &&& sorted(Some(bytes@), self.site().limits.max as nat) is Err
                    &&& e == later_version()
                },
                (Err(e), Err(why)) => e == why,
                _ => false,
            },
    {
        match read {
            Ok(bytes) => match sort(Some(bytes), self.site.limits.max) {
                Ok(slot0) => Ok(SlotZeroRead { site: self.site, held1: self.held1, slot0 }),
                Err(e) => Err(e),
            },
            Err(e) => Err(e),
        }
    }
}

/// What slot 1 is sorted as, given its bytes where there is such a file. One
/// longer than any frame is torn rather than a refusal: it is never read while
/// slot 0 holds the store.
pub open spec fn slot_one_sorted(read: Option<Result<Seq<u8>, Error>>, max: nat) -> Result<
    Content<Seq<u8>>,
    Error,
> {
    match read {
        None => Ok(Content::Absent),
        Some(Err(Error::Range { .. })) => Ok(Content::Torn),
        Some(Err(e)) => Err(e),
        Some(Ok(bytes)) => sorted(Some(bytes), max),
    }
}

/// The bytes read of a slot, or why they could not be, where there is one.
pub open spec fn read_bytes(read: Option<Result<Scrubbed, Error>>) -> Option<
    Result<Seq<u8>, Error>,
> {
    match read {
        None => None,
        Some(Ok(bytes)) => Some(Ok(bytes@)),
        Some(Err(e)) => Some(Err(e)),
    }
}

/// Sort slot 1: see [`slot_one_sorted`].
fn sort_slot_one(read: Option<Result<Scrubbed, Error>>, max: usize) -> (content: Result<
    Content<Scrubbed>,
    Error,
>)
    ensures
        match (content, slot_one_sorted(read_bytes(read), max as nat)) {
            (Ok(content), Ok(slot1)) => content_bytes(content) == slot1,
            (Err(e), Err(why)) => e == why,
            _ => false,
        },
{
    match read {
        None => Ok(Content::Absent),
        Some(Err(Error::Range { what: _, min: _, max: _, got: _ })) => Ok(Content::Torn),
        Some(Err(e)) => Err(e),
        Some(Ok(bytes)) => sort(Some(bytes), max),
    }
}

/// What slot 0 is sorted as, given its bytes where there is such a file. Without
/// one there is no store.
pub open spec fn slot_zero_sorted(read: Option<Result<Seq<u8>, Error>>, max: nat) -> Result<
    Content<Seq<u8>>,
    Error,
> {
    match read {
        None => Err(Error::Missing),
        Some(Err(e)) => Err(e),
        Some(Ok(bytes)) => sorted(Some(bytes), max),
    }
}

/// Sort both slots as an open does, given the bytes of each where there is such
/// a file, or why they could not be read. Slot 0's refusal comes first.
pub fn sort_slots(
    read0: Option<Result<Scrubbed, Error>>,
    read1: Option<Result<Scrubbed, Error>>,
    max: usize,
) -> (slots: Result<(Content<Scrubbed>, Content<Scrubbed>), Error>)
    ensures
        match (
            slots,
            slot_zero_sorted(read_bytes(read0), max as nat),
            slot_one_sorted(read_bytes(read1), max as nat),
        ) {
            (Ok((slot0, slot1)), Ok(zero), Ok(one)) => content_bytes(slot0) == zero
                && content_bytes(slot1) == one,
            (Err(e), Err(why), _) => e == why,
            (Err(e), Ok(_), Err(why)) => e == why,
            _ => false,
        },
{
    let slot0 = match read0 {
        None => {
            return Err(Error::Missing);
        },
        Some(Err(e)) => {
            return Err(e);
        },
        Some(Ok(bytes)) => match sort(Some(bytes), max) {
            Ok(slot0) => slot0,
            Err(e) => {
                return Err(e);
            },
        },
    };
    match sort_slot_one(read1, max) {
        Ok(slot1) => Ok((slot0, slot1)),
        Err(e) => Err(e),
    }
}

/// What an open takes of the two slot files, or what it refuses them with: `read`
/// is what reading an image's header and opening it under the store's key gives,
/// and `key` whether there is such a key.
pub open spec fn opened_slots<K>(
    read0: Option<Result<Seq<u8>, Error>>,
    read1: Option<Result<Seq<u8>, Error>>,
    max: nat,
    read: spec_fn(Seq<u8>) -> Reading,
    key: Result<K, Error>,
) -> Result<Candidate, Error> {
    match (slot_zero_sorted(read0, max), slot_one_sorted(read1, max)) {
        (Ok(slot0), Ok(slot1)) => candidate_taken(
            read_content(slot0, read),
            read_content(slot1, read),
            key,
        ),
        (Err(e), _) => Err(e),
        (_, Err(e)) => Err(e),
    }
}

/// The newest image of the two slot files, or what they are refused with.
pub open spec fn newest_of_slots<K>(
    read0: Option<Result<Seq<u8>, Error>>,
    read1: Option<Result<Seq<u8>, Error>>,
    max: nat,
    read: spec_fn(Seq<u8>) -> Reading,
    key: Result<K, Error>,
) -> Result<Seq<u8>, Error> {
    match (slot_zero_sorted(read0, max), slot_one_sorted(read1, max)) {
        (Ok(slot0), Ok(slot1)) => image_taken(
            slot0,
            slot1,
            read_content(slot0, read),
            read_content(slot1, read),
            key,
        ),
        (Err(e), _) => Err(e),
        (_, Err(e)) => Err(e),
    }
}

/// The newest image is the one an open takes: there is one exactly where an open
/// succeeds, it reads as what the open takes, and elsewhere the refusal is the
/// open's own -- a missing slot 0 among them.
pub proof fn law_the_newest_image_is_the_one_an_open_takes<K>(
    read0: Option<Result<Seq<u8>, Error>>,
    read1: Option<Result<Seq<u8>, Error>>,
    max: nat,
    read: spec_fn(Seq<u8>) -> Reading,
    key: Result<K, Error>,
)
    ensures
        match (
            newest_of_slots(read0, read1, max, read, key),
            opened_slots(read0, read1, max, read, key),
        ) {
            (Ok(image), Ok(taken)) => {
                &&& read(image).parsed == Ok::<Parsed, Error>(taken.parsed)
                &&& read(image).header matches Ok(header) && header.version == taken.version
            },
            (Err(e), Err(why)) => e == why,
            _ => false,
        },
        read0 is None ==> newest_of_slots(read0, read1, max, read, key) == Err::<Seq<u8>, Error>(
            Error::Missing,
        ),
{
}

impl SlotZeroRead {
    pub closed spec fn site(&self) -> Site {
        self.site
    }

    pub closed spec fn has_one(&self) -> bool {
        self.held1
    }

    pub closed spec fn zero(&self) -> Content<Scrubbed> {
        self.slot0
    }

    /// Whether there is a slot 1 to read.
    pub fn holds_one(&self) -> (there: bool)
        ensures
            there == self.has_one(),
    {
        self.held1
    }

    /// Slot 1's bytes, or why they could not be read, where there is one.
    pub fn read_one(self, read: Option<Result<Scrubbed, Error>>) -> (next: Result<
        SlotsRead,
        Error,
    >)
        requires
            read is Some <==> self.has_one(),
        ensures
            match (next, slot_one_sorted(read_bytes(read), self.site().limits.max as nat)) {
                (Ok(next), Ok(slot1)) => {
                    &&& next.site() == self.site()
                    &&& next.has_one() == self.has_one()
                    &&& next.zero() == self.zero()
                    &&& content_bytes(next.one()) == slot1
                },
                (Err(e), Err(why)) => e == why,
                _ => false,
            },
    {
        let slot1 = match sort_slot_one(read, self.site.limits.max) {
            Ok(slot1) => slot1,
            Err(e) => {
                return Err(e);
            },
        };
        Ok(SlotsRead { site: self.site, held1: self.held1, slot0: self.slot0, slot1 })
    }
}

/// Every account map in a reading is in order.
pub open spec fn reading_wf(reading: Content<Reading>) -> bool {
    match reading {
        Content::Image(reading) | Content::Other(reading) => reading.parsed matches Ok(parsed)
            ==> parsed.slots.wf(),
        _ => true,
    }
}

impl SlotsRead {
    pub closed spec fn site(&self) -> Site {
        self.site
    }

    pub closed spec fn has_one(&self) -> bool {
        self.held1
    }

    pub closed spec fn zero(&self) -> Content<Scrubbed> {
        self.slot0
    }

    pub closed spec fn one(&self) -> Content<Scrubbed> {
        self.slot1
    }

    /// What slot 0 was sorted as.
    pub fn slot_zero(&self) -> (content: &Content<Scrubbed>)
        ensures
            *content == self.zero(),
    {
        &self.slot0
    }

    /// What slot 1 was sorted as.
    pub fn slot_one(&self) -> (content: &Content<Scrubbed>)
        ensures
            *content == self.one(),
    {
        &self.slot1
    }

    /// Take the newest image, given what was read of each slot and the store's
    /// key: the store, holding exactly that image, with the other slot the next
    /// commit's.
    pub fn take(
        self,
        slot0: Content<Reading>,
        slot1: Content<Reading>,
        key: Result<Scrubbed, Error>,
    ) -> (store: Result<Keystore, Error>)
        requires
            reading_of(self.zero(), slot0),
            reading_of(self.one(), slot1),
            reading_wf(slot0),
            reading_wf(slot1),
        ensures
            match (store, candidate_taken(slot0, slot1, key)) {
                (Ok(store), Ok(taken)) => {
                    let header = key_header(headers(slot0), headers(slot1))->Ok_0;
                    &&& store.wf()
                    &&& store.model() == (Model {
                        dir: self.site().dir@,
                        standing: Standing::Live {
                            generation: taken.parsed.generation,
                            slots: taken.parsed.slots@,
                        },
                        master: secret_bytes(taken.parsed.master),
                        key: key->Ok_0@,
                        kdf: header.kdf,
                        salt: header.salt@,
                        nonce_seed: self.site().nonce_seed@,
                        opened_version: taken.version,
                        on_disk_version: taken.version,
                        layout: Layout::Slots(
                            SlotFiles {
                                held0: true,
                                held1: self.has_one(),
                                newest: Some(taken.slot),
                                on_device: false,
                                vacate: self.zero() is Other,
                            },
                        ),
                        limits: self.site().limits,
                    })
                },
                (Err(e), Err(why)) => e == why,
                _ => false,
            },
    {
        let vacate = match &self.slot0 {
            Content::Other(_) => true,
            _ => false,
        };
        match take(slot0, slot1, key) {
            Ok(taken) => {
                let crypto = StoreCrypto {
                    key: taken.key,
                    kdf: taken.kdf,
                    salt: taken.salt,
                    nonce_seed: self.site.nonce_seed,
                };
                let layout = Layout::Slots(
                    SlotFiles {
                        held0: true,
                        held1: self.held1,
                        newest: Some(taken.newest),
                        on_device: false,
                        vacate,
                    },
                );
                Ok(
                    Keystore::assemble(
                        self.site.dir,
                        taken.parsed.generation,
                        taken.parsed.slots,
                        taken.parsed.master,
                        crypto,
                        taken.version,
                        layout,
                        self.site.limits,
                    ),
                )
            },
            Err(e) => Err(e),
        }
    }
}

} // verus!
