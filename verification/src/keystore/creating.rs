//! Creating a store: a new directory or a safe one, nothing in it that is a
//! store, the lock, a key, and an empty first image.
//!
//! Whether the directory holds a store is asked twice, before the lock and again
//! under it: a second creation can pass the first question while another holds
//! the lock with its image not yet in place, and must not seal an empty store
//! over it. The key is derived before the first write, so a store that exists is
//! a store whose key was derivable. The directory that holds the store's own
//! entry is flushed once, before the first commit.

use vstd::prelude::*;

use crate::error::{Error, IoKind};
use crate::keystore::accounts::{Slot, SlotMap};
use crate::keystore::change::{Change, Edit};
use crate::keystore::commit::{Layout, SlotFiles};
use crate::keystore::format::{ImageLimits, Kdf, VERSION};
use crate::keystore::medium::{io, parent_of, Op};
#[allow(unused_imports)]
use crate::keystore::medium::{holds_directory, io_error};
use crate::keystore::opening::{take_lock, LockTry};
#[allow(unused_imports)]
use crate::keystore::opening::lock_outcome;
use crate::keystore::store::{Init, Keystore, StoreCrypto};
#[allow(unused_imports)]
use crate::keystore::store::{accepts, Model, Standing};
use crate::scrubbed::{copied, Scrubbed};

verus! {

/// Which layout a new store is made in.
#[derive(Clone, Copy, Debug, PartialEq, Eq, Structural)]
pub enum LayoutKind {
    Rename,
    Slots,
}

/// What a creation is refused for, given which of the store's files are there:
/// the snapshot, and in the slot layout slot 1 as well, which is written before
/// slot 0 and may be the last copy of a store. The lock file's existence is no
/// refusal: it says nothing about a holder.
pub open spec fn occupant(kind: LayoutKind, snapshot: bool, slot1: bool) -> Option<&'static str> {
    if snapshot || (kind == LayoutKind::Slots && slot1) {
        Some("snapshot")
    } else {
        None
    }
}

/// What a creation would refuse a directory for: see [`occupant`].
pub fn occupied(kind: LayoutKind, snapshot: bool, slot1: bool) -> (what: Option<&'static str>)
    ensures
        what == occupant(kind, snapshot, slot1),
{
    if snapshot {
        return Some("snapshot");
    }
    if kind == LayoutKind::Slots && slot1 {
        return Some("snapshot");
    }
    None
}

/// What was made of the store's directory.
#[derive(Clone, Copy, Debug, PartialEq, Eq, Structural)]
pub enum DirectorySeen {
    /// It was there.
    There,
    /// It was not, and has been created for this user alone.
    Created,
    /// It was not, and could not be created.
    NotCreated(IoKind),
}

/// What a creation carries from its first stage to its last.
pub struct Plot {
    pub dir: String,
    pub salt: Vec<u8>,
    pub nonce_seed: Vec<u8>,
    pub kdf: Kdf,
    pub kind: LayoutKind,
    pub limits: ImageLimits,
}

/// A creation, with nothing looked at yet.
pub struct Creating {
    plot: Plot,
}

/// The directory exists.
pub struct Directory {
    plot: Plot,
}

/// The directory is one nobody else can write to.
pub struct Private {
    plot: Plot,
}

/// No store was seen in it.
pub struct Empty {
    plot: Plot,
}

/// The lock is held.
pub struct Claimed {
    plot: Plot,
}

/// No store is in it, asked holding the lock.
pub struct Vacant {
    plot: Plot,
}

/// The cost the key is to be derived at has been accepted.
pub struct Costed {
    plot: Plot,
    kdf: Kdf,
}

/// The key has been derived, and nothing has been written.
pub struct Derived {
    plot: Plot,
    kdf: Kdf,
    key: Scrubbed,
}

impl Creating {
    pub closed spec fn plot(&self) -> Plot {
        self.plot
    }

    /// Begin to create a store in `dir`.
    pub fn begin(dir: &str, init: &Init, kind: LayoutKind, limits: ImageLimits) -> (creating:
        Creating)
        ensures
            creating.plot().dir@ == dir@,
            creating.plot().salt@ == init.salt@,
            creating.plot().nonce_seed@ == init.nonce_seed@,
            creating.plot().kdf == init.kdf,
            creating.plot().kind == kind,
            creating.plot().limits == limits,
    {
        Creating {
            plot: Plot {
                dir: dir.to_owned(),
                salt: copied(init.salt),
                nonce_seed: copied(init.nonce_seed),
                kdf: init.kdf,
                kind,
                limits,
            },
        }
    }

    /// What was made of the directory.
    pub fn directory(self, seen: DirectorySeen) -> (next: Result<Directory, Error>)
        ensures
            match (next, seen) {
                (Ok(next), DirectorySeen::There) | (Ok(next), DirectorySeen::Created) => next.plot()
                    == self.plot(),
                (Err(e), DirectorySeen::NotCreated(kind)) => e == io_error(
                    Op::CreateDirectory,
                    kind,
                ),
                _ => false,
            },
    {
        match seen {
            DirectorySeen::There => Ok(Directory { plot: self.plot }),
            DirectorySeen::Created => Ok(Directory { plot: self.plot }),
            DirectorySeen::NotCreated(kind) => Err(io(Op::CreateDirectory, kind)),
        }
    }
}

impl Directory {
    pub closed spec fn plot(&self) -> Plot {
        self.plot
    }

    /// What the permission check made of the directory.
    pub fn checked(self, checked: Result<(), Error>) -> (next: Result<Private, Error>)
        ensures
            match (next, checked) {
                (Ok(next), Ok(_)) => next.plot() == self.plot(),
                (Err(e), Err(why)) => e == why,
                _ => false,
            },
    {
        match checked {
            Ok(_) => Ok(Private { plot: self.plot }),
            Err(e) => Err(e),
        }
    }
}

impl Private {
    pub closed spec fn plot(&self) -> Plot {
        self.plot
    }

    /// Which of a store's files are there.
    pub fn files(self, snapshot: bool, slot1: bool) -> (next: Result<Empty, Error>)
        ensures
            match (next, occupant(self.plot().kind, snapshot, slot1)) {
                (Ok(next), None) => next.plot() == self.plot(),
                (Err(e), Some(what)) => e == (Error::Exists { what }),
                _ => false,
            },
    {
        match occupied(self.plot.kind, snapshot, slot1) {
            Some(what) => Err(Error::Exists { what }),
            None => Ok(Empty { plot: self.plot }),
        }
    }
}

impl Empty {
    pub closed spec fn plot(&self) -> Plot {
        self.plot
    }

    /// How taking the lock went.
    pub fn lock(self, tried: LockTry) -> (next: Result<Claimed, Error>)
        ensures
            match (next, lock_outcome(tried)) {
                (Ok(next), Ok(_)) => next.plot() == self.plot(),
                (Err(e), Err(why)) => e == why,
                _ => false,
            },
    {
        match take_lock(tried) {
            Ok(_) => Ok(Claimed { plot: self.plot }),
            Err(e) => Err(e),
        }
    }
}

impl Claimed {
    pub closed spec fn plot(&self) -> Plot {
        self.plot
    }

    /// Which of a store's files are there now, asked again under the lock.
    pub fn files(self, snapshot: bool, slot1: bool) -> (next: Result<Vacant, Error>)
        ensures
            match (next, occupant(self.plot().kind, snapshot, slot1)) {
                (Ok(next), None) => next.plot() == self.plot(),
                (Err(e), Some(what)) => e == (Error::Exists { what }),
                _ => false,
            },
    {
        match occupied(self.plot.kind, snapshot, slot1) {
            Some(what) => Err(Error::Exists { what }),
            None => Ok(Vacant { plot: self.plot }),
        }
    }
}

impl Vacant {
    pub closed spec fn plot(&self) -> Plot {
        self.plot
    }

    /// The cost the key is to be derived at.
    pub fn kdf(&self) -> (kdf: Kdf)
        ensures
            kdf == self.plot().kdf,
    {
        self.plot.kdf
    }

    /// That cost as it was accepted, or why it was not.
    pub fn costed(self, kdf: Result<Kdf, Error>) -> (next: Result<Costed, Error>)
        ensures
            match (next, kdf) {
                (Ok(next), Ok(kdf)) => next.plot() == self.plot() && next.cost() == kdf,
                (Err(e), Err(why)) => e == why,
                _ => false,
            },
    {
        match kdf {
            Ok(kdf) => Ok(Costed { plot: self.plot, kdf }),
            Err(e) => Err(e),
        }
    }
}

impl Costed {
    pub closed spec fn plot(&self) -> Plot {
        self.plot
    }

    pub closed spec fn cost(&self) -> Kdf {
        self.kdf
    }

    /// What the key is derived at.
    pub fn kdf(&self) -> (kdf: Kdf)
        ensures
            kdf == self.cost(),
    {
        self.kdf
    }

    /// What the key is derived with.
    pub fn salt(&self) -> (salt: &[u8])
        ensures
            salt@ == self.plot().salt@,
    {
        self.plot.salt.as_slice()
    }

    /// The key those derive.
    pub fn key(self, key: Result<Scrubbed, Error>) -> (next: Result<Derived, Error>)
        ensures
            match (next, key) {
                (Ok(next), Ok(key)) => {
                    &&& next.plot() == self.plot()
                    &&& next.cost() == self.cost()
                    &&& next.secret() == key
                },
                (Err(e), Err(why)) => e == why,
                _ => false,
            },
    {
        match key {
            Ok(key) => Ok(Derived { plot: self.plot, kdf: self.kdf, key }),
            Err(e) => Err(e),
        }
    }
}

impl Derived {
    pub closed spec fn plot(&self) -> Plot {
        self.plot
    }

    pub closed spec fn cost(&self) -> Kdf {
        self.kdf
    }

    pub closed spec fn secret(&self) -> Scrubbed {
        self.key
    }

    /// The directory to flush before the first commit: the one that holds the
    /// store's directory.
    pub fn parent(&self) -> (parent: String)
        ensures
            holds_directory(parent@, self.plot().dir@),
    {
        parent_of(self.plot.dir.as_str())
    }

    /// How flushing it went: the store, empty and at its first generation, and
    /// the change its first commit carries.
    pub fn parent_flushed(self, flushed: Result<(), Error>) -> (made: Result<
        (Keystore, Change),
        Error,
    >)
        ensures
            match (made, flushed) {
                (Ok((store, change)), Ok(_)) => {
                    &&& store.wf()
                    &&& store.model() == (Model {
                        dir: self.plot().dir@,
                        standing: Standing::Live { generation: 0, slots: Seq::<Slot>::empty() },
                        master: None,
                        key: self.secret()@,
                        kdf: self.cost(),
                        salt: self.plot().salt@,
                        nonce_seed: self.plot().nonce_seed@,
                        opened_version: VERSION,
                        on_disk_version: VERSION,
                        layout: match self.plot().kind {
                            LayoutKind::Rename => Layout::Rename,
                            LayoutKind::Slots => Layout::Slots(
                                SlotFiles {
                                    held0: false,
                                    held1: false,
                                    newest: None,
                                    on_device: true,
                                    vacate: true,
                                },
                            ),
                        },
                        limits: self.plot().limits,
                    })
                    &&& accepts(store.model(), change)
                    &&& change.what() is Fresh
                    &&& change.next_generation() == 0
                },
                (Err(e), Err(why)) => e == why,
                _ => false,
            },
    {
        match flushed {
            Ok(_) => {},
            Err(e) => {
                return Err(e);
            },
        }
        let layout = match self.plot.kind {
            LayoutKind::Rename => Layout::Rename,
            LayoutKind::Slots => Layout::Slots(SlotFiles::fresh()),
        };
        let crypto = StoreCrypto {
            key: self.key,
            kdf: self.kdf,
            salt: self.plot.salt,
            nonce_seed: self.plot.nonce_seed,
        };
        let store = Keystore::assemble(
            self.plot.dir,
            0,
            SlotMap::new(),
            None,
            crypto,
            VERSION,
            layout,
            self.plot.limits,
        );
        Ok((store, Change::new(0, Edit::Fresh)))
    }
}

} // verus!
