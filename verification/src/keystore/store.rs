//! The keystore handle: what it holds, what each operation stages, and what it
//! holds once the commit that makes an operation durable has ended.
//!
//! Every operation goes the same way. It is staged against what the handle
//! holds, or refused. The image that carries it is sealed. The commit's steps
//! are performed one by one. Only once the last has succeeded does the handle
//! take the change in, and only then does a receipt exist. After any commit
//! error memory and disk are unknown relative to each other, so the handle is
//! poisoned: it refuses every later call, and is dropped and reopened, never
//! retried.

use vstd::prelude::*;

use crate::account::{Account, AccountKind, AccountRecord, KeyMaterial, StreamId, Tag, WotsIndex};
#[allow(unused_imports)]
use crate::account::{advanced_index, bytes_below, kind_of, not_ahead, record_of, stored_stream};
use crate::error::Error;
use crate::keystore::accounts::{Figures, Pending, Slot, SlotMap};
#[allow(unused_imports)]
use crate::keystore::accounts::{ascending, holds, slot_of};
use crate::keystore::change::{apply, records_with, same_tag, Change, Edit, Override, RecordRef};
#[allow(unused_imports)]
use crate::keystore::change::{accounts_of, applied, extra_of, override_of, records_of, stageable};
use crate::keystore::commit::{Commit, Layout};
#[allow(unused_imports)]
use crate::keystore::commit::{layout_after, steps_of};
use crate::keystore::format::{ImageLimits, Kdf, VERSION};
use crate::scrubbed::Scrubbed;

verus! {

/// Evidence that a commit's durable steps completed: in the rename layout all
/// four, the directory flush last; in the slot layout the flush of the slot
/// just written. It witnesses a state a power cut cannot take back, and nothing
/// outside this module can make one.
#[must_use]
pub struct Durable {
    _private: (),
}

/// Evidence that an account's position was moved, and that the move is durable.
#[must_use]
pub struct AdvanceReceipt {
    tag: Tag,
    index: WotsIndex,
    _durable: Durable,
}

impl AdvanceReceipt {
    /// The account that was moved.
    pub closed spec fn of(&self) -> Tag {
        self.tag
    }

    /// The position it was moved to.
    pub closed spec fn attested(&self) -> WotsIndex {
        self.index
    }

    fn attesting(tag: Tag, index: WotsIndex, durable: Durable) -> (receipt: AdvanceReceipt)
        ensures
            receipt.of() == tag,
            receipt.attested() == index,
    {
        AdvanceReceipt { tag, index, _durable: durable }
    }

    /// The account that was moved.
    pub fn tag(&self) -> (tag: Tag)
        ensures
            tag == self.of(),
    {
        self.tag
    }

    /// The position it was moved to.
    pub fn index(&self) -> (index: WotsIndex)
        ensures
            index == self.attested(),
    {
        self.index
    }
}

/// A non-secret view of one account.
#[derive(Clone, Copy, Debug, PartialEq, Eq)]
pub struct AccountView {
    pub tag: Tag,
    pub kind: AccountKind,
    pub wots_index: WotsIndex,
    /// The open reservation, if one is open.
    pub pending: Option<Pending>,
    /// The last settled reservation, retained until the index moves.
    pub settled: Option<Pending>,
}

/// What is supplied to open an existing store. `nonce_seed` is entropy.
pub struct Unlock<'a> {
    pub password: &'a [u8],
    pub nonce_seed: &'a [u8],
}

/// What is supplied to create one. The salt is entropy too.
pub struct Init<'a> {
    pub password: &'a [u8],
    pub salt: &'a [u8],
    pub nonce_seed: &'a [u8],
    /// The cost this store's key is derived at.
    pub kdf: Kdf,
}

enum State {
    Live { generation: u64, slots: SlotMap },
    Poisoned(Error),
}

/// What a handle needs to read and write its own store. No `Debug`, no `Clone`:
/// it holds a key.
pub struct StoreCrypto {
    pub key: Scrubbed,
    pub kdf: Kdf,
    pub salt: Vec<u8>,
    /// The entropy the nonce of each commit is derived from.
    pub nonce_seed: Vec<u8>,
}

/// The keystore handle. No `Clone`: two handles are two writers.
#[must_use]
pub struct Keystore {
    dir: String,
    state: State,
    master: Option<Scrubbed>,
    crypto: StoreCrypto,
    opened_version: u16,
    on_disk_version: u16,
    layout: Layout,
    limits: ImageLimits,
}

/// A handle's state: the accounts and the commit counter, or the error it was
/// poisoned by.
pub enum Standing {
    Live { generation: u64, slots: Seq<Slot> },
    Poisoned(Error),
}

/// Everything a handle holds.
pub struct Model {
    pub dir: Seq<char>,
    pub standing: Standing,
    pub master: Option<Seq<u8>>,
    pub key: Seq<u8>,
    pub kdf: Kdf,
    pub salt: Seq<u8>,
    pub nonce_seed: Seq<u8>,
    pub opened_version: u16,
    pub on_disk_version: u16,
    pub layout: Layout,
    pub limits: ImageLimits,
}

/// The bytes a secret holds, where there is one.
pub open spec fn secret_bytes(secret: Option<Scrubbed>) -> Option<Seq<u8>> {
    match secret {
        Some(secret) => Some(secret@),
        None => None,
    }
}

/// What every call on a poisoned handle is refused with.
pub open spec fn poison_refusal(m: Model) -> Option<Error> {
    match m.standing {
        Standing::Live { .. } => None,
        Standing::Poisoned(first) => Some(Error::Poisoned { first: Box::new(first) }),
    }
}

/// The format version the handle read, where the one on disk is another by now.
pub open spec fn upgraded(m: Model) -> Option<u16> {
    if m.opened_version != m.on_disk_version {
        Some(m.opened_version)
    } else {
        None
    }
}

/// The refusal of a commit past the last generation there is.
pub open spec fn generation_refusal(generation: u64) -> Option<Error> {
    if generation == u64::MAX {
        Some(
            Error::Range {
                what: "keystore generation",
                min: 0,
                max: (u64::MAX - 1) as u64,
                got: generation,
            },
        )
    } else {
        None
    }
}

/// Why a master seed is not adopted: the handle is poisoned, the store holds
/// one, or there is no generation left.
pub open spec fn adopt_refusal(m: Model) -> Option<Error> {
    match m.standing {
        Standing::Poisoned(_) => poison_refusal(m),
        Standing::Live { generation, slots } => if m.master is Some {
            Some(Error::Exists { what: "master seed" })
        } else {
            generation_refusal(generation)
        },
    }
}

/// What an account's key material produces, recomputed rather than read off it.
pub enum Recomputed {
    /// The stream an imported account's root produces.
    Root { stream: StreamId },
    /// The tag and the stream the store's master seed produces at a derived
    /// account's index.
    Master { tag: Tag, stream: StreamId },
    /// Nothing: a derived account in a store that holds no master seed.
    Carried,
}

/// What has to be recomputed for an account.
#[derive(Clone, Copy, Debug, PartialEq, Eq, Structural)]
pub enum Recompute {
    Root,
    Master,
    Carried,
}

/// What has to be recomputed for an account: from its root, or from the master
/// seed where the store holds one.
pub open spec fn to_recompute(m: Model, account: Account) -> Recompute {
    match account.key_material {
        KeyMaterial::Imported { .. } => Recompute::Root,
        KeyMaterial::Derived { .. } => if m.master is Some {
            Recompute::Master
        } else {
            Recompute::Carried
        },
    }
}

/// What was recomputed is what had to be.
pub open spec fn recomputed_as(recomputed: Recomputed, asked: Recompute) -> bool {
    match asked {
        Recompute::Root => recomputed is Root,
        Recompute::Master => recomputed is Master,
        Recompute::Carried => recomputed is Carried,
    }
}

/// The stream an account's key material produces. A derived account whose tag
/// or stream is not what the master seed produces is refused.
pub open spec fn recomputed_stream(account: Account, recomputed: Recomputed) -> Result<
    StreamId,
    Error,
> {
    match recomputed {
        Recomputed::Root { stream } => Ok(stream),
        Recomputed::Master { tag, stream } => if tag != account.tag {
            Err(
                Error::DerivedTagNotReproduced {
                    account_index: account.key_material->Derived_account_index,
                },
            )
        } else if stream != stored_stream(account.key_material) {
            Err(Error::StreamIdNotReproduced)
        } else {
            Ok(stream)
        },
        Recomputed::Carried => Ok(stored_stream(account.key_material)),
    }
}

/// The two accounts were imported from one root.
pub open spec fn same_root(a: Account, b: Account) -> bool {
    match (a.key_material, b.key_material) {
        (KeyMaterial::Imported { root: x, .. }, KeyMaterial::Imported { root: y, .. }) => x@ == y@,
        _ => false,
    }
}

/// Some account already has the incoming one's root.
pub open spec fn root_held(slots: Seq<Slot>, account: Account) -> bool {
    exists|i: int| 0 <= i < slots.len() && same_root(#[trigger] slots[i].account, account)
}

/// Some account already has this key stream.
pub open spec fn stream_held(slots: Seq<Slot>, stream: StreamId) -> bool {
    exists|i: int|
        0 <= i < slots.len() && stored_stream(#[trigger] slots[i].account.key_material) == stream
}

/// Why an account is not added: the handle is poisoned; its tag, its imported
/// root or its key stream is in the store already; its key material does not
/// reproduce it; or there is no generation left. In that order.
pub open spec fn add_refusal(m: Model, account: Account, recomputed: Recomputed) -> Option<Error> {
    match m.standing {
        Standing::Poisoned(_) => poison_refusal(m),
        Standing::Live { generation, slots } => if holds(slots, account.tag) {
            Some(Error::Exists { what: "account tag" })
        } else if root_held(slots, account) {
            Some(Error::Exists { what: "imported root" })
        } else {
            match recomputed_stream(account, recomputed) {
                Err(e) => Some(e),
                Ok(stream) => if stream_held(slots, stream) {
                    Some(Error::Exists { what: "key stream" })
                } else {
                    generation_refusal(generation)
                },
            }
        },
    }
}

/// Why an account's key is not reserved: no such account, a reservation already
/// open, or no key or generation left.
pub open spec fn advance_refusal(m: Model, tag: Tag) -> Option<Error> {
    match m.standing {
        Standing::Poisoned(_) => poison_refusal(m),
        Standing::Live { generation, slots } => if !holds(slots, tag) {
            Some(Error::NoSuchAccount)
        } else {
            let slot = slot_of(slots, tag);
            match (slot.pending, advanced_index(slot.account.wots_index)) {
                (Some(open), _) => Some(
                    Error::PendingUnresolved { spent_index: open.spent_index.index },
                ),
                (None, Err(e)) => Some(e),
                (None, Ok(_)) => generation_refusal(generation),
            }
        },
    }
}

/// Why an account is not moved to `target`: no such account, a reservation open,
/// a target that is not strictly ahead, or no generation left.
pub open spec fn advance_to_refusal(m: Model, tag: Tag, target: WotsIndex) -> Option<Error> {
    match m.standing {
        Standing::Poisoned(_) => poison_refusal(m),
        Standing::Live { generation, slots } => if !holds(slots, tag) {
            Some(Error::NoSuchAccount)
        } else {
            let slot = slot_of(slots, tag);
            match slot.pending {
                Some(open) => Some(
                    Error::PendingUnresolved { spent_index: open.spent_index.index },
                ),
                None => if target.index <= slot.account.wots_index.index {
                    Some(not_ahead("wots index for tag", slot.account.wots_index, target))
                } else {
                    generation_refusal(generation)
                },
            }
        },
    }
}

/// Why an open reservation is not settled: no such account, none open, or no
/// generation left.
pub open spec fn settle_refusal(m: Model, tag: Tag) -> Option<Error> {
    match m.standing {
        Standing::Poisoned(_) => poison_refusal(m),
        Standing::Live { generation, slots } => if !holds(slots, tag) {
            Some(Error::NoSuchAccount)
        } else if slot_of(slots, tag).pending is None {
            Some(Error::NothingPending)
        } else {
            generation_refusal(generation)
        },
    }
}

/// The change was staged on what the handle holds now.
pub open spec fn accepts(m: Model, change: Change) -> bool {
    match m.standing {
        Standing::Live { generation, slots } => {
            &&& stageable(slots, change.what())
            &&& if change.what() is Fresh {
                change.next_generation() == generation
            } else {
                change.next_generation() == generation + 1
            }
            &&& change.what() matches Edit::Settle { tag, .. } ==> holds(slots, tag)
        },
        Standing::Poisoned(_) => false,
    }
}

/// The master seed an image carries: the one the change adopts, or the store's.
pub open spec fn sealed_master(m: Model, edit: Edit) -> Option<Seq<u8>> {
    match edit {
        Edit::Master(master) => Some(master@),
        _ => m.master,
    }
}

/// What the handle holds once a commit has ended: the change, if every step
/// succeeded; otherwise the error, and nothing else will be done with it.
pub open spec fn finished(m: Model, change: Change, outcome: Result<Layout, Error>) -> Model {
    match outcome {
        Err(e) => Model { standing: Standing::Poisoned(e), ..m },
        Ok(layout) => match applied(m.standing->Live_slots, change.what()) {
            Err(e) => Model {
                standing: Standing::Poisoned(e),
                on_disk_version: VERSION,
                layout,
                ..m
            },
            Ok(slots) => Model {
                standing: Standing::Live { generation: change.next_generation(), slots },
                master: sealed_master(m, change.what()),
                on_disk_version: VERSION,
                layout,
                ..m
            },
        },
    }
}

/// What a durable change hands back.
pub enum Done {
    /// The store was created.
    Created(Durable),
    /// The master seed was adopted.
    Adopted(Durable),
    /// The account was added. No receipt: receipts attest advances.
    Added,
    /// The account was moved, and this attests where to.
    Advanced(AdvanceReceipt),
    /// The reservation was settled.
    Settled,
}

/// What is handed back is what the change did.
pub open spec fn done_as(done: Done, edit: Edit) -> bool {
    match edit {
        Edit::Fresh => done is Created,
        Edit::Master(_) => done is Adopted,
        Edit::Account(_) => done is Added,
        Edit::Advance { tag, next, .. } => match done {
            Done::Advanced(receipt) => receipt.of() == tag && receipt.attested() == next,
            _ => false,
        },
        Edit::Settle { .. } => done is Settled,
    }
}

/// What an image is sealed from, and under what.
pub struct SealRequest<'a> {
    pub records: Vec<RecordRef<'a>>,
    pub generation: u64,
    pub master: Option<&'a Scrubbed>,
    pub kdf: Kdf,
    pub salt: &'a [u8],
    pub key: &'a Scrubbed,
    /// The nonce is derived from this and the generation.
    pub nonce_seed: &'a [u8],
}

impl Keystore {
    /// Everything the handle holds.
    pub closed spec fn model(&self) -> Model {
        Model {
            dir: self.dir@,
            standing: match self.state {
                State::Live { generation, slots } => Standing::Live { generation, slots: slots@ },
                State::Poisoned(e) => Standing::Poisoned(e),
            },
            master: secret_bytes(self.master),
            key: self.crypto.key@,
            kdf: self.crypto.kdf,
            salt: self.crypto.salt@,
            nonce_seed: self.crypto.nonce_seed@,
            opened_version: self.opened_version,
            on_disk_version: self.on_disk_version,
            layout: self.layout,
            limits: self.limits,
        }
    }

    /// The accounts are in order of tag, each once, and the files are as many as
    /// the layout has.
    pub closed spec fn wf(&self) -> bool {
        &&& match self.state {
            State::Live { generation, slots } => slots.wf(),
            State::Poisoned(_) => true,
        }
        &&& self.layout.wf()
    }

    /// The accounts of a live handle are in ascending order of tag, and its slots,
    /// where it has any, are in order.
    pub proof fn law_a_handle_is_in_order(&self)
        requires
            self.wf(),
        ensures
            self.model().standing matches Standing::Live { slots, .. } ==> ascending(slots),
            self.model().layout.wf(),
    {
    }

    /// A handle over what an open read or a new store starts as.
    pub(crate) fn assemble(
        dir: String,
        generation: u64,
        slots: SlotMap,
        master: Option<Scrubbed>,
        crypto: StoreCrypto,
        version: u16,
        layout: Layout,
        limits: ImageLimits,
    ) -> (store: Keystore)
        requires
            slots.wf(),
            layout.wf(),
        ensures
            store.wf(),
            store.model() == (Model {
                dir: dir@,
                standing: Standing::Live { generation, slots: slots@ },
                master: secret_bytes(master),
                key: crypto.key@,
                kdf: crypto.kdf,
                salt: crypto.salt@,
                nonce_seed: crypto.nonce_seed@,
                opened_version: version,
                on_disk_version: version,
                layout,
                limits,
            }),
    {
        Keystore {
            dir,
            state: State::Live { generation, slots },
            master,
            crypto,
            opened_version: version,
            on_disk_version: version,
            layout,
            limits,
        }
    }

    /// The generation and the accounts, unless the handle is poisoned.
    fn live(&self) -> (live: Result<(u64, &SlotMap), Error>)
        requires
            self.wf(),
        ensures
            match (live, self.model().standing) {
                (Ok((generation, slots)), Standing::Live { generation: g, slots: held }) => {
                    generation == g && slots@ == held && slots.wf()
                },
                (Err(e), Standing::Poisoned(_)) => poison_refusal(self.model()) == Some(e),
                _ => false,
            },
    {
        match &self.state {
            State::Live { generation, slots } => Ok((*generation, slots)),
            State::Poisoned(first) => Err(Error::Poisoned { first: Box::new(first.duplicate()) }),
        }
    }

    /// The store's directory.
    pub fn dir(&self) -> (dir: &str)
        ensures
            dir@ == self.model().dir,
    {
        self.dir.as_str()
    }

    /// The store-level commit counter.
    pub fn generation(&self) -> (generation: Result<u64, Error>)
        requires
            self.wf(),
        ensures
            match (generation, self.model().standing) {
                (Ok(generation), Standing::Live { generation: g, .. }) => generation == g,
                (Err(e), Standing::Poisoned(_)) => poison_refusal(self.model()) == Some(e),
                _ => false,
            },
    {
        match self.live() {
            Ok((generation, _)) => Ok(generation),
            Err(e) => Err(e),
        }
    }

    /// One account's view, or nothing where there is no such account.
    pub fn view(&self, tag: &Tag) -> (view: Result<Option<AccountView>, Error>)
        requires
            self.wf(),
        ensures
            match (view, self.model().standing) {
                (Ok(Some(view)), Standing::Live { slots, .. }) => holds(slots, *tag) && view
                    == viewed(slot_of(slots, *tag)),
                (Ok(None), Standing::Live { slots, .. }) => !holds(slots, *tag),
                (Err(e), Standing::Poisoned(_)) => poison_refusal(self.model()) == Some(e),
                _ => false,
            },
    {
        let (_, slots) = self.live()?;
        match slots.find(tag) {
            Ok(at) => {
                let slot = slots.at(at);
                Ok(
                    Some(
                        AccountView {
                            tag: slot.account.tag,
                            kind: slot.account.kind(),
                            wots_index: slot.account.wots_index,
                            pending: slot.pending,
                            settled: slot.settled,
                        },
                    ),
                )
            },
            Err(_) => Ok(None),
        }
    }

    /// The format version this handle read, once a commit has sealed another:
    /// nothing for a store of the version this build seals, nor for an older one
    /// that has not been written yet.
    pub fn upgraded_from(&self) -> (version: Option<u16>)
        ensures
            version == upgraded(self.model()),
    {
        if self.opened_version != self.on_disk_version {
            Some(self.opened_version)
        } else {
            None
        }
    }

    /// The public identity of an account's key stream, as its record carries it.
    pub fn stream_id(&self, tag: &Tag) -> (stream: Result<StreamId, Error>)
        requires
            self.wf(),
        ensures
            match (stream, self.model().standing) {
                (Ok(stream), Standing::Live { slots, .. }) => holds(slots, *tag) && stream
                    == stored_stream(slot_of(slots, *tag).account.key_material),
                (Err(e), Standing::Live { slots, .. }) => !holds(slots, *tag) && e
                    == Error::NoSuchAccount,
                (Err(e), Standing::Poisoned(_)) => poison_refusal(self.model()) == Some(e),
                _ => false,
            },
    {
        let (_, slots) = self.live()?;
        match slots.find(tag) {
            Ok(at) => Ok(stored_stream_id(&slots.at(at).account)),
            Err(_) => Err(Error::NoSuchAccount),
        }
    }

    /// The master seed this store holds, if it holds one.
    pub fn master(&self) -> (master: Result<Option<&Scrubbed>, Error>)
        requires
            self.wf(),
        ensures
            match (master, self.model().standing) {
                (Ok(Some(master)), Standing::Live { .. }) => self.model().master == Some(master@),
                (Ok(None), Standing::Live { .. }) => self.model().master is None,
                (Err(e), Standing::Poisoned(_)) => poison_refusal(self.model()) == Some(e),
                _ => false,
            },
    {
        let _live = self.live()?;
        match &self.master {
            Some(master) => Ok(Some(master)),
            None => Ok(None),
        }
    }

    /// Every tag, ascending.
    pub fn tags(&self) -> (tags: Result<Vec<Tag>, Error>)
        requires
            self.wf(),
        ensures
            match (tags, self.model().standing) {
                (Ok(tags), Standing::Live { slots, .. }) => {
                    &&& tags@ == Seq::new(slots.len(), |i: int| slots[i].account.tag)
                    &&& forall|i: int, j: int|
                        #![trigger tags@[i], tags@[j]]
                        0 <= i < j < tags@.len() ==> bytes_below(tags@[i]@, tags@[j]@)
                },
                (Err(e), Standing::Poisoned(_)) => poison_refusal(self.model()) == Some(e),
                _ => false,
            },
    {
        let (_, slots) = self.live()?;
        let mut tags: Vec<Tag> = Vec::new();
        let mut i: usize = 0;
        while i < slots.len()
            invariant
                i <= slots@.len(),
                tags@.len() == i,
                forall|j: int| 0 <= j < i ==> #[trigger] tags@[j] == slots@[j].account.tag,
            decreases slots@.len() - i,
        {
            tags.push(slots.at(i).account.tag);
            i = i + 1;
        }
        assert(tags@ =~= Seq::new(slots@.len(), |i: int| slots@[i].account.tag));
        Ok(tags)
    }

    /// Put a master seed into a store that has none. One that has one keeps it:
    /// its derived accounts are that seed's.
    pub fn adopt_master(&self, master: &Scrubbed) -> (staged: Result<Change, Error>)
        requires
            self.wf(),
        ensures
            match (staged, adopt_refusal(self.model())) {
                (Err(e), Some(why)) => e == why,
                (Ok(change), None) => {
                    &&& accepts(self.model(), change)
                    &&& match change.what() {
                        Edit::Master(adopted) => adopted@ == master@,
                        _ => false,
                    }
                },
                _ => false,
            },
    {
        let (generation, _) = self.live()?;
        if self.master.is_some() {
            return Err(Error::Exists { what: "master seed" });
        }
        let next = next_generation(generation)?;
        Ok(Change::new(next, Edit::Master(master.duplicate())))
    }

    /// What has to be recomputed before an account can be added.
    pub fn recompute(&self, account: &Account) -> (asked: Recompute)
        ensures
            asked == to_recompute(self.model(), *account),
    {
        match &account.key_material {
            KeyMaterial::Imported { .. } => Recompute::Root,
            KeyMaterial::Derived { .. } => if self.master.is_some() {
                Recompute::Master
            } else {
                Recompute::Carried
            },
        }
    }

    /// Add an account: see [`add_refusal`] for what refuses it. The incoming
    /// account's stream is the one its key material was found to produce, never
    /// the one it carries, wherever there is something to produce it from.
    pub fn add(&self, account: Account, recomputed: Recomputed) -> (staged: Result<Change, Error>)
        requires
            self.wf(),
            recomputed_as(recomputed, to_recompute(self.model(), account)),
        ensures
            match (staged, add_refusal(self.model(), account, recomputed)) {
                (Err(e), Some(why)) => e == why,
                (Ok(change), None) => accepts(self.model(), change) && change.what()
                    == Edit::Account(account),
                _ => false,
            },
    {
        let (generation, slots) = self.live()?;
        match slots.find(&account.tag) {
            Ok(_) => {
                return Err(Error::Exists { what: "account tag" });
            },
            Err(_) => {},
        }
        if holds_root(slots, &account) {
            return Err(Error::Exists { what: "imported root" });
        }
        let incoming = recomputed_stream_id(&account, &recomputed)?;
        if holds_stream(slots, &incoming) {
            return Err(Error::Exists { what: "key stream" });
        }
        let next = next_generation(generation)?;
        Ok(Change::new(next, Edit::Account(account)))
    }

    /// Reserve the account's current key for `digest` and move its position on
    /// by one. A retained settled block is released by this; an open reservation
    /// refuses it.
    pub fn persist_advance(&self, tag: &Tag, digest: &[u8; 32], figures: Figures) -> (staged:
        Result<Change, Error>)
        requires
            self.wf(),
        ensures
            match (staged, advance_refusal(self.model(), *tag)) {
                (Err(e), Some(why)) => e == why,
                (Ok(change), None) => {
                    let current = slot_of(
                        self.model().standing->Live_slots,
                        *tag,
                    ).account.wots_index;
                    &&& accepts(self.model(), change)
                    &&& change.what() == Edit::Advance {
                        tag: *tag,
                        next: WotsIndex { index: (current.index + 1) as u32 },
                        pending: Some(
                            Pending { spent_index: current, digest: *digest, figures: Some(figures) },
                        ),
                        settled: None,
                    }
                },
                _ => false,
            },
    {
        let (_, slots) = self.live()?;
        let at = match slots.find(tag) {
            Ok(at) => at,
            Err(_) => {
                return Err(Error::NoSuchAccount);
            },
        };
        let slot = slots.at(at);
        if let Some(open) = slot.pending {
            return Err(Error::PendingUnresolved { spent_index: open.spent_index.get() });
        }
        let current = slot.account.wots_index;
        let next = current.advanced()?;
        let pending = Some(
            Pending { spent_index: current, digest: *digest, figures: Some(figures) },
        );
        self.advance_committed(tag, next, pending, None)
    }

    /// Move an account forward to `target` without reserving a key. Anything not
    /// strictly ahead is refused, and so is any target while a reservation is
    /// open. A retained settled block is cleared.
    pub fn persist_advance_to(&self, tag: &Tag, target: WotsIndex) -> (staged: Result<
        Change,
        Error,
    >)
        requires
            self.wf(),
        ensures
            match (staged, advance_to_refusal(self.model(), *tag, target)) {
                (Err(e), Some(why)) => e == why,
                (Ok(change), None) => accepts(self.model(), change) && change.what()
                    == Edit::Advance { tag: *tag, next: target, pending: None, settled: None },
                _ => false,
            },
    {
        let (_, slots) = self.live()?;
        let at = match slots.find(tag) {
            Ok(at) => at,
            Err(_) => {
                return Err(Error::NoSuchAccount);
            },
        };
        let slot = slots.at(at);
        if let Some(open) = slot.pending {
            return Err(Error::PendingUnresolved { spent_index: open.spent_index.get() });
        }
        let stored = slot.account.wots_index;
        if target.get() <= stored.get() {
            return Err(
                Error::Range {
                    what: "wots index for tag",
                    min: stored.get() as u64 + 1,
                    max: u32::MAX as u64,
                    got: target.get() as u64,
                },
            );
        }
        self.advance_committed(tag, target, None, None)
    }

    /// The one commit that moves a position and sets both blocks to exactly what
    /// is passed. What it is passed is checked by its callers; a move that then
    /// cannot be applied poisons the handle, its image being durable by then.
    pub fn advance_committed(
        &self,
        tag: &Tag,
        next: WotsIndex,
        pending: Option<Pending>,
        settled: Option<Pending>,
    ) -> (staged: Result<Change, Error>)
        requires
            self.wf(),
        ensures
            match (staged, self.model().standing) {
                (Err(e), Standing::Live { generation, .. }) => generation_refusal(generation)
                    == Some(e),
                (Err(e), Standing::Poisoned(_)) => poison_refusal(self.model()) == Some(e),
                (Ok(change), Standing::Live { generation, .. }) => {
                    &&& generation_refusal(generation) is None
                    &&& accepts(self.model(), change)
                    &&& change.what() == Edit::Advance { tag: *tag, next, pending, settled }
                },
                _ => false,
            },
    {
        let (generation, _) = self.live()?;
        let next_gen = next_generation(generation)?;
        Ok(Change::new(next_gen, Edit::Advance { tag: *tag, next, pending, settled }))
    }

    /// Move the open reservation to the retained settled block, where it stays
    /// until the position moves.
    pub fn persist_settled(&self, tag: &Tag) -> (staged: Result<Change, Error>)
        requires
            self.wf(),
        ensures
            match (staged, settle_refusal(self.model(), *tag)) {
                (Err(e), Some(why)) => e == why,
                (Ok(change), None) => {
                    let slot = slot_of(self.model().standing->Live_slots, *tag);
                    &&& accepts(self.model(), change)
                    &&& slot.pending matches Some(block) && change.what() == Edit::Settle {
                        tag: *tag,
                        block,
                    }
                },
                _ => false,
            },
    {
        let (generation, slots) = self.live()?;
        let at = match slots.find(tag) {
            Ok(at) => at,
            Err(_) => {
                return Err(Error::NoSuchAccount);
            },
        };
        let block = match slots.at(at).pending {
            Some(block) => block,
            None => {
                return Err(Error::NothingPending);
            },
        };
        let next_gen = next_generation(generation)?;
        Ok(Change::new(next_gen, Edit::Settle { tag: *tag, block }))
    }

    /// What the image that carries a change is sealed from: the one place an
    /// image comes from.
    pub fn seal<'a>(&'a self, change: &'a Change) -> (request: SealRequest<'a>)
        requires
            self.wf(),
            accepts(self.model(), *change),
        ensures
            request.records@.map_values(|r: RecordRef<'a>| r@) == records_of(
                self.model().standing->Live_slots,
                override_of(self.model().standing->Live_slots, change.what()),
                extra_of(change.what()),
            ),
            request.records@.map_values(|r: RecordRef<'a>| *r.account) == accounts_of(
                self.model().standing->Live_slots,
                extra_of(change.what()),
            ),
            request.generation == change.next_generation(),
            match request.master {
                Some(master) => sealed_master(self.model(), change.what()) == Some(master@),
                None => sealed_master(self.model(), change.what()) is None,
            },
            request.kdf == self.model().kdf,
            request.salt@ == self.model().salt,
            request.key@ == self.model().key,
            request.nonce_seed@ == self.model().nonce_seed,
    {
        let own: Option<&Scrubbed> = match &self.master {
            Some(master) => Some(master),
            None => None,
        };
        let (over, extra, master): (Option<Override>, Option<&Account>, Option<&Scrubbed>) =
            match change.edit() {
            Edit::Fresh => (None, None, own),
            Edit::Master(master) => (None, None, Some(master)),
            Edit::Account(account) => (None, Some(account), own),
            Edit::Advance { tag, next, pending, settled } => (
                Some(Override { tag: *tag, index: *next, pending: *pending, settled: *settled }),
                None,
                own,
            ),
            Edit::Settle { tag, block } => (
                Some(
                    Override {
                        tag: *tag,
                        index: self.index_of(tag),
                        pending: None,
                        settled: Some(*block),
                    },
                ),
                None,
                own,
            ),
        };
        let records = match &self.state {
            State::Live { slots, .. } => records_with(slots, over, extra),
            State::Poisoned(_) => Vec::new(),
        };
        SealRequest {
            records,
            generation: change.generation(),
            master,
            kdf: self.crypto.kdf,
            salt: self.crypto.salt.as_slice(),
            key: &self.crypto.key,
            nonce_seed: self.crypto.nonce_seed.as_slice(),
        }
    }

    /// Where a held account stands.
    fn index_of(&self, tag: &Tag) -> (index: WotsIndex)
        requires
            self.wf(),
            self.model().standing matches Standing::Live { slots, .. } && holds(slots, *tag),
        ensures
            index == slot_of(self.model().standing->Live_slots, *tag).account.wots_index,
    {
        match &self.state {
            State::Live { slots, .. } => match slots.find(tag) {
                Ok(at) => slots.at(at).account.wots_index,
                Err(_) => WotsIndex::zero(),
            },
            State::Poisoned(_) => WotsIndex::zero(),
        }
    }

    /// Begin the commit of `image`, which carries `change`.
    pub fn commit(&self, change: Change, image: Scrubbed) -> (commit: Commit)
        requires
            self.wf(),
            accepts(self.model(), change),
        ensures
            commit.wf(),
            commit.staged() == change,
            commit.steps() == steps_of(self.model().layout, image@, self.model().limits.max),
            commit.done() == 0,
            commit.failure() is None,
            commit.leaves() == layout_after(self.model().layout),
    {
        Commit::begin(change, self.layout, image, self.limits.max)
    }

    /// Take in a commit that has ended. Every step performed: the handle holds
    /// the change, the version on disk is the one this build seals, and what
    /// attests it is handed back. Any error, or a change that cannot be applied
    /// once it is durable: the handle is poisoned by it before it is returned.
    pub fn finish(&mut self, commit: Commit) -> (done: Result<Done, Error>)
        requires
            old(self).wf(),
            commit.wf(),
            commit.is_ended(),
            accepts(old(self).model(), commit.staged()),
        ensures
            final(self).wf(),
            final(self).model() == finished(old(self).model(), commit.staged(), commit.outcome()),
            done is Ok <==> commit.outcome() is Ok && applied(
                old(self).model().standing->Live_slots,
                commit.staged().what(),
            ) is Ok,
            done is Ok ==> commit.done() == commit.steps().actions.len(),
            match done {
                Ok(done) => done_as(done, commit.staged().what()) && final(self).model().standing
                    is Live,
                Err(e) => final(self).model().standing == Standing::Poisoned(e),
            },
    {
        let (change, outcome) = commit.finish();
        match outcome {
            Ok(layout) => {
                self.on_disk_version = VERSION;
                self.layout = layout;
                let durable = Durable { _private: () };
                self.take_in(change, durable)
            },
            Err(e) => {
                self.state = State::Poisoned(e.duplicate());
                Err(e)
            },
        }
    }

    /// The application half of a commit, held to the commit's own rule: an error
    /// once the image is durable poisons the handle, since memory no longer says
    /// what disk says.
    fn take_in(&mut self, change: Change, durable: Durable) -> (done: Result<Done, Error>)
        requires
            old(self).wf(),
            accepts(old(self).model(), change),
        ensures
            final(self).wf(),
            final(self).model() == match applied(
                old(self).model().standing->Live_slots,
                change.what(),
            ) {
                Err(e) => Model { standing: Standing::Poisoned(e), ..old(self).model() },
                Ok(slots) => Model {
                    standing: Standing::Live { generation: change.next_generation(), slots },
                    master: sealed_master(old(self).model(), change.what()),
                    ..old(self).model()
                },
            },
            match done {
                Ok(done) => done_as(done, change.what()) && final(self).model().standing is Live,
                Err(e) => final(self).model().standing == Standing::Poisoned(e),
            },
    {
        let (next, edit) = change.into_parts();
        let done = match &edit {
            Edit::Fresh => Done::Created(durable),
            Edit::Master(_) => Done::Adopted(durable),
            Edit::Account(_) => Done::Added,
            Edit::Advance { tag, next, .. } => Done::Advanced(
                AdvanceReceipt::attesting(*tag, *next, durable),
            ),
            Edit::Settle { .. } => Done::Settled,
        };
        let applied = match &mut self.state {
            State::Live { generation, slots } => {
                *generation = next;
                apply(slots, edit)
            },
            State::Poisoned(first) => Err(first.duplicate()),
        };
        match applied {
            Ok(adopted) => {
                if let Some(master) = adopted {
                    self.master = Some(master);
                }
                Ok(done)
            },
            Err(e) => {
                self.state = State::Poisoned(e.duplicate());
                Err(e)
            },
        }
    }

    /// Consume the handle into its records, in order of tag: the one door key
    /// material leaves through.
    pub fn into_records(self) -> (records: Result<Vec<AccountRecord>, Error>)
        requires
            self.wf(),
        ensures
            match (records, self.model().standing) {
                (Ok(records), Standing::Live { slots, .. }) => records@ == Seq::new(
                    slots.len(),
                    |i: int| record_of(slots[i].account),
                ),
                (Err(e), Standing::Poisoned(_)) => poison_refusal(self.model()) == Some(e),
                _ => false,
            },
    {
        match self.state {
            State::Live { generation: _, slots } => {
                let ghost held = slots@;
                let mut left = slots.into_slots();
                let mut records: Vec<AccountRecord> = Vec::new();
                while left.len() > 0
                    invariant
                        left@.len() + records@.len() == held.len(),
                        left@ == held.take(left@.len() as int),
                        forall|j: int|
                            0 <= j < records@.len() ==> #[trigger] records@[j] == record_of(
                                held[left@.len() + j].account,
                            ),
                    decreases left@.len(),
                {
                    let ghost before = left@;
                    let ghost had = records@;
                    match left.pop() {
                        Some(slot) => {
                            assert(slot == before.last());
                            assert(left@ =~= held.take(left@.len() as int));
                            records.insert(0, slot.account.to_record());
                            assert forall|j: int| 0 <= j < records@.len() implies
                                #[trigger] records@[j] == record_of(
                                held[left@.len() + j].account,
                            ) by {
                                if j > 0 {
                                    assert(records@[j] == had[j - 1]);
                                }
                            }
                        },
                        None => {},
                    }
                }
                assert(records@ =~= Seq::new(held.len(), |i: int| record_of(held[i].account)));
                Ok(records)
            },
            State::Poisoned(first) => Err(Error::Poisoned { first: Box::new(first) }),
        }
    }
}

/// A slot as its view.
pub open spec fn viewed(slot: Slot) -> AccountView {
    AccountView {
        tag: slot.account.tag,
        kind: kind_of(slot.account.key_material),
        wots_index: slot.account.wots_index,
        pending: slot.pending,
        settled: slot.settled,
    }
}

fn next_generation(generation: u64) -> (next: Result<u64, Error>)
    ensures
        match (next, generation_refusal(generation)) {
            (Ok(next), None) => next == generation + 1,
            (Err(e), Some(why)) => e == why,
            _ => false,
        },
{
    if generation == u64::MAX {
        Err(
            Error::Range {
                what: "keystore generation",
                min: 0,
                max: u64::MAX - 1,
                got: generation,
            },
        )
    } else {
        Ok(generation + 1)
    }
}

/// The stream identity an account carries.
fn stored_stream_id(account: &Account) -> (stream: StreamId)
    ensures
        stream == stored_stream(account.key_material),
{
    match &account.key_material {
        KeyMaterial::Derived { account_index: _, stream } => *stream,
        KeyMaterial::Imported { root: _, components: _, stream } => *stream,
    }
}

/// Whether some account already has the incoming one's root. The comparison
/// looks at every byte, whatever the first difference is.
fn holds_root(slots: &SlotMap, account: &Account) -> (held: bool)
    ensures
        held == root_held(slots@, *account),
{
    let incoming = match &account.key_material {
        KeyMaterial::Imported { root, .. } => root,
        KeyMaterial::Derived { .. } => {
            return false;
        },
    };
    let mut i: usize = 0;
    while i < slots.len()
        invariant
            i <= slots@.len(),
            account.key_material matches KeyMaterial::Imported { root, .. } && *incoming == root,
            forall|j: int| 0 <= j < i ==> !same_root(#[trigger] slots@[j].account, *account),
        decreases slots@.len() - i,
    {
        match &slots.at(i).account.key_material {
            KeyMaterial::Imported { root, .. } => {
                if root.ct_eq(incoming) {
                    assert(same_root(slots@[i as int].account, *account));
                    return true;
                }
            },
            KeyMaterial::Derived { .. } => {},
        }
        i = i + 1;
    }
    false
}

/// Whether some account already has this key stream.
fn holds_stream(slots: &SlotMap, stream: &StreamId) -> (held: bool)
    ensures
        held == stream_held(slots@, *stream),
{
    let mut i: usize = 0;
    while i < slots.len()
        invariant
            i <= slots@.len(),
            forall|j: int|
                0 <= j < i ==> stored_stream(#[trigger] slots@[j].account.key_material) != *stream,
        decreases slots@.len() - i,
    {
        if stored_stream_id(&slots.at(i).account).same(stream) {
            assert(stored_stream(slots@[i as int].account.key_material) == *stream);
            return true;
        }
        i = i + 1;
    }
    false
}

/// The stream an account's key material produces: see [`recomputed_stream`].
fn recomputed_stream_id(account: &Account, recomputed: &Recomputed) -> (stream: Result<
    StreamId,
    Error,
>)
    requires
        recomputed is Master ==> account.key_material is Derived,
    ensures
        stream == recomputed_stream(*account, *recomputed),
{
    match recomputed {
        Recomputed::Root { stream } => Ok(*stream),
        Recomputed::Master { tag, stream } => match &account.key_material {
            KeyMaterial::Derived { account_index, stream: stored } => {
                if !same_tag(tag, &account.tag) {
                    Err(Error::DerivedTagNotReproduced { account_index: *account_index })
                } else if !stream.same(stored) {
                    Err(Error::StreamIdNotReproduced)
                } else {
                    Ok(*stream)
                }
            },
            KeyMaterial::Imported { stream: stored, .. } => Ok(*stored),
        },
        Recomputed::Carried => Ok(stored_stream_id(account)),
    }
}

} // verus!
