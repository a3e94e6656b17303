//! Every refusal the wallet makes, and the text it is reported in.

use vstd::prelude::*;

use crate::account::{AccountKind, Tag};
use crate::consts::VEOK;
use crate::keystore::format::{V3_VERSION, VERSION};
#[allow(unused_imports)]
use crate::text::{
    decimal, decimal_text, hex_bytes, hex_text, numeral, numeral_text, padded_hex,
    padded_hex_text, same_text, signed_text,
};

verus! {

/// What kind of I/O error a step met, by the names `std::io::ErrorKind` gives
/// them.
#[derive(Clone, Copy, Debug, PartialEq, Eq, Structural)]
pub enum IoKind {
    NotFound,
    PermissionDenied,
    ConnectionRefused,
    ConnectionReset,
    HostUnreachable,
    NetworkUnreachable,
    ConnectionAborted,
    NotConnected,
    AddrInUse,
    AddrNotAvailable,
    NetworkDown,
    BrokenPipe,
    AlreadyExists,
    WouldBlock,
    NotADirectory,
    IsADirectory,
    DirectoryNotEmpty,
    ReadOnlyFilesystem,
    FilesystemLoop,
    StaleNetworkFileHandle,
    InvalidInput,
    InvalidData,
    TimedOut,
    WriteZero,
    StorageFull,
    NotSeekable,
    QuotaExceeded,
    FileTooLarge,
    ResourceBusy,
    ExecutableFileBusy,
    Deadlock,
    CrossesDevices,
    TooManyLinks,
    InvalidFilename,
    ArgumentListTooLong,
    Interrupted,
    Unsupported,
    UnexpectedEof,
    OutOfMemory,
    InProgress,
    Other,
    Uncategorized,
}

/// The kind's name, as it is printed.
pub open spec fn io_kind_name(kind: IoKind) -> Seq<char> {
    match kind {
        IoKind::NotFound => "NotFound"@,
        IoKind::PermissionDenied => "PermissionDenied"@,
        IoKind::ConnectionRefused => "ConnectionRefused"@,
        IoKind::ConnectionReset => "ConnectionReset"@,
        IoKind::HostUnreachable => "HostUnreachable"@,
        IoKind::NetworkUnreachable => "NetworkUnreachable"@,
        IoKind::ConnectionAborted => "ConnectionAborted"@,
        IoKind::NotConnected => "NotConnected"@,
        IoKind::AddrInUse => "AddrInUse"@,
        IoKind::AddrNotAvailable => "AddrNotAvailable"@,
        IoKind::NetworkDown => "NetworkDown"@,
        IoKind::BrokenPipe => "BrokenPipe"@,
        IoKind::AlreadyExists => "AlreadyExists"@,
        IoKind::WouldBlock => "WouldBlock"@,
        IoKind::NotADirectory => "NotADirectory"@,
        IoKind::IsADirectory => "IsADirectory"@,
        IoKind::DirectoryNotEmpty => "DirectoryNotEmpty"@,
        IoKind::ReadOnlyFilesystem => "ReadOnlyFilesystem"@,
        IoKind::FilesystemLoop => "FilesystemLoop"@,
        IoKind::StaleNetworkFileHandle => "StaleNetworkFileHandle"@,
        IoKind::InvalidInput => "InvalidInput"@,
        IoKind::InvalidData => "InvalidData"@,
        IoKind::TimedOut => "TimedOut"@,
        IoKind::WriteZero => "WriteZero"@,
        IoKind::StorageFull => "StorageFull"@,
        IoKind::NotSeekable => "NotSeekable"@,
        IoKind::QuotaExceeded => "QuotaExceeded"@,
        IoKind::FileTooLarge => "FileTooLarge"@,
        IoKind::ResourceBusy => "ResourceBusy"@,
        IoKind::ExecutableFileBusy => "ExecutableFileBusy"@,
        IoKind::Deadlock => "Deadlock"@,
        IoKind::CrossesDevices => "CrossesDevices"@,
        IoKind::TooManyLinks => "TooManyLinks"@,
        IoKind::InvalidFilename => "InvalidFilename"@,
        IoKind::ArgumentListTooLong => "ArgumentListTooLong"@,
        IoKind::Interrupted => "Interrupted"@,
        IoKind::Unsupported => "Unsupported"@,
        IoKind::UnexpectedEof => "UnexpectedEof"@,
        IoKind::OutOfMemory => "OutOfMemory"@,
        IoKind::InProgress => "InProgress"@,
        IoKind::Other => "Other"@,
        IoKind::Uncategorized => "Uncategorized"@,
    }
}

impl IoKind {
    /// The kind's name, as it is printed.
    pub fn name(self) -> (text: &'static str)
        ensures
            text@ == io_kind_name(self),
    {
        match self {
            IoKind::NotFound => "NotFound",
            IoKind::PermissionDenied => "PermissionDenied",
            IoKind::ConnectionRefused => "ConnectionRefused",
            IoKind::ConnectionReset => "ConnectionReset",
            IoKind::HostUnreachable => "HostUnreachable",
            IoKind::NetworkUnreachable => "NetworkUnreachable",
            IoKind::ConnectionAborted => "ConnectionAborted",
            IoKind::NotConnected => "NotConnected",
            IoKind::AddrInUse => "AddrInUse",
            IoKind::AddrNotAvailable => "AddrNotAvailable",
            IoKind::NetworkDown => "NetworkDown",
            IoKind::BrokenPipe => "BrokenPipe",
            IoKind::AlreadyExists => "AlreadyExists",
            IoKind::WouldBlock => "WouldBlock",
            IoKind::NotADirectory => "NotADirectory",
            IoKind::IsADirectory => "IsADirectory",
            IoKind::DirectoryNotEmpty => "DirectoryNotEmpty",
            IoKind::ReadOnlyFilesystem => "ReadOnlyFilesystem",
            IoKind::FilesystemLoop => "FilesystemLoop",
            IoKind::StaleNetworkFileHandle => "StaleNetworkFileHandle",
            IoKind::InvalidInput => "InvalidInput",
            IoKind::InvalidData => "InvalidData",
            IoKind::TimedOut => "TimedOut",
            IoKind::WriteZero => "WriteZero",
            IoKind::StorageFull => "StorageFull",
            IoKind::NotSeekable => "NotSeekable",
            IoKind::QuotaExceeded => "QuotaExceeded",
            IoKind::FileTooLarge => "FileTooLarge",
            IoKind::ResourceBusy => "ResourceBusy",
            IoKind::ExecutableFileBusy => "ExecutableFileBusy",
            IoKind::Deadlock => "Deadlock",
            IoKind::CrossesDevices => "CrossesDevices",
            IoKind::TooManyLinks => "TooManyLinks",
            IoKind::InvalidFilename => "InvalidFilename",
            IoKind::ArgumentListTooLong => "ArgumentListTooLong",
            IoKind::Interrupted => "Interrupted",
            IoKind::Unsupported => "Unsupported",
            IoKind::UnexpectedEof => "UnexpectedEof",
            IoKind::OutOfMemory => "OutOfMemory",
            IoKind::InProgress => "InProgress",
            IoKind::Other => "Other",
            IoKind::Uncategorized => "Uncategorized",
        }
    }
}

/// How a Mesh transport failed, without the message.
///
/// What survives of the transport's own error is the class, which is what a
/// caller branches on: retry a timeout, report a refused connection, stop on a
/// TLS failure.
#[derive(Clone, Copy, Debug, PartialEq, Eq, Structural)]
pub enum TransportKind {
    /// The host name did not resolve.
    Resolve,
    /// The TCP connection was refused or reset before a response.
    Connect,
    /// A connect or global timeout elapsed.
    Timeout,
    /// TLS could not be established, or `https://` was asked of a transport
    /// built without a TLS provider.
    Tls,
    /// The bytes on the wire were not HTTP the client understood, or the URL
    /// did not parse.
    Protocol,
    /// The server answered with a redirect. Never followed: a redirect would
    /// send a signed image again, to a host the caller did not name.
    Redirect,
    /// An I/O error of the given kind, mid-request.
    Io(IoKind),
    /// A class the mapping does not name.
    Other,
}

/// The transport class as it is printed.
pub open spec fn transport_name(kind: TransportKind) -> Seq<char> {
    match kind {
        TransportKind::Resolve => "Resolve"@,
        TransportKind::Connect => "Connect"@,
        TransportKind::Timeout => "Timeout"@,
        TransportKind::Tls => "Tls"@,
        TransportKind::Protocol => "Protocol"@,
        TransportKind::Redirect => "Redirect"@,
        TransportKind::Io(kind) => "Io("@ + io_kind_name(kind) + ")"@,
        TransportKind::Other => "Other"@,
    }
}

impl TransportKind {
    /// The class as it is printed.
    pub fn name(self) -> (text: String)
        ensures
            text@ == transport_name(self),
    {
        match self {
            TransportKind::Resolve => "Resolve".to_owned(),
            TransportKind::Connect => "Connect".to_owned(),
            TransportKind::Timeout => "Timeout".to_owned(),
            TransportKind::Tls => "Tls".to_owned(),
            TransportKind::Protocol => "Protocol".to_owned(),
            TransportKind::Redirect => "Redirect".to_owned(),
            TransportKind::Io(kind) => {
                let mut text = "Io(".to_owned();
                text.append(kind.name());
                text.append(")");
                text
            },
            TransportKind::Other => "Other".to_owned(),
        }
    }
}

/// Why an operation was refused or failed.
#[allow(inconsistent_fields)]
#[derive(Debug, PartialEq, Eq)]
pub enum Error {
    /// A protocol function returned a failure code.
    Reference {
        function: &'static str,
        rc: i32,
    },
    /// A protocol function returned a failure code and set `errno`.
    ReferenceErrno {
        function: &'static str,
        rc: i32,
        errno: i32,
    },
    /// A slice was not the length the protocol requires.
    Length {
        what: &'static str,
        expected: usize,
        got: usize,
    },
    /// A value fell outside the range it can be encoded in. Distinct from `Length`, which is
    /// about a buffer's size: this is a number that would be read back as a different number.
    Range {
        what: &'static str,
        min: u64,
        max: u64,
        got: u64,
    },
    /// A Base58 string contained an interior NUL.
    InteriorNul,
    /// A Base58 string was not ASCII.
    NotAscii,
    /// A keystore I/O step failed: the step's name and the kind, never file bytes.
    Io {
        op: &'static str,
        kind: IoKind,
    },
    /// The snapshot did not parse. `offset` is where the parser stopped; offsets, never bytes.
    Corrupt {
        what: &'static str,
        offset: usize,
    },
    /// A snapshot in a format this build does not read. Distinct from `Corrupt`, so that such a
    /// file says "upgrade" and not "damaged". `first_account` is the first record's tag and
    /// kind, where an older layout keeps them in the clear.
    UnsupportedVersion {
        got: u16,
        supported: u16,
        first_account: Option<(Tag, AccountKind)>,
    },
    /// Another live process holds the keystore lock.
    Locked,
    /// The keystore directory has no snapshot. Not an empty store: an absent file is not zero
    /// accounts.
    Missing,
    /// `create` on a directory that already holds a keystore, or `add` of what is already
    /// there.
    Exists {
        what: &'static str,
    },
    /// A password below the floor, counted in Unicode scalar values and not bytes.
    PasswordTooShort {
        chars: usize,
        min: usize,
    },
    /// No account under that tag.
    NoSuchAccount,
    /// The keystore directory is group- or other-writable.
    UnsafePermissions {
        mode: u32,
    },
    /// The keystore directory's access list lets someone other than this user, `SYSTEM` or the
    /// Administrators group write to it. `trustee` is the security identifier the write is
    /// granted to, `rights` the access mask of the entry that grants it.
    UnsafeAcl {
        trustee: String,
        rights: u32,
    },
    /// Windows refused to move the new snapshot over the old one, with the system error `code`.
    /// The refused move changes nothing.
    ReplaceRefused {
        code: i32,
    },
    /// Windows refused to open a store file because another program holds it without sharing
    /// write access, with the system error `code`. Met before anything is read or reserved.
    HeldOpen {
        code: i32,
    },
    /// A key is reserved for an unsettled spend; no further advance until it is settled.
    PendingUnresolved {
        spent_index: u32,
    },
    /// A settle with nothing pending.
    NothingPending,
    /// A commit failed part-way. Memory and disk may disagree, so every later call is refused:
    /// drop the handle and reopen from disk, and never retry the write.
    Poisoned {
        first: Box<Error>,
    },
    /// The store did not decrypt: the password is wrong, or the file has been damaged or
    /// altered. One variant for all three, so that no guess is told from another.
    WrongPassword,
    /// A recovery phrase or its entropy was refused. `what` names the rule, never a word or a
    /// byte.
    Mnemonic {
        what: &'static str,
    },
    /// A `wotsIndex` of another wallet with no position here: `-1` is the first key, at
    /// position 0.
    ShippedIndex {
        got: i64,
    },
    /// The receipt attests an index the store has moved past.
    StaleReceipt {
        attested: u32,
        stored: u32,
    },
    /// The account has no key reserved.
    NoReservation,
    /// The digest is not the one the key was reserved for.
    DigestMismatch,
    /// The key access does not match the account's kind.
    KeyAccessMismatch {
        kind: AccountKind,
    },
    /// The master seed does not derive this account's tag at its recorded position.
    DerivedTagNotReproduced {
        account_index: u32,
    },
    /// This account's seed is also held as an imported root in the same store.
    KeyStreamSharedWithImportedAccount,
    /// The root and the first address are not a pair.
    FirstAddressNotReproduced,
    /// The key-stream identity a record carries is not the one its key material produces.
    StreamIdNotReproduced,
    /// An operation needed a reconciled account and reconciliation refused.
    ReconciliationRefused {
        what: &'static str,
    },
    /// An acknowledgement does not name the divergence the store is in now.
    AcknowledgementDoesNotMatch,
    /// A reviewed advance on an account that reconciles cleanly.
    NothingToReconcile,
    /// A caller asked a key-position walk to stop, and it stopped: nothing was learned.
    Cancelled,
    /// The Mesh transport failed before a response body arrived.
    Transport {
        op: &'static str,
        kind: TransportKind,
    },
    /// The Mesh answered with an HTTP status other than 200.
    HttpStatus {
        status: u16,
    },
    /// The Mesh returned its error object.
    Mesh {
        code: u64,
        retriable: bool,
    },
    /// A Mesh response body did not have the shape the endpoint documents.
    MeshResponse {
        what: &'static str,
    },
    /// A request or response body over its cap.
    PayloadTooLarge {
        what: &'static str,
        max: usize,
        got: usize,
    },
    /// A hex field did not decode. `offset` is the first byte the decoder refused.
    Hex {
        what: &'static str,
        offset: usize,
    },
    /// The chain's current address for the tag is not the address of the key this store would
    /// sign with next.
    ChainAddressMismatch {
        position: u32,
    },
    /// The chain has already moved past the reservation: nothing is left to reproduce, and
    /// nothing was signed.
    ReservationLanded {
        spent_index: u32,
        settled_index: u32,
    },
    /// Send plus fee exceeds the balance the chain reports.
    InsufficientBalance {
        balance: u64,
        needed: u64,
    },
    /// The fee is under the protocol floor.
    FeeBelowMinimum {
        fee: u64,
        min: u64,
    },
    /// A destination amount of zero.
    ZeroAmount {
        index: usize,
    },
    /// A destination whose tag is the source's.
    DestinationIsSource {
        index: usize,
    },
    /// A destination reference the node's rule refuses.
    InvalidReference {
        index: usize,
    },
    /// A 64-bit total overflowed while being tallied.
    Overflow {
        what: &'static str,
    },
    /// The signature is for a different position than the plan was built for.
    PositionMismatch {
        planned: u32,
        signed: u32,
    },
    /// The signature does not recover to the key it claims.
    SignatureDoesNotRecover {
        what: &'static str,
    },
    /// The Mesh acknowledged an id that is not the id of the bytes sent.
    SubmitIdMismatch,
}

impl Error {
    /// The same error again.
    pub fn duplicate(&self) -> (copy: Error)
        ensures
            copy == *self,
        decreases *self,
    {
        match self {
            Error::Reference { function, rc } => Error::Reference { function: *function, rc: *rc },
            Error::ReferenceErrno { function, rc, errno } => Error::ReferenceErrno { function: *function, rc: *rc, errno: *errno },
            Error::Length { what, expected, got } => Error::Length { what: *what, expected: *expected, got: *got },
            Error::Range { what, min, max, got } => Error::Range { what: *what, min: *min, max: *max, got: *got },
            Error::InteriorNul => Error::InteriorNul,
            Error::NotAscii => Error::NotAscii,
            Error::Io { op, kind } => Error::Io { op: *op, kind: *kind },
            Error::Corrupt { what, offset } => Error::Corrupt { what: *what, offset: *offset },
            Error::UnsupportedVersion { got, supported, first_account } => Error::UnsupportedVersion { got: *got, supported: *supported, first_account: *first_account },
            Error::Locked => Error::Locked,
            Error::Missing => Error::Missing,
            Error::Exists { what } => Error::Exists { what: *what },
            Error::PasswordTooShort { chars, min } => Error::PasswordTooShort { chars: *chars, min: *min },
            Error::NoSuchAccount => Error::NoSuchAccount,
            Error::UnsafePermissions { mode } => Error::UnsafePermissions { mode: *mode },
            Error::UnsafeAcl { trustee, rights } => Error::UnsafeAcl { trustee: trustee.clone(), rights: *rights },
            Error::ReplaceRefused { code } => Error::ReplaceRefused { code: *code },
            Error::HeldOpen { code } => Error::HeldOpen { code: *code },
            Error::PendingUnresolved { spent_index } => Error::PendingUnresolved { spent_index: *spent_index },
            Error::NothingPending => Error::NothingPending,
            Error::Poisoned { first } => Error::Poisoned { first: Box::new(first.duplicate()) },
            Error::WrongPassword => Error::WrongPassword,
            Error::Mnemonic { what } => Error::Mnemonic { what: *what },
            Error::ShippedIndex { got } => Error::ShippedIndex { got: *got },
            Error::StaleReceipt { attested, stored } => Error::StaleReceipt { attested: *attested, stored: *stored },
            Error::NoReservation => Error::NoReservation,
            Error::DigestMismatch => Error::DigestMismatch,
            Error::KeyAccessMismatch { kind } => Error::KeyAccessMismatch { kind: *kind },
            Error::DerivedTagNotReproduced { account_index } => Error::DerivedTagNotReproduced { account_index: *account_index },
            Error::KeyStreamSharedWithImportedAccount => Error::KeyStreamSharedWithImportedAccount,
            Error::FirstAddressNotReproduced => Error::FirstAddressNotReproduced,
            Error::StreamIdNotReproduced => Error::StreamIdNotReproduced,
            Error::ReconciliationRefused { what } => Error::ReconciliationRefused { what: *what },
            Error::AcknowledgementDoesNotMatch => Error::AcknowledgementDoesNotMatch,
            Error::NothingToReconcile => Error::NothingToReconcile,
            Error::Cancelled => Error::Cancelled,
            Error::Transport { op, kind } => Error::Transport { op: *op, kind: *kind },
            Error::HttpStatus { status } => Error::HttpStatus { status: *status },
            Error::Mesh { code, retriable } => Error::Mesh { code: *code, retriable: *retriable },
            Error::MeshResponse { what } => Error::MeshResponse { what: *what },
            Error::PayloadTooLarge { what, max, got } => Error::PayloadTooLarge { what: *what, max: *max, got: *got },
            Error::Hex { what, offset } => Error::Hex { what: *what, offset: *offset },
            Error::ChainAddressMismatch { position } => Error::ChainAddressMismatch { position: *position },
            Error::ReservationLanded { spent_index, settled_index } => Error::ReservationLanded { spent_index: *spent_index, settled_index: *settled_index },
            Error::InsufficientBalance { balance, needed } => Error::InsufficientBalance { balance: *balance, needed: *needed },
            Error::FeeBelowMinimum { fee, min } => Error::FeeBelowMinimum { fee: *fee, min: *min },
            Error::ZeroAmount { index } => Error::ZeroAmount { index: *index },
            Error::DestinationIsSource { index } => Error::DestinationIsSource { index: *index },
            Error::InvalidReference { index } => Error::InvalidReference { index: *index },
            Error::Overflow { what } => Error::Overflow { what: *what },
            Error::PositionMismatch { planned, signed } => Error::PositionMismatch { planned: *planned, signed: *signed },
            Error::SignatureDoesNotRecover { what } => Error::SignatureDoesNotRecover { what: *what },
            Error::SubmitIdMismatch => Error::SubmitIdMismatch,
        }
    }
}

pub const LOCKED_TEXT: &'static str = "another wallet process holds keystore.lock; the lock releases when that \
    process exits -- do not delete the file";

pub const MISSING_TEXT: &'static str = "keystore directory has no snapshot; an absent file is not an empty store (use \
    create only for a genuinely new keystore)";

pub const PASSWORD_TOO_SHORT_TEXT_1: &'static str = " character(s); this wallet will not seal a store under fewer than ";

pub const PASSWORD_TOO_SHORT_TEXT_2: &'static str = " (cli::create::MIN_PASSWORD_LEN -- a floor under the search space, counted in \
    characters and not bytes). Nothing was created";

pub const UNSAFE_PERMISSIONS_TEXT: &'static str = " is group- or other-writable; refusing to hold key material there";

pub const UNSAFE_ACL_TEXT: &'static str = " is neither this user, SYSTEM nor the Administrators group; refusing to hold \
    key material there";

pub const REPLACE_REFUSED_TEXT_1: &'static str = "keystore rename: Windows refused to replace accounts.mks (system error ";

pub const REPLACE_REFUSED_TEXT_2: &'static str = "). The usual cause is another program holding the snapshot or its replacement \
    open without delete sharing -- an antivirus scanner, a search indexer, a \
    backup or sync agent. The previous snapshot is intact and nothing was \
    committed; run the command again, and if the refusal persists, exclude the \
    keystore directory from that program";

pub const HELD_OPEN_TEXT_1: &'static str = "keystore open: Windows refused to open a store file for writing (system error ";

pub const HELD_OPEN_TEXT_2: &'static str = "). The usual cause is another program holding it open without write sharing \
    -- an antivirus scanner, a search indexer, a backup or sync agent. Nothing \
    was read and nothing was changed; run the command again, and if the refusal \
    persists, exclude the keystore directory from that program";

pub const PENDING_UNRESOLVED_TEXT: &'static str = " is reserved for an unsettled spend; settle it before advancing again";

pub const POISONED_TEXT: &'static str = "); memory and disk may disagree -- drop this handle and reopen from disk, and \
    do not retry the write: after an fsync error the kernel may have discarded \
    the dirty pages, and a retry can report success for data that never reached \
    disk";

pub const WRONG_PASSWORD_TEXT: &'static str = "the keystore did not decrypt. Either the password is wrong, or the file has \
    been damaged or altered -- this cannot tell you which, by design: an error \
    that distinguished them would tell an attacker which of his guesses was \
    closer. What to try, in order: the password again, minding the keyboard \
    layout and caps lock; a backup copy of the store, if one exists; and then \
    `create --from-phrase` into a fresh directory and `restore --account N` for \
    each account, from the recovery phrase -- a damaged file cannot be repaired \
    here, and nothing in it can be read without the key";

pub const SHIPPED_INDEX_TEXT: &'static str = " has no position in this crate: -1 is the first key (position 0) and n >= 0 \
    is position n + 1, up to u32::MAX";

pub const STALE_RECEIPT_TEXT: &'static str = "; a receipt names the state it was minted for, and this one is stale";

pub const NO_RESERVATION_TEXT: &'static str = "no key is reserved for that account: the receipt came from a reconciliation \
    advance or its reservation was settled, and neither names a key to sign with";

pub const DIGEST_MISMATCH_TEXT: &'static str = "the digest is not the one this key was reserved for; the pending record must \
    name what was signed, so a rebuilt transaction needs a fresh reservation";

pub const DERIVED_TAG_NOT_REPRODUCED_TEXT_1: &'static str = "the master seed supplied does not derive this account's tag at position ";

pub const DERIVED_TAG_NOT_REPRODUCED_TEXT_2: &'static str = "; wrong seed, wrong position or wrong tag, and none of them signs";

pub const KEY_STREAM_SHARED_WITH_IMPORTED_ACCOUNT_TEXT: &'static str = "this derived account's seed is also held as an imported root in this store; \
    two accounts over one key stream would let one key sign twice, so neither \
    signs \
    (duplicate_key_streams_are_refused_within_one_keystore_not_across_stores)";

pub const FIRST_ADDRESS_NOT_REPRODUCED_TEXT: &'static str = "the root does not reproduce this first address: wots_pkgen over the address's \
    own public seed and hash address gives a different public key, so the pair \
    did not come from one account and position 0 would sign under an address \
    nobody funded";

pub const STREAM_ID_NOT_REPRODUCED_TEXT: &'static str = "the stored key-stream identity is not the one this account's key material \
    produces; the identity is what stops two accounts sitting over one key \
    stream, so a record that disagrees with itself is refused";

pub const RECONCILIATION_REFUSED_TEXT: &'static str = "), so no spend operation on it is permitted. Read the divergence report and \
    act on it; I4 fails closed because the three causes of divergence have three \
    different correct recoveries";

pub const ACKNOWLEDGEMENT_DOES_NOT_MATCH_TEXT: &'static str = "this acknowledgement does not name the divergence this store is in now. An \
    acknowledgement carries the tag and the index the report printed, and it is \
    checked against the live state, so a stale report or another account's cannot \
    be used to advance this one";

pub const NOTHING_TO_RECONCILE_TEXT: &'static str = "this account reconciles cleanly against the chain; there is no divergence to \
    advance past";

pub const CANCELLED_TEXT: &'static str = "the key-position walk was stopped before it reached a conclusion; nothing was \
    decided and no index is assumed";

pub const HTTP_STATUS_TEXT: &'static str = "; the middleware's own failures are 200s with an error object, so this is a \
    proxy, a route miss or its request-size gate";

pub const CHAIN_ADDRESS_MISMATCH_TEXT_1: &'static str = "the chain's current address for this tag is not the address of the key at \
    position ";

pub const CHAIN_ADDRESS_MISMATCH_TEXT_2: &'static str = ", which is the key this keystore would sign with next. Nothing was reserved. \
    This is I4's divergence and it has three causes with three different remedies \
    -- a broadcast spend that never settled, a restored seed with incomplete \
    history, or a second wallet live on this seed -- so do not advance the index \
    by hand; reconcile";

pub const RESERVATION_LANDED_TEXT: &'static str = ": the reserved spend has landed and there is nothing left to reproduce. \
    Nothing was signed. `settle` is the verb that resolves this state";

pub const INVALID_REFERENCE_TEXT: &'static str = " carries a reference the node's rule refuses (mdst_val, EMCM_XTXREF): \
    uppercase letters and digits in groups, each group all one kind, neighbouring \
    groups of different kinds, single dashes between groups and none at either \
    end, NUL-terminated with nothing after the first NUL";

pub const SIGNATURE_DOES_NOT_RECOVER_TEXT: &'static str = "the signature does not validate against the transaction it is attached to: ";

pub const SUBMIT_ID_MISMATCH_TEXT: &'static str = "the mesh acknowledged a transaction id that is not the id of the bytes sent; \
    the server parsed something else, and its acknowledgement says nothing about \
    this transaction";

pub const NEWER_TEXT: &'static str = ". A version this build does not read is not damage: a NEWER build of \
    this wallet wrote this store. Open it with a build at least that new, and do not rewrite it or \
    re-add its accounts elsewhere -- a reservation open in it can be re-signed only from it.";

pub const MIGRATE_TEXT: &'static str = " A version this build does not read is not damage: an older store is \
    migrated by re-adding its accounts into a FRESH directory (from the master seed, and from each \
    imported account's root and first address), never by rewriting it in place.";

pub const FIRST_ACCOUNT_TEXT_1: &'static str = " file stores unencrypted at bytes 22..42. To learn whether \
    the refused store is on the SEED of the store in hand, run `address 0x";

pub const FIRST_ACCOUNT_TEXT_2: &'static str = "` against the store in hand: an answer means the store in \
    hand derives that same account -- one account seed, one WOTS+ key stream -- so a spend from each \
    store is one key signing twice; destroy one before either spends. `no account for the tag` means \
    that account is not held here, which does not prove a different seed. ";

pub const FIRST_DERIVED_TEXT: &'static str = "The refused store derived it from a master seed at an account \
    index, so a match is one master seed.";

pub const FIRST_IMPORTED_TEXT: &'static str = "The refused store holds it as an imported root; the master \
    behind that root, if any, is not recorded there.";

pub const NO_FIRST_ACCOUNT_TEXT: &'static str = " No account tag was read from this file: one is named only \
    for a version-1 or version-2 file whose length fits that version's layout, where the first \
    account's tag stands unencrypted at bytes 22..42.";

pub const SNAPSHOT_EXISTS_TEXT: &'static str = "keystore: a snapshot already exists in this directory. To make \
    a new store, use a different --dir; to add an account to this one, run `restore --account N` \
    against it (`address` lists what it holds). Nothing was changed";

/// Which version the snapshot is, and what to do about it: what a newer build
/// wrote is opened by one, and what an older one wrote is migrated. A refusal
/// that is not about the version of a snapshot keeps the shorter text.
pub open spec fn version_text(got: u16, supported: u16) -> Seq<char> {
    if supported == VERSION && got > supported {
        "keystore snapshot is format version "@ + decimal(got as int) + "; this build reads versions "@
            + decimal(V3_VERSION as int) + " and "@ + decimal(supported as int) + " and writes version "@
            + decimal(supported as int) + NEWER_TEXT@
    } else if supported == VERSION {
        "keystore snapshot is format version "@ + decimal(got as int) + "; this build reads version "@
            + decimal(supported as int) + " (and reads a version-3 store, re-sealing it as version "@
            + decimal(supported as int) + " on its first write)."@ + MIGRATE_TEXT@
    } else {
        "keystore snapshot is format version "@ + decimal(got as int) + "; this build reads version "@
            + decimal(supported as int) + "."@ + MIGRATE_TEXT@
    }
}

/// How to tell whether the refused store is the wallet in hand.
pub open spec fn first_account_text(got: u16, first_account: Option<(Tag, AccountKind)>) -> Seq<char> {
    match first_account {
        Some((tag, kind)) => " This file's first account (its records sort by tag) is "@ + (match kind {
            AccountKind::Derived => "derived"@,
            AccountKind::Imported => "imported"@,
        }) + " and has the tag 0x"@ + hex_bytes(tag@) + ", which a version-"@ + decimal(got as int)
            + FIRST_ACCOUNT_TEXT_1@ + hex_bytes(tag@) + FIRST_ACCOUNT_TEXT_2@ + (match kind {
            AccountKind::Derived => FIRST_DERIVED_TEXT@,
            AccountKind::Imported => FIRST_IMPORTED_TEXT@,
        }),
        None => NO_FIRST_ACCOUNT_TEXT@,
    }
}

/// The whole text of an unsupported version.
pub open spec fn unsupported_text(
    got: u16,
    supported: u16,
    first_account: Option<(Tag, AccountKind)>,
) -> Seq<char> {
    version_text(got, supported) + first_account_text(got, first_account)
}

/// What already exists. The snapshot's refusal names the next step.
pub open spec fn exists_text(what: &str) -> Seq<char> {
    if what@ == "snapshot"@ {
        SNAPSHOT_EXISTS_TEXT@
    } else {
        "keystore: "@ + what@ + " already exists"@
    }
}

/// Which access the account's kind needs.
pub open spec fn key_access_text(kind: AccountKind) -> Seq<char> {
    match kind {
        AccountKind::Derived => "key access does not match the account: a "@ + "Derived"@ + " account needs "@
            + "KeyAccess::Master, the master seed it derives from"@,
        AccountKind::Imported => "key access does not match the account: a "@ + "Imported"@
            + " account needs "@ + "KeyAccess::StoredRoot, nothing beyond its stored root"@,
    }
}

fn version_message(got: u16, supported: u16) -> (text: String)
    ensures
        text@ == version_text(got, supported),
{
    let mut text = "keystore snapshot is format version ".to_owned();
    text.append(decimal_text(got as u64).as_str());
    if supported == VERSION && got > supported {
        text.append("; this build reads versions ");
        text.append(decimal_text(V3_VERSION as u64).as_str());
        text.append(" and ");
        text.append(decimal_text(supported as u64).as_str());
        text.append(" and writes version ");
        text.append(decimal_text(supported as u64).as_str());
        text.append(NEWER_TEXT);
    } else if supported == VERSION {
        text.append("; this build reads version ");
        text.append(decimal_text(supported as u64).as_str());
        text.append(" (and reads a version-3 store, re-sealing it as version ");
        text.append(decimal_text(supported as u64).as_str());
        text.append(" on its first write).");
        text.append(MIGRATE_TEXT);
    } else {
        text.append("; this build reads version ");
        text.append(decimal_text(supported as u64).as_str());
        text.append(".");
        text.append(MIGRATE_TEXT);
    }
    text
}

fn first_account_message(got: u16, first_account: Option<(Tag, AccountKind)>) -> (text: String)
    ensures
        text@ == first_account_text(got, first_account),
{
    match first_account {
        Some((tag, kind)) => {
            let hex = hex_text(tag.as_slice());
            let mut text = " This file's first account (its records sort by tag) is ".to_owned();
            match kind {
                AccountKind::Derived => text.append("derived"),
                AccountKind::Imported => text.append("imported"),
            }
            text.append(" and has the tag 0x");
            text.append(hex.as_str());
            text.append(", which a version-");
            text.append(decimal_text(got as u64).as_str());
            text.append(FIRST_ACCOUNT_TEXT_1);
            text.append(hex.as_str());
            text.append(FIRST_ACCOUNT_TEXT_2);
            match kind {
                AccountKind::Derived => text.append(FIRST_DERIVED_TEXT),
                AccountKind::Imported => text.append(FIRST_IMPORTED_TEXT),
            }
            text
        },
        None => NO_FIRST_ACCOUNT_TEXT.to_owned(),
    }
}

fn unsupported_message(
    got: u16,
    supported: u16,
    first_account: Option<(Tag, AccountKind)>,
) -> (text: String)
    ensures
        text@ == unsupported_text(got, supported, first_account),
{
    let mut text = version_message(got, supported);
    text.append(first_account_message(got, first_account).as_str());
    text
}

fn exists_message(what: &'static str) -> (text: String)
    ensures
        text@ == exists_text(what),
{
    if same_text(what, "snapshot") {
        SNAPSHOT_EXISTS_TEXT.to_owned()
    } else {
        let mut text = "keystore: ".to_owned();
        text.append(what);
        text.append(" already exists");
        text
    }
}

fn key_access_message(kind: AccountKind) -> (text: String)
    ensures
        text@ == key_access_text(kind),
{
    let mut text = "key access does not match the account: a ".to_owned();
    match kind {
        AccountKind::Derived => {
            text.append("Derived");
            text.append(" account needs ");
            text.append("KeyAccess::Master, the master seed it derives from");
        },
        AccountKind::Imported => {
            text.append("Imported");
            text.append(" account needs ");
            text.append("KeyAccess::StoredRoot, nothing beyond its stored root");
        },
    }
    text
}


/// The text an error is reported in.
pub open spec fn message(e: Error) -> Seq<char>
    decreases e,
{
    match e {
        Error::Reference { function, rc } => "reference "@ + function@ + "() returned "@ + decimal(rc as int),
        Error::ReferenceErrno { function, rc, errno } => "reference "@ + function@ + "() returned "@ + decimal(rc as int) + ", errno "@ + decimal(errno as int),
        Error::Length { what, expected, got } => what@ + ": expected "@ + decimal(expected as int) + " bytes, got "@ + decimal(got as int),
        Error::Range { what, min, max, got } => what@ + ": "@ + decimal(got as int) + " is outside "@ + decimal(min as int) + "..="@ + decimal(max as int),
        Error::InteriorNul => "base58 input contains an interior NUL"@,
        Error::NotAscii => "base58 input is not ASCII"@,
        Error::Io { op, kind } => "keystore "@ + op@ + ": "@ + io_kind_name(kind),
        Error::Corrupt { what, offset } => "keystore snapshot corrupt: "@ + what@ + " at byte offset "@ + decimal(offset as int),
        Error::UnsupportedVersion { got, supported, first_account } => unsupported_text(got, supported, first_account),
        Error::Locked => LOCKED_TEXT@,
        Error::Missing => MISSING_TEXT@,
        Error::Exists { what } => exists_text(what),
        Error::PasswordTooShort { chars, min } => "password is "@ + decimal(chars as int) + PASSWORD_TOO_SHORT_TEXT_1@ + decimal(min as int) + PASSWORD_TOO_SHORT_TEXT_2@,
        Error::NoSuchAccount => "keystore: no account under that tag"@,
        Error::UnsafePermissions { mode } => "keystore directory mode "@ + numeral(mode as nat, 8) + UNSAFE_PERMISSIONS_TEXT@,
        Error::UnsafeAcl { trustee, rights } => "keystore directory lets "@ + trustee@ + " write to it (access mask "@ + "0x"@ + padded_hex(rights as nat, 8) + "), and "@ + trustee@ + UNSAFE_ACL_TEXT@,
        Error::ReplaceRefused { code } => REPLACE_REFUSED_TEXT_1@ + decimal(code as int) + REPLACE_REFUSED_TEXT_2@,
        Error::HeldOpen { code } => HELD_OPEN_TEXT_1@ + decimal(code as int) + HELD_OPEN_TEXT_2@,
        Error::PendingUnresolved { spent_index } => "key "@ + decimal(spent_index as int) + PENDING_UNRESOLVED_TEXT@,
        Error::NothingPending => "keystore: nothing is pending for that tag"@,
        Error::Poisoned { first } => "keystore poisoned by an earlier failure ("@ + message(*first) + POISONED_TEXT@,
        Error::WrongPassword => WRONG_PASSWORD_TEXT@,
        Error::Mnemonic { what } => "bip39: "@ + what@,
        Error::ShippedIndex { got } => "shipped wotsIndex "@ + decimal(got as int) + SHIPPED_INDEX_TEXT@,
        Error::StaleReceipt { attested, stored } => "the receipt attests index "@ + decimal(attested as int) + " but the store holds "@ + decimal(stored as int) + STALE_RECEIPT_TEXT@,
        Error::NoReservation => NO_RESERVATION_TEXT@,
        Error::DigestMismatch => DIGEST_MISMATCH_TEXT@,
        Error::KeyAccessMismatch { kind } => key_access_text(kind),
        Error::DerivedTagNotReproduced { account_index } => DERIVED_TAG_NOT_REPRODUCED_TEXT_1@ + decimal(account_index as int) + DERIVED_TAG_NOT_REPRODUCED_TEXT_2@,
        Error::KeyStreamSharedWithImportedAccount => KEY_STREAM_SHARED_WITH_IMPORTED_ACCOUNT_TEXT@,
        Error::FirstAddressNotReproduced => FIRST_ADDRESS_NOT_REPRODUCED_TEXT@,
        Error::StreamIdNotReproduced => STREAM_ID_NOT_REPRODUCED_TEXT@,
        Error::ReconciliationRefused { what } => "this account is not reconciled with the chain ("@ + what@ + RECONCILIATION_REFUSED_TEXT@,
        Error::AcknowledgementDoesNotMatch => ACKNOWLEDGEMENT_DOES_NOT_MATCH_TEXT@,
        Error::NothingToReconcile => NOTHING_TO_RECONCILE_TEXT@,
        Error::Cancelled => CANCELLED_TEXT@,
        Error::Transport { op, kind } => "mesh transport "@ + op@ + ": "@ + transport_name(kind),
        Error::HttpStatus { status } => "mesh answered HTTP "@ + decimal(status as int) + HTTP_STATUS_TEXT@,
        Error::Mesh { code, retriable } => if retriable {
            "mesh error code "@ + decimal(code as int) + " (retriable)"@
        } else {
            "mesh error code "@ + decimal(code as int)
        },
        Error::MeshResponse { what } => "mesh response is not the documented shape: "@ + what@,
        Error::PayloadTooLarge { what, max, got } => what@ + ": "@ + decimal(got as int) + " bytes exceeds the cap of "@ + decimal(max as int),
        Error::Hex { what, offset } => what@ + ": not hex at byte offset "@ + decimal(offset as int),
        Error::ChainAddressMismatch { position } => CHAIN_ADDRESS_MISMATCH_TEXT_1@ + decimal(position as int) + CHAIN_ADDRESS_MISMATCH_TEXT_2@,
        Error::ReservationLanded { spent_index, settled_index } => "the chain holds this tag at the key at position "@ + decimal(settled_index as int) + ", which is the change key of the reservation at position "@ + decimal(spent_index as int) + RESERVATION_LANDED_TEXT@,
        Error::InsufficientBalance { balance, needed } => "the chain reports a balance of "@ + decimal(balance as int) + " nanoMCM and the spend needs "@ + decimal(needed as int) + " (send plus fee)"@,
        Error::FeeBelowMinimum { fee, min } => "fee "@ + decimal(fee as int) + " is under the protocol floor of "@ + decimal(min as int) + " (one MFEE per destination, mdst_val)"@,
        Error::ZeroAmount { index } => "destination "@ + decimal(index as int) + " has a zero amount, which mdst_val rejects"@,
        Error::DestinationIsSource { index } => "destination "@ + decimal(index as int) + " carries the source's own tag, which mdst_val rejects"@,
        Error::InvalidReference { index } => "destination "@ + decimal(index as int) + INVALID_REFERENCE_TEXT@,
        Error::Overflow { what } => what@ + " overflows 64 bits"@,
        Error::PositionMismatch { planned, signed } => "the plan was built for the key at position "@ + decimal(planned as int) + " but the signature came from position "@ + decimal(signed as int),
        Error::SignatureDoesNotRecover { what } => SIGNATURE_DOES_NOT_RECOVER_TEXT@ + what@ + " does not match. Nothing was broadcast"@,
        Error::SubmitIdMismatch => SUBMIT_ID_MISMATCH_TEXT@,
    }
}

impl Error {
    /// The text the error is reported in.
    pub fn message(&self) -> (text: String)
        ensures
            text@ == message(*self),
        decreases *self,
    {
        match self {
            Error::Reference { function, rc } => {
                let mut text = "reference ".to_owned();
                text.append(*function);
                text.append("() returned ");
                text.append(signed_text(*rc as i64).as_str());
                text
            },
            Error::ReferenceErrno { function, rc, errno } => {
                let mut text = "reference ".to_owned();
                text.append(*function);
                text.append("() returned ");
                text.append(signed_text(*rc as i64).as_str());
                text.append(", errno ");
                text.append(signed_text(*errno as i64).as_str());
                text
            },
            Error::Length { what, expected, got } => {
                let mut text = (*what).to_owned();
                text.append(": expected ");
                text.append(decimal_text(*expected as u64).as_str());
                text.append(" bytes, got ");
                text.append(decimal_text(*got as u64).as_str());
                text
            },
            Error::Range { what, min, max, got } => {
                let mut text = (*what).to_owned();
                text.append(": ");
                text.append(decimal_text(*got).as_str());
                text.append(" is outside ");
                text.append(decimal_text(*min).as_str());
                text.append("..=");
                text.append(decimal_text(*max).as_str());
                text
            },
            Error::InteriorNul => "base58 input contains an interior NUL".to_owned(),
            Error::NotAscii => "base58 input is not ASCII".to_owned(),
            Error::Io { op, kind } => {
                let mut text = "keystore ".to_owned();
                text.append(*op);
                text.append(": ");
                text.append(kind.name());
                text
            },
            Error::Corrupt { what, offset } => {
                let mut text = "keystore snapshot corrupt: ".to_owned();
                text.append(*what);
                text.append(" at byte offset ");
                text.append(decimal_text(*offset as u64).as_str());
                text
            },
            Error::UnsupportedVersion { got, supported, first_account } => unsupported_message(*got, *supported, *first_account),
            Error::Locked => LOCKED_TEXT.to_owned(),
            Error::Missing => MISSING_TEXT.to_owned(),
            Error::Exists { what } => exists_message(*what),
            Error::PasswordTooShort { chars, min } => {
                let mut text = "password is ".to_owned();
                text.append(decimal_text(*chars as u64).as_str());
                text.append(PASSWORD_TOO_SHORT_TEXT_1);
                text.append(decimal_text(*min as u64).as_str());
                text.append(PASSWORD_TOO_SHORT_TEXT_2);
                text
            },
            Error::NoSuchAccount => "keystore: no account under that tag".to_owned(),
            Error::UnsafePermissions { mode } => {
                let mut text = "keystore directory mode ".to_owned();
                text.append(numeral_text(*mode as u64, 8).as_str());
                text.append(UNSAFE_PERMISSIONS_TEXT);
                text
            },
            Error::UnsafeAcl { trustee, rights } => {
                let mut text = "keystore directory lets ".to_owned();
                text.append(trustee.as_str());
                text.append(" write to it (access mask ");
                text.append("0x");
                text.append(padded_hex_text(*rights as u64, 8).as_str());
                text.append("), and ");
                text.append(trustee.as_str());
                text.append(UNSAFE_ACL_TEXT);
                text
            },
            Error::ReplaceRefused { code } => {
                let mut text = REPLACE_REFUSED_TEXT_1.to_owned();
                text.append(signed_text(*code as i64).as_str());
                text.append(REPLACE_REFUSED_TEXT_2);
                text
            },
            Error::HeldOpen { code } => {
                let mut text = HELD_OPEN_TEXT_1.to_owned();
                text.append(signed_text(*code as i64).as_str());
                text.append(HELD_OPEN_TEXT_2);
                text
            },
            Error::PendingUnresolved { spent_index } => {
                let mut text = "key ".to_owned();
                text.append(decimal_text(*spent_index as u64).as_str());
                text.append(PENDING_UNRESOLVED_TEXT);
                text
            },
            Error::NothingPending => "keystore: nothing is pending for that tag".to_owned(),
            Error::Poisoned { first } => {
                let mut text = "keystore poisoned by an earlier failure (".to_owned();
                text.append(first.message().as_str());
                text.append(POISONED_TEXT);
                text
            },
            Error::WrongPassword => WRONG_PASSWORD_TEXT.to_owned(),
            Error::Mnemonic { what } => {
                let mut text = "bip39: ".to_owned();
                text.append(*what);
                text
            },
            Error::ShippedIndex { got } => {
                let mut text = "shipped wotsIndex ".to_owned();
                text.append(signed_text(*got).as_str());
                text.append(SHIPPED_INDEX_TEXT);
                text
            },
            Error::StaleReceipt { attested, stored } => {
                let mut text = "the receipt attests index ".to_owned();
                text.append(decimal_text(*attested as u64).as_str());
                text.append(" but the store holds ");
                text.append(decimal_text(*stored as u64).as_str());
                text.append(STALE_RECEIPT_TEXT);
                text
            },
            Error::NoReservation => NO_RESERVATION_TEXT.to_owned(),
            Error::DigestMismatch => DIGEST_MISMATCH_TEXT.to_owned(),
            Error::KeyAccessMismatch { kind } => key_access_message(*kind),
            Error::DerivedTagNotReproduced { account_index } => {
                let mut text = DERIVED_TAG_NOT_REPRODUCED_TEXT_1.to_owned();
                text.append(decimal_text(*account_index as u64).as_str());
                text.append(DERIVED_TAG_NOT_REPRODUCED_TEXT_2);
                text
            },
            Error::KeyStreamSharedWithImportedAccount => KEY_STREAM_SHARED_WITH_IMPORTED_ACCOUNT_TEXT.to_owned(),
            Error::FirstAddressNotReproduced => FIRST_ADDRESS_NOT_REPRODUCED_TEXT.to_owned(),
            Error::StreamIdNotReproduced => STREAM_ID_NOT_REPRODUCED_TEXT.to_owned(),
            Error::ReconciliationRefused { what } => {
                let mut text = "this account is not reconciled with the chain (".to_owned();
                text.append(*what);
                text.append(RECONCILIATION_REFUSED_TEXT);
                text
            },
            Error::AcknowledgementDoesNotMatch => ACKNOWLEDGEMENT_DOES_NOT_MATCH_TEXT.to_owned(),
            Error::NothingToReconcile => NOTHING_TO_RECONCILE_TEXT.to_owned(),
            Error::Cancelled => CANCELLED_TEXT.to_owned(),
            Error::Transport { op, kind } => {
                let mut text = "mesh transport ".to_owned();
                text.append(*op);
                text.append(": ");
                text.append(kind.name().as_str());
                text
            },
            Error::HttpStatus { status } => {
                let mut text = "mesh answered HTTP ".to_owned();
                text.append(decimal_text(*status as u64).as_str());
                text.append(HTTP_STATUS_TEXT);
                text
            },
            Error::Mesh { code, retriable } => {
                let mut text = "mesh error code ".to_owned();
                text.append(decimal_text(*code).as_str());
                if *retriable {
                    text.append(" (retriable)");
                }
                text
            },
            Error::MeshResponse { what } => {
                let mut text = "mesh response is not the documented shape: ".to_owned();
                text.append(*what);
                text
            },
            Error::PayloadTooLarge { what, max, got } => {
                let mut text = (*what).to_owned();
                text.append(": ");
                text.append(decimal_text(*got as u64).as_str());
                text.append(" bytes exceeds the cap of ");
                text.append(decimal_text(*max as u64).as_str());
                text
            },
            Error::Hex { what, offset } => {
                let mut text = (*what).to_owned();
                text.append(": not hex at byte offset ");
                text.append(decimal_text(*offset as u64).as_str());
                text
            },
            Error::ChainAddressMismatch { position } => {
                let mut text = CHAIN_ADDRESS_MISMATCH_TEXT_1.to_owned();
                text.append(decimal_text(*position as u64).as_str());
                text.append(CHAIN_ADDRESS_MISMATCH_TEXT_2);
                text
            },
            Error::ReservationLanded { spent_index, settled_index } => {
                let mut text = "the chain holds this tag at the key at position ".to_owned();
                text.append(decimal_text(*settled_index as u64).as_str());
                text.append(", which is the change key of the reservation at position ");
                text.append(decimal_text(*spent_index as u64).as_str());
                text.append(RESERVATION_LANDED_TEXT);
                text
            },
            Error::InsufficientBalance { balance, needed } => {
                let mut text = "the chain reports a balance of ".to_owned();
                text.append(decimal_text(*balance).as_str());
                text.append(" nanoMCM and the spend needs ");
                text.append(decimal_text(*needed).as_str());
                text.append(" (send plus fee)");
                text
            },
            Error::FeeBelowMinimum { fee, min } => {
                let mut text = "fee ".to_owned();
                text.append(decimal_text(*fee).as_str());
                text.append(" is under the protocol floor of ");
                text.append(decimal_text(*min).as_str());
                text.append(" (one MFEE per destination, mdst_val)");
                text
            },
            Error::ZeroAmount { index } => {
                let mut text = "destination ".to_owned();
                text.append(decimal_text(*index as u64).as_str());
                text.append(" has a zero amount, which mdst_val rejects");
                text
            },
            Error::DestinationIsSource { index } => {
                let mut text = "destination ".to_owned();
                text.append(decimal_text(*index as u64).as_str());
                text.append(" carries the source's own tag, which mdst_val rejects");
                text
            },
            Error::InvalidReference { index } => {
                let mut text = "destination ".to_owned();
                text.append(decimal_text(*index as u64).as_str());
                text.append(INVALID_REFERENCE_TEXT);
                text
            },
            Error::Overflow { what } => {
                let mut text = (*what).to_owned();
                text.append(" overflows 64 bits");
                text
            },
            Error::PositionMismatch { planned, signed } => {
                let mut text = "the plan was built for the key at position ".to_owned();
                text.append(decimal_text(*planned as u64).as_str());
                text.append(" but the signature came from position ");
                text.append(decimal_text(*signed as u64).as_str());
                text
            },
            Error::SignatureDoesNotRecover { what } => {
                let mut text = SIGNATURE_DOES_NOT_RECOVER_TEXT.to_owned();
                text.append(*what);
                text.append(" does not match. Nothing was broadcast");
                text
            },
            Error::SubmitIdMismatch => SUBMIT_ID_MISMATCH_TEXT.to_owned(),
        }
    }
}

/// A validator's outcome: the code it returned and the `errno` it left behind.
///
/// Both travel, because both are reported: a validator can fail without
/// touching `errno`, and a success has a code too.
#[derive(Clone, Copy, Debug, PartialEq, Eq, Structural)]
pub struct Verdict {
    /// The code returned.
    pub rc: i32,
    /// `errno` immediately after the call, with `errno` cleared immediately
    /// before it. Zero means none was set, not that nothing failed.
    pub errno: i32,
}

impl Verdict {
    /// Whether the code is `VEOK`.
    pub fn is_ok(self) -> (ok: bool)
        ensures
            ok == (self.rc == VEOK),
    {
        self.rc == VEOK
    }
}

} // verus!
