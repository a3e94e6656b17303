//! What a refusal's text says of its figures, said of the calls themselves.

use vstd::prelude::*;

#[allow(unused_imports)]
use crate::account::AccountKind;
use crate::account::Tag;
#[allow(unused_imports)]
use crate::error::{
    CHAIN_ADDRESS_MISMATCH_TEXT_1, CHAIN_ADDRESS_MISMATCH_TEXT_2, DERIVED_TAG_NOT_REPRODUCED_TEXT_1,
    DERIVED_TAG_NOT_REPRODUCED_TEXT_2, FIRST_ACCOUNT_TEXT_1, FIRST_ACCOUNT_TEXT_2,
    FIRST_DERIVED_TEXT, FIRST_IMPORTED_TEXT, HELD_OPEN_TEXT_1, HELD_OPEN_TEXT_2, HTTP_STATUS_TEXT,
    INVALID_REFERENCE_TEXT, MIGRATE_TEXT, NEWER_TEXT, NO_FIRST_ACCOUNT_TEXT,
    PASSWORD_TOO_SHORT_TEXT_1, PASSWORD_TOO_SHORT_TEXT_2, PENDING_UNRESOLVED_TEXT, POISONED_TEXT,
    RECONCILIATION_REFUSED_TEXT, REPLACE_REFUSED_TEXT_1, REPLACE_REFUSED_TEXT_2,
    RESERVATION_LANDED_TEXT, SHIPPED_INDEX_TEXT, SIGNATURE_DOES_NOT_RECOVER_TEXT,
    SNAPSHOT_EXISTS_TEXT, STALE_RECEIPT_TEXT, UNSAFE_ACL_TEXT, UNSAFE_PERMISSIONS_TEXT, version_text,
};
use crate::error::{Error, IoKind, TransportKind, Verdict};
#[allow(unused_imports)]
use crate::text::{decimal, hex_bytes, numeral, padded_hex};

verus! {

/// A refusal's text holds each of its figures where its sentence has it:
/// positions, lengths, amounts and codes in decimal, a mode in octal, an access
/// mask in eight hexadecimal digits, and names as they are.
pub proof fn law_a_refusal_names_its_figures(e: Error, text: String)
    requires
        call_ensures(Error::message, (&e,), text),
    ensures
        e matches Error::Reference { function, rc } ==> text@ == "reference "@ + function@
            + "() returned "@ + decimal(rc as int),
        e matches Error::ReferenceErrno { function, rc, errno } ==> text@ == "reference "@ + function@
            + "() returned "@ + decimal(rc as int) + ", errno "@ + decimal(errno as int),
        e matches Error::Length { what, expected, got } ==> text@ == what@ + ": expected "@
            + decimal(expected as int) + " bytes, got "@ + decimal(got as int),
        e matches Error::Range { what, min, max, got } ==> text@ == what@ + ": "@ + decimal(got as int)
            + " is outside "@ + decimal(min as int) + "..="@ + decimal(max as int),
        e matches Error::Corrupt { what, offset } ==> text@ == "keystore snapshot corrupt: "@ + what@
            + " at byte offset "@ + decimal(offset as int),
        e matches Error::PasswordTooShort { chars, min } ==> text@ == "password is "@
            + decimal(chars as int) + PASSWORD_TOO_SHORT_TEXT_1@ + decimal(min as int)
            + PASSWORD_TOO_SHORT_TEXT_2@,
        e matches Error::UnsafePermissions { mode } ==> text@ == "keystore directory mode "@
            + numeral(mode as nat, 8) + UNSAFE_PERMISSIONS_TEXT@,
        e matches Error::UnsafeAcl { trustee, rights } ==> text@ == "keystore directory lets "@
            + trustee@ + " write to it (access mask "@ + "0x"@ + padded_hex(rights as nat, 8)
            + "), and "@ + trustee@ + UNSAFE_ACL_TEXT@,
        e matches Error::ReplaceRefused { code } ==> text@ == REPLACE_REFUSED_TEXT_1@
            + decimal(code as int) + REPLACE_REFUSED_TEXT_2@,
        e matches Error::HeldOpen { code } ==> text@ == HELD_OPEN_TEXT_1@ + decimal(code as int)
            + HELD_OPEN_TEXT_2@,
        e matches Error::PendingUnresolved { spent_index } ==> text@ == "key "@
            + decimal(spent_index as int) + PENDING_UNRESOLVED_TEXT@,
        e matches Error::Mnemonic { what } ==> text@ == "bip39: "@ + what@,
        e matches Error::ShippedIndex { got } ==> text@ == "shipped wotsIndex "@ + decimal(got as int)
            + SHIPPED_INDEX_TEXT@,
        e matches Error::StaleReceipt { attested, stored } ==> text@ == "the receipt attests index "@
            + decimal(attested as int) + " but the store holds "@ + decimal(stored as int)
            + STALE_RECEIPT_TEXT@,
        e matches Error::DerivedTagNotReproduced { account_index } ==> text@
            == DERIVED_TAG_NOT_REPRODUCED_TEXT_1@ + decimal(account_index as int)
            + DERIVED_TAG_NOT_REPRODUCED_TEXT_2@,
        e matches Error::ReconciliationRefused { what } ==> text@
            == "this account is not reconciled with the chain ("@ + what@
            + RECONCILIATION_REFUSED_TEXT@,
        e matches Error::HttpStatus { status } ==> text@ == "mesh answered HTTP "@
            + decimal(status as int) + HTTP_STATUS_TEXT@,
        e matches Error::MeshResponse { what } ==> text@
            == "mesh response is not the documented shape: "@ + what@,
        e matches Error::PayloadTooLarge { what, max, got } ==> text@ == what@ + ": "@
            + decimal(got as int) + " bytes exceeds the cap of "@ + decimal(max as int),
        e matches Error::Hex { what, offset } ==> text@ == what@ + ": not hex at byte offset "@
            + decimal(offset as int),
        e matches Error::ChainAddressMismatch { position } ==> text@ == CHAIN_ADDRESS_MISMATCH_TEXT_1@
            + decimal(position as int) + CHAIN_ADDRESS_MISMATCH_TEXT_2@,
        e matches Error::ReservationLanded { spent_index, settled_index } ==> text@
            == "the chain holds this tag at the key at position "@ + decimal(settled_index as int)
            + ", which is the change key of the reservation at position "@ + decimal(spent_index as int)
            + RESERVATION_LANDED_TEXT@,
        e matches Error::InsufficientBalance { balance, needed } ==> text@
            == "the chain reports a balance of "@ + decimal(balance as int)
            + " nanoMCM and the spend needs "@ + decimal(needed as int) + " (send plus fee)"@,
        e matches Error::FeeBelowMinimum { fee, min } ==> text@ == "fee "@ + decimal(fee as int)
            + " is under the protocol floor of "@ + decimal(min as int)
            + " (one MFEE per destination, mdst_val)"@,
        e matches Error::ZeroAmount { index } ==> text@ == "destination "@ + decimal(index as int)
            + " has a zero amount, which mdst_val rejects"@,
        e matches Error::DestinationIsSource { index } ==> text@ == "destination "@
            + decimal(index as int) + " carries the source's own tag, which mdst_val rejects"@,
        e matches Error::InvalidReference { index } ==> text@ == "destination "@ + decimal(index as int)
            + INVALID_REFERENCE_TEXT@,
        e matches Error::Overflow { what } ==> text@ == what@ + " overflows 64 bits"@,
        e matches Error::PositionMismatch { planned, signed } ==> text@
            == "the plan was built for the key at position "@ + decimal(planned as int)
            + " but the signature came from position "@ + decimal(signed as int),
        e matches Error::SignatureDoesNotRecover { what } ==> text@ == SIGNATURE_DOES_NOT_RECOVER_TEXT@
            + what@ + " does not match. Nothing was broadcast"@,
{
}

/// A failed operation's text is its words and the kind's name; a transport's
/// likewise; the first failure of a poisoned handle stands in full in the
/// handle's own text; and a Mesh error that may be retried says so.
pub proof fn law_a_refusal_holds_the_text_of_its_cause(
    e: Error,
    text: String,
    kind: IoKind,
    name: &'static str,
    transport: TransportKind,
    class: String,
    first: Error,
    cause: String,
)
    requires
        call_ensures(Error::message, (&e,), text),
        call_ensures(IoKind::name, (kind,), name),
        call_ensures(TransportKind::name, (transport,), class),
        call_ensures(Error::message, (&first,), cause),
    ensures
        e matches Error::Io { op, kind: k } ==> k == kind ==> text@ == "keystore "@ + op@ + ": "@
            + name@,
        e matches Error::Transport { op, kind: k } ==> k == transport ==> text@ == "mesh transport "@
            + op@ + ": "@ + class@,
        transport == TransportKind::Io(kind) ==> class@ == "Io("@ + name@ + ")"@,
        e matches Error::Poisoned { first: f } ==> *f == first ==> text@
            == "keystore poisoned by an earlier failure ("@ + cause@ + POISONED_TEXT@,
        e matches Error::Mesh { code, retriable } ==> retriable ==> text@ == "mesh error code "@
            + decimal(code as int) + " (retriable)"@,
        e matches Error::Mesh { code, retriable } ==> !retriable ==> text@ == "mesh error code "@
            + decimal(code as int),
        e matches Error::Exists { what } ==> what@ != "snapshot"@ ==> text@ == "keystore: "@ + what@
            + " already exists"@,
        e matches Error::Exists { what } ==> what@ == "snapshot"@ ==> text@ == SNAPSHOT_EXISTS_TEXT@,
{
}

/// A version that is not read is named with the ones that are. A snapshot newer
/// than this build is to be opened by a newer one; an older one, or a file that
/// is no snapshot, is migrated. The first account of the refused store is named
/// by its kind and twice by its tag, and where none was read that is said.
pub proof fn law_a_version_that_is_not_read_is_named(
    got: u16,
    supported: u16,
    tag: Tag,
    kind: AccountKind,
    unnamed: String,
    named: String,
) -> (front: Seq<char>)
    requires
        call_ensures(
            Error::message,
            (&(Error::UnsupportedVersion { got, supported, first_account: None }),),
            unnamed,
        ),
        call_ensures(
            Error::message,
            (&(Error::UnsupportedVersion { got, supported, first_account: Some((tag, kind)) }),),
            named,
        ),
    ensures
        unnamed@ == front + NO_FIRST_ACCOUNT_TEXT@,
        named@ == front + (" This file's first account (its records sort by tag) is "@ + (if kind
            == AccountKind::Derived {
            "derived"@
        } else {
            "imported"@
        }) + " and has the tag 0x"@ + hex_bytes(tag@) + ", which a version-"@ + decimal(got as int)
            + FIRST_ACCOUNT_TEXT_1@ + hex_bytes(tag@) + FIRST_ACCOUNT_TEXT_2@ + (if kind
            == AccountKind::Derived {
            FIRST_DERIVED_TEXT@
        } else {
            FIRST_IMPORTED_TEXT@
        })),
        supported == 4 && got > 4 ==> front == "keystore snapshot is format version "@ + decimal(
            got as int,
        ) + "; this build reads versions "@ + decimal(3) + " and "@ + decimal(4)
            + " and writes version "@ + decimal(4) + NEWER_TEXT@,
        supported == 4 && got <= 4 ==> front == "keystore snapshot is format version "@ + decimal(
            got as int,
        ) + "; this build reads version "@ + decimal(4)
            + " (and reads a version-3 store, re-sealing it as version "@ + decimal(4)
            + " on its first write)."@ + MIGRATE_TEXT@,
        supported != 4 ==> front == "keystore snapshot is format version "@ + decimal(got as int)
            + "; this build reads version "@ + decimal(supported as int) + "."@ + MIGRATE_TEXT@,
{
    version_text(got, supported)
}

/// A kind of failure is named as it is written.
pub proof fn law_a_kind_is_named_as_it_is_written(kind: IoKind, name: &'static str)
    requires
        call_ensures(IoKind::name, (kind,), name),
    ensures
        kind == IoKind::NotFound ==> name@ == "NotFound"@,
        kind == IoKind::PermissionDenied ==> name@ == "PermissionDenied"@,
        kind == IoKind::ConnectionRefused ==> name@ == "ConnectionRefused"@,
        kind == IoKind::ConnectionReset ==> name@ == "ConnectionReset"@,
        kind == IoKind::HostUnreachable ==> name@ == "HostUnreachable"@,
        kind == IoKind::NetworkUnreachable ==> name@ == "NetworkUnreachable"@,
        kind == IoKind::ConnectionAborted ==> name@ == "ConnectionAborted"@,
        kind == IoKind::NotConnected ==> name@ == "NotConnected"@,
        kind == IoKind::AddrInUse ==> name@ == "AddrInUse"@,
        kind == IoKind::AddrNotAvailable ==> name@ == "AddrNotAvailable"@,
        kind == IoKind::NetworkDown ==> name@ == "NetworkDown"@,
        kind == IoKind::BrokenPipe ==> name@ == "BrokenPipe"@,
        kind == IoKind::AlreadyExists ==> name@ == "AlreadyExists"@,
        kind == IoKind::WouldBlock ==> name@ == "WouldBlock"@,
        kind == IoKind::NotADirectory ==> name@ == "NotADirectory"@,
        kind == IoKind::IsADirectory ==> name@ == "IsADirectory"@,
        kind == IoKind::DirectoryNotEmpty ==> name@ == "DirectoryNotEmpty"@,
        kind == IoKind::ReadOnlyFilesystem ==> name@ == "ReadOnlyFilesystem"@,
        kind == IoKind::FilesystemLoop ==> name@ == "FilesystemLoop"@,
        kind == IoKind::StaleNetworkFileHandle ==> name@ == "StaleNetworkFileHandle"@,
        kind == IoKind::InvalidInput ==> name@ == "InvalidInput"@,
        kind == IoKind::InvalidData ==> name@ == "InvalidData"@,
        kind == IoKind::TimedOut ==> name@ == "TimedOut"@,
        kind == IoKind::WriteZero ==> name@ == "WriteZero"@,
        kind == IoKind::StorageFull ==> name@ == "StorageFull"@,
        kind == IoKind::NotSeekable ==> name@ == "NotSeekable"@,
        kind == IoKind::QuotaExceeded ==> name@ == "QuotaExceeded"@,
        kind == IoKind::FileTooLarge ==> name@ == "FileTooLarge"@,
        kind == IoKind::ResourceBusy ==> name@ == "ResourceBusy"@,
        kind == IoKind::ExecutableFileBusy ==> name@ == "ExecutableFileBusy"@,
        kind == IoKind::Deadlock ==> name@ == "Deadlock"@,
        kind == IoKind::CrossesDevices ==> name@ == "CrossesDevices"@,
        kind == IoKind::TooManyLinks ==> name@ == "TooManyLinks"@,
        kind == IoKind::InvalidFilename ==> name@ == "InvalidFilename"@,
        kind == IoKind::ArgumentListTooLong ==> name@ == "ArgumentListTooLong"@,
        kind == IoKind::Interrupted ==> name@ == "Interrupted"@,
        kind == IoKind::Unsupported ==> name@ == "Unsupported"@,
        kind == IoKind::UnexpectedEof ==> name@ == "UnexpectedEof"@,
        kind == IoKind::OutOfMemory ==> name@ == "OutOfMemory"@,
        kind == IoKind::InProgress ==> name@ == "InProgress"@,
        kind == IoKind::Other ==> name@ == "Other"@,
        kind == IoKind::Uncategorized ==> name@ == "Uncategorized"@,
{
}

/// A second copy of an error is that error, and an outcome is a success exactly
/// where its code is nought, whatever else was left behind.
pub proof fn law_an_error_is_copied_as_it_is(e: Error, copy: Error, verdict: Verdict, ok: bool)
    requires
        call_ensures(Error::duplicate, (&e,), copy),
        call_ensures(Verdict::is_ok, (verdict,), ok),
    ensures
        copy == e,
        ok <==> verdict.rc == 0,
{
}

} // verus!
