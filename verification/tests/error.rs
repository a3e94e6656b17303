use mochimo_crypto::account::{AccountKind, Tag};
use mochimo_crypto::consts::VEOK;
use mochimo_crypto::error::{Error, IoKind, TransportKind, Verdict};

fn check(e: &Error, text: &str) {
    assert_eq!(e.message(), text);
    assert_eq!(e.duplicate(), *e);
}

#[test]
fn every_refusal_is_reported_in_its_own_words() {
    let cases: Vec<(Error, &str)> = vec![
        (Error::Reference { function: "wots_sign", rc: -1 }, "reference wots_sign() returned -1"),
        (Error::ReferenceErrno { function: "wots_sign", rc: -1, errno: 22 }, "reference wots_sign() returned -1, errno 22"),
        (Error::Length { what: "a thing", expected: 32, got: 31 }, "a thing: expected 32 bytes, got 31"),
        (Error::Range { what: "a thing", min: 5, max: 9, got: 31 }, "a thing: 31 is outside 5..=9"),
        (Error::InteriorNul, "base58 input contains an interior NUL"),
        (Error::NotAscii, "base58 input is not ASCII"),
        (Error::Corrupt { what: "a thing", offset: 12 }, "keystore snapshot corrupt: a thing at byte offset 12"),
        (Error::Locked, "another wallet process holds keystore.lock; the lock releases when that process exits -- do not delete the file"),
        (Error::Missing, "keystore directory has no snapshot; an absent file is not an empty store (use create only for a genuinely new keystore)"),
        (Error::PasswordTooShort { chars: 4, min: 5 }, "password is 4 character(s); this wallet will not seal a store under fewer than 5 (cli::create::MIN_PASSWORD_LEN -- a floor under the search space, counted in characters and not bytes). Nothing was created"),
        (Error::NoSuchAccount, "keystore: no account under that tag"),
        (Error::UnsafePermissions { mode: 0o777 }, "keystore directory mode 777 is group- or other-writable; refusing to hold key material there"),
        (Error::UnsafeAcl { trustee: "S-1-1-0".to_string(), rights: 0x40000 }, "keystore directory lets S-1-1-0 write to it (access mask 0x00040000), and S-1-1-0 is neither this user, SYSTEM nor the Administrators group; refusing to hold key material there"),
        (Error::ReplaceRefused { code: 5 }, "keystore rename: Windows refused to replace accounts.mks (system error 5). The usual cause is another program holding the snapshot or its replacement open without delete sharing -- an antivirus scanner, a search indexer, a backup or sync agent. The previous snapshot is intact and nothing was committed; run the command again, and if the refusal persists, exclude the keystore directory from that program"),
        (Error::PendingUnresolved { spent_index: 7 }, "key 7 is reserved for an unsettled spend; settle it before advancing again"),
        (Error::NothingPending, "keystore: nothing is pending for that tag"),
        (Error::WrongPassword, "the keystore did not decrypt. Either the password is wrong, or the file has been damaged or altered -- this cannot tell you which, by design: an error that distinguished them would tell an attacker which of his guesses was closer. What to try, in order: the password again, minding the keyboard layout and caps lock; a backup copy of the store, if one exists; and then `create --from-phrase` into a fresh directory and `restore --account N` for each account, from the recovery phrase -- a damaged file cannot be repaired here, and nothing in it can be read without the key"),
        (Error::Mnemonic { what: "a thing" }, "bip39: a thing"),
        (Error::ShippedIndex { got: 31 }, "shipped wotsIndex 31 has no position in this crate: -1 is the first key (position 0) and n >= 0 is position n + 1, up to u32::MAX"),
        (Error::StaleReceipt { attested: 3, stored: 4 }, "the receipt attests index 3 but the store holds 4; a receipt names the state it was minted for, and this one is stale"),
        (Error::NoReservation, "no key is reserved for that account: the receipt came from a reconciliation advance or its reservation was settled, and neither names a key to sign with"),
        (Error::DigestMismatch, "the digest is not the one this key was reserved for; the pending record must name what was signed, so a rebuilt transaction needs a fresh reservation"),
        (Error::DerivedTagNotReproduced { account_index: 6 }, "the master seed supplied does not derive this account's tag at position 6; wrong seed, wrong position or wrong tag, and none of them signs"),
        (Error::KeyStreamSharedWithImportedAccount, "this derived account's seed is also held as an imported root in this store; two accounts over one key stream would let one key sign twice, so neither signs (duplicate_key_streams_are_refused_within_one_keystore_not_across_stores)"),
        (Error::FirstAddressNotReproduced, "the root does not reproduce this first address: wots_pkgen over the address's own public seed and hash address gives a different public key, so the pair did not come from one account and position 0 would sign under an address nobody funded"),
        (Error::StreamIdNotReproduced, "the stored key-stream identity is not the one this account's key material produces; the identity is what stops two accounts sitting over one key stream, so a record that disagrees with itself is refused"),
        (Error::ReconciliationRefused { what: "a thing" }, "this account is not reconciled with the chain (a thing), so no spend operation on it is permitted. Read the divergence report and act on it; I4 fails closed because the three causes of divergence have three different correct recoveries"),
        (Error::AcknowledgementDoesNotMatch, "this acknowledgement does not name the divergence this store is in now. An acknowledgement carries the tag and the index the report printed, and it is checked against the live state, so a stale report or another account's cannot be used to advance this one"),
        (Error::NothingToReconcile, "this account reconciles cleanly against the chain; there is no divergence to advance past"),
        (Error::Cancelled, "the key-position walk was stopped before it reached a conclusion; nothing was decided and no index is assumed"),
        (Error::HttpStatus { status: 404 }, "mesh answered HTTP 404; the middleware's own failures are 200s with an error object, so this is a proxy, a route miss or its request-size gate"),
        (Error::MeshResponse { what: "a thing" }, "mesh response is not the documented shape: a thing"),
        (Error::PayloadTooLarge { what: "a thing", max: 9, got: 31 }, "a thing: 31 bytes exceeds the cap of 9"),
        (Error::Hex { what: "a thing", offset: 12 }, "a thing: not hex at byte offset 12"),
        (Error::ChainAddressMismatch { position: 8 }, "the chain's current address for this tag is not the address of the key at position 8, which is the key this keystore would sign with next. Nothing was reserved. This is I4's divergence and it has three causes with three different remedies -- a broadcast spend that never settled, a restored seed with incomplete history, or a second wallet live on this seed -- so do not advance the index by hand; reconcile"),
        (Error::ReservationLanded { spent_index: 7, settled_index: 9 }, "the chain holds this tag at the key at position 9, which is the change key of the reservation at position 7: the reserved spend has landed and there is nothing left to reproduce. Nothing was signed. `settle` is the verb that resolves this state"),
        (Error::InsufficientBalance { balance: 10, needed: 11 }, "the chain reports a balance of 10 nanoMCM and the spend needs 11 (send plus fee)"),
        (Error::FeeBelowMinimum { fee: 1, min: 5 }, "fee 1 is under the protocol floor of 5 (one MFEE per destination, mdst_val)"),
        (Error::ZeroAmount { index: 2 }, "destination 2 has a zero amount, which mdst_val rejects"),
        (Error::DestinationIsSource { index: 2 }, "destination 2 carries the source's own tag, which mdst_val rejects"),
        (Error::InvalidReference { index: 2 }, "destination 2 carries a reference the node's rule refuses (mdst_val, EMCM_XTXREF): uppercase letters and digits in groups, each group all one kind, neighbouring groups of different kinds, single dashes between groups and none at either end, NUL-terminated with nothing after the first NUL"),
        (Error::Overflow { what: "a thing" }, "a thing overflows 64 bits"),
        (Error::PositionMismatch { planned: 1, signed: 2 }, "the plan was built for the key at position 1 but the signature came from position 2"),
        (Error::SignatureDoesNotRecover { what: "a thing" }, "the signature does not validate against the transaction it is attached to: a thing does not match. Nothing was broadcast"),
        (Error::SubmitIdMismatch, "the mesh acknowledged a transaction id that is not the id of the bytes sent; the server parsed something else, and its acknowledgement says nothing about this transaction"),
    ];
    for (e, text) in &cases {
        check(e, text);
    }
}

#[test]
fn a_version_that_is_not_read_says_what_to_do_with_the_store() {
    let version = |got, supported, first_account| Error::UnsupportedVersion { got, supported, first_account };
    let none = " No account tag was read from this file: one is named only for a version-1 or version-2 file whose length fits that version's layout, where the first account's tag stands unencrypted at bytes 22..42.";
    check(&version(5, 4, None), &format!("{}{none}", "keystore snapshot is format version 5; this build reads versions 3 and 4 and writes version 4. A version this build does not read is not damage: a NEWER build of this wallet wrote this store. Open it with a build at least that new, and do not rewrite it or re-add its accounts elsewhere -- a reservation open in it can be re-signed only from it."));
    check(&version(2, 4, None), &format!("{}{none}", "keystore snapshot is format version 2; this build reads version 4 (and reads a version-3 store, re-sealing it as version 4 on its first write). A version this build does not read is not damage: an older store is migrated by re-adding its accounts into a FRESH directory (from the master seed, and from each imported account's root and first address), never by rewriting it in place."));
    check(&version(7, 1, None), &format!("{}{none}", "keystore snapshot is format version 7; this build reads version 1. A version this build does not read is not damage: an older store is migrated by re-adding its accounts into a FRESH directory (from the master seed, and from each imported account's root and first address), never by rewriting it in place."));
}

#[test]
fn an_older_store_is_named_by_its_first_account() {
    let mut tag = Tag { bytes: [10; 20] };
    tag.bytes[19] = 255;
    let version = |kind| Error::UnsupportedVersion { got: 2, supported: 4, first_account: Some((tag, kind)) };
    let older = "keystore snapshot is format version 2; this build reads version 4 (and reads a version-3 store, re-sealing it as version 4 on its first write). A version this build does not read is not damage: an older store is migrated by re-adding its accounts into a FRESH directory (from the master seed, and from each imported account's root and first address), never by rewriting it in place.";
    check(
        &version(AccountKind::Derived),
        &format!("{older}{}", " This file's first account (its records sort by tag) is derived and has the tag 0x0a0a0a0a0a0a0a0a0a0a0a0a0a0a0a0a0a0a0aff, which a version-2 file stores unencrypted at bytes 22..42. To learn whether the refused store is on the SEED of the store in hand, run `address 0x0a0a0a0a0a0a0a0a0a0a0a0a0a0a0a0a0a0a0aff` against the store in hand: an answer means the store in hand derives that same account -- one account seed, one WOTS+ key stream -- so a spend from each store is one key signing twice; destroy one before either spends. `no account for the tag` means that account is not held here, which does not prove a different seed. The refused store derived it from a master seed at an account index, so a match is one master seed."),
    );
    check(
        &version(AccountKind::Imported),
        &format!("{older}{}", " This file's first account (its records sort by tag) is imported and has the tag 0x0a0a0a0a0a0a0a0a0a0a0a0a0a0a0a0a0a0a0aff, which a version-2 file stores unencrypted at bytes 22..42. To learn whether the refused store is on the SEED of the store in hand, run `address 0x0a0a0a0a0a0a0a0a0a0a0a0a0a0a0a0a0a0a0aff` against the store in hand: an answer means the store in hand derives that same account -- one account seed, one WOTS+ key stream -- so a spend from each store is one key signing twice; destroy one before either spends. `no account for the tag` means that account is not held here, which does not prove a different seed. The refused store holds it as an imported root; the master behind that root, if any, is not recorded there."),
    );
}

#[test]
fn a_snapshot_that_exists_names_the_next_step() {
    check(
        &Error::Exists { what: "snapshot" },
        "keystore: a snapshot already exists in this directory. To make a new store, use a different --dir; to add an account to this one, run `restore --account N` against it (`address` lists what it holds). Nothing was changed",
    );
    check(&Error::Exists { what: "account tag" }, "keystore: account tag already exists");
}

#[test]
fn kinds_are_named_as_their_types_print() {
    check(
        &Error::KeyAccessMismatch { kind: AccountKind::Derived },
        "key access does not match the account: a Derived account needs KeyAccess::Master, the master seed it derives from",
    );
    check(
        &Error::KeyAccessMismatch { kind: AccountKind::Imported },
        "key access does not match the account: a Imported account needs KeyAccess::StoredRoot, nothing beyond its stored root",
    );
    check(&Error::Io { op: "rename", kind: IoKind::StorageFull }, "keystore rename: StorageFull");
    for kind in [IoKind::NotFound, IoKind::ReadOnlyFilesystem, IoKind::Interrupted, IoKind::Other] {
        assert_eq!(kind.name(), format!("{kind:?}"));
    }
    check(&Error::Mesh { code: 14, retriable: true }, "mesh error code 14 (retriable)");
    check(&Error::Mesh { code: 14, retriable: false }, "mesh error code 14");
    check(&Error::Transport { op: "post", kind: TransportKind::Other }, "mesh transport post: Other");
}

#[test]
fn a_poisoned_handle_reports_what_poisoned_it() {
    let first = Error::Io { op: "fsync_dir", kind: IoKind::Other };
    check(
        &Error::Poisoned { first: Box::new(first) },
        "keystore poisoned by an earlier failure (keystore fsync_dir: Other); memory and disk may disagree -- drop this handle and reopen from disk, and do not retry the write: after an fsync error the kernel may have discarded the dirty pages, and a retry can report success for data that never reached disk",
    );
}

#[test]
fn a_file_held_open_names_the_code() {
    let text = Error::HeldOpen { code: 32 }.message();
    assert!(text.contains("32"), "{text}");
    check(&Error::ShippedIndex { got: -2 }, "shipped wotsIndex -2 has no position in this crate: -1 is the first key (position 0) and n >= 0 is position n + 1, up to u32::MAX");
}

#[test]
fn a_verdict_is_ok_by_its_code_alone() {
    assert!(Verdict { rc: VEOK, errno: 22 }.is_ok());
    assert!(!Verdict { rc: 1, errno: 0 }.is_ok());
}
