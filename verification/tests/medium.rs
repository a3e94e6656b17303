use mochimo_crypto::error::{Error, IoKind};
use mochimo_crypto::keystore::medium::{
    call_of, holding_directory, io, parent_of, slot_path, stale_temp_unlinked, step_op, Action, Call, FilePath, Op,
    StoreFile,
};
use mochimo_crypto::scrubbed::Scrubbed;

/// The directory a new store flushes, for every shape its name arrives in. The
/// bare name, with or without the slash shell completion adds, is the case that
/// matters: without its mapping to `.`, `create --dir wallet` would be refused
/// at the flush.
#[test]
fn parent_of_names_the_directory_holding_the_store_in_every_shape() {
    assert_eq!(parent_of("wallet"), ".");
    assert_eq!(parent_of("wallet/"), ".");
    assert_eq!(parent_of("./wallet"), ".");
    assert_eq!(parent_of("stores/wallet"), "stores");
    assert_eq!(parent_of("/home/op/wallet"), "/home/op");
    assert_eq!(parent_of("/"), "/");
}

#[test]
fn the_directory_holding_a_store_is_read_off_its_parent() {
    assert_eq!(holding_directory("wallet", Some(String::new())), ".");
    assert_eq!(holding_directory("a/b", Some("a".to_string())), "a");
    assert_eq!(holding_directory("/", None), "/");
    assert_eq!(parent_of(""), "");
}

#[test]
fn a_trailing_slash_is_no_component_and_a_root_holds_what_is_under_it() {
    assert_eq!(parent_of("stores/wallet/"), "stores");
    assert_eq!(parent_of("/wallet"), "/");
    assert_eq!(parent_of("/wallet/"), "/");
    assert_eq!(parent_of("."), ".");
    assert_eq!(parent_of("./"), ".");
    assert_eq!(parent_of(".."), ".");
    assert_eq!(parent_of("../wallet"), "..");
    assert_eq!(parent_of("/home/op/.wallet"), "/home/op");
    assert_eq!(parent_of("../.keys/store"), "../.keys");
    assert_eq!(parent_of("stores/.w"), "stores");
    assert_eq!(parent_of("a/.."), "a");
    assert_eq!(parent_of("stores/a:b"), "stores");
    assert_eq!(parent_of("wallet:old"), ".");
    assert_eq!(parent_of("stores//wallet//"), "stores");
    assert_eq!(parent_of("stores/./wallet/."), "stores");
    assert_eq!(parent_of("./."), ".");
    assert_eq!(parent_of("/."), "/.");
}

#[test]
fn a_temp_that_was_not_there_is_no_failure() {
    assert_eq!(stale_temp_unlinked(Ok(())), Ok(()));
    assert_eq!(stale_temp_unlinked(Err(IoKind::NotFound)), Ok(()));
    assert_eq!(
        stale_temp_unlinked(Err(IoKind::PermissionDenied)),
        Err(Error::Io { op: "write_temp unlink stale temp", kind: IoKind::PermissionDenied })
    );
}

#[test]
fn the_files_of_a_store_have_these_names() {
    assert_eq!(StoreFile::Snapshot.name(), "accounts.mks");
    assert_eq!(StoreFile::Temp.name(), "accounts.mks.tmp");
    assert_eq!(StoreFile::Slot1.name(), "accounts.mks.1");
    assert_eq!(StoreFile::Lock.name(), "keystore.lock");
    assert_eq!(slot_path(0), StoreFile::Snapshot);
    assert_eq!(slot_path(1), StoreFile::Slot1);
}

#[test]
fn every_operation_is_named_in_its_error() {
    let named = [
        (Op::StatDirectory, "stat directory"),
        (Op::CreateDirectory, "create directory"),
        (Op::OpenLock, "open lock"),
        (Op::Flock, "flock"),
        (Op::RemoveStaleTemp, "remove stale temp"),
        (Op::StatSnapshot, "stat snapshot"),
        (Op::OpenSnapshot, "open snapshot"),
        (Op::ReadSnapshot, "read snapshot"),
        (Op::OpenSlot, "open slot"),
        (Op::StatSlot, "stat slot"),
        (Op::ReadSlot, "read slot"),
        (Op::WriteTemp, "write_temp"),
        (Op::WriteTempUnlink, "write_temp unlink stale temp"),
        (Op::WriteTempOpen, "write_temp open"),
        (Op::WriteTempWrite, "write_temp write"),
        (Op::FsyncFile, "fsync_file"),
        (Op::Rename, "rename"),
        (Op::FsyncDirOpen, "fsync_dir open"),
        (Op::FsyncDir, "fsync_dir"),
        (Op::FsyncParentOpen, "fsync_parent open"),
        (Op::FsyncParent, "fsync_parent"),
        (Op::FlushStanding, "flush_standing"),
        (Op::WriteSlotCreate, "write_slot create"),
        (Op::WriteSlot, "write_slot"),
        (Op::WriteSlotTear, "write_slot tear"),
        (Op::FlushSlot, "flush_slot"),
        (Op::ReadToken, "read the process token"),
        (Op::ReadAccessList, "read the directory's access list"),
        (Op::ReadOwner, "read the directory's owner"),
    ];
    for (op, text) in named {
        assert_eq!(io(op, IoKind::Other), Error::Io { op: text, kind: IoKind::Other });
    }
}

#[test]
fn a_step_is_recorded_with_the_file_it_touches() {
    let write: Action<Scrubbed> =
        Action::WriteSlot { slot: 1, create: true, bytes: Scrubbed::new(vec![1, 2, 3]) };
    let path = FilePath { dir: "d".to_string(), file: StoreFile::Slot1 };
    assert_eq!(call_of("d", &write), Call::WriteSlot { path, len: 3 });
    assert_eq!(step_op(&write), Op::WriteSlot);
    let flush: Action<Scrubbed> = Action::FlushStanding { slot: 0 };
    let path = FilePath { dir: "d".to_string(), file: StoreFile::Snapshot };
    assert_eq!(call_of("d", &flush), Call::FlushStanding { path });
    assert_eq!(step_op(&flush), Op::FlushStanding);
    assert_eq!(call_of("d", &Action::FsyncDir), Call::FsyncDir { dir: "d".to_string() });
}
