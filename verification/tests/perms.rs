use mochimo_crypto::error::{Error, IoKind};
use mochimo_crypto::keystore::opening::ERROR_SHARING_VIOLATION;
use mochimo_crypto::keystore::perms::{
    accepted, foreign_writer, private_descriptor, refuse_unsafe_dir, refuse_unsafe_mode, sid_string, wide, Entry,
    Inherit, ModeSeen, SecuritySeen, ACCESS_ALLOWED_ACE_TYPE, ACCESS_ALLOWED_CALLBACK_ACE_TYPE,
    ACCESS_DENIED_ACE_TYPE, ACCESS_DENIED_CALLBACK_ACE_TYPE, ACCESS_DENIED_CALLBACK_OBJECT_ACE_TYPE,
    ACCESS_DENIED_OBJECT_ACE_TYPE, ADMINISTRATORS, DELETE, DIR_MODE, EVERYONE, FILE_ADD_FILE, FILE_ADD_SUBDIRECTORY,
    FILE_DELETE_CHILD, FILE_MODE, GENERIC_ALL, GENERIC_WRITE, INHERIT_ONLY_ACE, OWNER_RIGHTS, READ_CONTROL, SYSTEM,
    WRITE_DAC, WRITE_OWNER, WRITE_RIGHTS,
};
use windows_sys::Win32::Foundation as foundation;
use windows_sys::Win32::Security as security;
use windows_sys::Win32::Storage::FileSystem as file_system;
use windows_sys::Win32::System::SystemServices as services;

const USER: &str = "S-1-5-21-1-2-3-1001";
const STRANGER: &str = "S-1-5-21-1-2-3-1002";

fn grant(mask: u32, trustee: &str) -> Result<Entry, IoKind> {
    Ok(Entry { flags: 0, kind: ACCESS_ALLOWED_ACE_TYPE, mask, trustee: Ok(trustee.to_string()) })
}

fn writer(entries: &[Result<Entry, IoKind>]) -> Result<Option<(String, u32)>, IoKind> {
    foreign_writer(Some(entries), USER)
}

fn seen(list: Option<Vec<Result<Entry, IoKind>>>, owner: Result<String, IoKind>) -> Result<(), Error> {
    refuse_unsafe_dir(SecuritySeen::Read { user: USER.to_string(), list, owner })
}

#[test]
fn the_numbers_are_the_systems_own() {
    assert_eq!(FILE_ADD_FILE, file_system::FILE_ADD_FILE);
    assert_eq!(FILE_ADD_SUBDIRECTORY, file_system::FILE_ADD_SUBDIRECTORY);
    assert_eq!(FILE_DELETE_CHILD, file_system::FILE_DELETE_CHILD);
    assert_eq!(DELETE, file_system::DELETE);
    assert_eq!(READ_CONTROL, file_system::READ_CONTROL);
    assert_eq!(WRITE_DAC, file_system::WRITE_DAC);
    assert_eq!(WRITE_OWNER, file_system::WRITE_OWNER);
    assert_eq!(GENERIC_ALL, foundation::GENERIC_ALL);
    assert_eq!(GENERIC_WRITE, foundation::GENERIC_WRITE);
    assert_eq!(ERROR_SHARING_VIOLATION as u32, foundation::ERROR_SHARING_VIOLATION);
    assert_eq!(u32::from(INHERIT_ONLY_ACE), security::INHERIT_ONLY_ACE);
    assert_eq!(u32::from(ACCESS_ALLOWED_ACE_TYPE), services::ACCESS_ALLOWED_ACE_TYPE);
    assert_eq!(u32::from(ACCESS_ALLOWED_CALLBACK_ACE_TYPE), services::ACCESS_ALLOWED_CALLBACK_ACE_TYPE);
    assert_eq!(u32::from(ACCESS_DENIED_ACE_TYPE), services::ACCESS_DENIED_ACE_TYPE);
    assert_eq!(u32::from(ACCESS_DENIED_CALLBACK_ACE_TYPE), services::ACCESS_DENIED_CALLBACK_ACE_TYPE);
    assert_eq!(u32::from(ACCESS_DENIED_OBJECT_ACE_TYPE), services::ACCESS_DENIED_OBJECT_ACE_TYPE);
    assert_eq!(
        u32::from(ACCESS_DENIED_CALLBACK_OBJECT_ACE_TYPE),
        services::ACCESS_DENIED_CALLBACK_OBJECT_ACE_TYPE
    );
    assert_eq!(WRITE_RIGHTS, 0x500d_0046);
}

#[test]
fn a_mode_that_lets_others_write_is_refused() {
    assert_eq!((DIR_MODE, FILE_MODE), (0o700, 0o600));
    for mode in [0o700, 0o755, 0o711, 0o744] {
        assert_eq!(refuse_unsafe_mode(ModeSeen::Mode(mode)), Ok(()));
    }
    for mode in [0o720, 0o702, 0o777, 0o1777] {
        assert_eq!(refuse_unsafe_mode(ModeSeen::Mode(mode)), Err(Error::UnsafePermissions { mode }));
    }
    assert_eq!(
        refuse_unsafe_mode(ModeSeen::NotADirectory),
        Err(Error::Io { op: "stat directory", kind: IoKind::NotADirectory })
    );
    assert_eq!(
        refuse_unsafe_mode(ModeSeen::NotStatted(IoKind::NotFound)),
        Err(Error::Io { op: "stat directory", kind: IoKind::NotFound })
    );
}

#[test]
fn this_user_the_system_the_administrators_and_the_owner_are_accepted() {
    for sid in [USER, SYSTEM, ADMINISTRATORS, OWNER_RIGHTS] {
        assert!(accepted(sid, USER), "{sid}");
        assert_eq!(writer(&[grant(GENERIC_ALL, sid)]), Ok(None));
    }
    for sid in [STRANGER, EVERYONE, "", "S-1-5-1"] {
        assert!(!accepted(sid, USER), "{sid}");
    }
}

#[test]
fn the_first_foreign_write_is_named() {
    let read_only = grant(0x0012_0089, EVERYONE);
    assert_eq!(writer(&[]), Ok(None));
    assert_eq!(writer(&[read_only]), Ok(None));
    for right in [
        FILE_ADD_FILE,
        FILE_ADD_SUBDIRECTORY,
        FILE_DELETE_CHILD,
        DELETE,
        WRITE_DAC,
        WRITE_OWNER,
        GENERIC_WRITE,
        GENERIC_ALL,
    ] {
        let entries = [grant(right, USER), grant(right | READ_CONTROL, STRANGER), grant(right, EVERYONE)];
        assert_eq!(writer(&entries), Ok(Some((STRANGER.to_string(), right | READ_CONTROL))));
    }
    let callback = Ok(Entry {
        flags: 0,
        kind: ACCESS_ALLOWED_CALLBACK_ACE_TYPE,
        mask: DELETE,
        trustee: Ok(EVERYONE.to_string()),
    });
    assert_eq!(writer(&[callback]), Ok(Some((EVERYONE.to_string(), DELETE))));
    assert_eq!(foreign_writer(None, USER), Ok(Some((EVERYONE.to_string(), GENERIC_ALL))));
}

#[test]
fn entries_for_children_and_denials_pass_and_unread_types_do_not() {
    let entry = |flags, kind, trustee| Ok(Entry { flags, kind, mask: GENERIC_ALL, trustee });
    let stranger = || Ok(STRANGER.to_string());
    assert_eq!(writer(&[entry(INHERIT_ONLY_ACE | 3, ACCESS_ALLOWED_ACE_TYPE, stranger())]), Ok(None));
    for kind in [1, 10, 6, 12] {
        assert_eq!(writer(&[entry(0, kind, stranger())]), Ok(None));
        assert_eq!(
            writer(&[entry(0, kind, stranger()), grant(WRITE_DAC, STRANGER)]),
            Ok(Some((STRANGER.to_string(), WRITE_DAC)))
        );
    }
    for kind in [2, 5, 11, 17] {
        assert_eq!(writer(&[entry(0, kind, stranger())]), Err(IoKind::Unsupported));
    }
    assert_eq!(writer(&[entry(0, 0, Err(IoKind::InvalidData))]), Err(IoKind::InvalidData));
    assert_eq!(writer(&[Err(IoKind::Other)]), Err(IoKind::Other));
}

#[test]
fn the_list_is_asked_before_the_owner() {
    assert_eq!(seen(Some(vec![grant(GENERIC_ALL, USER)]), Ok(USER.to_string())), Ok(()));
    assert_eq!(seen(Some(vec![]), Ok(ADMINISTRATORS.to_string())), Ok(()));
    assert_eq!(
        seen(None, Err(IoKind::InvalidData)),
        Err(Error::UnsafeAcl { trustee: EVERYONE.to_string(), rights: GENERIC_ALL })
    );
    assert_eq!(
        seen(Some(vec![]), Ok(STRANGER.to_string())),
        Err(Error::UnsafeAcl { trustee: STRANGER.to_string(), rights: WRITE_DAC | READ_CONTROL })
    );
    assert_eq!(
        seen(Some(vec![]), Err(IoKind::InvalidData)),
        Err(Error::Io { op: "read the directory's owner", kind: IoKind::InvalidData })
    );
    assert_eq!(
        seen(Some(vec![Err(IoKind::Other)]), Err(IoKind::InvalidData)),
        Err(Error::Io { op: "read the directory's access list", kind: IoKind::Other })
    );
    let failed = |seen, op, kind| assert_eq!(refuse_unsafe_dir(seen), Err(Error::Io { op, kind }));
    failed(SecuritySeen::NotStatted(IoKind::NotFound), "stat directory", IoKind::NotFound);
    failed(SecuritySeen::NotADirectory, "stat directory", IoKind::NotADirectory);
    failed(SecuritySeen::NoUser(IoKind::Other), "read the process token", IoKind::Other);
    failed(SecuritySeen::NotRead(IoKind::Other), "read the directory's access list", IoKind::Other);
}

#[test]
fn what_is_created_is_for_this_user_alone() {
    assert_eq!(refuse_unsafe_mode(ModeSeen::Mode(DIR_MODE)), Ok(()));
    assert_eq!(seen(Some(vec![grant(GENERIC_ALL, USER)]), Ok(USER.to_string())), Ok(()));
    let text = |units: Vec<u16>| String::from_utf16(&units).unwrap_or_else(|e| panic!("{e}"));
    assert_eq!(text(private_descriptor(USER, Inherit::Nothing)), format!("D:P(A;;FA;;;{USER})\0"));
    assert_eq!(text(private_descriptor(USER, Inherit::Children)), format!("D:P(A;OICI;FA;;;{USER})\0"));
}

#[test]
fn a_path_with_a_nul_in_it_is_refused() {
    assert_eq!(wide(&[67, 58]), Ok(vec![67, 58, 0]));
    assert_eq!(wide(&[]), Ok(vec![0]));
    assert_eq!(wide(&[67, 0, 58]), Err(IoKind::InvalidInput));
}

#[test]
fn an_identifier_is_read_from_its_units() {
    let units: Vec<u16> = USER.encode_utf16().collect();
    assert_eq!(sid_string(&units), Ok(USER.to_string()));
    assert_eq!(sid_string(&[0xd83d, 0xde00]), Ok("\u{1f600}".to_string()));
    assert_eq!(sid_string(&[]), Ok(String::new()));
    assert_eq!(sid_string(&[0xd83d]), Err(IoKind::InvalidData));
    assert_eq!(sid_string(&[0xde00, 0xd83d]), Err(IoKind::InvalidData));
}
