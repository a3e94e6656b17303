//! Who may write to a store's directory.
//!
//! Two standards on two platforms. What is created is for this user alone:
//! modes `0700` and `0600`, or a protected access list that grants this user
//! full control and nobody else anything. What is accepted is a directory that
//! nobody else can write to: no group- or other-write in its mode, or no write
//! right in its access list for anyone but this user, `SYSTEM` and the
//! Administrators group, and no other owner.
//!
//! Write, and not read: a co-user who can list the directory learns that a store
//! exists; one who can delete a child can move the snapshot out from under a
//! live handle.

use vstd::prelude::*;

use crate::error::{Error, IoKind};
use crate::keystore::medium::{io, Op};
#[allow(unused_imports)]
use crate::keystore::medium::io_error;
use crate::text::same_text;
use crate::utf::{str_from_utf8, text_to_utf16, utf16_to_utf8};
#[allow(unused_imports)]
use crate::utf::{decode_utf16, encode_utf16};

verus! {

/// The mode a store directory is created with.
pub const DIR_MODE: u32 = 0o700;

/// The mode every file of a store is created with.
pub const FILE_MODE: u32 = 0o600;

/// The group- and other-write bits of a mode.
pub const FOREIGN_WRITE: u32 = 0o022;

/// `NT AUTHORITY\SYSTEM`.
pub const SYSTEM: &'static str = "S-1-5-18";

/// `BUILTIN\Administrators`.
pub const ADMINISTRATORS: &'static str = "S-1-5-32-544";

/// `OWNER RIGHTS`: whoever owns the object, which is checked separately.
pub const OWNER_RIGHTS: &'static str = "S-1-3-4";

/// `Everyone`, named in a refusal when the directory has no access list.
pub const EVERYONE: &'static str = "S-1-1-0";

/// Add a file to a directory.
pub const FILE_ADD_FILE: u32 = 0x2;

/// Add a subdirectory to a directory.
pub const FILE_ADD_SUBDIRECTORY: u32 = 0x4;

/// Delete a directory's children.
pub const FILE_DELETE_CHILD: u32 = 0x40;

/// Delete or rename the object itself.
pub const DELETE: u32 = 0x10000;

/// Read the object's access list.
pub const READ_CONTROL: u32 = 0x20000;

/// Rewrite the object's access list.
pub const WRITE_DAC: u32 = 0x40000;

/// Rewrite the object's owner.
pub const WRITE_OWNER: u32 = 0x80000;

/// Every right there is.
pub const GENERIC_ALL: u32 = 0x10000000;

/// The rights that write.
pub const GENERIC_WRITE: u32 = 0x40000000;

/// The rights whose grant to anyone else is a refusal.
pub const WRITE_RIGHTS: u32 = FILE_ADD_FILE | FILE_ADD_SUBDIRECTORY | FILE_DELETE_CHILD | DELETE
    | WRITE_DAC | WRITE_OWNER | GENERIC_WRITE | GENERIC_ALL;

/// An entry that applies to children only.
pub const INHERIT_ONLY_ACE: u8 = 0x8;

/// An entry that grants.
pub const ACCESS_ALLOWED_ACE_TYPE: u8 = 0;

/// An entry that denies.
pub const ACCESS_DENIED_ACE_TYPE: u8 = 1;

/// An entry that denies on one kind of object.
pub const ACCESS_DENIED_OBJECT_ACE_TYPE: u8 = 6;

/// An entry that grants under a condition.
pub const ACCESS_ALLOWED_CALLBACK_ACE_TYPE: u8 = 9;

/// An entry that denies under a condition.
pub const ACCESS_DENIED_CALLBACK_ACE_TYPE: u8 = 10;

/// An entry that denies on one kind of object under a condition.
pub const ACCESS_DENIED_CALLBACK_OBJECT_ACE_TYPE: u8 = 12;

/// A right is a write exactly where it changes what the directory names or who
/// may change it: adding a file or a subdirectory, deleting a child, deleting or
/// renaming the directory, rewriting its list or its owner, and the two generic
/// rights that stand for those.
pub proof fn law_write_rights_are_these(mask: u32)
    ensures
        mask & WRITE_RIGHTS != 0 <==> {
            ||| mask & FILE_ADD_FILE != 0
            ||| mask & FILE_ADD_SUBDIRECTORY != 0
            ||| mask & FILE_DELETE_CHILD != 0
            ||| mask & DELETE != 0
            ||| mask & WRITE_DAC != 0
            ||| mask & WRITE_OWNER != 0
            ||| mask & GENERIC_WRITE != 0
            ||| mask & GENERIC_ALL != 0
        },
{
    assert(mask & (0x2u32 | 0x4u32 | 0x40u32 | 0x10000u32 | 0x40000u32 | 0x80000u32 | 0x40000000u32
        | 0x10000000u32) != 0 <==> mask & 0x2u32 != 0 || mask & 0x4u32 != 0 || mask & 0x40u32 != 0
        || mask & 0x10000u32 != 0 || mask & 0x40000u32 != 0 || mask & 0x80000u32 != 0 || mask
        & 0x40000000u32 != 0 || mask & 0x10000000u32 != 0) by (bit_vector);
}

/// What a look at a directory's mode found.
#[derive(Clone, Copy, Debug, PartialEq, Eq, Structural)]
pub enum ModeSeen {
    /// It could not be looked at.
    NotStatted(IoKind),
    /// It is not a directory.
    NotADirectory,
    /// Its permission bits.
    Mode(u32),
}

/// Refuse a store directory another local user could write to, by its mode.
pub fn refuse_unsafe_mode(seen: ModeSeen) -> (safe: Result<(), Error>)
    ensures
        safe == match seen {
            ModeSeen::NotStatted(kind) => Err(io_error(Op::StatDirectory, kind)),
            ModeSeen::NotADirectory => Err(io_error(Op::StatDirectory, IoKind::NotADirectory)),
            ModeSeen::Mode(mode) => if mode & FOREIGN_WRITE != 0 {
                Err(Error::UnsafePermissions { mode })
            } else {
                Ok(())
            },
        },
{
    match seen {
        ModeSeen::NotStatted(kind) => Err(io(Op::StatDirectory, kind)),
        ModeSeen::NotADirectory => Err(io(Op::StatDirectory, IoKind::NotADirectory)),
        ModeSeen::Mode(mode) => if mode & FOREIGN_WRITE != 0 {
            Err(Error::UnsafePermissions { mode })
        } else {
            Ok(())
        },
    }
}

/// The trustee is one whose write is accepted: this user, `SYSTEM`, the
/// Administrators group, or whoever owns the object.
pub open spec fn is_accepted(sid: Seq<char>, user: Seq<char>) -> bool {
    sid == user || sid == SYSTEM@ || sid == ADMINISTRATORS@ || sid == OWNER_RIGHTS@
}

/// Whether a trustee's write is accepted.
pub fn accepted(sid: &str, user: &str) -> (ok: bool)
    ensures
        ok == is_accepted(sid@, user@),
{
    same_text(sid, user) || same_text(sid, SYSTEM) || same_text(sid, ADMINISTRATORS) || same_text(
        sid,
        OWNER_RIGHTS,
    )
}

/// One entry of an access list: its flags, its type, the rights it is about, and
/// the trustee it names, where that could be read.
pub struct Entry {
    pub flags: u8,
    pub kind: u8,
    pub mask: u32,
    pub trustee: Result<String, IoKind>,
}

/// What one entry says of a directory.
pub enum EntryVerdict {
    /// Nothing against it.
    Passes,
    /// It grants a write right to someone not accepted.
    Grants { trustee: Seq<char>, rights: u32 },
    /// It cannot be read.
    Fails(IoKind),
}

/// A type that grants.
pub open spec fn is_granting(kind: u8) -> bool {
    kind == ACCESS_ALLOWED_ACE_TYPE || kind == ACCESS_ALLOWED_CALLBACK_ACE_TYPE
}

/// A type that denies.
pub open spec fn is_denying(kind: u8) -> bool {
    kind == ACCESS_DENIED_ACE_TYPE || kind == ACCESS_DENIED_CALLBACK_ACE_TYPE || kind
        == ACCESS_DENIED_OBJECT_ACE_TYPE || kind == ACCESS_DENIED_CALLBACK_OBJECT_ACE_TYPE
}

/// What one entry says. One that applies to children only is passed over, since
/// every file of a store has a protected list of its own; a denying one too,
/// which makes this stricter than the access it stands for; and one of a type
/// that is not read here is refused rather than passed over.
pub open spec fn entry_verdict(entry: Entry, user: Seq<char>) -> EntryVerdict {
    if entry.flags & INHERIT_ONLY_ACE != 0 {
        EntryVerdict::Passes
    } else if is_granting(entry.kind) {
        if entry.mask & WRITE_RIGHTS == 0 {
            EntryVerdict::Passes
        } else {
            match entry.trustee {
                Err(kind) => EntryVerdict::Fails(kind),
                Ok(trustee) => if is_accepted(trustee@, user) {
                    EntryVerdict::Passes
                } else {
                    EntryVerdict::Grants { trustee: trustee@, rights: entry.mask }
                },
            }
        }
    } else if is_denying(entry.kind) {
        EntryVerdict::Passes
    } else {
        EntryVerdict::Fails(IoKind::Unsupported)
    }
}

/// What a whole list says: the first entry against it decides. An entry that
/// could not be had at all fails where it stands.
pub open spec fn list_verdict(entries: Seq<Result<Entry, IoKind>>, user: Seq<char>) -> EntryVerdict
    decreases entries.len(),
{
    if entries.len() == 0 {
        EntryVerdict::Passes
    } else {
        match entries[0] {
            Err(kind) => EntryVerdict::Fails(kind),
            Ok(entry) => match entry_verdict(entry, user) {
                EntryVerdict::Passes => list_verdict(entries.drop_first(), user),
                other => other,
            },
        }
    }
}

/// What a directory's list says. No list at all grants every right to everyone:
/// it is what a volume with no access control reports.
pub open spec fn directory_verdict(
    list: Option<Seq<Result<Entry, IoKind>>>,
    user: Seq<char>,
) -> EntryVerdict {
    match list {
        None => EntryVerdict::Grants { trustee: EVERYONE@, rights: GENERIC_ALL },
        Some(entries) => list_verdict(entries, user),
    }
}

/// A directory passes exactly where every entry could be had, could be read, and
/// grants no write right to anyone who is not accepted.
pub proof fn law_a_list_passes_where_every_entry_does(
    entries: Seq<Result<Entry, IoKind>>,
    user: Seq<char>,
)
    ensures
        list_verdict(entries, user) is Passes <==> forall|i: int|
            0 <= i < entries.len() ==> (#[trigger] entries[i]) is Ok && entry_verdict(
                entries[i]->Ok_0,
                user,
            ) is Passes,
    decreases entries.len(),
{
    if entries.len() > 0 {
        let rest = entries.drop_first();
        law_a_list_passes_where_every_entry_does(rest, user);
        assert forall|i: int| 0 <= i < rest.len() implies #[trigger] rest[i] == entries[i + 1] by {}
        assert forall|i: int| 1 <= i < entries.len() implies #[trigger] entries[i] == rest[i - 1] by {
        }
    }
}

/// The list's entries, where there is a list.
pub open spec fn entries_of(list: Option<&[Result<Entry, IoKind>]>) -> Option<
    Seq<Result<Entry, IoKind>>,
> {
    match list {
        Some(entries) => Some(entries@),
        None => None,
    }
}

/// The first entry granting a write right to a trustee that is not accepted, as
/// that trustee and the rights the entry grants.
pub fn foreign_writer(list: Option<&[Result<Entry, IoKind>]>, user: &str) -> (writer: Result<
    Option<(String, u32)>,
    IoKind,
>)
    ensures
        match (writer, directory_verdict(entries_of(list), user@)) {
            (Ok(None), EntryVerdict::Passes) => true,
            (Ok(Some((trustee, rights))), EntryVerdict::Grants { trustee: who, rights: granted }) =>
                trustee@ == who && rights == granted,
            (Err(kind), EntryVerdict::Fails(why)) => kind == why,
            _ => false,
        },
{
    let entries = match list {
        None => {
            return Ok(Some((EVERYONE.to_owned(), GENERIC_ALL)));
        },
        Some(entries) => entries,
    };
    let mut i: usize = 0;
    assert(entries@.skip(0) =~= entries@);
    while i < entries.len()
        invariant
            list == Some(entries),
            i <= entries.len(),
            list_verdict(entries@, user@) == list_verdict(entries@.skip(i as int), user@),
        decreases entries.len() - i,
    {
        assert(entries@.skip(i as int)[0] == entries@[i as int]);
        assert(entries@.skip(i as int).drop_first() =~= entries@.skip(i + 1));
        let entry = match &entries[i] {
            Ok(entry) => entry,
            Err(kind) => {
                return Err(*kind);
            },
        };
        i = i + 1;
        if entry.flags & INHERIT_ONLY_ACE != 0 {
            continue ;
        }
        if entry.kind == ACCESS_ALLOWED_ACE_TYPE || entry.kind == ACCESS_ALLOWED_CALLBACK_ACE_TYPE {
            if entry.mask & WRITE_RIGHTS == 0 {
                continue ;
            }
            match &entry.trustee {
                Err(kind) => {
                    return Err(*kind);
                },
                Ok(trustee) => {
                    if !accepted(trustee.as_str(), user) {
                        return Ok(Some((trustee.clone(), entry.mask)));
                    }
                },
            }
        } else if entry.kind == ACCESS_DENIED_ACE_TYPE || entry.kind
            == ACCESS_DENIED_CALLBACK_ACE_TYPE || entry.kind == ACCESS_DENIED_OBJECT_ACE_TYPE
            || entry.kind == ACCESS_DENIED_CALLBACK_OBJECT_ACE_TYPE {
            continue ;
        } else {
            return Err(IoKind::Unsupported);
        }
    }
    assert(entries@.skip(i as int) =~= seq![]);
    Ok(None)
}

/// What a look at a directory's access control found, as far as it got.
pub enum SecuritySeen {
    /// The directory could not be looked at.
    NotStatted(IoKind),
    /// It is not a directory.
    NotADirectory,
    /// Who this user is could not be read.
    NoUser(IoKind),
    /// The access control could not be read.
    NotRead(IoKind),
    /// This user, the directory's list where it has one, and its owner.
    Read {
        user: String,
        list: Option<Vec<Result<Entry, IoKind>>>,
        owner: Result<String, IoKind>,
    },
}

/// What the access control of a directory refuses. The list comes before the
/// owner: a volume with no access control may report no owner, and that anyone
/// can write there is the refusal an operator can act on. An owner may rewrite
/// the list whatever it says, so another owner is refused as a grant of that.
pub open spec fn security_refusal(seen: SecuritySeen) -> Option<Error> {
    match seen {
        SecuritySeen::NotStatted(kind) => Some(io_error(Op::StatDirectory, kind)),
        SecuritySeen::NotADirectory => Some(io_error(Op::StatDirectory, IoKind::NotADirectory)),
        SecuritySeen::NoUser(kind) => Some(io_error(Op::ReadToken, kind)),
        SecuritySeen::NotRead(kind) => Some(io_error(Op::ReadAccessList, kind)),
        SecuritySeen::Read { user, list, owner } => {
            let entries = match list {
                Some(entries) => Some(entries@),
                None => None,
            };
            match (directory_verdict(entries, user@), owner) {
                (EntryVerdict::Fails(kind), _) => Some(io_error(Op::ReadAccessList, kind)),
                (EntryVerdict::Grants { .. }, _) => None,
                (EntryVerdict::Passes, Err(kind)) => Some(io_error(Op::ReadOwner, kind)),
                (EntryVerdict::Passes, Ok(_)) => None,
            }
        },
    }
}

/// The trustee and the rights a directory's access control is refused for, where
/// it could be read.
pub open spec fn foreign_grant(seen: SecuritySeen) -> Option<(Seq<char>, u32)> {
    match seen {
        SecuritySeen::Read { user, list, owner } => {
            let entries = match list {
                Some(entries) => Some(entries@),
                None => None,
            };
            match (directory_verdict(entries, user@), owner) {
                (EntryVerdict::Grants { trustee, rights }, _) => Some((trustee, rights)),
                (EntryVerdict::Passes, Ok(owner)) => if is_accepted(owner@, user@) {
                    None
                } else {
                    Some((owner@, WRITE_DAC | READ_CONTROL))
                },
                _ => None,
            }
        },
        _ => None,
    }
}

/// Refuse a store directory another local user could write to, by its access
/// control: see [`security_refusal`] and [`foreign_grant`].
pub fn refuse_unsafe_dir(seen: SecuritySeen) -> (safe: Result<(), Error>)
    ensures
        match safe {
            Ok(_) => security_refusal(seen) is None && foreign_grant(seen) is None,
            Err(Error::UnsafeAcl { trustee, rights }) => foreign_grant(seen) == Some(
                (trustee@, rights),
            ),
            Err(e) => security_refusal(seen) == Some(e),
        },
{
    match seen {
        SecuritySeen::NotStatted(kind) => Err(io(Op::StatDirectory, kind)),
        SecuritySeen::NotADirectory => Err(io(Op::StatDirectory, IoKind::NotADirectory)),
        SecuritySeen::NoUser(kind) => Err(io(Op::ReadToken, kind)),
        SecuritySeen::NotRead(kind) => Err(io(Op::ReadAccessList, kind)),
        SecuritySeen::Read { user, list, owner } => {
            let entries: Option<&[Result<Entry, IoKind>]> = match &list {
                Some(entries) => Some(entries.as_slice()),
                None => None,
            };
            match foreign_writer(entries, user.as_str()) {
                Ok(None) => {},
                Ok(Some((trustee, rights))) => {
                    return Err(Error::UnsafeAcl { trustee, rights });
                },
                Err(kind) => {
                    return Err(io(Op::ReadAccessList, kind));
                },
            }
            let owner = match owner {
                Ok(owner) => owner,
                Err(kind) => {
                    return Err(io(Op::ReadOwner, kind));
                },
            };
            if !accepted(owner.as_str(), user.as_str()) {
                return Err(
                    Error::UnsafeAcl { trustee: owner, rights: WRITE_DAC | READ_CONTROL },
                );
            }
            Ok(())
        },
    }
}

/// What a store creates it accepts: a directory of the mode it is created with,
/// and one whose list has this user's entries alone and that this user owns.
pub proof fn law_what_is_created_is_accepted(
    user: String,
    entries: Vec<Result<Entry, IoKind>>,
    owner: String,
)
    requires
        owner@ == user@,
        forall|i: int|
            0 <= i < entries@.len() ==> match #[trigger] entries@[i] {
                Ok(entry) => is_granting(entry.kind) && (entry.trustee matches Ok(trustee)
                    && trustee@ == user@),
                Err(_) => false,
            },
    ensures
        DIR_MODE & FOREIGN_WRITE == 0,
        FILE_MODE & FOREIGN_WRITE == 0,
        ({
            let seen = SecuritySeen::Read { user, list: Some(entries), owner: Ok(owner) };
            security_refusal(seen) is None && foreign_grant(seen) is None
        }),
{
    assert(0o700u32 & 0o022u32 == 0 && 0o600u32 & 0o022u32 == 0) by (bit_vector);
    law_a_list_passes_where_every_entry_does(entries@, user@);
}

/// Whether a created directory's list reaches what is created inside it.
#[derive(Clone, Copy, Debug, PartialEq, Eq, Structural)]
pub enum Inherit {
    Children,
    Nothing,
}

/// The access list of what a store creates, in the security descriptor
/// definition language: `D:P` a protected list, `A` one entry that grants, `FA`
/// full file access, `OICI` inherited by what is created inside, and this user.
pub open spec fn private_list(user: Seq<char>, inherit: Inherit) -> Seq<char> {
    "D:P(A;"@ + match inherit {
        Inherit::Children => "OICI"@,
        Inherit::Nothing => ""@,
    } + ";FA;;;"@ + user + ")"@
}

/// That list, as the NUL-terminated UTF-16 the system takes.
pub fn private_descriptor(user: &str, inherit: Inherit) -> (units: Vec<u16>)
    ensures
        units@ == encode_utf16(private_list(user@, inherit)).push(0),
{
    let mut text = "D:P(A;".to_owned();
    text.append(
        match inherit {
            Inherit::Children => "OICI",
            Inherit::Nothing => "",
        },
    );
    text.append(";FA;;;");
    text.append(user);
    text.append(")");
    let mut units = text_to_utf16(text.as_str());
    units.push(0);
    units
}

/// A path's units as the NUL-terminated UTF-16 the system takes. A path with a
/// NUL in it is refused rather than cut short there, which would be another
/// path.
pub fn wide(path: &[u16]) -> (units: Result<Vec<u16>, IoKind>)
    ensures
        match units {
            Ok(units) => !path@.contains(0) && units@ == path@.push(0),
            Err(kind) => path@.contains(0) && kind == IoKind::InvalidInput,
        },
{
    let mut out: Vec<u16> = Vec::new();
    let mut i: usize = 0;
    while i < path.len()
        invariant
            i <= path.len(),
            out@ == path@.take(i as int),
            forall|j: int| 0 <= j < i ==> path@[j] != 0,
        decreases path.len() - i,
    {
        if path[i] == 0 {
            assert(path@[i as int] == 0);
            return Err(IoKind::InvalidInput);
        }
        out.push(path[i]);
        assert(path@.take(i + 1) =~= path@.take(i as int).push(path@[i as int]));
        i = i + 1;
    }
    assert(path@.take(i as int) =~= path@);
    out.push(0);
    Ok(out)
}

/// A security identifier in its string form, given the units the system wrote
/// it in.
pub fn sid_string(units: &[u16]) -> (text: Result<String, IoKind>)
    ensures
        match (text, decode_utf16(units@)) {
            (Ok(text), Some(chars)) => text@ == chars,
            (Err(kind), None) => kind == IoKind::InvalidData,
            _ => false,
        },
{
    match utf16_to_utf8(units) {
        Some(bytes) => {
            proof {
                vstd::utf8::encode_utf8_valid_utf8(decode_utf16(units@)->0);
                vstd::utf8::encode_utf8_decode_utf8(decode_utf16(units@)->0);
            }
            match str_from_utf8(bytes.as_slice()) {
                Some(text) => {
                    proof {
                        vstd::utf8::encode_utf8_decode_utf8(text@);
                    }
                    Ok(text.to_owned())
                },
                None => Err(IoKind::InvalidData),
            }
        },
        None => Err(IoKind::InvalidData),
    }
}

} // verus!
