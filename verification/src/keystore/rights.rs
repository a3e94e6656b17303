//! Which directories are refused and which pass, said of the calls themselves,
//! in the bits and the identifiers the two platforms write.

use vstd::prelude::*;

use crate::error::{Error, IoKind};
#[allow(unused_imports)]
use crate::keystore::perms::{
    accepted, entry_verdict, foreign_writer, list_verdict, private_descriptor, private_list,
    refuse_unsafe_dir, refuse_unsafe_mode, sid_string, wide, DIR_MODE, FILE_MODE, READ_CONTROL,
    WRITE_DAC, WRITE_RIGHTS,
};
use crate::keystore::perms::{Entry, Inherit, ModeSeen, SecuritySeen};
#[allow(unused_imports)]
use crate::utf::{
    law_units_are_read_unless_a_surrogate_stands_alone, law_utf16_reads_back, stands_alone,
    text_to_utf16, utf16_to_utf8,
};

verus! {

/// A directory passes by its mode exactly where neither its group nor anyone
/// else may write to it, and is otherwise refused with the whole mode.
pub proof fn law_a_mode_passes_unless_others_may_write(seen: ModeSeen, safe: Result<(), Error>)
    requires
        call_ensures(refuse_unsafe_mode, (seen,), safe),
    ensures
        seen matches ModeSeen::Mode(mode) ==> {
            &&& safe is Ok <==> mode & 0o020 == 0 && mode & 0o002 == 0
            &&& safe is Err ==> safe == Err::<(), Error>(Error::UnsafePermissions { mode })
        },
        seen matches ModeSeen::NotStatted(kind) ==> safe == Err::<(), Error>(
            Error::Io { op: "stat directory", kind },
        ),
        seen is NotADirectory ==> safe == Err::<(), Error>(
            Error::Io { op: "stat directory", kind: IoKind::NotADirectory },
        ),
        DIR_MODE == 0o700,
        FILE_MODE == 0o600,
{
    if let ModeSeen::Mode(mode) = seen {
        assert(mode & 0o022 == 0 <==> mode & 0o020 == 0 && mode & 0o002 == 0) by (bit_vector);
    }
}

/// A write by this user, by the system account, by the administrators or by
/// whoever owns the object is accepted, and by no one else.
pub proof fn law_four_trustees_are_accepted(sid: &str, user: &str, ok: bool)
    requires
        call_ensures(accepted, (sid, user), ok),
    ensures
        ok <==> sid@ == user@ || sid@ == "S-1-5-18"@ || sid@ == "S-1-5-32-544"@ || sid@ == "S-1-3-4"@,
{
}

/// An entry that lets nobody write who may not: it is about children only, it
/// denies, or what it grants is no write, or is granted to one whose write is
/// accepted.
pub open spec fn harmless(entry: Entry, user: Seq<char>) -> bool {
    ||| entry.flags & 8 != 0
    ||| entry.kind == 1 || entry.kind == 6 || entry.kind == 10 || entry.kind == 12
    ||| {
        &&& entry.kind == 0 || entry.kind == 9
        &&& {
            ||| entry.mask & 0x500d_0046 == 0
            ||| entry.trustee matches Ok(t) && (t@ == user || t@ == "S-1-5-18"@ || t@
                == "S-1-5-32-544"@ || t@ == "S-1-3-4"@)
        }
    }
}

proof fn lemma_harmless(entry: Entry, user: Seq<char>)
    ensures
        harmless(entry, user) <==> entry_verdict(entry, user) is Passes,
        WRITE_RIGHTS == 0x500d_0046,
{
    assert(0x2u32 | 0x4u32 | 0x40u32 | 0x10000u32 | 0x40000u32 | 0x80000u32 | 0x40000000u32
        | 0x10000000u32 == 0x500d_0046u32) by (bit_vector);
}

proof fn lemma_first(entries: Seq<Result<Entry, IoKind>>, user: Seq<char>, k: int)
    requires
        0 <= k <= entries.len(),
        forall|i: int|
            0 <= i < k ==> (#[trigger] entries[i]) is Ok && harmless(entries[i]->Ok_0, user),
    ensures
        list_verdict(entries, user) == list_verdict(entries.skip(k), user),
    decreases k,
{
    if k == 0 {
        assert(entries.skip(0) =~= entries);
    } else {
        let rest = entries.drop_first();
        assert(entries[0] is Ok);
        lemma_harmless(entries[0]->Ok_0, user);
        assert forall|i: int| 0 <= i < k - 1 implies (#[trigger] rest[i]) is Ok && harmless(
            rest[i]->Ok_0,
            user,
        ) by {
            assert(rest[i] == entries[i + 1]);
        }
        lemma_first(rest, user, k - 1);
        assert(rest.skip(k - 1) =~= entries.skip(k));
    }
}

/// A directory with no list is everyone's. One whose entries are all harmless
/// has no foreign writer. Otherwise the first entry that is not harmless
/// decides: one that could not be had or whose trustee could not be read by that
/// failure, one of a type not read here as unsupported, and a grant by the
/// trustee and the whole of what it is granted.
pub proof fn law_the_first_harmful_entry_decides(
    entries: &[Result<Entry, IoKind>],
    user: &str,
    k: int,
    writer: Result<Option<(String, u32)>, IoKind>,
    unlisted: Result<Option<(String, u32)>, IoKind>,
)
    requires
        call_ensures(foreign_writer, (Some(entries), user), writer),
        call_ensures(foreign_writer, (None, user), unlisted),
        0 <= k <= entries@.len(),
        forall|i: int|
            0 <= i < k ==> (#[trigger] entries@[i]) is Ok && harmless(entries@[i]->Ok_0, user@),
    ensures
        unlisted is Ok && unlisted->Ok_0 is Some && (unlisted->Ok_0->0).0@ == "S-1-1-0"@
            && (unlisted->Ok_0->0).1 == 0x1000_0000,
        k == entries@.len() ==> writer == Ok::<Option<(String, u32)>, IoKind>(None),
        k < entries@.len() && entries@[k] is Err ==> writer == Err::<Option<(String, u32)>, IoKind>(
            entries@[k]->Err_0,
        ),
        k < entries@.len() && entries@[k] is Ok && !harmless(entries@[k]->Ok_0, user@) ==> {
            let entry = entries@[k]->Ok_0;
            &&& entry.kind != 0 && entry.kind != 9 ==> writer == Err::<Option<(String, u32)>, IoKind>(
                IoKind::Unsupported,
            )
            &&& (entry.kind == 0 || entry.kind == 9) && entry.trustee is Err ==> writer == Err::<
                Option<(String, u32)>,
                IoKind,
            >(entry.trustee->Err_0)
            &&& (entry.kind == 0 || entry.kind == 9) && entry.trustee is Ok ==> writer is Ok
                && writer->Ok_0 is Some && (writer->Ok_0->0).0@ == entry.trustee->Ok_0@
                && (writer->Ok_0->0).1 == entry.mask
        },
{
    lemma_first(entries@, user@, k);
    let rest = entries@.skip(k);
    if k < entries@.len() {
        assert(rest[0] == entries@[k]);
        if entries@[k] is Ok {
            lemma_harmless(entries@[k]->Ok_0, user@);
        }
    } else {
        assert(rest =~= seq![]);
    }
}

/// A directory's access control is refused for its foreign writer first, in what
/// that one is granted. With none, an owner that cannot be read is refused, and
/// an owner whose write is not accepted as one who may rewrite the list; any
/// other directory passes. What could not be looked at is named.
pub proof fn law_a_directory_is_refused_for_its_writer_then_its_owner(
    user: String,
    list: Option<Vec<Result<Entry, IoKind>>>,
    owner: Result<String, IoKind>,
    entries: &[Result<Entry, IoKind>],
    name: &str,
    writer: Result<Option<(String, u32)>, IoKind>,
    safe: Result<(), Error>,
)
    requires
        name@ == user@,
        list is Some ==> entries@ == list->0@ && call_ensures(
            foreign_writer,
            (Some(entries), name),
            writer,
        ),
        list is None ==> call_ensures(foreign_writer, (None, name), writer),
        call_ensures(refuse_unsafe_dir, ((SecuritySeen::Read { user, list, owner }),), safe),
    ensures
        writer matches Err(kind) ==> safe == Err::<(), Error>(
            Error::Io { op: "read the directory's access list", kind },
        ),
        writer matches Ok(Some((trustee, rights))) ==> safe is Err && safe->Err_0 is UnsafeAcl
            && safe->Err_0->UnsafeAcl_trustee@ == trustee@ && safe->Err_0->UnsafeAcl_rights == rights,
        writer matches Ok(None) ==> match owner {
            Err(kind) => safe == Err::<(), Error>(
                Error::Io { op: "read the directory's owner", kind },
            ),
            Ok(owner) => {
                let passes = owner@ == user@ || owner@ == "S-1-5-18"@ || owner@ == "S-1-5-32-544"@
                    || owner@ == "S-1-3-4"@;
                &&& safe is Ok <==> passes
                &&& !passes ==> safe->Err_0 is UnsafeAcl && safe->Err_0->UnsafeAcl_trustee@ == owner@
                    && safe->Err_0->UnsafeAcl_rights == 0x6_0000
            },
        },
{
    assert(0x40000u32 | 0x20000u32 == 0x6_0000u32) by (bit_vector);
    assert(WRITE_DAC | READ_CONTROL == 0x6_0000);
}

/// What of a directory's access control could not be looked at is named.
pub proof fn law_what_could_not_be_looked_at_is_named(seen: SecuritySeen, safe: Result<(), Error>)
    requires
        call_ensures(refuse_unsafe_dir, (seen,), safe),
    ensures
        seen matches SecuritySeen::NotStatted(kind) ==> safe == Err::<(), Error>(
            Error::Io { op: "stat directory", kind },
        ),
        seen is NotADirectory ==> safe == Err::<(), Error>(
            Error::Io { op: "stat directory", kind: IoKind::NotADirectory },
        ),
        seen matches SecuritySeen::NoUser(kind) ==> safe == Err::<(), Error>(
            Error::Io { op: "read the process token", kind },
        ),
        seen matches SecuritySeen::NotRead(kind) ==> safe == Err::<(), Error>(
            Error::Io { op: "read the directory's access list", kind },
        ),
{
}

/// What a store creates is granted to its user alone and in full, by a protected
/// list; a directory's is inherited by what is created in it. It is handed over
/// in UTF-16 with a NUL behind it.
pub proof fn law_what_is_created_is_the_users_alone(
    user: &str,
    directory: &str,
    file: &str,
    of_directory: Vec<u16>,
    of_file: Vec<u16>,
    children: Vec<u16>,
    nothing: Vec<u16>,
)
    requires
        directory@ == "D:P(A;OICI;FA;;;"@ + user@ + ")"@,
        file@ == "D:P(A;;FA;;;"@ + user@ + ")"@,
        call_ensures(text_to_utf16, (directory,), of_directory),
        call_ensures(text_to_utf16, (file,), of_file),
        call_ensures(private_descriptor, (user, Inherit::Children), children),
        call_ensures(private_descriptor, (user, Inherit::Nothing), nothing),
    ensures
        children@ == of_directory@.push(0),
        nothing@ == of_file@.push(0),
{
    reveal_strlit("D:P(A;OICI;FA;;;");
    reveal_strlit("D:P(A;;FA;;;");
    reveal_strlit("D:P(A;");
    reveal_strlit("OICI");
    reveal_strlit("");
    reveal_strlit(";FA;;;");
    assert("D:P(A;"@ + "OICI"@ + ";FA;;;"@ =~= "D:P(A;OICI;FA;;;"@);
    assert("D:P(A;"@ + ""@ + ";FA;;;"@ =~= "D:P(A;;FA;;;"@);
    assert(private_list(user@, Inherit::Children) =~= directory@);
    assert(private_list(user@, Inherit::Nothing) =~= file@);
}

/// A path without a NUL in it is handed over whole with one behind it, and a
/// path with one is refused.
pub proof fn law_a_path_is_handed_over_whole(path: &[u16], units: Result<Vec<u16>, IoKind>)
    requires
        call_ensures(wide, (path,), units),
    ensures
        units is Err <==> exists|i: int| 0 <= i < path@.len() && #[trigger] path@[i] == 0,
        units matches Err(kind) ==> kind == IoKind::InvalidInput,
        units matches Ok(units) ==> units@.len() == path@.len() + 1 && units@.last() == 0
            && units@.drop_last() == path@,
{
    if let Ok(units) = units {
        assert(units@.drop_last() =~= path@);
        assert forall|i: int| 0 <= i < path@.len() implies #[trigger] path@[i] != 0 by {
            if path@[i] == 0 {
                assert(path@.contains(0));
            }
        }
    } else {
        assert(path@.contains(0));
    }
}

/// An identifier's units read as the text that has those units, and are refused
/// where a surrogate stands alone among them.
pub proof fn law_an_identifier_reads_as_its_text(
    units: &[u16],
    text: &str,
    of_text: Vec<u16>,
    bytes: Option<crate::scrubbed::Scrubbed>,
    read: Result<String, IoKind>,
)
    requires
        call_ensures(sid_string, (units,), read),
        call_ensures(text_to_utf16, (text,), of_text),
        call_ensures(utf16_to_utf8, (units,), bytes),
    ensures
        of_text@ == units@ ==> read is Ok && read->Ok_0@ == text@,
        read is Err <==> exists|i: int| 0 <= i < units@.len() && #[trigger] stands_alone(units@, i),
        read matches Err(kind) ==> kind == IoKind::InvalidData,
{
    law_units_are_read_unless_a_surrogate_stands_alone(units, bytes, text, of_text);
    law_utf16_reads_back(text@);
}

} // verus!
