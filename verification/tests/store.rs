use mochimo_crypto::account::{Account, AccountKind, KeyMaterial, StreamId, Tag, WotsIndex};
use mochimo_crypto::error::{Error, IoKind};
use mochimo_crypto::keystore::accounts::{Figures, Pending, Slot, SlotMap};
use mochimo_crypto::keystore::change::{Change, Edit};
use mochimo_crypto::keystore::commit::{Commit, Layout, SlotFiles};
use mochimo_crypto::keystore::creating::{occupied, Creating, DirectorySeen, LayoutKind};
use mochimo_crypto::keystore::format::{Header, ImageLimits, Kdf, Parsed, Reading, V3_VERSION, VERSION};
use mochimo_crypto::keystore::medium::{
    call_of, io, step_op, torn_write, Action, Call, FilePath, Instrumented, Op, StoreFile,
};
use mochimo_crypto::keystore::opening::{
    open_slot, slot_bytes, slot_length, sort_slots, take_lock, LockTry, Opening, SlotOpenFailure,
    SnapshotRead, TempSeen,
};
use mochimo_crypto::keystore::slots::{frame, key_request, newest_image, sort, take, Content, Taken, OVERHEAD};
use mochimo_crypto::keystore::store::{
    AdvanceReceipt, Done, Init, Keystore, Recompute, Recomputed, SealRequest, Unlock,
};
use mochimo_crypto::scrubbed::Scrubbed;
use sha3::{Digest, Sha3_256};

const MAGIC: [u8; 8] = *b"MCMKSLOT";
const PASSWORD: &[u8] = b"slot-test-password-not-for-use";
const SALT: [u8; 16] = [5u8; 16];
const OTHER_SALT: [u8; 16] = [9u8; 16];
const NONCE_SEED: [u8; 32] = [6u8; 32];
const CHEAP: Kdf = Kdf { memory_kib: 8, passes: 1, lanes: 1 };
const LIMITS: ImageLimits = ImageLimits { min: HEADER + BODY + CHECK, max: 1 << 20 };

// A small image format: a plaintext header, the records, and a check under the
// key over everything before it.
const HEADER: usize = 4 + 2 + 12 + 16;
const BODY: usize = 8 + 33 + 4;
const RECORD: usize = 216;
const CHECK: usize = 32;

struct Row {
    tag: Tag,
    key_material: (u8, u32, [u8; 32], StreamId),
    wots_index: WotsIndex,
    pending: Option<Pending>,
    settled: Option<Pending>,
}

fn sha3(parts: &[&[u8]]) -> [u8; 32] {
    let mut hasher = Sha3_256::new();
    for part in parts {
        hasher.update(part);
    }
    hasher.finalize().into()
}

fn scrubbed(bytes: &[u8]) -> Scrubbed {
    Scrubbed::new(bytes.to_vec())
}

fn derive_key(password: &[u8], salt: &[u8], kdf: Kdf) -> Result<Scrubbed, Error> {
    let cost = [kdf.memory_kib.to_le_bytes(), kdf.passes.to_le_bytes(), kdf.lanes.to_le_bytes()].concat();
    Ok(scrubbed(&sha3(&[password, salt, &cost])))
}

fn put_block(out: &mut Vec<u8>, block: &Option<Pending>) {
    let start = out.len();
    if let Some(p) = block {
        out.push(1);
        out.extend_from_slice(&p.spent_index.get().to_le_bytes());
        out.extend_from_slice(&p.digest);
        match p.figures {
            Some(f) => {
                out.push(1);
                out.extend_from_slice(&f.balance.to_le_bytes());
                out.extend_from_slice(&f.block_to_live.to_le_bytes());
            }
            None => out.push(0),
        }
    }
    out.resize(start + 54, 0);
}

fn u32_at(bytes: &[u8], at: usize) -> u32 {
    u32::from_le_bytes([bytes[at], bytes[at + 1], bytes[at + 2], bytes[at + 3]])
}

fn u64_at(bytes: &[u8], at: usize) -> u64 {
    u64::from(u32_at(bytes, at)) | (u64::from(u32_at(bytes, at + 4)) << 32)
}

fn get_block(bytes: &[u8]) -> Option<Pending> {
    if bytes[0] == 0 {
        return None;
    }
    let mut digest = [0u8; 32];
    digest.copy_from_slice(&bytes[5..37]);
    let figures = (bytes[37] == 1).then_some(Figures {
        balance: u64_at(bytes, 38),
        block_to_live: u64_at(bytes, 46),
    });
    Some(Pending { spent_index: WotsIndex { index: u32_at(bytes, 1) }, digest, figures })
}

fn encode(version: u16, rows: &[Row], generation: u64, master: Option<&[u8]>, kdf: Kdf, salt: &[u8], key: &[u8]) -> Vec<u8> {
    let mut out = b"IMGE".to_vec();
    out.extend_from_slice(&version.to_le_bytes());
    out.extend_from_slice(&kdf.memory_kib.to_le_bytes());
    out.extend_from_slice(&kdf.passes.to_le_bytes());
    out.extend_from_slice(&kdf.lanes.to_le_bytes());
    out.extend_from_slice(salt);
    out.extend_from_slice(&generation.to_le_bytes());
    let at = out.len();
    if let Some(m) = master {
        out.push(1);
        out.extend_from_slice(m);
    }
    out.resize(at + 33, 0);
    out.extend_from_slice(&(rows.len() as u32).to_le_bytes());
    for row in rows {
        let at = out.len();
        out.extend_from_slice(&row.tag.bytes);
        let (kind, account_index, root, stream) = &row.key_material;
        out.push(*kind);
        out.extend_from_slice(&account_index.to_le_bytes());
        out.extend_from_slice(root);
        out.extend_from_slice(&stream.bytes);
        out.extend_from_slice(&row.wots_index.get().to_le_bytes());
        put_block(&mut out, &row.pending);
        put_block(&mut out, &row.settled);
        out.resize(at + RECORD, 0);
    }
    let check = sha3(&[key, &out]);
    out.extend_from_slice(&check);
    out
}

fn read_header(image: &[u8]) -> Result<Header, Error> {
    if image.len() < LIMITS.min {
        return Err(Error::Range {
            what: "keystore image length",
            min: LIMITS.min as u64,
            max: LIMITS.max as u64,
            got: image.len() as u64,
        });
    }
    if &image[..4] != b"IMGE" {
        return Err(Error::Corrupt { what: "magic", offset: 0 });
    }
    let version = u16::from_le_bytes([image[4], image[5]]);
    if version != VERSION && version != V3_VERSION {
        return Err(Error::UnsupportedVersion { got: version, supported: VERSION, first_account: None });
    }
    let kdf = Kdf { memory_kib: u32_at(image, 6), passes: u32_at(image, 10), lanes: u32_at(image, 14) };
    Ok(Header { version, kdf, salt: image[18..34].to_vec() })
}

fn parse_with_key(image: &[u8], key: &[u8]) -> Result<Parsed, Error> {
    read_header(image)?;
    let body = &image[..image.len() - CHECK];
    if sha3(&[key, body])[..] != image[image.len() - CHECK..] {
        return Err(Error::WrongPassword);
    }
    let master = (image[42] == 1).then(|| scrubbed(&image[43..75]));
    let mut slots = SlotMap::new();
    for i in 0..u32_at(image, 75) as usize {
        let at = HEADER + BODY + i * RECORD;
        let row = &image[at..at + RECORD];
        let mut tag = Tag { bytes: [0; 20] };
        tag.bytes.copy_from_slice(&row[..20]);
        let mut stream = StreamId { bytes: [0; 20] };
        stream.bytes.copy_from_slice(&row[57..77]);
        let key_material = if row[20] == 0 {
            KeyMaterial::Derived { account_index: u32_at(row, 21), stream }
        } else {
            KeyMaterial::Imported { root: scrubbed(&row[25..57]), components: Vec::new(), stream }
        };
        let account = Account { tag, wots_index: WotsIndex { index: u32_at(row, 77) }, key_material };
        let slot = Slot { account, pending: get_block(&row[81..135]), settled: get_block(&row[135..189]) };
        assert!(slots.insert(slot).is_ok(), "two records of one tag");
    }
    Ok(Parsed { generation: u64_at(image, 34), slots, master })
}

fn row_of(account: &Account, wots_index: WotsIndex, pending: Option<Pending>, settled: Option<Pending>) -> Row {
    let key_material = match &account.key_material {
        KeyMaterial::Derived { account_index, stream } => (0, *account_index, [0; 32], *stream),
        KeyMaterial::Imported { root, components: _, stream } => {
            let mut held = [0; 32];
            held.copy_from_slice(root.as_slice());
            (1, 0, held, *stream)
        }
    };
    Row { tag: account.tag, key_material, wots_index, pending, settled }
}

fn seal(request: &SealRequest<'_>) -> Scrubbed {
    let rows: Vec<Row> = request
        .records
        .iter()
        .map(|r| row_of(r.account, r.wots_index, r.pending, r.settled))
        .collect();
    Scrubbed::new(encode(
        VERSION,
        &rows,
        request.generation,
        request.master.map(|m| m.as_slice()),
        request.kdf,
        request.salt,
        request.key.as_slice(),
    ))
}

/// What a master seed derives at an index: a tag and a stream of its own.
fn derive(master: &[u8], index: u32) -> (Tag, StreamId) {
    let seed = sha3(&[b"account", master, &index.to_le_bytes()]);
    let mut tag = Tag { bytes: [0; 20] };
    tag.bytes.copy_from_slice(&sha3(&[b"tag", &seed])[..20]);
    (tag, stream_of(&seed))
}

fn stream_of(seed: &[u8]) -> StreamId {
    let mut stream = StreamId { bytes: [0; 20] };
    stream.bytes.copy_from_slice(&sha3(&[b"stream", seed])[..20]);
    stream
}

fn derived(master: &[u8], index: u32) -> Account {
    let (tag, stream) = derive(master, index);
    Account { tag, wots_index: WotsIndex::zero(), key_material: KeyMaterial::Derived { account_index: index, stream } }
}

fn imported(root: [u8; 32], tag: u8) -> Account {
    Account {
        tag: Tag { bytes: [tag; 20] },
        wots_index: WotsIndex::zero(),
        key_material: KeyMaterial::Imported {
            root: scrubbed(&root),
            components: Vec::new(),
            stream: stream_of(&root),
        },
    }
}

/// An image at `generation` holding `accounts` derived accounts, sealed under
/// the password and `salt` at the cheap cost.
fn sealed(generation: u64, accounts: u32, salt: &[u8; 16]) -> Vec<u8> {
    let master = [7u8; 32];
    let mut rows: Vec<Row> = (0..accounts)
        .map(|i| row_of(&derived(&master, i), WotsIndex::zero(), None, None))
        .collect();
    rows.sort_by_key(|row| row.tag.bytes);
    let key = derive_key(PASSWORD, salt, CHEAP).unwrap_or_else(|e| panic!("{e:?}"));
    encode(VERSION, &rows, generation, Some(&master), CHEAP, salt, key.as_slice())
}

fn framed(image: &[u8]) -> Vec<u8> {
    frame(image, LIMITS.max).unwrap_or_else(|e| panic!("{e:?}")).as_slice().to_vec()
}

fn sorted(bytes: &[u8]) -> Content<Scrubbed> {
    sort(Some(scrubbed(bytes)), LIMITS.max).unwrap_or_else(|e| panic!("{e:?}"))
}

fn header_content(content: &Content<Scrubbed>) -> Content<Result<Header, Error>> {
    match content {
        Content::Absent => Content::Absent,
        Content::Vacant => Content::Vacant,
        Content::Image(image) => Content::Image(read_header(image.as_slice())),
        Content::Torn => Content::Torn,
        Content::Other(whole) => Content::Other(read_header(whole.as_slice())),
    }
}

fn reading_content(content: &Content<Scrubbed>, key: &Result<Scrubbed, Error>) -> Content<Reading> {
    let read = |image: &Scrubbed| Reading {
        header: read_header(image.as_slice()),
        parsed: match key {
            Ok(key) => parse_with_key(image.as_slice(), key.as_slice()),
            Err(e) => Err(e.duplicate()),
        },
    };
    match content {
        Content::Absent => Content::Absent,
        Content::Vacant => Content::Vacant,
        Content::Image(image) => Content::Image(read(image)),
        Content::Torn => Content::Torn,
        Content::Other(whole) => Content::Other(read(whole)),
    }
}

fn take_slots(slot0: &Content<Scrubbed>, slot1: &Content<Scrubbed>, password: &[u8]) -> Result<Taken, Error> {
    let request = key_request(&header_content(slot0), &header_content(slot1))?;
    let key = derive_key(password, &request.salt, request.kdf);
    take(reading_content(slot0, &key), reading_content(slot1, &key), key)
}

/// What `take` returns for one pair of slots, in a form that compares.
fn outcome(slot0: &Content<Scrubbed>, slot1: &Content<Scrubbed>, password: &[u8]) -> Result<(usize, u64), Error> {
    take_slots(slot0, slot1, password).map(|taken| (taken.newest, taken.parsed.generation))
}

#[test]
fn a_frame_round_trips_and_the_vacant_frame_is_its_overhead() {
    assert_eq!(OVERHEAD, 46, "the frame's overhead is not the forty-six bytes its doc states");
    let image = sealed(3, 1, &SALT);
    let whole = framed(&image);
    assert_eq!(whole.len(), OVERHEAD + image.len());
    match sort(Some(scrubbed(&whole)), LIMITS.max) {
        Ok(Content::Image(back)) => assert!(back.as_slice() == &image[..], "the image did not come back out of its frame"),
        _ => panic!("an intact frame was not sorted as an image"),
    }
    let vacant = framed(&[]);
    assert_eq!(vacant.len(), OVERHEAD);
    assert!(matches!(sort(Some(scrubbed(&vacant)), LIMITS.max), Ok(Content::Vacant)), "the vacant frame was not sorted as vacant");
    assert!(matches!(sort(None, LIMITS.max), Ok(Content::Absent)), "no file was not sorted as absent");
}

#[test]
fn a_frame_cut_short_lengthened_or_changed_in_one_bit_is_never_an_image() {
    let whole = framed(&sealed(3, 2, &SALT));
    let mut driven = 0usize;
    for cut in 0..whole.len() {
        let got = sort(Some(scrubbed(&whole[..cut])), LIMITS.max);
        assert!(matches!(got, Ok(Content::Torn | Content::Other(_))), "a frame cut to {cut} bytes was not torn");
        driven += 1;
    }
    let mut longer = whole.to_vec();
    longer.push(0);
    assert!(matches!(sort(Some(scrubbed(&longer)), LIMITS.max), Ok(Content::Torn)), "a frame with a byte after it was not torn");
    let mut too_long = vec![0u8; OVERHEAD + LIMITS.max + 1];
    too_long[..MAGIC.len()].copy_from_slice(&MAGIC);
    assert!(matches!(sort(Some(scrubbed(&too_long)), LIMITS.max), Ok(Content::Torn)), "a frame longer than any this build writes was not torn");
    for at in 0..whole.len() {
        for bit in 0..8 {
            let mut changed = whole.to_vec();
            changed[at] ^= 1 << bit;
            let got = sort(Some(scrubbed(&changed)), LIMITS.max);
            assert!(
                matches!(got, Ok(Content::Torn | Content::Other(_))),
                "a frame with bit {bit} of byte {at} changed was not torn"
            );
            driven += 1;
        }
    }
    assert_eq!(driven, 9 * whole.len(), "the walk did not drive every cut and every bit");
}

/// Every mix of an old frame and a new one, sector by sector, at the old length
/// and at the new: what a write the device did not finish can leave. Only the
/// two frames themselves sort as images.
#[test]
fn an_old_frame_and_a_new_one_mixed_by_sector_are_neither() {
    const SECTOR: usize = 512;
    let old = framed(&sealed(4, 7, &SALT));
    let new = framed(&sealed(5, 8, &SALT));
    let sectors = old.len().max(new.len()).div_ceil(SECTOR);
    assert!(sectors >= 4, "the frames span {sectors} sectors, too few to mix");
    let mut driven = 0usize;
    for mask in 0u32..(1 << sectors) {
        for len in [old.len(), new.len()] {
            let mut torn = vec![0u8; len];
            for (at, byte) in torn.iter_mut().enumerate() {
                let source = if mask & (1 << (at / SECTOR)) != 0 { &new } else { &old };
                *byte = source.get(at).copied().unwrap_or(0);
            }
            let (is_old, is_new) = (torn[..] == old[..], torn[..] == new[..]);
            match sort(Some(scrubbed(&torn)), LIMITS.max) {
                Ok(Content::Image(_)) => {
                    assert!(is_old || is_new, "sectors {mask:#b} at {len} bytes sorted as an image")
                }
                Ok(Content::Torn | Content::Other(_)) => {
                    assert!(!is_old && !is_new, "an unmixed frame at {len} bytes sorted as torn")
                }
                _ => panic!("sectors {mask:#b} at {len} bytes sorted as neither an image nor torn"),
            }
            driven += 1;
        }
    }
    assert_eq!(driven, 2 << sectors, "the walk did not drive every mix at both lengths");
}

#[test]
fn an_intact_frame_of_a_later_version_is_refused_and_not_called_torn() {
    let image = sealed(3, 1, &SALT);
    let mut later: Vec<u8> = Vec::with_capacity(OVERHEAD + image.len());
    later.extend_from_slice(&MAGIC);
    later.extend_from_slice(&2u16.to_le_bytes());
    later.extend_from_slice(&u32::try_from(image.len()).unwrap_or_else(|e| panic!("{e}")).to_le_bytes());
    later.extend_from_slice(&image);
    let check = sha3(&[&later]);
    later.extend_from_slice(&check);
    let refused = sort(Some(scrubbed(&later)), LIMITS.max).err();
    assert!(
        matches!(refused, Some(Error::Corrupt { offset: 8, .. })),
        "an intact frame of version 2 was not refused at its version: {refused:?}"
    );
}

/// Every pair of slot states, and what `take` must make of each: one row per
/// state of slot 0 and one column per state of slot 1.
#[test]
fn take_holds_the_newest_image_and_refuses_what_no_crash_makes() {
    let plain10 = sealed(10, 1, &SALT);
    let mut plain_torn = plain10.to_vec();
    plain_torn[80] ^= 0x40;
    let torn_frame = {
        let whole = framed(&sealed(10, 1, &SALT));
        whole[..whole.len() - 1].to_vec()
    };
    let image = |generation| sorted(&framed(&sealed(generation, 1, &SALT)));
    let slot0: [(&str, Content<Scrubbed>); 7] = [
        ("vacant", sorted(&framed(&[]))),
        ("torn", sorted(&torn_frame)),
        ("image 9", image(9)),
        ("image 10", image(10)),
        ("image 11", image(11)),
        ("plain 10", sorted(&plain10)),
        ("plain torn", sorted(&plain_torn)),
    ];
    let slot1: [(&str, Content<Scrubbed>); 7] = [
        ("absent", Content::Absent),
        ("vacant", sorted(&framed(&[]))),
        ("torn", sorted(&torn_frame)),
        ("other", sorted(&plain10)),
        ("image 9", image(9)),
        ("image 10", image(10)),
        ("image 11", image(11)),
    ];
    let missing = || Err(Error::Corrupt { what: "slot 0 holds a frame and slot 1 is missing", offset: 0 });
    let none = || Err(Error::Corrupt { what: "neither slot holds an intact image", offset: 0 });
    let same = || Err(Error::Corrupt { what: "both slots hold one generation", offset: 0 });
    let wrong = || Err(Error::WrongPassword);
    let expected: [[Result<(usize, u64), Error>; 7]; 7] = [
        //absent      vacant       torn         other        image 9      image 10     image 11
        [missing(),   none(),      none(),      none(),      Ok((1, 9)),  Ok((1, 10)), Ok((1, 11))],
        [missing(),   none(),      none(),      none(),      Ok((1, 9)),  Ok((1, 10)), Ok((1, 11))],
        [missing(),   Ok((0, 9)),  Ok((0, 9)),  Ok((0, 9)),  same(),      Ok((1, 10)), Ok((1, 11))],
        [missing(),   Ok((0, 10)), Ok((0, 10)), Ok((0, 10)), Ok((0, 10)), same(),      Ok((1, 11))],
        [missing(),   Ok((0, 11)), Ok((0, 11)), Ok((0, 11)), Ok((0, 11)), Ok((0, 11)), same()],
        [Ok((0, 10)), Ok((0, 10)), Ok((0, 10)), Ok((0, 10)), Ok((0, 10)), same(),      Ok((1, 11))],
        [wrong(),     wrong(),     wrong(),     wrong(),     Ok((1, 9)),  Ok((1, 10)), Ok((1, 11))],
    ];
    let mut driven = 0usize;
    for ((name0, state0), row) in slot0.iter().zip(expected.iter()) {
        for ((name1, state1), want) in slot1.iter().zip(row.iter()) {
            let got = outcome(state0, state1, PASSWORD);
            assert_eq!(&got, want, "slot 0 {name0}, slot 1 {name1}");
            driven += 1;
        }
    }
    assert_eq!(driven, 49, "the table did not drive every pair of states");
}

/// What `take` hands the handle is what the newest image was sealed under, by
/// either route: an intact frame's or the whole file's.
#[test]
fn take_returns_what_the_newest_image_was_sealed_under() {
    let key = derive_key(PASSWORD, &SALT, CHEAP).unwrap_or_else(|e| panic!("{e:?}"));
    let framed_pair = (sorted(&framed(&sealed(10, 1, &SALT))), sorted(&framed(&sealed(11, 1, &SALT))));
    let whole = (sorted(&sealed(10, 1, &SALT)), Content::Absent);
    for (route, (slot0, slot1)) in [("frames", framed_pair), ("whole file", whole)] {
        let taken = take_slots(&slot0, &slot1, PASSWORD).unwrap_or_else(|e| panic!("{route}: {e:?}"));
        assert_eq!(taken.version, VERSION, "{route}: the version is not the image's");
        assert_eq!(taken.salt, SALT, "{route}: the salt is not the image's");
        assert_eq!(taken.kdf, CHEAP, "{route}: the parameters are not the image's");
        assert!(taken.key.as_slice() == key.as_slice(), "{route}: the key is not the one the image was sealed under");
    }
}

#[test]
fn a_wrong_password_and_two_salts_are_refused_whatever_else_the_slots_hold() {
    let image10 = sorted(&framed(&sealed(10, 1, &SALT)));
    let image11 = sorted(&framed(&sealed(11, 1, &SALT)));
    let plain10 = sorted(&sealed(10, 1, &SALT));
    assert_eq!(outcome(&image10, &image11, b"not the password"), Err(Error::WrongPassword));
    assert_eq!(outcome(&plain10, &Content::Absent, b"not the password"), Err(Error::WrongPassword));
    let elsewhere = sorted(&framed(&sealed(11, 1, &OTHER_SALT)));
    assert_eq!(
        outcome(&image10, &elsewhere, PASSWORD),
        Err(Error::Corrupt {
            what: "the two slots disagree on the salt or the key derivation",
            offset: 0,
        })
    );
}

#[test]
fn a_header_that_does_not_read_refuses_the_pair_before_any_key() {
    let good = sorted(&framed(&sealed(10, 1, &SALT)));
    let mut newer = sealed(11, 1, &SALT);
    newer[4] = 9;
    let newer = sorted(&framed(&newer));
    let refused = Err(Error::UnsupportedVersion { got: 9, supported: VERSION, first_account: None });
    assert_eq!(outcome(&good, &newer, PASSWORD), refused);
    assert_eq!(outcome(&newer, &good, PASSWORD), refused);
    let request = key_request(&header_content(&good), &header_content(&newer));
    assert!(matches!(request, Err(Error::UnsupportedVersion { got: 9, .. })));
}

#[test]
fn an_image_too_long_to_frame_is_refused() {
    let image = vec![1u8; 9];
    assert!(frame(&image, 9).is_ok());
    assert_eq!(
        frame(&image, 8).err(),
        Some(Error::Range { what: "keystore slot payload length", min: 0, max: 8, got: 9 })
    );
}

/// The newest image of two slot files, read as an open reads them.
fn newest(slot0: Option<Vec<u8>>, slot1: Option<Vec<u8>>, password: &[u8]) -> Result<Vec<u8>, Error> {
    let read = |bytes: Option<Vec<u8>>| {
        bytes.map(|bytes| match slot_length(LIMITS, Ok(bytes.len() as u64)) {
            Ok(_) => Ok(Scrubbed::new(bytes)),
            Err(e) => Err(e),
        })
    };
    let (slot0, slot1) = sort_slots(read(slot0), read(slot1), LIMITS.max)?;
    let request = key_request(&header_content(&slot0), &header_content(&slot1))?;
    let key = derive_key(password, &request.salt, request.kdf);
    let (reading0, reading1) = (reading_content(&slot0, &key), reading_content(&slot1, &key));
    newest_image(slot0, slot1, reading0, reading1, key).map(|image| image.as_slice().to_vec())
}

#[test]
fn the_newest_image_is_the_one_an_open_takes() {
    let (old, new) = (sealed(10, 1, &SALT), sealed(11, 1, &SALT));
    let mut torn = framed(&new);
    torn.pop();
    let mut over = framed(&new);
    over.resize(LIMITS.max + OVERHEAD + 1, 0);
    let shapes: [Option<Vec<u8>>; 8] = [
        None,
        Some(framed(&old)),
        Some(framed(&new)),
        Some(framed(&[])),
        Some(old.clone()),
        Some(torn),
        Some(over),
        Some(b"nothing a commit makes".to_vec()),
    ];
    let mut taken = 0;
    for slot0 in &shapes {
        for slot1 in &shapes {
            for password in [PASSWORD, &b"another"[..]] {
                let image = newest(slot0.clone(), slot1.clone(), password);
                let mut files = Files::new();
                files.snapshot = slot0.clone();
                files.slot1 = slot1.clone();
                match (open_slots(&files, password), image) {
                    (Ok(ks), Ok(image)) => {
                        let wanted = if generation(&ks) == 10 { &old } else { &new };
                        assert_eq!(&image, wanted);
                        taken += 1;
                    }
                    (Err(e), Err(why)) => assert_eq!(e, why),
                    _ => panic!("an open and the newest image disagree"),
                }
            }
        }
    }
    assert!(taken > 8, "{taken}");
    assert_eq!(newest(None, Some(framed(&new)), PASSWORD), Err(Error::Missing));
}

/// A store's files, in memory.
struct Files {
    snapshot: Option<Vec<u8>>,
    temp: Option<Vec<u8>>,
    slot1: Option<Vec<u8>>,
    fail_at: Option<(usize, Error)>,
    performed: usize,
}

impl Files {
    fn new() -> Files {
        Files { snapshot: None, temp: None, slot1: None, fail_at: None, performed: 0 }
    }

    fn perform(&mut self, action: &Action<Scrubbed>) -> Result<(), Error> {
        self.performed += 1;
        if let Some((at, e)) = &self.fail_at {
            if *at == self.performed {
                return Err(e.duplicate());
            }
        }
        match action {
            Action::WriteTemp { bytes } => self.temp = Some(bytes.as_slice().to_vec()),
            Action::Rename => self.snapshot = self.temp.take(),
            Action::WriteSlot { slot: 0, create, bytes } => {
                assert_eq!(*create, self.snapshot.is_none());
                self.snapshot = Some(bytes.as_slice().to_vec());
            }
            Action::WriteSlot { slot: _, create, bytes } => {
                assert_eq!(*create, self.slot1.is_none());
                self.slot1 = Some(bytes.as_slice().to_vec());
            }
            Action::FsyncFile | Action::FsyncDir | Action::FlushStanding { .. } | Action::FlushSlot { .. } => {}
        }
        Ok(())
    }
}

fn unlock() -> Unlock<'static> {
    Unlock { password: PASSWORD, nonce_seed: &NONCE_SEED }
}

fn init() -> Init<'static> {
    Init { password: PASSWORD, salt: &SALT, nonce_seed: &NONCE_SEED, kdf: CHEAP }
}

fn run(commit: &mut Commit, files: &mut Files) -> usize {
    let mut steps = 0;
    while let Some(action) = commit.next() {
        let outcome = files.perform(action);
        commit.performed(outcome);
        steps += 1;
    }
    steps
}

fn drive(ks: &mut Keystore, files: &mut Files, staged: Result<Change, Error>) -> Result<Done, Error> {
    let change = staged?;
    let image = seal(&ks.seal(&change));
    let mut commit = ks.commit(change, image);
    run(&mut commit, files);
    ks.finish(commit)
}

fn create(files: &mut Files, kind: LayoutKind) -> Result<Keystore, Error> {
    create_with(files, kind, &init())
}

fn create_with(files: &mut Files, kind: LayoutKind, init: &Init<'_>) -> Result<Keystore, Error> {
    let creating = Creating::begin("/home/op/wallet", init, kind, LIMITS);
    let directory = creating.directory(DirectorySeen::Created)?;
    let private = directory.checked(Ok(()))?;
    let empty = private.files(files.snapshot.is_some(), files.slot1.is_some())?;
    let claimed = empty.lock(LockTry::Taken)?;
    let vacant = claimed.files(files.snapshot.is_some(), files.slot1.is_some())?;
    let kdf = vacant.kdf();
    let costed = vacant.costed(Ok(kdf))?;
    let key = derive_key(init.password, costed.salt(), costed.kdf());
    let derived = costed.key(key)?;
    assert_eq!(derived.parent(), "/home/op");
    let (mut ks, change) = derived.parent_flushed(Ok(()))?;
    assert!(matches!(drive(&mut ks, files, Ok(change))?, Done::Created(_)));
    Ok(ks)
}

fn open_rename(files: &Files, password: &[u8]) -> Result<Keystore, Error> {
    open_rename_with(files, &Unlock { password, nonce_seed: &NONCE_SEED })
}

fn open_rename_with(files: &Files, unlock: &Unlock<'_>) -> Result<Keystore, Error> {
    let checked = Opening::begin("/home/op/wallet", unlock, LIMITS).directory(Ok(()))?;
    let found = checked.snapshot(files.snapshot.is_some())?;
    let cleared = found.lock(LockTry::Taken)?.temp(TempSeen::Absent)?;
    let image = files.snapshot.clone().unwrap_or_default();
    let measured = cleared.stat(Ok(image.len() as u64))?;
    assert_eq!(measured.len(), image.len());
    let whole = measured.read(SnapshotRead::Read { image: Scrubbed::new(image), extra: Ok(0) })?;
    let header = read_header(whole.image().as_slice());
    let headed = whole.header(header)?;
    let key = derive_key(unlock.password, headed.salt(), headed.kdf());
    let keyed = headed.key(key)?;
    let parsed = parse_with_key(keyed.image().as_slice(), keyed.key().as_slice());
    keyed.parsed(parsed)
}

fn open_slots(files: &Files, password: &[u8]) -> Result<Keystore, Error> {
    let checked = Opening::begin("/home/op/wallet", &unlock(), LIMITS).directory(Ok(()))?;
    let found = checked.snapshot(files.snapshot.is_some())?;
    let cleared = found.lock(LockTry::Taken)?.temp(TempSeen::Removed)?;
    let there = |file: &Option<Vec<u8>>| match file {
        Some(_) => Ok(()),
        None => Err(SlotOpenFailure { kind: IoKind::NotFound, code: Some(2) }),
    };
    let held = cleared.slot_zero(there(&files.snapshot))?.slot_one(there(&files.slot1))?;
    let read = |file: &Vec<u8>| -> Result<Scrubbed, Error> {
        slot_length(LIMITS, Ok(file.len() as u64))?;
        slot_bytes(Ok(Scrubbed::new(file.clone())))
    };
    let zero = held.read_zero(read(files.snapshot.as_ref().unwrap_or(&Vec::new())))?;
    assert_eq!(zero.holds_one(), files.slot1.is_some());
    let slots = zero.read_one(files.slot1.as_ref().map(read))?;
    let request = key_request(&header_content(slots.slot_zero()), &header_content(slots.slot_one()))?;
    let key = derive_key(password, &request.salt, request.kdf);
    let slot0 = reading_content(slots.slot_zero(), &key);
    let slot1 = reading_content(slots.slot_one(), &key);
    slots.take(slot0, slot1, key)
}

fn add(ks: &mut Keystore, files: &mut Files, account: Account) -> Result<Done, Error> {
    let recomputed = match ks.recompute(&account) {
        Recompute::Root => match &account.key_material {
            KeyMaterial::Imported { root, .. } => Recomputed::Root { stream: stream_of(root.as_slice()) },
            KeyMaterial::Derived { .. } => panic!("a derived account has no root"),
        },
        Recompute::Master => match (&account.key_material, ks.master()) {
            (KeyMaterial::Derived { account_index, .. }, Ok(Some(master))) => {
                let (tag, stream) = derive(master.as_slice(), *account_index);
                Recomputed::Master { tag, stream }
            }
            _ => panic!("nothing to recompute from"),
        },
        Recompute::Carried => Recomputed::Carried,
    };
    let staged = ks.add(account, recomputed);
    drive(ks, files, staged)
}

fn figures() -> Figures {
    Figures { balance: 700, block_to_live: 44 }
}

fn reserve(ks: &mut Keystore, files: &mut Files, tag: &Tag, digest: u8) -> Result<AdvanceReceipt, Error> {
    let staged = ks.persist_advance(tag, &[digest; 32], figures());
    match drive(ks, files, staged)? {
        Done::Advanced(receipt) => Ok(receipt),
        _ => panic!("an advance was not attested"),
    }
}

fn generation(ks: &Keystore) -> u64 {
    ks.generation().unwrap_or_else(|e| panic!("{e:?}"))
}

/// Disk ahead of memory poisons the handle: the image of a move that is not
/// strictly ahead is sealed and committed, and only then refused.
#[test]
fn a_failed_application_after_a_durable_commit_poisons_the_handle() {
    let mut files = Files::new();
    let password = b"unit-test-password-not-for-use";
    let nonce_seed = [4u8; 32];
    let init = Init { password, salt: &[3u8; 16], nonce_seed: &nonce_seed, kdf: CHEAP };
    let mut ks = create_with(&mut files, LayoutKind::Rename, &init).unwrap_or_else(|e| panic!("{e:?}"));
    let account = derived(&[7u8; 32], 0);
    let tag = account.tag;
    assert!(add(&mut ks, &mut files, account).is_ok());
    assert_eq!(generation(&ks), 1, "premise: create then add is generation 1");

    let staged = ks.advance_committed(&tag, WotsIndex::zero(), None, None);
    let err = drive(&mut ks, &mut files, staged).err();
    assert!(
        matches!(err, Some(Error::Range { .. })),
        "premise: a target equal to the current position must be refused, after the commit: {err:?}"
    );
    let next_call = ks.generation().err();
    assert!(
        matches!(next_call, Some(Error::Poisoned { .. })),
        "the handle answered as if nothing happened after a durable commit whose application \
         failed: {next_call:?}. Disk is ahead of memory and the handle is live."
    );
    drop(ks);
    let unlock = Unlock { password, nonce_seed: &nonce_seed };
    let reopened = open_rename_with(&files, &unlock).unwrap_or_else(|e| panic!("reopen: {e:?}"));
    assert_eq!(generation(&reopened), 2, "the image on disk does not carry the generation the commit wrote");
    let view = reopened
        .view(&tag)
        .unwrap_or_else(|e| panic!("{e:?}"))
        .unwrap_or_else(|| panic!("the account is gone from disk"));
    assert_eq!(view.wots_index, WotsIndex::zero(), "the image on disk moved the position");
}

#[test]
fn a_store_reopens_as_it_was_left_in_both_layouts() {
    for kind in [LayoutKind::Rename, LayoutKind::Slots] {
        let mut files = Files::new();
        let mut ks = create(&mut files, kind).unwrap_or_else(|e| panic!("{e:?}"));
        assert_eq!(ks.dir(), "/home/op/wallet");
        let master = scrubbed(&[7u8; 32]);
        let staged = ks.adopt_master(&master);
        assert!(matches!(drive(&mut ks, &mut files, staged), Ok(Done::Adopted(_))));
        let accounts: Vec<Account> = (0..3).map(|i| derived(&[7u8; 32], i)).collect();
        let mut tags: Vec<Tag> = accounts.iter().map(|a| a.tag).collect();
        for account in accounts {
            assert!(matches!(add(&mut ks, &mut files, account), Ok(Done::Added)));
        }
        let receipt = reserve(&mut ks, &mut files, &tags[1], 1).unwrap_or_else(|e| panic!("{e:?}"));
        assert_eq!((receipt.tag(), receipt.index().get()), (tags[1], 1));
        assert_eq!(generation(&ks), 5);
        drop(ks);
        let ks = match kind {
            LayoutKind::Rename => open_rename(&files, PASSWORD),
            LayoutKind::Slots => open_slots(&files, PASSWORD),
        }
        .unwrap_or_else(|e| panic!("{e:?}"));
        assert_eq!(generation(&ks), 5);
        let reserved = tags[1];
        tags.sort_by_key(|tag| tag.bytes);
        assert_eq!(ks.tags().unwrap_or_else(|e| panic!("{e:?}")), tags);
        let view = ks.view(&reserved).unwrap_or_else(|e| panic!("{e:?}")).unwrap_or_else(|| panic!("lost"));
        assert_eq!(view.kind, AccountKind::Derived);
        assert_eq!(view.wots_index.get(), 1);
        let block = Pending { spent_index: WotsIndex { index: 0 }, digest: [1; 32], figures: Some(figures()) };
        assert_eq!(view.pending, Some(block));
        assert_eq!(view.settled, None);
        assert_eq!(ks.view(&Tag { bytes: [0; 20] }), Ok(None));
        assert_eq!(ks.master().map(|m| m.map(|m| m.as_slice().to_vec())), Ok(Some(vec![7u8; 32])));
        assert_eq!(ks.upgraded_from(), None);
        let records = ks.into_records().unwrap_or_else(|e| panic!("{e:?}"));
        assert_eq!(records.iter().map(|r| r.tag).collect::<Vec<Tag>>(), tags);
    }
}

#[test]
fn no_key_is_reserved_twice_and_a_settled_block_is_kept_until_the_position_moves() {
    let mut files = Files::new();
    let mut ks = create(&mut files, LayoutKind::Slots).unwrap_or_else(|e| panic!("{e:?}"));
    let account = derived(&[7u8; 32], 0);
    let tag = account.tag;
    assert!(add(&mut ks, &mut files, account).is_ok());
    assert_eq!(reserve(&mut ks, &mut files, &tag, 1).map(|r| r.index().get()), Ok(1));
    let busy = Error::PendingUnresolved { spent_index: 0 };
    assert_eq!(ks.persist_advance(&tag, &[2; 32], figures()).err(), Some(busy.duplicate()));
    assert_eq!(ks.persist_advance_to(&tag, WotsIndex { index: 9 }).err(), Some(busy));
    let staged = ks.persist_settled(&tag);
    assert!(matches!(drive(&mut ks, &mut files, staged), Ok(Done::Settled)));
    let block = Pending { spent_index: WotsIndex { index: 0 }, digest: [1; 32], figures: Some(figures()) };
    let view = ks.view(&tag).unwrap_or_else(|e| panic!("{e:?}")).unwrap_or_else(|| panic!("lost"));
    assert_eq!((view.pending, view.settled, view.wots_index.get()), (None, Some(block), 1));
    assert_eq!(ks.persist_settled(&tag).err(), Some(Error::NothingPending));
    assert_eq!(reserve(&mut ks, &mut files, &tag, 3).map(|r| r.index().get()), Ok(2));
    let view = ks.view(&tag).unwrap_or_else(|e| panic!("{e:?}")).unwrap_or_else(|| panic!("lost"));
    assert_eq!((view.settled, view.pending.map(|p| p.spent_index.get())), (None, Some(1)));
    let staged = ks.persist_settled(&tag);
    assert!(drive(&mut ks, &mut files, staged).is_ok());
    assert_eq!(
        ks.persist_advance_to(&tag, WotsIndex { index: 2 }).err(),
        Some(Error::Range { what: "wots index for tag", min: 3, max: u64::from(u32::MAX), got: 2 })
    );
    let staged = ks.persist_advance_to(&tag, WotsIndex { index: 40 });
    assert!(matches!(drive(&mut ks, &mut files, staged), Ok(Done::Advanced(_))));
    let view = ks.view(&tag).unwrap_or_else(|e| panic!("{e:?}")).unwrap_or_else(|| panic!("lost"));
    assert_eq!((view.pending, view.settled, view.wots_index.get()), (None, None, 40));
    let staged = ks.persist_advance_to(&tag, WotsIndex { index: u32::MAX });
    assert!(drive(&mut ks, &mut files, staged).is_ok());
    assert_eq!(
        ks.persist_advance(&tag, &[4; 32], figures()).err(),
        Some(Error::Range { what: "wots index", min: 0, max: u64::from(u32::MAX) - 1, got: u64::from(u32::MAX) })
    );
    let nobody = Tag { bytes: [0; 20] };
    assert_eq!(ks.persist_advance(&nobody, &[4; 32], figures()).err(), Some(Error::NoSuchAccount));
    assert_eq!(ks.persist_advance_to(&nobody, WotsIndex { index: 1 }).err(), Some(Error::NoSuchAccount));
    assert_eq!(ks.persist_settled(&nobody).err(), Some(Error::NoSuchAccount));
    assert_eq!(ks.stream_id(&nobody), Err(Error::NoSuchAccount));
    assert_eq!(ks.stream_id(&tag), Ok(derive(&[7u8; 32], 0).1));
}

#[test]
fn an_account_already_there_by_tag_root_or_stream_is_refused() {
    let mut files = Files::new();
    let mut ks = create(&mut files, LayoutKind::Rename).unwrap_or_else(|e| panic!("{e:?}"));
    assert!(add(&mut ks, &mut files, imported([1; 32], 10)).is_ok());
    let exists = |what| Some(Error::Exists { what });
    assert_eq!(add(&mut ks, &mut files, imported([2; 32], 10)).err(), exists("account tag"));
    assert_eq!(add(&mut ks, &mut files, imported([1; 32], 11)).err(), exists("imported root"));
    let same_stream = Account {
        tag: Tag { bytes: [12; 20] },
        wots_index: WotsIndex::zero(),
        key_material: KeyMaterial::Derived { account_index: 0, stream: stream_of(&[1; 32]) },
    };
    assert_eq!(add(&mut ks, &mut files, same_stream).err(), exists("key stream"));
    assert_eq!(generation(&ks), 1);
    let staged = ks.adopt_master(&scrubbed(&[7; 32]));
    assert!(drive(&mut ks, &mut files, staged).is_ok());
    assert_eq!(ks.adopt_master(&scrubbed(&[8; 32])).err(), exists("master seed"));
    let mut forged = derived(&[7; 32], 4);
    forged.tag = Tag { bytes: [13; 20] };
    assert_eq!(add(&mut ks, &mut files, forged).err(), Some(Error::DerivedTagNotReproduced { account_index: 4 }));
    let mut forged = derived(&[7; 32], 4);
    forged.key_material = KeyMaterial::Derived { account_index: 4, stream: stream_of(&[9; 32]) };
    assert_eq!(add(&mut ks, &mut files, forged).err(), Some(Error::StreamIdNotReproduced));
    assert!(add(&mut ks, &mut files, derived(&[7; 32], 4)).is_ok());
    assert_eq!(generation(&ks), 3);
}

#[test]
fn streams_stay_apart_through_every_commit_and_reopen() {
    let mut files = Files::new();
    let mut ks = create(&mut files, LayoutKind::Slots).unwrap_or_else(|e| panic!("{e:?}"));
    let adopted = ks.adopt_master(&scrubbed(&[7; 32]));
    assert!(drive(&mut ks, &mut files, adopted).is_ok());
    for round in 0..3u8 {
        assert!(add(&mut ks, &mut files, derived(&[7; 32], u32::from(round))).is_ok());
        assert!(add(&mut ks, &mut files, imported([round + 1; 32], round + 1)).is_ok());
        drop(ks);
        ks = open_slots(&files, PASSWORD).unwrap_or_else(|e| panic!("{e:?}"));
        let tags = ks.tags().unwrap_or_else(|e| panic!("{e:?}"));
        assert_eq!(tags.len(), 2 * (usize::from(round) + 1));
        for (i, a) in tags.iter().enumerate() {
            for b in &tags[i + 1..] {
                assert_ne!(ks.stream_id(a), ks.stream_id(b));
            }
            let held = ks.stream_id(a).unwrap_or_else(|e| panic!("{e:?}"));
            let second = ks.add(imported([99; 32], 99), Recomputed::Root { stream: held });
            assert_eq!(second.err(), Some(Error::Exists { what: "key stream" }));
        }
        let again = add(&mut ks, &mut files, imported([round + 1; 32], 99));
        assert_eq!(again.err(), Some(Error::Exists { what: "imported root" }));
        assert_eq!(ks.tags().map(|now| now.len()), Ok(tags.len()));
    }
}

#[test]
fn the_last_generation_refuses_every_commit_by_name() {
    let key = derive_key(PASSWORD, &SALT, CHEAP).unwrap_or_else(|e| panic!("{e:?}"));
    let account = derived(&[7; 32], 0);
    let tag = account.tag;
    let open_block = Pending { spent_index: WotsIndex { index: 0 }, digest: [1; 32], figures: None };
    for pending in [None, Some(open_block)] {
        let index = WotsIndex { index: u32::from(pending.is_some()) };
        let rows = [row_of(&account, index, pending, None)];
        let mut files = Files::new();
        files.snapshot = Some(encode(VERSION, &rows, u64::MAX, None, CHEAP, &SALT, key.as_slice()));
        let ks = open_rename(&files, PASSWORD).unwrap_or_else(|e| panic!("{e:?}"));
        let last = Error::Range { what: "keystore generation", min: 0, max: u64::MAX - 1, got: u64::MAX };
        assert_eq!(ks.adopt_master(&scrubbed(&[7; 32])).err(), Some(last.duplicate()));
        assert_eq!((generation(&ks), ks.master().map(|m| m.is_none())), (u64::MAX, Ok(true)));
        assert_eq!(ks.add(imported([1; 32], 1), Recomputed::Root { stream: stream_of(&[1; 32]) }).err(), Some(last.duplicate()));
        if pending.is_none() {
            assert_eq!(ks.persist_advance(&tag, &[1; 32], figures()).err(), Some(last.duplicate()));
            assert_eq!(ks.persist_advance_to(&tag, WotsIndex { index: 5 }).err(), Some(last));
        } else {
            assert_eq!(ks.persist_settled(&tag).err(), Some(last));
        }
    }
}

#[test]
fn a_commit_that_fails_at_any_step_poisons_and_leaves_the_old_store_or_the_new() {
    for kind in [LayoutKind::Rename, LayoutKind::Slots] {
        for at in 1..=4 {
            let mut files = Files::new();
            let mut ks = create(&mut files, kind).unwrap_or_else(|e| panic!("{e:?}"));
            assert!(add(&mut ks, &mut files, derived(&[7; 32], 0)).is_ok());
            drop(ks);
            let open = |files: &Files| match kind {
                LayoutKind::Rename => open_rename(files, PASSWORD),
                LayoutKind::Slots => open_slots(files, PASSWORD),
            };
            let mut ks = open(&files).unwrap_or_else(|e| panic!("{e:?}"));
            let cut = Error::Io { op: "rename", kind: IoKind::StorageFull };
            files.performed = 0;
            files.fail_at = Some((at, cut.duplicate()));
            let done = add(&mut ks, &mut files, derived(&[7; 32], 1));
            // A handle's second commit in the slot layout is three steps: the
            // standing slot's flush, the write and its flush.
            if kind == LayoutKind::Slots && at == 4 {
                assert!(done.is_ok());
                continue;
            }
            assert_eq!(done.err(), Some(cut.duplicate()), "{kind:?}, step {at}");
            let poisoned = Error::Poisoned { first: Box::new(cut.duplicate()) };
            assert_eq!(ks.generation().err(), Some(poisoned.duplicate()));
            assert_eq!(ks.adopt_master(&scrubbed(&[1; 32])).err(), Some(poisoned.duplicate()));
            assert_eq!(ks.tags().err(), Some(poisoned.duplicate()));
            assert_eq!(ks.into_records().err(), Some(poisoned));
            let again = open(&files).unwrap_or_else(|e| panic!("{kind:?}, step {at}: {e:?}"));
            let before = generation(&again);
            assert!(before == 1 || before == 2, "{kind:?}, step {at}: generation {before}");
        }
    }
}

/// The slot layout, with the write of every commit torn in every mix of sectors:
/// what is left opens as the image before or the one being written.
#[test]
fn a_torn_slot_opens_as_the_old_image_or_the_new() {
    const SECTOR: usize = 128;
    let mut files = Files::new();
    let mut ks = create(&mut files, LayoutKind::Slots).unwrap_or_else(|e| panic!("{e:?}"));
    for i in 0..2 {
        assert!(add(&mut ks, &mut files, derived(&[7; 32], i)).is_ok());
    }
    let old = [files.snapshot.clone(), files.slot1.clone()];
    assert!(add(&mut ks, &mut files, derived(&[7; 32], 2)).is_ok());
    let new = [files.snapshot.clone(), files.slot1.clone()];
    let target = usize::from(old[1] != new[1]);
    let stood = old[target].clone().unwrap_or_default();
    let wrote = new[target].clone().unwrap_or_default();
    let sectors = stood.len().max(wrote.len()).div_ceil(SECTOR);
    for mask in 0u32..(1 << sectors) {
        for len in [stood.len(), wrote.len()] {
            let torn: Vec<u8> = (0..len)
                .map(|at| {
                    let source = if mask & (1 << (at / SECTOR)) != 0 { &wrote } else { &stood };
                    source.get(at).copied().unwrap_or(0)
                })
                .collect();
            let mut left = Files::new();
            left.snapshot = old[0].clone();
            left.slot1 = old[1].clone();
            if target == 0 {
                left.snapshot = Some(torn);
            } else {
                left.slot1 = Some(torn);
            }
            let opened = open_slots(&left, PASSWORD).unwrap_or_else(|e| panic!("{mask:#b} at {len}: {e:?}"));
            let generation = generation(&opened);
            assert!(generation == 2 || generation == 3, "{mask:#b} at {len}: generation {generation}");
        }
    }
}

#[test]
fn no_receipt_is_taken_back_by_one_torn_write_after_another() {
    let mut files = Files::new();
    let mut ks = create(&mut files, LayoutKind::Slots).unwrap_or_else(|e| panic!("{e:?}"));
    let account = derived(&[7; 32], 0);
    let tag = account.tag;
    assert!(add(&mut ks, &mut files, account).is_ok());
    let mut attested = generation(&ks);
    for round in 0..6u8 {
        let change = match round % 2 {
            0 => ks.persist_advance(&tag, &[round; 32], figures()),
            _ => ks.persist_settled(&tag),
        };
        let change = change.unwrap_or_else(|e| panic!("{e:?}"));
        let image = seal(&ks.seal(&change));
        let mut commit = ks.commit(change, image);
        while let Some(action) = commit.next() {
            let outcome = files.perform(action);
            if let Action::WriteSlot { slot, bytes, .. } = action {
                let half = bytes.as_slice()[..bytes.len() / 2].to_vec();
                *(if *slot == 0 { &mut files.snapshot } else { &mut files.slot1 }) = Some(half);
                break;
            }
            commit.performed(outcome);
        }
        ks = open_slots(&files, PASSWORD).unwrap_or_else(|e| panic!("{e:?}"));
        assert_eq!(generation(&ks), attested);
        let staged = match round % 2 {
            0 => ks.persist_advance(&tag, &[round; 32], figures()),
            _ => ks.persist_settled(&tag),
        };
        assert!(drive(&mut ks, &mut files, staged).is_ok());
        assert!(generation(&ks) > attested);
        attested = generation(&ks);
    }
}

#[test]
fn a_plain_store_moves_into_the_slots_and_is_vacated() {
    let key = derive_key(PASSWORD, &SALT, CHEAP).unwrap_or_else(|e| panic!("{e:?}"));
    let mut files = Files::new();
    files.snapshot = Some(encode(V3_VERSION, &[], 6, None, CHEAP, &SALT, key.as_slice()));
    let mut ks = open_slots(&files, PASSWORD).unwrap_or_else(|e| panic!("{e:?}"));
    assert_eq!(ks.upgraded_from(), None);
    let change = ks.adopt_master(&scrubbed(&[7; 32])).unwrap_or_else(|e| panic!("{e:?}"));
    assert_eq!(change.generation(), 7);
    assert!(matches!(change.edit(), Edit::Master(_)));
    let image = seal(&ks.seal(&change));
    let mut commit = ks.commit(change, image);
    let mut recorder = Instrumented::new();
    while let Some(action) = commit.next() {
        recorder.record(call_of("d", action));
        let outcome = files.perform(action);
        commit.performed(recorder.interrupt_here(step_op(action), outcome));
    }
    assert!(ks.finish(commit).is_ok());
    let path = |file| FilePath { dir: "d".to_string(), file };
    let image_len = HEADER + BODY + CHECK + OVERHEAD;
    assert_eq!(
        recorder.calls(),
        &[
            Call::FlushStanding { path: path(StoreFile::Snapshot) },
            Call::WriteSlot { path: path(StoreFile::Slot1), len: image_len },
            Call::FlushSlot { path: path(StoreFile::Slot1) },
            Call::WriteSlot { path: path(StoreFile::Snapshot), len: OVERHEAD },
            Call::FlushSlot { path: path(StoreFile::Snapshot) },
        ]
    );
    assert_eq!(ks.upgraded_from(), Some(V3_VERSION));
    assert_eq!(files.snapshot, Some(framed(&[])));
    let again = open_slots(&files, PASSWORD).unwrap_or_else(|e| panic!("{e:?}"));
    assert_eq!(generation(&again), 7);
}

#[test]
fn the_commit_of_the_rename_layout_is_four_steps_in_order() {
    let mut files = Files::new();
    let mut ks = create(&mut files, LayoutKind::Rename).unwrap_or_else(|e| panic!("{e:?}"));
    let change = ks.adopt_master(&scrubbed(&[7; 32])).unwrap_or_else(|e| panic!("{e:?}"));
    let image = seal(&ks.seal(&change));
    let len = image.len();
    let mut commit = ks.commit(change, image);
    let mut recorder = Instrumented::new();
    recorder.stop_after(Some(4));
    while let Some(action) = commit.next() {
        recorder.record(call_of("d", action));
        let outcome = files.perform(action);
        commit.performed(recorder.interrupt_here(step_op(action), outcome));
    }
    let path = |file| FilePath { dir: "d".to_string(), file };
    assert_eq!(
        recorder.calls(),
        &[
            Call::WriteTemp { path: path(StoreFile::Temp), len },
            Call::FsyncFile { path: path(StoreFile::Temp) },
            Call::Rename { from: path(StoreFile::Temp), to: path(StoreFile::Snapshot) },
            Call::FsyncDir { dir: "d".to_string() },
        ]
    );
    assert_eq!(ks.finish(commit).err(), Some(Error::Io { op: "fsync_dir", kind: IoKind::Interrupted }));
    let again = open_rename(&files, PASSWORD).unwrap_or_else(|e| panic!("{e:?}"));
    assert_eq!(generation(&again), 1);
}

#[test]
fn no_receipt_is_taken_back_by_a_rename_that_was_never_flushed() {
    for first in 0..=4 {
        for second in 0..=4 {
            let mut files = Files::new();
            let mut ks = create(&mut files, LayoutKind::Rename).unwrap_or_else(|e| panic!("{e:?}"));
            let account = derived(&[7; 32], 0);
            let tag = account.tag;
            assert!(add(&mut ks, &mut files, account).is_ok());
            let mut attested = generation(&ks);
            let mut on_device = files.snapshot.clone();
            let mut renamed: Vec<Option<Vec<u8>>> = Vec::new();
            for (round, stop) in [first, second].into_iter().enumerate() {
                ks = open_rename(&files, PASSWORD).unwrap_or_else(|e| panic!("{e:?}"));
                let target = WotsIndex { index: 10 * (round as u32 + 1) };
                let change = ks.persist_advance_to(&tag, target).unwrap_or_else(|e| panic!("{e:?}"));
                let next = change.generation();
                let image = seal(&ks.seal(&change));
                let mut commit = ks.commit(change, image);
                for _ in 0..stop {
                    let action = commit.next().unwrap_or_else(|| panic!("fewer than four steps"));
                    let outcome = files.perform(action);
                    match action {
                        Action::Rename => renamed.push(files.snapshot.clone()),
                        Action::FsyncDir => on_device = renamed.drain(..).last().unwrap_or(on_device),
                        _ => {}
                    }
                    commit.performed(outcome);
                }
                if stop == 4 {
                    assert!(matches!(ks.finish(commit), Ok(Done::Advanced(_))));
                    attested = next;
                }
            }
            renamed.push(on_device);
            for left in renamed {
                let mut after = Files::new();
                after.snapshot = left;
                let opened = open_rename(&after, PASSWORD).unwrap_or_else(|e| panic!("{first} {second}: {e:?}"));
                assert!(generation(&opened) >= attested, "{first} {second}");
            }
        }
    }
}

#[test]
fn the_k_th_call_from_the_arming_is_interrupted_and_a_reset_does_not_shift_it() {
    let mut recorder = Instrumented::new();
    recorder.record(Call::FsyncParent { dir: "p".to_string() });
    recorder.stop_after(Some(2));
    recorder.tear_after(Some(3));
    assert_eq!(recorder.interrupt_here(Op::FsyncFile, Ok(())), Ok(()));
    recorder.record(Call::FsyncDir { dir: "d".to_string() });
    assert_eq!(recorder.interrupt_here(Op::FsyncDir, Ok(())), Ok(()));
    recorder.reset_calls();
    assert!(recorder.calls().is_empty());
    recorder.record(Call::FsyncDir { dir: "d".to_string() });
    assert!(!recorder.tears());
    assert_eq!(
        recorder.interrupt_here(Op::FsyncDir, Ok(())),
        Err(Error::Io { op: "fsync_dir", kind: IoKind::Interrupted })
    );
    let own = Error::Io { op: "rename", kind: IoKind::NotFound };
    assert_eq!(recorder.interrupt_here(Op::Rename, Err(own.duplicate())), Err(own.duplicate()));
    recorder.record(Call::FsyncDir { dir: "d".to_string() });
    assert!(recorder.tears());
    assert_eq!(recorder.interrupt_here(Op::WriteSlot, Ok(())), Ok(()));
    assert_eq!(torn_write(Ok(()), Ok(()), Ok(())), Error::Io { op: "write_slot", kind: IoKind::Interrupted });
    assert_eq!(torn_write(Err(IoKind::Other), Ok(()), Ok(())), Error::Io { op: "write_slot tear", kind: IoKind::Other });
    assert_eq!(torn_write(Ok(()), Err(own.duplicate()), Ok(())), own);
    assert_eq!(
        torn_write(Ok(()), Ok(()), Err(IoKind::WriteZero)),
        Error::Io { op: "write_slot tear", kind: IoKind::WriteZero }
    );
}

#[test]
fn creating_refuses_in_the_order_it_looks() {
    let begin = || Creating::begin("d", &init(), LayoutKind::Slots, LIMITS);
    let refused = begin().directory(DirectorySeen::NotCreated(IoKind::PermissionDenied)).err();
    assert_eq!(refused, Some(Error::Io { op: "create directory", kind: IoKind::PermissionDenied }));
    let private = || {
        let directory = begin().directory(DirectorySeen::There).unwrap_or_else(|e| panic!("{e:?}"));
        directory.checked(Ok(())).unwrap_or_else(|e| panic!("{e:?}"))
    };
    let directory = begin().directory(DirectorySeen::There).unwrap_or_else(|e| panic!("{e:?}"));
    let wide = Error::UnsafePermissions { mode: 0o777 };
    assert_eq!(directory.checked(Err(wide.duplicate())).err(), Some(wide));
    let exists = || Some(Error::Exists { what: "snapshot" });
    assert_eq!(private().files(true, false).err(), exists());
    assert_eq!(private().files(false, true).err(), exists());
    let empty = || private().files(false, false).unwrap_or_else(|e| panic!("{e:?}"));
    assert_eq!(empty().lock(LockTry::WouldBlock).err(), Some(Error::Locked));
    let claimed = || empty().lock(LockTry::Taken).unwrap_or_else(|e| panic!("{e:?}"));
    assert_eq!(claimed().files(true, true).err(), exists());
    let vacant = || claimed().files(false, false).unwrap_or_else(|e| panic!("{e:?}"));
    let dear = Error::Range { what: "kdf memory", min: 8, max: 9, got: 10 };
    assert_eq!(vacant().costed(Err(dear.duplicate())).err(), Some(dear));
    let costed = || vacant().costed(Ok(CHEAP)).unwrap_or_else(|e| panic!("{e:?}"));
    assert_eq!(costed().key(Err(Error::WrongPassword)).err(), Some(Error::WrongPassword));
    let derived = costed().key(Ok(scrubbed(&[1; 32]))).unwrap_or_else(|e| panic!("{e:?}"));
    assert_eq!(derived.parent(), ".");
    let flush = io(Op::FsyncParent, IoKind::Other);
    assert_eq!(derived.parent_flushed(Err(flush.duplicate())).err(), Some(flush));
}

#[test]
fn occupied_asks_slot_one_only_in_the_slot_layout() {
    assert_eq!(occupied(LayoutKind::Rename, false, false), None);
    assert_eq!(occupied(LayoutKind::Rename, false, true), None);
    assert_eq!(occupied(LayoutKind::Rename, true, false), Some("snapshot"));
    assert_eq!(occupied(LayoutKind::Slots, false, true), Some("snapshot"));
    assert_eq!(occupied(LayoutKind::Slots, true, false), Some("snapshot"));
    assert_eq!(occupied(LayoutKind::Slots, false, false), None);
}

#[test]
fn the_lock_is_taken_or_its_failure_named() {
    assert_eq!(take_lock(LockTry::Taken), Ok(()));
    assert_eq!(take_lock(LockTry::WouldBlock), Err(Error::Locked));
    assert_eq!(
        take_lock(LockTry::NotOpened(IoKind::PermissionDenied)),
        Err(Error::Io { op: "open lock", kind: IoKind::PermissionDenied })
    );
    assert_eq!(take_lock(LockTry::Failed(IoKind::Unsupported)), Err(Error::Io { op: "flock", kind: IoKind::Unsupported }));
}

#[test]
fn opening_refuses_in_the_order_it_looks() {
    let begin = || Opening::begin("d", &unlock(), LIMITS);
    let wide = Error::UnsafePermissions { mode: 0o777 };
    assert_eq!(begin().directory(Err(wide.duplicate())).err(), Some(wide));
    let checked = || begin().directory(Ok(())).unwrap_or_else(|e| panic!("{e:?}"));
    assert_eq!(checked().snapshot(false).err(), Some(Error::Missing));
    let found = || checked().snapshot(true).unwrap_or_else(|e| panic!("{e:?}"));
    assert_eq!(found().lock(LockTry::WouldBlock).err(), Some(Error::Locked));
    let locked = || found().lock(LockTry::Taken).unwrap_or_else(|e| panic!("{e:?}"));
    assert_eq!(
        locked().temp(TempSeen::NotRemoved(IoKind::ReadOnlyFilesystem)).err(),
        Some(Error::Io { op: "remove stale temp", kind: IoKind::ReadOnlyFilesystem })
    );
    let cleared = || locked().temp(TempSeen::Removed).unwrap_or_else(|e| panic!("{e:?}"));
    assert_eq!(cleared().stat(Err(IoKind::NotFound)).err(), Some(Error::Missing));
    assert_eq!(
        cleared().stat(Err(IoKind::Other)).err(),
        Some(Error::Io { op: "stat snapshot", kind: IoKind::Other })
    );
    let over = (LIMITS.max + 1) as u64;
    let length = |got| Error::Range {
        what: "keystore image length",
        min: LIMITS.min as u64,
        max: LIMITS.max as u64,
        got,
    };
    assert_eq!(cleared().stat(Ok(over)).err(), Some(length(over)));
    let measured = || cleared().stat(Ok(300)).unwrap_or_else(|e| panic!("{e:?}"));
    assert_eq!(measured().len(), 300);
    let read = |read| measured().read(read).err();
    assert_eq!(read(SnapshotRead::NotOpened(IoKind::NotFound)), Some(Error::Io { op: "open snapshot", kind: IoKind::NotFound }));
    assert_eq!(read(SnapshotRead::NotRead(IoKind::UnexpectedEof)), Some(Error::Io { op: "read snapshot", kind: IoKind::UnexpectedEof }));
    let image = || scrubbed(&[0; 300]);
    assert_eq!(
        read(SnapshotRead::Read { image: image(), extra: Ok(1) }),
        Some(Error::Corrupt { what: "snapshot grew while being read", offset: 300 })
    );
    assert_eq!(
        read(SnapshotRead::Read { image: image(), extra: Err(IoKind::Other) }),
        Some(Error::Io { op: "read snapshot", kind: IoKind::Other })
    );
    assert_eq!(slot_length(LIMITS, Ok((OVERHEAD + LIMITS.max) as u64)), Ok(OVERHEAD + LIMITS.max));
    let over = (OVERHEAD + LIMITS.max + 1) as u64;
    assert_eq!(slot_length(LIMITS, Ok(over)), Err(length(over)));
    assert_eq!(slot_length(LIMITS, Err(IoKind::Other)), Err(Error::Io { op: "stat slot", kind: IoKind::Other }));
    assert_eq!(slot_bytes(Err(IoKind::Other)).err(), Some(Error::Io { op: "read slot", kind: IoKind::Other }));
}

#[test]
fn a_slot_held_open_without_write_sharing_is_refused_by_name() {
    let failed = |kind, code| open_slot(Err(SlotOpenFailure { kind, code }));
    assert_eq!(open_slot(Ok(())), Ok(true));
    assert_eq!(failed(IoKind::NotFound, Some(2)), Ok(false));
    assert_eq!(failed(IoKind::Other, Some(32)), Err(Error::HeldOpen { code: 32 }));
    assert_eq!(failed(IoKind::PermissionDenied, Some(5)), Err(Error::Io { op: "open slot", kind: IoKind::PermissionDenied }));
    assert_eq!(failed(IoKind::Other, None), Err(Error::Io { op: "open slot", kind: IoKind::Other }));
}

#[test]
fn a_slot_one_longer_than_any_frame_is_torn_and_not_a_refusal() {
    let mut files = Files::new();
    files.snapshot = Some(sealed(10, 1, &SALT));
    files.slot1 = Some(vec![0; OVERHEAD + LIMITS.max + 1]);
    let ks = open_slots(&files, PASSWORD).unwrap_or_else(|e| panic!("{e:?}"));
    assert_eq!(generation(&ks), 10);
    files.snapshot = Some(vec![0; OVERHEAD + LIMITS.max + 1]);
    assert!(matches!(open_slots(&files, PASSWORD).err(), Some(Error::Range { what: "keystore image length", .. })));
}

#[test]
fn a_wrong_password_is_refused_in_both_layouts() {
    let mut files = Files::new();
    files.snapshot = Some(sealed(10, 1, &SALT));
    assert_eq!(open_rename(&files, b"another").err(), Some(Error::WrongPassword));
    assert_eq!(open_slots(&files, b"another").err(), Some(Error::WrongPassword));
    assert!(open_rename(&files, PASSWORD).is_ok());
    assert_eq!(open_rename(&Files::new(), PASSWORD).err(), Some(Error::Missing));
}

#[test]
fn fresh_slot_files_hold_nothing() {
    let files = SlotFiles::fresh();
    assert_eq!(
        files,
        SlotFiles { held0: false, held1: false, newest: None, on_device: true, vacate: true }
    );
    assert_ne!(Layout::Slots(files), Layout::Rename);
}

#[test]
fn what_is_sealed_again_after_a_change_is_what_was_sealed_for_it() {
    let mut files = Files::new();
    let mut ks = create(&mut files, LayoutKind::Rename).unwrap_or_else(|e| panic!("{e:?}"));
    for root in 1..4 {
        assert!(add(&mut ks, &mut files, imported([root; 32], 200 - root)).is_ok());
    }
    let tag = Tag { bytes: [198; 20] };
    assert!(reserve(&mut ks, &mut files, &tag, 5).is_ok());
    let on_disk = files.snapshot.clone().unwrap_or_default();
    // The next change's image differs from this one only in what that change
    // says: its generation, the master seed it adopts, and the check.
    let change = ks.adopt_master(&scrubbed(&[3; 32])).unwrap_or_else(|e| panic!("{e:?}"));
    let request = ks.seal(&change);
    assert_eq!(request.generation, 5);
    let again = seal(&request);
    let records = HEADER + BODY..on_disk.len() - CHECK;
    assert_eq!(again.as_slice()[records.clone()], on_disk[records]);
}
