//! The two-slot layout: two files, each rewritten in place, so that no commit
//! creates, renames or deletes a directory entry.
//!
//! `accounts.mks` is slot 0 and `accounts.mks.1` is slot 1; each holds one
//! frame around one whole image. A commit writes the slot that does not hold
//! the newest image and flushes it, and an open reads both and takes the image
//! with the higher generation.
//!
//! # The frame
//!
//! ```text
//! magic[8] = "MCMKSLOT" | frame_version u16 = 1 | payload_len u32
//! | payload[payload_len]   version 1: one image, or nothing for the vacant frame
//! | check[32]              SHA3-256 over every byte before it
//! ```
//!
//! A slot file is one frame and nothing after it, and a file of any other
//! length is torn. The envelope is fixed and only the payload is versioned: an
//! intact frame of a later version is refused, and only a frame whose check
//! fails is torn.

use vstd::prelude::*;

use crate::error::Error;
use crate::hash::sha3_256;
#[allow(unused_imports)]
use crate::hash::sha3_256_digest;
use crate::keystore::format::{Header, Kdf, Parsed, Reading};
use crate::scrubbed::{copied, same_bytes, Scrubbed};

verus! {

/// The frame version written, and the only one read.
pub const FRAME_VERSION: u16 = 1;

/// The magic's length.
pub const MAGIC_LEN: usize = 8;

/// The magic, the version and the payload's length.
pub const HEAD_LEN: usize = 14;

/// The check's length.
pub const CHECK_LEN: usize = 32;

/// What a frame adds to its payload.
pub const OVERHEAD: usize = HEAD_LEN + CHECK_LEN;

/// `"MCMKSLOT"`.
pub open spec fn magic() -> Seq<u8> {
    seq![0x4du8, 0x43u8, 0x4du8, 0x4bu8, 0x53u8, 0x4cu8, 0x4fu8, 0x54u8]
}

/// A 16-bit number, low byte first.
pub open spec fn le16(n: u16) -> Seq<u8> {
    seq![(n % 256) as u8, (n / 256) as u8]
}

/// A 32-bit number, low byte first.
pub open spec fn le32(n: u32) -> Seq<u8> {
    seq![
        (n % 256) as u8,
        (n / 256 % 256) as u8,
        (n / 65536 % 256) as u8,
        (n / 16777216) as u8,
    ]
}

/// Everything of a frame that its check covers.
pub open spec fn frame_body(version: u16, payload: Seq<u8>) -> Seq<u8> {
    magic() + le16(version) + le32(payload.len() as u32) + payload
}

/// The whole frame of `version` around `payload`.
pub open spec fn envelope(version: u16, payload: Seq<u8>) -> Seq<u8> {
    frame_body(version, payload) + sha3_256_digest(frame_body(version, payload))@
}

/// The frame around `image`, or around nothing: the vacant frame.
pub open spec fn framed(image: Seq<u8>) -> Seq<u8> {
    envelope(FRAME_VERSION, image)
}

/// The bytes begin with the frame's magic.
pub open spec fn has_magic(bytes: Seq<u8>) -> bool {
    bytes.len() >= MAGIC_LEN && bytes.take(MAGIC_LEN as int) == magic()
}

/// The version a frame's head declares.
pub open spec fn declared_version(bytes: Seq<u8>) -> u16 {
    (bytes[8] + 256 * bytes[9]) as u16
}

/// The payload length a frame's head declares.
pub open spec fn declared_len(bytes: Seq<u8>) -> u32 {
    (bytes[10] + 256 * bytes[11] + 65536 * bytes[12] + 16777216 * bytes[13]) as u32
}

/// What stands between the head and the check.
pub open spec fn payload_of(bytes: Seq<u8>) -> Seq<u8> {
    bytes.subrange(HEAD_LEN as int, bytes.len() - CHECK_LEN)
}

/// The bytes are one whole frame, of some version, around a payload of at most
/// `max` bytes: its length is the one declared and its check holds.
pub open spec fn intact(bytes: Seq<u8>, max: nat) -> bool {
    &&& has_magic(bytes)
    &&& OVERHEAD <= bytes.len() <= OVERHEAD + max
    &&& declared_len(bytes) == bytes.len() - OVERHEAD
    &&& sha3_256_digest(bytes.take(bytes.len() - CHECK_LEN))@ == bytes.skip(
        bytes.len() - CHECK_LEN,
    )
}

/// What one slot file holds, as an open sorts it before any key exists: `T` is
/// what is known of the bytes an image or a file without a frame holds.
pub enum Content<T> {
    /// No such file. Only slot 1 is ever absent.
    Absent,
    /// An intact frame around nothing.
    Vacant,
    /// An intact frame around an image.
    Image(T),
    /// A frame whose length or check does not hold: what a write the device
    /// did not finish leaves.
    Torn,
    /// Bytes that do not begin with the frame's magic. In slot 0, a store in
    /// the rename layout -- the whole file one image -- or what an overwrite
    /// of one left; in slot 1, nothing a commit makes.
    Other(T),
}

/// The same sorting, over the bytes themselves.
pub open spec fn content_bytes(content: Content<Scrubbed>) -> Content<Seq<u8>> {
    match content {
        Content::Absent => Content::Absent,
        Content::Vacant => Content::Vacant,
        Content::Image(image) => Content::Image(image@),
        Content::Torn => Content::Torn,
        Content::Other(whole) => Content::Other(whole@),
    }
}

/// The refusal of an intact frame of another version.
pub open spec fn later_version() -> Error {
    Error::Corrupt {
        what: "a slot frame of a version this build does not read, which a newer build wrote",
        offset: MAGIC_LEN,
    }
}

/// What a slot file's bytes are, given nothing when there is no file.
pub open spec fn sorted(bytes: Option<Seq<u8>>, max: nat) -> Result<Content<Seq<u8>>, Error> {
    match bytes {
        None => Ok(Content::Absent),
        Some(bytes) => if !has_magic(bytes) {
            Ok(Content::Other(bytes))
        } else if !intact(bytes, max) {
            Ok(Content::Torn)
        } else if declared_version(bytes) != FRAME_VERSION {
            Err(later_version())
        } else if payload_of(bytes).len() == 0 {
            Ok(Content::Vacant)
        } else {
            Ok(Content::Image(payload_of(bytes)))
        },
    }
}

/// A frame cannot hold `image`.
pub open spec fn too_long(len: nat, max: nat) -> bool {
    len > max || len > u32::MAX
}

/// The refusal of an image too long to frame.
pub open spec fn payload_refusal(len: nat, max: usize) -> Error {
    Error::Range { what: "keystore slot payload length", min: 0, max: max as u64, got: len as u64 }
}

proof fn lemma_le16(n: u16)
    ensures
        le16(n)[0] + 256 * le16(n)[1] == n,
{
}

proof fn lemma_le32(n: u32)
    ensures
        le32(n)[0] + 256 * le32(n)[1] + 65536 * le32(n)[2] + 16777216 * le32(n)[3] == n,
{
}

/// An image that can be framed is the payload of its frame, and nothing else
/// is: the whole of what an open reads back of what a commit wrote.
pub proof fn law_frame_round_trips(image: Seq<u8>, max: nat)
    requires
        !too_long(image.len(), max),
    ensures
        sorted(Some(framed(image)), max) == if image.len() == 0 {
            Ok::<Content<Seq<u8>>, Error>(Content::Vacant)
        } else {
            Ok(Content::Image(image))
        },
        framed(image).len() == OVERHEAD + image.len(),
{
    lemma_envelope(FRAME_VERSION, image, max);
}

/// An intact frame of any other version is refused, never called torn.
pub proof fn law_later_version_is_refused(version: u16, payload: Seq<u8>, max: nat)
    requires
        version != FRAME_VERSION,
        !too_long(payload.len(), max),
    ensures
        sorted(Some(envelope(version, payload)), max) == Err::<Content<Seq<u8>>, Error>(
            later_version(),
        ),
{
    lemma_envelope(version, payload, max);
}

proof fn lemma_envelope(version: u16, payload: Seq<u8>, max: nat)
    requires
        !too_long(payload.len(), max),
    ensures
        intact(envelope(version, payload), max),
        declared_version(envelope(version, payload)) == version,
        payload_of(envelope(version, payload)) == payload,
        envelope(version, payload).len() == OVERHEAD + payload.len(),
{
    let body = frame_body(version, payload);
    let whole = envelope(version, payload);
    lemma_le16(version);
    lemma_le32(payload.len() as u32);
    assert(whole.take(MAGIC_LEN as int) =~= magic());
    assert(whole.take(whole.len() - CHECK_LEN) =~= body);
    assert(whole.skip(whole.len() - CHECK_LEN) =~= sha3_256_digest(body)@);
    assert(payload_of(whole) =~= payload);
    assert(whole[8] == le16(version)[0] && whole[9] == le16(version)[1]);
    let n = payload.len() as u32;
    assert(whole[10] == le32(n)[0] && whole[11] == le32(n)[1]);
    assert(whole[12] == le32(n)[2] && whole[13] == le32(n)[3]);
}

/// What sorts as an image is the frame around that image, byte for byte, and
/// what sorts as vacant is the vacant frame: a file cut short, lengthened or
/// mixed from two frames is an image only where it is itself a whole frame.
pub proof fn law_only_a_frame_is_an_image(bytes: Seq<u8>, max: nat)
    ensures
        sorted(Some(bytes), max) matches Ok(Content::Image(image)) ==> bytes == framed(image)
            && 0 < image.len() <= max,
        sorted(Some(bytes), max) matches Ok(Content::Vacant) ==> bytes == framed(Seq::empty()),
        sorted(Some(bytes), max) is Err ==> bytes == envelope(
            declared_version(bytes),
            payload_of(bytes),
        ),
{
    if intact(bytes, max) {
        let version = declared_version(bytes);
        let payload = payload_of(bytes);
        let n = payload.len() as u32;
        assert(payload.len() == bytes.len() - OVERHEAD);
        assert(declared_len(bytes) == n);
        let head = bytes.take(HEAD_LEN as int);
        lemma_le16_back(bytes[8], bytes[9]);
        lemma_le32_back(bytes[10], bytes[11], bytes[12], bytes[13]);
        assert(bytes.take(MAGIC_LEN as int) =~= magic());
        assert forall|i: int| 0 <= i < 8 implies bytes[i] == magic()[i] by {
            assert(bytes.take(MAGIC_LEN as int)[i] == magic()[i]);
        }
        assert(head =~= magic() + le16(version) + le32(n));
        let body = bytes.take(bytes.len() - CHECK_LEN);
        assert(body =~= frame_body(version, payload));
        assert(bytes =~= body + bytes.skip(bytes.len() - CHECK_LEN));
        assert(payload.len() == 0 ==> payload =~= Seq::empty());
    }
}

proof fn lemma_le16_back(a: u8, b: u8)
    ensures
        le16((a + 256 * b) as u16) =~= seq![a, b],
{
}

proof fn lemma_le32_back(a: u8, b: u8, c: u8, d: u8)
    ensures
        le32((a + 256 * b + 65536 * c + 16777216 * d) as u32) =~= seq![a, b, c, d],
{
    let n = (a + 256 * b + 65536 * c + 16777216 * d) as u32;
    assert(n % 256 == a && n / 256 % 256 == b && n / 65536 % 256 == c && n / 16777216 == d)
        by (bit_vector)
        requires
            n == (a + 256 * b + 65536 * c + 16777216 * d) as u32,
    ;
}

/// The frame around `image`, or around nothing: the vacant frame.
///
/// Built at its exact length, so the buffer never reallocates and leaves no
/// copy of the image behind. An image longer than `max`, or than a frame can
/// declare, is refused.
pub fn frame(image: &[u8], max: usize) -> (out: Result<Scrubbed, Error>)
    ensures
        out is Err <==> too_long(image@.len(), max as nat),
        out matches Err(e) ==> e == payload_refusal(image@.len(), max),
        out matches Ok(whole) ==> whole@ == framed(image@),
{
    if image.len() > max || image.len() as u64 > u32::MAX as u64 {
        return Err(
            Error::Range {
                what: "keystore slot payload length",
                min: 0,
                max: max as u64,
                got: image.len() as u64,
            },
        );
    }
    Ok(build_frame(image))
}

/// The frame around an image short enough to have one.
pub(crate) fn build_frame(image: &[u8]) -> (whole: Scrubbed)
    requires
        image@.len() <= u32::MAX,
    ensures
        whole@ == framed(image@),
{
    let room: usize = if image.len() <= usize::MAX - OVERHEAD {
        OVERHEAD + image.len()
    } else {
        image.len()
    };
    let mut out: Vec<u8> = Vec::with_capacity(room);
    out.push(0x4d);
    out.push(0x43);
    out.push(0x4d);
    out.push(0x4b);
    out.push(0x53);
    out.push(0x4c);
    out.push(0x4f);
    out.push(0x54);
    assert(out@ =~= magic());
    out.push((FRAME_VERSION % 256) as u8);
    out.push((FRAME_VERSION / 256) as u8);
    assert(out@ =~= magic() + le16(FRAME_VERSION));
    let n: u32 = image.len() as u32;
    out.push((n % 256) as u8);
    out.push((n / 256 % 256) as u8);
    out.push((n / 65536 % 256) as u8);
    out.push((n / 16777216) as u8);
    let ghost head = magic() + le16(FRAME_VERSION) + le32(n);
    assert(out@ =~= head);
    let mut i: usize = 0;
    while i < image.len()
        invariant
            i <= image.len(),
            out@ == head + image@.take(i as int),
        decreases image.len() - i,
    {
        out.push(image[i]);
        assert(image@.take(i + 1) =~= image@.take(i as int).push(image@[i as int]));
        i = i + 1;
        assert(out@ =~= head + image@.take(i as int));
    }
    assert(image@.take(image.len() as int) =~= image@);
    assert(out@ == frame_body(FRAME_VERSION, image@));
    let check = sha3_256(out.as_slice());
    let mut j: usize = 0;
    let ghost body = out@;
    while j < CHECK_LEN
        invariant
            j <= CHECK_LEN,
            out@ == body + check@.take(j as int),
        decreases CHECK_LEN - j,
    {
        out.push(check[j]);
        assert(check@.take(j + 1) =~= check@.take(j as int).push(check@[j as int]));
        j = j + 1;
        assert(out@ =~= body + check@.take(j as int));
    }
    assert(check@.take(CHECK_LEN as int) =~= check@);
    Scrubbed::new(out)
}

/// Whether the bytes begin with the frame's magic.
fn begins_with_magic(bytes: &[u8]) -> (has: bool)
    ensures
        has == has_magic(bytes@),
{
    if bytes.len() < MAGIC_LEN {
        return false;
    }
    let has = bytes[0] == 0x4d && bytes[1] == 0x43 && bytes[2] == 0x4d && bytes[3] == 0x4b && bytes[4]
        == 0x53 && bytes[5] == 0x4c && bytes[6] == 0x4f && bytes[7] == 0x54;
    proof {
        let front = bytes@.take(MAGIC_LEN as int);
        assert forall|i: int| 0 <= i < 8 implies front[i] == bytes@[i] by {}
        if has {
            assert(front =~= magic());
        } else if front == magic() {
            assert(front[0] == 0x4d && front[1] == 0x43 && front[2] == 0x4d && front[3] == 0x4b);
            assert(front[4] == 0x53 && front[5] == 0x4c && front[6] == 0x4f && front[7] == 0x54);
        }
    }
    has
}

/// Sort a slot file's bytes, given `None` when the file does not exist.
///
/// An intact frame of a later version is refused rather than sorted: its check
/// holds, so no crash made it, and calling it torn would take the older slot
/// beside it.
pub fn sort(bytes: Option<Scrubbed>, max: usize) -> (content: Result<Content<Scrubbed>, Error>)
    ensures
        content is Ok <==> sorted(
            match bytes {
                Some(held) => Some(held@),
                None => None,
            },
            max as nat,
        ) is Ok,
        content matches Ok(content) ==> Ok::<Content<Seq<u8>>, Error>(content_bytes(content)) == sorted(
            match bytes {
                Some(held) => Some(held@),
                None => None,
            },
            max as nat,
        ),
        content matches Err(e) ==> e == later_version(),
{
    let held = match bytes {
        Some(held) => held,
        None => {
            return Ok(Content::Absent);
        },
    };
    let whole = held.as_slice();
    if !begins_with_magic(whole) {
        return Ok(Content::Other(held));
    }
    if whole.len() < OVERHEAD {
        return Ok(Content::Torn);
    }
    if whole.len() - OVERHEAD > max {
        return Ok(Content::Torn);
    }
    let at: usize = whole.len() - CHECK_LEN;
    let (body, check) = whole.split_at(at);
    assert(body@ =~= whole@.take(at as int));
    assert(check@ =~= whole@.skip(at as int));
    let version: u16 = body[8] as u16 + 256 * (body[9] as u16);
    let declared: u32 = body[10] as u32 + 256 * (body[11] as u32) + 65536 * (body[12] as u32)
        + 16777216 * (body[13] as u32);
    let payload_len: usize = body.len() - HEAD_LEN;
    if declared as u64 != payload_len as u64 {
        return Ok(Content::Torn);
    }
    let expected = sha3_256(body);
    if !same_bytes(expected.as_slice(), check) {
        return Ok(Content::Torn);
    }
    assert(intact(whole@, max as nat));
    if version != FRAME_VERSION {
        return Err(
            Error::Corrupt {
                what: "a slot frame of a version this build does not read, which a newer build wrote",
                offset: MAGIC_LEN,
            },
        );
    }
    if payload_len == 0 {
        return Ok(Content::Vacant);
    }
    let (_head, payload) = body.split_at(HEAD_LEN);
    assert(payload@ =~= payload_of(whole@));
    Ok(Content::Image(Scrubbed::new(copied(payload))))
}

/// What a key is derived with, before any image is opened.
pub struct KeyRequest {
    pub kdf: Kdf,
    pub salt: Vec<u8>,
}

/// What an open takes: the newest image, and what the handle needs to seal the
/// next one. No `Debug`: it holds the key and the master seed.
pub struct Taken {
    /// The slot the image came from, which the next commit leaves alone.
    pub newest: usize,
    /// The format version that image carries.
    pub version: u16,
    pub parsed: Parsed,
    pub key: Scrubbed,
    pub kdf: Kdf,
    pub salt: Vec<u8>,
}

/// The slot holds a frame, whole or torn.
pub open spec fn is_framed<T>(slot: Content<T>) -> bool {
    slot is Vacant || slot is Image || slot is Torn
}

/// The refusal of a frame in slot 0 with no slot 1 beside it.
pub open spec fn slot_one_missing() -> Error {
    Error::Corrupt { what: "slot 0 holds a frame and slot 1 is missing", offset: 0 }
}

/// The refusal of two slots with nothing in either to read.
pub open spec fn no_image() -> Error {
    Error::Corrupt { what: "neither slot holds an intact image", offset: 0 }
}

/// The refusal of two images sealed under different keys.
pub open spec fn slots_disagree() -> Error {
    Error::Corrupt {
        what: "the two slots disagree on the salt or the key derivation",
        offset: 0,
    }
}

/// The refusal of two images of one generation.
pub open spec fn one_generation() -> Error {
    Error::Corrupt { what: "both slots hold one generation", offset: 0 }
}

/// Both headers name one key.
pub open spec fn same_key(a: Header, b: Header) -> bool {
    a.kdf == b.kdf && a.salt@ == b.salt@
}

/// The header the store's key is derived from, or why there is none.
///
/// A frame in slot 0 with no slot 1 is refused: slot 1 is created before slot 0
/// is ever a frame, so only a deletion leaves that. An intact image's header
/// names the key, slot 1's first, and both intact images must name one key.
/// With no intact image, slot 0 is read as one whole image.
pub open spec fn key_header(
    slot0: Content<Result<Header, Error>>,
    slot1: Content<Result<Header, Error>>,
) -> Result<Header, Error> {
    if is_framed(slot0) && slot1 is Absent {
        Err(slot_one_missing())
    } else {
        match (slot0, slot1) {
            (Content::Image(header0), Content::Image(header1)) => match (header1, header0) {
                (Err(e), _) => Err(e),
                (_, Err(e)) => Err(e),
                (Ok(header1), Ok(header0)) => if same_key(header0, header1) {
                    Ok(header1)
                } else {
                    Err(slots_disagree())
                },
            },
            (_, Content::Image(header1)) => header1,
            (Content::Image(header0), _) => header0,
            (Content::Other(whole), _) => whole,
            _ => Err(no_image()),
        }
    }
}

/// The readings' headers alone.
pub open spec fn headers(slot: Content<Reading>) -> Content<Result<Header, Error>> {
    match slot {
        Content::Absent => Content::Absent,
        Content::Vacant => Content::Vacant,
        Content::Image(reading) => Content::Image(reading.header),
        Content::Torn => Content::Torn,
        Content::Other(reading) => Content::Other(reading.header),
    }
}

/// A slot and what was read out of it.
pub struct Candidate {
    pub slot: usize,
    pub version: u16,
    pub parsed: Parsed,
}

/// What slot 0 offers, beside an intact image or as one itself: an intact image
/// must open, and a file that is no frame is passed over unless it names the
/// store's key and opens.
pub open spec fn offered_by_slot_zero(slot0: Content<Reading>, key: Header) -> Result<
    Option<Candidate>,
    Error,
> {
    match slot0 {
        Content::Image(reading) => match reading.parsed {
            Ok(parsed) => Ok(
                Some(Candidate { slot: 0, version: reading.header->Ok_0.version, parsed }),
            ),
            Err(e) => Err(e),
        },
        Content::Other(reading) => Ok(
            match (reading.header, reading.parsed) {
                (Ok(header), Ok(parsed)) => if same_key(header, key) {
                    Some(Candidate { slot: 0, version: header.version, parsed })
                } else {
                    None
                },
                _ => None,
            },
        ),
        _ => Ok(None),
    }
}

/// What slot 1 offers: an intact image, which must open.
pub open spec fn offered_by_slot_one(slot1: Content<Reading>) -> Result<Option<Candidate>, Error> {
    match slot1 {
        Content::Image(reading) => match reading.parsed {
            Ok(parsed) => Ok(
                Some(Candidate { slot: 1, version: reading.header->Ok_0.version, parsed }),
            ),
            Err(e) => Err(e),
        },
        _ => Ok(None),
    }
}

/// Of what the slots offer, the higher generation; two of one are refused.
pub open spec fn newest_of(offer0: Option<Candidate>, offer1: Option<Candidate>) -> Result<
    Candidate,
    Error,
> {
    match (offer0, offer1) {
        (None, None) => Err(no_image()),
        (Some(only), None) => Ok(only),
        (None, Some(only)) => Ok(only),
        (Some(a), Some(b)) => if a.parsed.generation == b.parsed.generation {
            Err(one_generation())
        } else if a.parsed.generation > b.parsed.generation {
            Ok(a)
        } else {
            Ok(b)
        },
    }
}

/// Which image an open takes, once `key` was asked for: the errors in the order
/// they are met -- the slots' own, the key's, an image's that does not open.
pub open spec fn candidate_taken<K>(
    slot0: Content<Reading>,
    slot1: Content<Reading>,
    key: Result<K, Error>,
) -> Result<Candidate, Error> {
    match (key_header(headers(slot0), headers(slot1)), key) {
        (Err(e), _) => Err(e),
        (_, Err(e)) => Err(e),
        (Ok(header), Ok(_)) => match (slot0, slot1) {
            (Content::Other(reading), _) if slot1 !is Image => match reading.parsed {
                Ok(parsed) => Ok(Candidate { slot: 0, version: header.version, parsed }),
                Err(e) => Err(e),
            },
            _ => match (offered_by_slot_zero(slot0, header), offered_by_slot_one(slot1)) {
                (Err(e), _) => Err(e),
                (_, Err(e)) => Err(e),
                (Ok(offer0), Ok(offer1)) => newest_of(offer0, offer1),
            },
        },
    }
}

fn same_key_as(header: &Header, kdf: Kdf, salt: &[u8]) -> (same: bool)
    ensures
        same == (header.kdf == kdf && header.salt@ == salt@),
{
    header.kdf == kdf && same_bytes(header.salt.as_slice(), salt)
}

fn header_of(read: &Result<Header, Error>) -> (header: Result<&Header, Error>)
    ensures
        header matches Ok(h) ==> *read == Ok::<Header, Error>(*h),
        header matches Err(e) ==> *read == Err::<Header, Error>(e),
{
    match read {
        Ok(header) => Ok(header),
        Err(e) => Err(e.duplicate()),
    }
}

/// The header the store's key is derived from: see [`key_header`].
fn choose_header<'a>(
    framed0: bool,
    absent1: bool,
    image0: Option<&'a Result<Header, Error>>,
    image1: Option<&'a Result<Header, Error>>,
    other0: Option<&'a Result<Header, Error>>,
) -> (chosen: Result<&'a Header, Error>)
    ensures
        chosen == (if framed0 && absent1 {
            Err(slot_one_missing())
        } else {
            match (image0, image1) {
                (Some(header0), Some(header1)) => match (*header1, *header0) {
                    (Err(e), _) => Err(e),
                    (_, Err(e)) => Err(e),
                    (Ok(header1), Ok(header0)) => if same_key(header0, header1) {
                        Ok(&header1)
                    } else {
                        Err(slots_disagree())
                    },
                },
                (None, Some(header1)) => match *header1 {
                    Ok(header) => Ok(&header),
                    Err(e) => Err(e),
                },
                (Some(header0), None) => match *header0 {
                    Ok(header) => Ok(&header),
                    Err(e) => Err(e),
                },
                (None, None) => match other0 {
                    Some(whole) => match *whole {
                        Ok(header) => Ok(&header),
                        Err(e) => Err(e),
                    },
                    None => Err(no_image()),
                },
            }
        }),
{
    if framed0 && absent1 {
        return Err(
            Error::Corrupt { what: "slot 0 holds a frame and slot 1 is missing", offset: 0 },
        );
    }
    match (image0, image1) {
        (Some(header0), Some(header1)) => {
            let header1 = header_of(header1)?;
            let header0 = header_of(header0)?;
            if same_key_as(header0, header1.kdf, header1.salt.as_slice()) {
                Ok(header1)
            } else {
                Err(
                    Error::Corrupt {
                        what: "the two slots disagree on the salt or the key derivation",
                        offset: 0,
                    },
                )
            }
        },
        (None, Some(header1)) => header_of(header1),
        (Some(header0), None) => header_of(header0),
        (None, None) => match other0 {
            Some(whole) => header_of(whole),
            None => Err(
                Error::Corrupt { what: "neither slot holds an intact image", offset: 0 },
            ),
        },
    }
}

/// What the store's key is derived with, given each slot's header, or why the
/// store is refused before any key exists.
pub fn key_request(
    slot0: &Content<Result<Header, Error>>,
    slot1: &Content<Result<Header, Error>>,
) -> (request: Result<KeyRequest, Error>)
    ensures
        match (request, key_header(*slot0, *slot1)) {
            (Ok(request), Ok(header)) => request.kdf == header.kdf && request.salt@ == header.salt@,
            (Err(e), Err(why)) => e == why,
            _ => false,
        },
{
    let (framed0, image0, other0) = match slot0 {
        Content::Absent => (false, None, None),
        Content::Vacant => (true, None, None),
        Content::Image(header) => (true, Some(header), None),
        Content::Torn => (true, None, None),
        Content::Other(header) => (false, None, Some(header)),
    };
    let (absent1, image1) = match slot1 {
        Content::Absent => (true, None),
        Content::Image(header) => (false, Some(header)),
        _ => (false, None),
    };
    match choose_header(framed0, absent1, image0, image1, other0) {
        Ok(header) => Ok(
            KeyRequest { kdf: header.kdf, salt: copied(header.salt.as_slice()) },
        ),
        Err(e) => Err(e),
    }
}

/// Of what the slots offer, the newest: see [`newest_of`].
fn newest(offer0: Option<Candidate>, offer1: Option<Candidate>) -> (taken: Result<
    Candidate,
    Error,
>)
    ensures
        taken == newest_of(offer0, offer1),
{
    match (offer0, offer1) {
        (None, None) => Err(
            Error::Corrupt { what: "neither slot holds an intact image", offset: 0 },
        ),
        (Some(only), None) => Ok(only),
        (None, Some(only)) => Ok(only),
        (Some(a), Some(b)) => if a.parsed.generation == b.parsed.generation {
            Err(Error::Corrupt { what: "both slots hold one generation", offset: 0 })
        } else if a.parsed.generation > b.parsed.generation {
            Ok(a)
        } else {
            Ok(b)
        },
    }
}

/// The newest image the two slots hold, given what was read of each and the
/// key that [`key_request`]'s answer derived.
pub fn take(
    slot0: Content<Reading>,
    slot1: Content<Reading>,
    key: Result<Scrubbed, Error>,
) -> (taken: Result<Taken, Error>)
    ensures
        match (taken, candidate_taken(slot0, slot1, key)) {
            (Ok(taken), Ok(candidate)) => {
                let header = key_header(headers(slot0), headers(slot1))->Ok_0;
                &&& taken.newest == candidate.slot
                &&& taken.version == candidate.version
                &&& taken.parsed == candidate.parsed
                &&& Ok::<Scrubbed, Error>(taken.key) == key
                &&& taken.kdf == header.kdf
                &&& taken.salt@ == header.salt@
            },
            (Err(e), Err(why)) => e == why,
            _ => false,
        },
{
    let (framed0, image0, other0) = match &slot0 {
        Content::Absent => (false, None, None),
        Content::Vacant => (true, None, None),
        Content::Image(reading) => (true, Some(&reading.header), None),
        Content::Torn => (true, None, None),
        Content::Other(reading) => (false, None, Some(&reading.header)),
    };
    let (absent1, image1) = match &slot1 {
        Content::Absent => (true, None),
        Content::Image(reading) => (false, Some(&reading.header)),
        _ => (false, None),
    };
    let whole = image0.is_none() && image1.is_none();
    let (kdf, salt, version) = match choose_header(framed0, absent1, image0, image1, other0) {
        Ok(header) => (header.kdf, copied(header.salt.as_slice()), header.version),
        Err(e) => {
            return Err(e);
        },
    };
    let key = match key {
        Ok(key) => key,
        Err(e) => {
            return Err(e);
        },
    };
    let offer0: Option<Candidate> = match slot0 {
        Content::Image(reading) => match (reading.header, reading.parsed) {
            (Ok(header), Ok(parsed)) => Some(
                Candidate { slot: 0, version: header.version, parsed },
            ),
            (_, Err(e)) => {
                return Err(e);
            },
            (Err(e), _) => {
                return Err(e);
            },
        },
        Content::Other(reading) => if whole {
            match reading.parsed {
                Ok(parsed) => Some(Candidate { slot: 0, version, parsed }),
                Err(e) => {
                    return Err(e);
                },
            }
        } else {
            match (reading.header, reading.parsed) {
                (Ok(header), Ok(parsed)) => if same_key_as(&header, kdf, salt.as_slice()) {
                    Some(Candidate { slot: 0, version: header.version, parsed })
                } else {
                    None
                },
                _ => None,
            }
        },
        _ => None,
    };
    let offer1: Option<Candidate> = match slot1 {
        Content::Image(reading) => match (reading.header, reading.parsed) {
            (Ok(header), Ok(parsed)) => Some(
                Candidate { slot: 1, version: header.version, parsed },
            ),
            (_, Err(e)) => {
                return Err(e);
            },
            (Err(e), _) => {
                return Err(e);
            },
        },
        _ => None,
    };
    match newest(offer0, offer1) {
        Ok(candidate) => Ok(
            Taken {
                newest: candidate.slot,
                version: candidate.version,
                parsed: candidate.parsed,
                key,
                kdf,
                salt,
            },
        ),
        Err(e) => Err(e),
    }
}

/// An open never takes an image older than another intact one beside it, and
/// of two intact images it takes one only where their generations differ.
pub proof fn law_the_newest_image_is_taken<K>(
    slot0: Content<Reading>,
    slot1: Content<Reading>,
    key: Result<K, Error>,
    taken: Candidate,
)
    requires
        candidate_taken(slot0, slot1, key) == Ok::<Candidate, Error>(taken),
    ensures
        taken.slot == 0 || taken.slot == 1,
        slot0 matches Content::Image(reading) ==> reading.parsed is Ok
            && reading.parsed->Ok_0.generation <= taken.parsed.generation,
        slot1 matches Content::Image(reading) ==> reading.parsed is Ok
            && reading.parsed->Ok_0.generation <= taken.parsed.generation,
        slot0 matches Content::Image(a) ==> slot1 matches Content::Image(b) ==> a.parsed->Ok_0.generation
            != b.parsed->Ok_0.generation,
        taken.slot == 1 ==> match slot1 {
            Content::Image(reading) => reading.parsed == Ok::<Parsed, Error>(taken.parsed),
            _ => false,
        },
        taken.slot == 0 ==> match slot0 {
            Content::Image(reading) | Content::Other(reading) => reading.parsed == Ok::<
                Parsed,
                Error,
            >(taken.parsed),
            _ => false,
        },
{
}

/// A frame in slot 0 with no slot 1 beside it is refused, whatever is in it and
/// whatever the key.
pub proof fn law_a_missing_slot_one_is_refused<K>(slot0: Content<Reading>, key: Result<K, Error>)
    requires
        is_framed(slot0),
    ensures
        candidate_taken(slot0, Content::Absent, key) == Err::<Candidate, Error>(slot_one_missing()),
{
}

/// A key that could not be had refuses the store, in its own words, wherever
/// the slots themselves do not.
pub proof fn law_a_refused_key_refuses_the_store<K>(
    slot0: Content<Reading>,
    slot1: Content<Reading>,
    why: Error,
)
    requires
        key_header(headers(slot0), headers(slot1)) is Ok,
    ensures
        candidate_taken(slot0, slot1, Err::<K, Error>(why)) == Err::<Candidate, Error>(why),
{
}

/// What was read of a slot was read of what it was sorted as.
pub open spec fn reading_of<T>(content: Content<T>, reading: Content<Reading>) -> bool {
    match content {
        Content::Absent => reading is Absent,
        Content::Vacant => reading is Vacant,
        Content::Image(_) => reading is Image,
        Content::Torn => reading is Torn,
        Content::Other(_) => reading is Other,
    }
}

/// The reading of an image's bytes, in place of the bytes.
pub open spec fn read_content(
    content: Content<Seq<u8>>,
    read: spec_fn(Seq<u8>) -> Reading,
) -> Content<Reading> {
    match content {
        Content::Absent => Content::Absent,
        Content::Vacant => Content::Vacant,
        Content::Image(image) => Content::Image(read(image)),
        Content::Torn => Content::Torn,
        Content::Other(whole) => Content::Other(read(whole)),
    }
}

/// The bytes an image is read from: a frame's payload, or a whole file.
pub open spec fn image_bytes(content: Content<Seq<u8>>) -> Seq<u8> {
    match content {
        Content::Image(image) => image,
        Content::Other(whole) => whole,
        _ => seq![],
    }
}

/// The image an open takes of the two slots, or what it refuses them with. A
/// store without a slot 0 is missing, whatever slot 1 holds.
pub open spec fn image_taken<K>(
    slot0: Content<Seq<u8>>,
    slot1: Content<Seq<u8>>,
    reading0: Content<Reading>,
    reading1: Content<Reading>,
    key: Result<K, Error>,
) -> Result<Seq<u8>, Error> {
    if slot0 is Absent {
        Err(Error::Missing)
    } else {
        match candidate_taken(reading0, reading1, key) {
            Ok(taken) => Ok(
                image_bytes(
                    if taken.slot == 0 {
                        slot0
                    } else {
                        slot1
                    },
                ),
            ),
            Err(e) => Err(e),
        }
    }
}

/// The image an open would take of the two slots, given what was read of each
/// and the store's key: see [`image_taken`].
pub fn newest_image(
    slot0: Content<Scrubbed>,
    slot1: Content<Scrubbed>,
    reading0: Content<Reading>,
    reading1: Content<Reading>,
    key: Result<Scrubbed, Error>,
) -> (image: Result<Scrubbed, Error>)
    requires
        reading_of(slot0, reading0),
        reading_of(slot1, reading1),
    ensures
        match (
            image,
            image_taken(content_bytes(slot0), content_bytes(slot1), reading0, reading1, key),
        ) {
            (Ok(image), Ok(bytes)) => image@ == bytes,
            (Err(e), Err(why)) => e == why,
            _ => false,
        },
{
    if let Content::Absent = &slot0 {
        return Err(Error::Missing);
    }
    proof {
        if candidate_taken(reading0, reading1, key) is Ok {
            law_the_newest_image_is_taken(
                reading0,
                reading1,
                key,
                candidate_taken(reading0, reading1, key)->Ok_0,
            );
        }
    }
    let taken = match take(reading0, reading1, key) {
        Ok(taken) => taken,
        Err(e) => {
            return Err(e);
        },
    };
    let chosen = if taken.newest == 0 {
        slot0
    } else {
        slot1
    };
    match chosen {
        Content::Image(image) => Ok(image),
        Content::Other(whole) => Ok(whole),
        _ => Err(Error::Corrupt { what: "neither slot holds an intact image", offset: 0 }),
    }
}

} // verus!
