//! What the two slots come to, said of the calls themselves: where each byte of
//! a frame stands, what a file's bytes are sorted as, and which of two images an
//! open takes.

use vstd::prelude::*;

use crate::error::Error;
#[allow(unused_imports)]
use crate::hash::sha3_256_digest;
use crate::keystore::format::{Header, Reading};
#[allow(unused_imports)]
use crate::keystore::slots::{
    frame, headers, key_request, magic, newest_image, reading_of, sort, take,
};
use crate::keystore::slots::{Content, KeyRequest, Taken};
use crate::scrubbed::Scrubbed;

verus! {

/// Every image of at most `max` bytes whose length fits in four bytes has a
/// frame, and it stands there byte by byte: `MCMKSLOT`, version one with the low
/// byte first, the image's length with the low byte first, the image, and the
/// digest of everything before the digest.
pub proof fn law_a_frame_is_laid_out_byte_by_byte(
    image: &[u8],
    max: usize,
    out: Result<Scrubbed, Error>,
)
    requires
        call_ensures(frame, (image, max), out),
    ensures
        out is Ok <==> image@.len() <= max && image@.len() <= 0xffff_ffff,
        out matches Err(e) ==> e == (Error::Range {
            what: "keystore slot payload length",
            min: 0,
            max: max as u64,
            got: image@.len() as u64,
        }),
        out matches Ok(whole) ==> {
            let (w, n) = (whole@, image@.len() as int);
            &&& w.len() == 46 + n
            &&& w[0] == 0x4d && w[1] == 0x43 && w[2] == 0x4d && w[3] == 0x4b
            &&& w[4] == 0x53 && w[5] == 0x4c && w[6] == 0x4f && w[7] == 0x54
            &&& w[8] == 1 && w[9] == 0
            &&& w[10] + 0x100 * w[11] + 0x10000 * w[12] + 0x1000000 * w[13] == n
            &&& w.subrange(14, 14 + n) == image@
            &&& w.subrange(14 + n, 46 + n) == sha3_256_digest(w.take(14 + n))@
        },
{
    if let Ok(whole) = out {
        let w = whole@;
        let n = image@.len() as int;
        let body = w.take(14 + n);
        assert(body =~= crate::keystore::slots::frame_body(1, image@));
        assert(w.subrange(14, 14 + n) =~= image@);
        assert(w.subrange(14 + n, 46 + n) =~= sha3_256_digest(body)@);
        assert(w.take(8) =~= magic());
        assert forall|i: int| 0 <= i < 8 implies w[i] == magic()[i] by {
            assert(w.take(8)[i] == w[i]);
        }
        assert(w[10] == n % 256 && w[11] == n / 256 % 256);
        assert(w[12] == n / 65536 % 256 && w[13] == n / 16777216);
    }
}

/// No file is absent. Bytes that do not begin with `MCMKSLOT` are no frame, and
/// are kept whole. Bytes that do, but that are shorter than a frame, longer than
/// the longest, of another length than they declare, or whose digest is another,
/// are torn. Of the rest only version one is read: around nothing it is vacant,
/// and otherwise an image.
pub proof fn law_bytes_are_sorted_by_what_they_hold(
    held: Scrubbed,
    max: usize,
    content: Result<Content<Scrubbed>, Error>,
    none: Result<Content<Scrubbed>, Error>,
)
    requires
        call_ensures(sort, (Some(held), max), content),
        call_ensures(sort, (None, max), none),
    ensures
        none is Ok && none->Ok_0 is Absent,
        ({
            let w = held@;
            let n = w.len() as int;
            let named = n >= 8 && w[0] == 0x4d && w[1] == 0x43 && w[2] == 0x4d && w[3] == 0x4b && w[4]
                == 0x53 && w[5] == 0x4c && w[6] == 0x4f && w[7] == 0x54;
            let whole = 46 <= n <= 46 + max && w[10] + 0x100 * w[11] + 0x10000 * w[12] + 0x1000000
                * w[13] == n - 46 && w.skip(n - 32) == sha3_256_digest(w.take(n - 32))@;
            &&& !named ==> content is Ok && content->Ok_0 is Other && content->Ok_0->Other_0@ == w
            &&& named && !whole ==> content is Ok && content->Ok_0 is Torn
            &&& named && whole && !(w[8] == 1 && w[9] == 0) ==> content == Err::<
                Content<Scrubbed>,
                Error,
            >(
                Error::Corrupt {
                    what: "a slot frame of a version this build does not read, which a newer build wrote",
                    offset: 8,
                },
            )
            &&& named && whole && w[8] == 1 && w[9] == 0 && n == 46 ==> content is Ok
                && content->Ok_0 is Vacant
            &&& named && whole && w[8] == 1 && w[9] == 0 && n > 46 ==> content is Ok
                && content->Ok_0 is Image && content->Ok_0->Image_0@ == w.subrange(14, n - 32)
        }),
{
    let w = held@;
    if w.len() >= 8 {
        let front = w.take(8);
        assert forall|i: int| 0 <= i < 8 implies front[i] == w[i] by {}
        if w[0] == 0x4d && w[1] == 0x43 && w[2] == 0x4d && w[3] == 0x4b && w[4] == 0x53 && w[5] == 0x4c
            && w[6] == 0x4f && w[7] == 0x54 {
            assert(front =~= magic());
        }
        if front == magic() {
            assert(front[0] == 0x4d && front[1] == 0x43 && front[2] == 0x4d && front[3] == 0x4b);
            assert(front[4] == 0x53 && front[5] == 0x4c && front[6] == 0x4f && front[7] == 0x54);
        }
    }
}

/// A frame sorts as the image it was made around, and a frame around nothing as
/// vacant, under any limit the image is within.
pub proof fn law_a_frame_sorts_as_its_image(
    image: &[u8],
    max: usize,
    limit: usize,
    whole: Scrubbed,
    content: Result<Content<Scrubbed>, Error>,
)
    requires
        call_ensures(frame, (image, max), Ok(whole)),
        call_ensures(sort, (Some(whole), limit), content),
        image@.len() <= limit,
    ensures
        content is Ok,
        image@.len() == 0 ==> content->Ok_0 is Vacant,
        image@.len() > 0 ==> content->Ok_0 is Image && content->Ok_0->Image_0@ == image@,
{
    crate::keystore::slots::law_frame_round_trips(image@, limit as nat);
}

/// The key comes from an intact image's header wherever a slot holds one, slot
/// 1's before slot 0's, and both must name one cost and one salt. With no intact
/// image it comes from a slot 0 that is no frame. A frame in slot 0 is never
/// without a slot 1, and with neither an image nor such a slot 0 there is none.
pub proof fn law_the_key_is_the_one_an_image_names(
    slot0: Content<Result<Header, Error>>,
    slot1: Content<Result<Header, Error>>,
    request: Result<KeyRequest, Error>,
)
    requires
        call_ensures(key_request, (&slot0, &slot1), request),
    ensures
        slot1 is Absent && (slot0 is Vacant || slot0 is Image || slot0 is Torn) ==> request == Err::<
            KeyRequest,
            Error,
        >(Error::Corrupt { what: "slot 0 holds a frame and slot 1 is missing", offset: 0 }),
        slot1 is Image && slot0 !is Image ==> match slot1->Image_0 {
            Ok(header) => request is Ok && request->Ok_0.kdf == header.kdf && request->Ok_0.salt@
                == header.salt@,
            Err(e) => request == Err::<KeyRequest, Error>(e),
        },
        slot0 is Image && slot1 !is Image && slot1 !is Absent ==> match slot0->Image_0 {
            Ok(header) => request is Ok && request->Ok_0.kdf == header.kdf && request->Ok_0.salt@
                == header.salt@,
            Err(e) => request == Err::<KeyRequest, Error>(e),
        },
        slot0 is Image && slot1 is Image ==> match (slot0->Image_0, slot1->Image_0) {
            (_, Err(e)) => request == Err::<KeyRequest, Error>(e),
            (Err(e), Ok(_)) => request == Err::<KeyRequest, Error>(e),
            (Ok(a), Ok(b)) => if a.kdf == b.kdf && a.salt@ == b.salt@ {
                request is Ok && request->Ok_0.kdf == b.kdf && request->Ok_0.salt@ == b.salt@
            } else {
                request == Err::<KeyRequest, Error>(
                    Error::Corrupt {
                        what: "the two slots disagree on the salt or the key derivation",
                        offset: 0,
                    },
                )
            },
        },
        slot0 is Other && slot1 !is Image ==> match slot0->Other_0 {
            Ok(header) => request is Ok && request->Ok_0.kdf == header.kdf && request->Ok_0.salt@
                == header.salt@,
            Err(e) => request == Err::<KeyRequest, Error>(e),
        },
        slot1 !is Image && (slot0 is Absent || (slot1 !is Absent && (slot0 is Vacant || slot0 is Torn)))
            ==> request == Err::<KeyRequest, Error>(
            Error::Corrupt { what: "neither slot holds an intact image", offset: 0 },
        ),
{
}

/// Of two intact images that open under one key, the one of the higher
/// generation is taken, from its slot and in its own version; two of one
/// generation are refused, and so is one that does not open.
pub proof fn law_of_two_images_the_newer_is_taken(
    a: Reading,
    b: Reading,
    key: Scrubbed,
    taken: Result<Taken, Error>,
)
    requires
        call_ensures(take, (Content::Image(a), Content::Image(b), Ok(key)), taken),
        a.header is Ok,
        b.header is Ok,
        a.header->Ok_0.kdf == b.header->Ok_0.kdf,
        a.header->Ok_0.salt@ == b.header->Ok_0.salt@,
    ensures
        a.parsed matches Err(e) ==> taken == Err::<Taken, Error>(e),
        a.parsed is Ok && b.parsed is Err ==> taken == Err::<Taken, Error>(b.parsed->Err_0),
        a.parsed is Ok && b.parsed is Ok && a.parsed->Ok_0.generation == b.parsed->Ok_0.generation
            ==> taken == Err::<Taken, Error>(
            Error::Corrupt { what: "both slots hold one generation", offset: 0 },
        ),
        a.parsed is Ok && b.parsed is Ok && a.parsed->Ok_0.generation > b.parsed->Ok_0.generation ==> {
            &&& taken is Ok
            &&& taken->Ok_0.newest == 0
            &&& taken->Ok_0.version == a.header->Ok_0.version
            &&& taken->Ok_0.parsed == a.parsed->Ok_0
        },
        a.parsed is Ok && b.parsed is Ok && a.parsed->Ok_0.generation < b.parsed->Ok_0.generation ==> {
            &&& taken is Ok
            &&& taken->Ok_0.newest == 1
            &&& taken->Ok_0.version == b.header->Ok_0.version
            &&& taken->Ok_0.parsed == b.parsed->Ok_0
        },
        taken matches Ok(t) ==> t.key == key && t.kdf == b.header->Ok_0.kdf && t.salt@
            == b.header->Ok_0.salt@,
{
}

/// An intact image with no other beside it is taken where it opens, and refused
/// with its own error where it does not: slot 1's beside anything in slot 0 that
/// is not read, and slot 0's beside anything in a slot 1 that is there.
pub proof fn law_an_image_alone_is_taken(
    slot0: Content<Reading>,
    slot1: Content<Reading>,
    key: Scrubbed,
    taken: Result<Taken, Error>,
)
    requires
        call_ensures(take, (slot0, slot1, Ok(key)), taken),
    ensures
        slot1 is Image && (slot0 is Vacant || slot0 is Torn || slot0 is Absent)
            && slot1->Image_0.header is Ok ==> match slot1->Image_0.parsed {
            Ok(parsed) => {
                let header = slot1->Image_0.header->Ok_0;
                &&& taken is Ok
                &&& taken->Ok_0.newest == 1
                &&& taken->Ok_0.version == header.version
                &&& taken->Ok_0.parsed == parsed
                &&& taken->Ok_0.key == key
                &&& taken->Ok_0.kdf == header.kdf
                &&& taken->Ok_0.salt@ == header.salt@
            },
            Err(e) => taken == Err::<Taken, Error>(e),
        },
        slot0 is Image && (slot1 is Vacant || slot1 is Torn || slot1 is Other)
            && slot0->Image_0.header is Ok ==> match slot0->Image_0.parsed {
            Ok(parsed) => {
                let header = slot0->Image_0.header->Ok_0;
                &&& taken is Ok
                &&& taken->Ok_0.newest == 0
                &&& taken->Ok_0.version == header.version
                &&& taken->Ok_0.parsed == parsed
                &&& taken->Ok_0.key == key
                &&& taken->Ok_0.kdf == header.kdf
                &&& taken->Ok_0.salt@ == header.salt@
            },
            Err(e) => taken == Err::<Taken, Error>(e),
        },
        slot0 is Other && slot1 !is Image && slot0->Other_0.header is Ok
            ==> match slot0->Other_0.parsed {
            Ok(parsed) => {
                let header = slot0->Other_0.header->Ok_0;
                &&& taken is Ok
                &&& taken->Ok_0.newest == 0
                &&& taken->Ok_0.version == header.version
                &&& taken->Ok_0.parsed == parsed
                &&& taken->Ok_0.key == key
                &&& taken->Ok_0.kdf == header.kdf
                &&& taken->Ok_0.salt@ == header.salt@
            },
            Err(e) => taken == Err::<Taken, Error>(e),
        },
{
}

/// Beside an intact image in slot 1, a slot 0 that is no frame counts only where
/// it opens and names the store's own key; it is then taken where it is newer.
/// Otherwise it is passed over.
pub proof fn law_a_bare_image_beside_a_frame(
    bare: Reading,
    b: Reading,
    key: Scrubbed,
    taken: Result<Taken, Error>,
)
    requires
        call_ensures(take, (Content::Other(bare), Content::Image(b), Ok(key)), taken),
        b.header is Ok,
    ensures
        b.parsed matches Err(e) ==> taken == Err::<Taken, Error>(e),
        b.parsed is Ok ==> {
            let counts = bare.header is Ok && bare.parsed is Ok && bare.header->Ok_0.kdf
                == b.header->Ok_0.kdf && bare.header->Ok_0.salt@ == b.header->Ok_0.salt@;
            let (older, newer) = (bare.parsed->Ok_0.generation, b.parsed->Ok_0.generation);
            &&& !counts || older < newer ==> {
                &&& taken is Ok
                &&& taken->Ok_0.newest == 1
                &&& taken->Ok_0.version == b.header->Ok_0.version
                &&& taken->Ok_0.parsed == b.parsed->Ok_0
            }
            &&& counts && older > newer ==> {
                &&& taken is Ok
                &&& taken->Ok_0.newest == 0
                &&& taken->Ok_0.version == bare.header->Ok_0.version
                &&& taken->Ok_0.parsed == bare.parsed->Ok_0
            }
            &&& counts && older == newer ==> taken == Err::<Taken, Error>(
                Error::Corrupt { what: "both slots hold one generation", offset: 0 },
            )
        },
{
}

/// A store is refused before it is opened exactly as its key is: with what
/// refuses the slots first, and with what refused the key next.
pub proof fn law_a_store_is_refused_as_its_key_is(
    slot0: Content<Reading>,
    slot1: Content<Reading>,
    key: Result<Scrubbed, Error>,
    request: Result<KeyRequest, Error>,
    taken: Result<Taken, Error>,
)
    requires
        call_ensures(key_request, (&headers(slot0), &headers(slot1)), request),
        call_ensures(take, (slot0, slot1, key), taken),
    ensures
        request matches Err(e) ==> taken == Err::<Taken, Error>(e),
        request is Ok && key is Err ==> taken == Err::<Taken, Error>(key->Err_0),
        request is Ok && taken is Ok ==> taken->Ok_0.kdf == request->Ok_0.kdf && taken->Ok_0.salt@
            == request->Ok_0.salt@ && key == Ok::<Scrubbed, Error>(taken->Ok_0.key),
{
}

/// The newest image is the bytes of the slot an open takes, whole; where an open
/// refuses the slots, it is refused alike; and without a slot 0 the store is
/// missing.
pub proof fn law_the_newest_image_is_the_slots_own(
    slot0: Content<Scrubbed>,
    slot1: Content<Scrubbed>,
    reading0: Content<Reading>,
    reading1: Content<Reading>,
    key: Result<Scrubbed, Error>,
    taken: Result<Taken, Error>,
    image: Result<Scrubbed, Error>,
)
    requires
        reading_of(slot0, reading0),
        reading_of(slot1, reading1),
        call_ensures(take, (reading0, reading1, key), taken),
        call_ensures(newest_image, (slot0, slot1, reading0, reading1, key), image),
    ensures
        slot0 is Absent ==> image == Err::<Scrubbed, Error>(Error::Missing),
        slot0 !is Absent && taken is Err ==> image == Err::<Scrubbed, Error>(taken->Err_0),
        slot0 is Image && taken is Ok && taken->Ok_0.newest == 0 ==> image is Ok && image->Ok_0@
            == slot0->Image_0@,
        slot0 is Other && taken is Ok && taken->Ok_0.newest == 0 ==> image is Ok && image->Ok_0@
            == slot0->Other_0@,
        slot0 !is Absent && taken is Ok && taken->Ok_0.newest == 1 ==> slot1 is Image && image is Ok
            && image->Ok_0@ == slot1->Image_0@,
{
}

} // verus!
