use mochimo_crypto::account::{Account, AccountKind, KeyMaterial, StreamId, Tag, TagOrder, WotsIndex};
use mochimo_crypto::consts::net::{word16_max, word16_max_native, LAST_OP, OP_IDENTIFY, PVERSION, TXEOT, TXNETWORK};
use mochimo_crypto::consts::wire::{SIZEOF_MDST, SIZEOF_TXHDR, SIZEOF_TXTLR, SIZEOF_WOTSVAL};
use mochimo_crypto::consts::{ADDR_LEN, MFEE, PK_LEN, SEED_LEN, SIG_LEN, WOTSLEN, WOTSSIGBYTES};
use mochimo_crypto::error::Error;
use mochimo_crypto::scrubbed::{copied, same_bytes, Scrubbed};
use mochimo_crypto::text::{decimal_text, hex_text, numeral_text, padded_hex_text, same_text, signed_text};
use mochimo_crypto::utf::{text_to_utf16, trim, utf16_to_utf8};

#[test]
fn the_constants_are_the_protocols() {
    assert_eq!((word16_max(), word16_max_native()), (0xffff, 0xffff));
    assert_eq!((PVERSION, TXNETWORK, TXEOT), (5, 1337, 0xabcd));
    assert_eq!(OP_IDENTIFY, LAST_OP);
    assert_eq!((WOTSLEN, WOTSSIGBYTES, PK_LEN, SIG_LEN), (67, 2144, 2144, 2144));
    assert_eq!((SEED_LEN, ADDR_LEN, MFEE), (32, 40, 500));
    assert_eq!((SIZEOF_TXHDR, SIZEOF_MDST, SIZEOF_WOTSVAL, SIZEOF_TXTLR), (116, 44, 2208, 40));
}

#[test]
fn tags_are_in_byte_order() {
    let tag = |first: u8, last: u8| {
        let mut tag = Tag { bytes: [7; 20] };
        tag.bytes[0] = first;
        tag.bytes[19] = last;
        tag
    };
    assert_eq!(tag(1, 0).against(&tag(2, 0)), TagOrder::Before);
    assert_eq!(tag(2, 0).against(&tag(1, 9)), TagOrder::After);
    assert_eq!(tag(1, 1).against(&tag(1, 2)), TagOrder::Before);
    assert_eq!(tag(1, 1).against(&tag(1, 1)), TagOrder::Same);
    assert_eq!(tag(3, 4).as_slice().len(), 20);
}

#[test]
fn a_position_only_moves_forward() {
    assert_eq!(WotsIndex::zero().advanced(), Ok(WotsIndex { index: 1 }));
    assert!(matches!(WotsIndex { index: u32::MAX }.advanced(), Err(Error::Range { what: "wots index", .. })));
    let stream = StreamId { bytes: [1; 20] };
    let mut account = Account {
        tag: Tag { bytes: [1; 20] },
        wots_index: WotsIndex { index: 4 },
        key_material: KeyMaterial::Derived { account_index: 2, stream },
    };
    assert_eq!(account.kind(), AccountKind::Derived);
    assert_eq!(
        account.advance_to(WotsIndex { index: 4 }),
        Err(Error::Range { what: "wots index", min: 5, max: u64::from(u32::MAX), got: 4 })
    );
    assert_eq!(account.advance_to(WotsIndex { index: 5 }), Ok(()));
    assert_eq!(account.wots_index.get(), 5);
    let record = account.to_record();
    assert_eq!((record.tag.bytes, record.wots_index.get()), ([1; 20], 5));
    assert!(stream.same(&StreamId { bytes: [1; 20] }));
    assert!(!stream.same(&StreamId { bytes: [2; 20] }));
}

#[test]
fn scrubbed_bytes_are_the_bytes_given() {
    let mut held = Scrubbed::new(vec![1, 2]);
    held.push(3);
    assert_eq!((held.as_slice(), held.len()), (&[1u8, 2, 3][..], 3));
    let copy = held.duplicate();
    assert!(held.ct_eq(&copy));
    assert!(!held.ct_eq(&Scrubbed::new(vec![1, 2, 4])));
    assert!(!held.ct_eq(&Scrubbed::new(vec![1, 2])));
    assert_eq!(copied(&[9, 8]), vec![9, 8]);
    assert!(same_bytes(b"ab", b"ab") && !same_bytes(b"ab", b"ac") && !same_bytes(b"ab", b"abc"));
}

#[test]
fn numbers_are_written_out() {
    assert_eq!(decimal_text(0), "0");
    assert_eq!(decimal_text(u64::MAX), u64::MAX.to_string());
    assert_eq!(signed_text(i64::MIN), i64::MIN.to_string());
    assert_eq!(signed_text(-1), "-1");
    assert_eq!(numeral_text(0o755, 8), "755");
    assert_eq!(padded_hex_text(0xbeef, 8), "0000beef");
    assert_eq!(hex_text(&[0, 0xff, 0x1a]), "00ff1a");
    assert!(same_text("ab", "ab") && !same_text("ab", "abc"));
}

#[test]
fn text_goes_to_utf16_and_back() {
    for text in ["", "plain", "Gr\u{fc}\u{df}e", "\u{1f600}\u{10ffff}", "\u{ffff}\u{d7ff}\u{e000}"] {
        let units: Vec<u16> = text.encode_utf16().collect();
        assert_eq!(text_to_utf16(text), units);
        let back = utf16_to_utf8(&units).unwrap_or_else(|| panic!("{text}"));
        assert_eq!(back.as_slice(), text.as_bytes());
        assert!(units.len() <= text.len() && text.len() <= 3 * units.len());
    }
    for lone in [&[0xd800u16][..], &[0xdc00], &[0xd800, 0x41], &[0xd800, 0xd800]] {
        assert!(utf16_to_utf8(lone).is_none());
    }
    for text in ["", "  ", " a b ", "\u{3000}x", "x\u{85}"] {
        assert_eq!(trim(text), text.trim());
        assert_eq!(trim(trim(text)), trim(text));
    }
}
