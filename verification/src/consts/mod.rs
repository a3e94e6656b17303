//! The protocol's constants.

use vstd::prelude::*;

pub mod net;
pub mod wire;

verus! {

/// WOTS+ hash output and seed width.
pub const PARAMSN: usize = 32;

/// Winternitz parameter.
pub const WOTSW: usize = 16;

/// `log2(WOTSW)`.
pub const WOTSLOGW: usize = 4;

/// Message chains.
pub const WOTSLEN1: usize = 8 * PARAMSN / WOTSLOGW;

/// Checksum chains.
pub const WOTSLEN2: usize = 3;

/// All the chains.
pub const WOTSLEN: usize = WOTSLEN1 + WOTSLEN2;

/// A signature's width.
pub const WOTSSIGBYTES: usize = WOTSLEN * PARAMSN;

/// Legacy full WOTS+ address length.
pub const WOTS_ADDR_LEN: usize = 2208;

/// Full v3 address: a tag then a hash.
pub const ADDR_LEN: usize = 40;

/// Address tag.
pub const ADDR_TAG_LEN: usize = 20;

/// Address hash.
pub const ADDR_HASH_LEN: usize = 20;

/// A destination's optional reference field.
pub const ADDR_REF_LEN: usize = 16;

/// Where an address's tag half starts.
pub const ADDR_TAG_OFF: usize = 0;

/// Where an address's hash half starts.
pub const ADDR_HASH_OFF: usize = 20;

/// Digest length of the core hashes.
pub const HASHLEN: usize = 32;

/// SHA-256.
pub const SHA256LEN: usize = 32;

/// SHA3-224.
pub const SHA3LEN224: usize = 28;

/// SHA3-256.
pub const SHA3LEN256: usize = 32;

/// SHA3-384.
pub const SHA3LEN384: usize = 48;

/// SHA3-512.
pub const SHA3LEN512: usize = 64;

/// RIPEMD-160.
pub const RIPEMDLEN160: usize = 20;

/// CRC-16.
pub const CRC16LEN: usize = 2;

/// The success status code.
pub const VEOK: i32 = 0;

/// The one transaction-data type accepted.
pub const TXDAT_MDST: u8 = 0x00;

/// The one signature-algorithm type accepted.
pub const TXDSA_WOTS: u8 = 0x00;

/// The minimum transaction fee, in nanoMochimo.
pub const MFEE: u64 = 500;

/// WOTS+ seed, message digest, and public seed width.
pub const SEED_LEN: usize = PARAMSN;

/// A WOTS+ public key.
pub const PK_LEN: usize = WOTSSIGBYTES;

/// A WOTS+ signature, the same width.
pub const SIG_LEN: usize = WOTSSIGBYTES;

/// The widths fit together: a signature is sixty-seven chains of a hash each, a
/// legacy address is a public key and two seeds, and an address is a tag and a
/// hash, the one after the other.
pub proof fn law_the_widths_fit_together()
    ensures
        WOTSLEN == 67,
        WOTSSIGBYTES == 2144,
        PK_LEN == WOTSSIGBYTES && SIG_LEN == WOTSSIGBYTES,
        WOTS_ADDR_LEN == PK_LEN + 2 * SEED_LEN,
        SEED_LEN == 32 && HASHLEN == 32,
        ADDR_LEN == ADDR_TAG_LEN + ADDR_HASH_LEN,
        ADDR_TAG_LEN == 20 && ADDR_HASH_LEN == 20,
        ADDR_TAG_OFF == 0 && ADDR_HASH_OFF == ADDR_TAG_OFF + ADDR_TAG_LEN,
        8 * SHA256LEN == 256 && 8 * SHA3LEN224 == 224 && 8 * SHA3LEN256 == 256,
        8 * SHA3LEN384 == 384 && 8 * SHA3LEN512 == 512,
        8 * RIPEMDLEN160 == 160 && 8 * CRC16LEN == 16,
{
}

} // verus!
