//! The network surface: protocol version, framing marks, ports, and the
//! operation codes.

use vstd::prelude::*;

verus! {

/// Protocol version number.
pub const PVERSION: u16 = 5;

/// Capability bits for TX.
pub const CBITS: u16 = 0;

/// Network TX protocol version.
pub const TXNETWORK: u16 = 1337;

/// End-of-transmission id for packets.
pub const TXEOT: u16 = 0xabcd;

/// Default TCP listening port.
pub const PORT1: u16 = 2095;

/// Secondary port, primarily for testnet.
pub const PORT2: u16 = 2096;

/// First valid operation code.
pub const FIRST_OP: u8 = 3;

/// Last valid operation code.
pub const LAST_OP: u8 = 19;

pub const OP_NULL: u8 = 0;

pub const OP_HELLO: u8 = 1;

pub const OP_HELLO_ACK: u8 = 2;

pub const OP_TX: u8 = 3;

pub const OP_FOUND: u8 = 4;

pub const OP_GET_BLOCK: u8 = 5;

pub const OP_GET_IPL: u8 = 6;

pub const OP_SEND_FILE: u8 = 7;

pub const OP_SEND_IPL: u8 = 8;

pub const OP_BUSY: u8 = 9;

pub const OP_NACK: u8 = 10;

pub const OP_GET_TFILE: u8 = 11;

pub const OP_BALANCE: u8 = 12;

pub const OP_SEND_BAL: u8 = 13;

pub const OP_RESOLVE: u8 = 14;

pub const OP_GET_CBLOCK: u8 = 15;

pub const OP_MBLOCK: u8 = 16;

pub const OP_HASH: u8 = 17;

pub const OP_TF: u8 = 18;

pub const OP_IDENTIFY: u8 = 19;

/// The largest 16-bit word.
#[must_use]
pub fn word16_max() -> (max: u16)
    ensures
        max == u16::MAX,
{
    word16_max_native()
}

/// The largest 16-bit word: the one place its literal stands.
#[must_use]
pub fn word16_max_native() -> (max: u16)
    ensures
        max == u16::MAX,
{
    0xFFFF
}

/// The operation codes follow one another from nought, the first a node takes is
/// a transaction, and the last is the last.
pub proof fn law_operation_codes_follow_one_another()
    ensures
        OP_NULL == 0,
        OP_HELLO == OP_NULL + 1,
        OP_HELLO_ACK == OP_HELLO + 1,
        OP_TX == OP_HELLO_ACK + 1,
        OP_FOUND == OP_TX + 1,
        OP_GET_BLOCK == OP_FOUND + 1,
        OP_GET_IPL == OP_GET_BLOCK + 1,
        OP_SEND_FILE == OP_GET_IPL + 1,
        OP_SEND_IPL == OP_SEND_FILE + 1,
        OP_BUSY == OP_SEND_IPL + 1,
        OP_NACK == OP_BUSY + 1,
        OP_GET_TFILE == OP_NACK + 1,
        OP_BALANCE == OP_GET_TFILE + 1,
        OP_SEND_BAL == OP_BALANCE + 1,
        OP_RESOLVE == OP_SEND_BAL + 1,
        OP_GET_CBLOCK == OP_RESOLVE + 1,
        OP_MBLOCK == OP_GET_CBLOCK + 1,
        OP_HASH == OP_MBLOCK + 1,
        OP_TF == OP_HASH + 1,
        OP_IDENTIFY == OP_TF + 1,
        FIRST_OP == OP_TX,
        LAST_OP == OP_IDENTIFY,
        PORT2 == PORT1 + 1,
{
}

/// No 16-bit word is larger than the largest.
pub proof fn law_no_word_is_larger(word: u16, max: u16, native: u16)
    requires
        call_ensures(word16_max, (), max),
        call_ensures(word16_max_native, (), native),
    ensures
        word <= max,
        max == native,
{
}

} // verus!
