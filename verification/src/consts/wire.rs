//! The four wire-struct sizes, as expressions over the widths they are made of.

use vstd::prelude::*;

use super::{ADDR_LEN, ADDR_REF_LEN, ADDR_TAG_LEN, HASHLEN, SIG_LEN};

verus! {

pub const SIZEOF_TXHDR: usize = 4 + (ADDR_LEN * 2) + (8 * 4);

pub const SIZEOF_MDST: usize = ADDR_REF_LEN + ADDR_TAG_LEN + 8;

pub const SIZEOF_WOTSVAL: usize = SIG_LEN + 32 + 32;

pub const SIZEOF_TXTLR: usize = 8 + HASHLEN;

/// The four sizes, in bytes.
pub proof fn law_the_wire_sizes()
    ensures
        SIZEOF_TXHDR == 116,
        SIZEOF_MDST == 44,
        SIZEOF_WOTSVAL == 2208,
        SIZEOF_TXTLR == 40,
{
}

} // verus!
