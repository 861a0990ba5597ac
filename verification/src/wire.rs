//! Numbers and texts as the protocol writes them on the wire.

use vstd::prelude::*;
use vstd::utf8::encode_utf8;

verus! {

/// The two bytes of a 16-bit number, least significant first.
pub open spec fn le_bytes_u16(x: u16) -> Seq<u8> {
    seq![(x % 256) as u8, (x / 256) as u8]
}

/// The four bytes of a 32-bit number, least significant first.
pub open spec fn le_bytes_u32(x: u32) -> Seq<u8> {
    seq![
        (x % 256) as u8,
        ((x / 256) % 256) as u8,
        ((x / 65536) % 256) as u8,
        ((x / 16777216) % 256) as u8,
    ]
}

/// The eight bytes of a 64-bit number, least significant first.
pub open spec fn le_bytes_u64(x: u64) -> Seq<u8> {
    le_bytes_u32((x % 4294967296) as u32) + le_bytes_u32((x / 4294967296) as u32)
}

/// The byte of a flag: one for set, zero for not set.
pub open spec fn flag_byte(flag: bool) -> Seq<u8> {
    seq![if flag { 1u8 } else { 0u8 }]
}

/// A text on the wire: the count of its UTF-8 bytes as a 32-bit number, then
/// the bytes.
pub open spec fn wire_text(text: Seq<char>) -> Seq<u8> {
    le_bytes_u32(encode_utf8(text).len() as u32) + encode_utf8(text)
}

} // verus!
