//! The NTP 32.32 fixed-point wire form of a millisecond timestamp: a 4-byte
//! big-endian seconds word followed by a 4-byte big-endian fraction of 2^32,
//! and the rounding rule that makes decode invert encode at millisecond
//! granularity.

use vstd::arithmetic::div_mod::{
    lemma_div_pos_is_pos, lemma_fundamental_div_mod, lemma_fundamental_div_mod_converse,
    lemma_mod_bound, lemma_small_mod,
};
use vstd::prelude::*;

verus! {

/// The big-endian 32-bit word spelled by four bytes.
pub open spec fn be32(b0: u8, b1: u8, b2: u8, b3: u8) -> int {
    b0 * 0x100_0000 + b1 * 0x1_0000 + b2 * 0x100 + b3
}

/// The byte of `x` selected by dividing by `div` (a power of 256).
pub open spec fn byte_of(x: u64, div: u64) -> u8 {
    ((x / div) % 256) as u8
}

/// Seconds part of the wire form: the millisecond count divided down, kept to
/// its low 32 bits by the byte extraction.
pub open spec fn wire_secs(ms: u64) -> u64 {
    ms / 1000
}

/// Fraction part of the wire form: the sub-second milliseconds scaled to a
/// fraction of 2^32, truncated.
pub open spec fn wire_frac(ms: u64) -> u64 {
    (((ms % 1000) * 0x1_0000_0000) / 1000) as u64
}

/// The 8-byte wire encoding of a millisecond timestamp.
pub open spec fn wire_of_ms(ms: u64) -> Seq<u8> {
    seq![
        byte_of(wire_secs(ms), 0x100_0000),
        byte_of(wire_secs(ms), 0x1_0000),
        byte_of(wire_secs(ms), 0x100),
        byte_of(wire_secs(ms), 1),
        byte_of(wire_frac(ms), 0x100_0000),
        byte_of(wire_frac(ms), 0x1_0000),
        byte_of(wire_frac(ms), 0x100),
        byte_of(wire_frac(ms), 1),
    ]
}

/// The millisecond timestamp an 8-byte wire fragment decodes to. The fraction
/// word is biased up by one before scaling, which exactly undoes the
/// truncation in `wire_frac` for encoder-produced fragments.
pub open spec fn ms_of_wire(s: Seq<u8>) -> u64
    recommends
        s.len() == 8,
{
    (be32(s[0], s[1], s[2], s[3]) * 1000 + ((be32(s[4], s[5], s[6], s[7]) + 1) * 1000)
        / 0x1_0000_0000) as u64
}

/// Four extracted bytes reassemble to the low 32 bits of the word they came
/// from.
pub proof fn lemma_be32_of_bytes(x: u64)
    ensures
        be32(byte_of(x, 0x100_0000), byte_of(x, 0x1_0000), byte_of(x, 0x100), byte_of(x, 1)) == x
            % 0x1_0000_0000,
{
    assert(((x / 0x100_0000) % 256) * 0x100_0000 + ((x / 0x1_0000) % 256) * 0x1_0000 + ((x / 0x100)
        % 256) * 0x100 + ((x / 1) % 256) == x % 0x1_0000_0000) by (bit_vector);
}

/// Decoded timestamps are small: at most 2^32 - 1 whole seconds plus one
/// extra millisecond of rounding headroom.
pub proof fn lemma_ms_of_wire_bound(s: Seq<u8>)
    requires
        s.len() == 8,
    ensures
        ms_of_wire(s) <= 0xFFFF_FFFFu64 * 1000 + 1000,
{
    let f = be32(s[4], s[5], s[6], s[7]);
    let x = (f + 1) * 1000;
    lemma_fundamental_div_mod(x, 0x1_0000_0000);
    lemma_mod_bound(x, 0x1_0000_0000);
    lemma_div_pos_is_pos(x, 0x1_0000_0000);
}

/// The one-biased fraction decode exactly inverts the truncating fraction
/// encode, for any sub-second millisecond count.
proof fn lemma_frac_round_trip(r: u64)
    requires
        r < 1000,
    ensures
        (((r * 0x1_0000_0000) / 1000 + 1) * 1000) / 0x1_0000_0000 == r,
{
    let p = r * 0x1_0000_0000;
    let f = p / 1000;
    let rem = p % 1000;
    lemma_fundamental_div_mod(p, 1000);
    lemma_mod_bound(p, 1000);
    lemma_fundamental_div_mod_converse((f + 1) * 1000, 0x1_0000_0000, r as int, 1000 - rem);
}

/// For every millisecond count, decoding the encoding gives the count back
/// with its seconds part reduced to the low 32 bits of the wire field.
pub proof fn lemma_wire_decode_truncates(ms: u64)
    ensures
        ms_of_wire(wire_of_ms(ms)) == ((ms / 1000) % 0x1_0000_0000) * 1000 + ms % 1000,
{
    let secs = wire_secs(ms);
    let frac = wire_frac(ms);
    let r = ms % 1000;
    lemma_mod_bound(ms as int, 1000);
    let p = r * 0x1_0000_0000;
    lemma_fundamental_div_mod(p, 1000);
    lemma_mod_bound(p, 1000);
    lemma_div_pos_is_pos(p, 1000);
    assert(frac == p / 1000);
    lemma_be32_of_bytes(secs);
    lemma_be32_of_bytes(frac);
    lemma_mod_bound(secs as int, 0x1_0000_0000);
    assert(be32(byte_of(frac, 0x100_0000), byte_of(frac, 0x1_0000), byte_of(frac, 0x100), byte_of(
        frac, 1)) == frac);
    lemma_frac_round_trip(r);
    assert(((frac + 1) * 1000) / 0x1_0000_0000 == r);
}

/// Decoding an encoded timestamp gives the timestamp back exactly, for every
/// millisecond count whose seconds part fits the 32-bit wire field.
pub proof fn lemma_wire_round_trip(ms: u64)
    requires
        ms < 0x1_0000_0000u64 * 1000,
    ensures
        ms_of_wire(wire_of_ms(ms)) == ms,
{
    lemma_wire_decode_truncates(ms);
    lemma_fundamental_div_mod(ms as int, 1000);
    lemma_mod_bound(ms as int, 1000);
    assert(ms / 1000 < 0x1_0000_0000);
    lemma_small_mod((ms / 1000) as nat, 0x1_0000_0000);
}

} // verus!
