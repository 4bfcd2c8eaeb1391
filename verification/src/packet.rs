//! The fixed 48-byte SNTP packet: typed accessors for the mode and version
//! bit fields and the four timestamp fields, request construction, parsing,
//! and the two-way clock-offset estimator.

use vstd::prelude::*;

use crate::mode::{mode_from_value, mode_value, SntpMode};
use crate::time::NtpEpochTime;
use crate::wire::{lemma_ms_of_wire_bound, ms_of_wire, wire_of_ms};

verus! {

/// The one structural failure the codec raises: a parse buffer whose length
/// is not exactly 48 bytes.
#[derive(Debug, Copy, Clone, PartialEq, Eq, Structural)]
pub enum ParseError {
    InvalidLength,
}

/// The 3-bit mode field: low bits of the first byte.
pub open spec fn mode_bits(s: Seq<u8>) -> u8 {
    s[0] & 0x07
}

/// The 3-bit version field: bits three to five of the first byte.
pub open spec fn version_bits(s: Seq<u8>) -> u8 {
    (s[0] & 0x38) >> 3u8
}

/// The mode a packet's first byte decodes to.
pub open spec fn mode_of(s: Seq<u8>) -> SntpMode {
    mode_from_value(mode_bits(s))
}

/// The buffer after writing a mode into the mode field, all other bits kept.
pub open spec fn with_mode(s: Seq<u8>, m: SntpMode) -> Seq<u8> {
    s.update(0, (s[0] & 0xF8) | (mode_value(m) & 0x07))
}

/// The buffer after writing a version into the version field, all other bits
/// kept; values above seven are masked to their low three bits.
pub open spec fn with_version(s: Seq<u8>, v: u8) -> Seq<u8> {
    s.update(0, (s[0] & 0xC7) | ((v & 0x07) << 3u8))
}

/// The millisecond timestamp decoded from the 8-byte field at `off`.
pub open spec fn field_ms(s: Seq<u8>, off: int) -> u64 {
    ms_of_wire(s.subrange(off, off + 8))
}

/// The signed sum the offset estimator halves: (T2 - T1) + (T3 - T4), over
/// the packet's originate (T1), receive (T2) and transmit (T3) fields and the
/// caller's local receipt time (T4).
pub open spec fn offset_sum(s: Seq<u8>, t4: u64) -> int {
    (field_ms(s, 32) - field_ms(s, 24)) + (field_ms(s, 40) - t4)
}

/// Division by two truncating toward zero, as the executable signed division
/// does.
pub open spec fn div2_trunc(x: int) -> int {
    if x >= 0 {
        x / 2
    } else {
        -((-x) / 2)
    }
}

/// A 48-byte SNTP packet buffer.
pub struct SntpData {
    data: [u8; 48],
}

impl View for SntpData {
    type V = Seq<u8>;

    closed spec fn view(&self) -> Seq<u8> {
        self.data@
    }
}

impl SntpData {
    /// A zero-filled packet.
    pub fn new() -> (r: SntpData)
        ensures
            r@.len() == 48,
            forall|i: int| 0 <= i < 48 ==> r@[i] == 0,
    {
        SntpData { data: [0; 48] }
    }

    /// A client request: mode `Client`, version 4, the given transmit time in
    /// the transmit field, every other byte zero.
    pub fn new_request_sec(now: NtpEpochTime) -> (r: Self)
        ensures
            r@.len() == 48,
            mode_of(r@) == SntpMode::Client,
            version_bits(r@) == 4,
            r@.subrange(40, 48) == wire_of_ms(now@),
            r@[0] == 0x23,
            forall|i: int| 1 <= i < 40 ==> r@[i] == 0,
    {
        let mut data = SntpData::new();
        data.set_mode(SntpMode::Client);
        data.set_version(4);
        data.set_transmit_time(now);
        proof {
            assert((0u8 & 0xF8) | (3u8 & 0x07) == 3u8) by (bit_vector);
            assert((3u8 & 0xC7) | ((4u8 & 0x07) << 3u8) == 0x23u8) by (bit_vector);
            assert((0x23u8 & 0x07) == 3u8) by (bit_vector);
            assert(((0x23u8 & 0x38) >> 3u8) == 4u8) by (bit_vector);
        }
        data
    }

    /// Parses a received buffer: succeeds, copying the bytes verbatim, if and
    /// only if the buffer is exactly 48 bytes long; no field is validated.
    pub fn from_buffer(buff: &[u8]) -> (r: Result<SntpData, ParseError>)
        ensures
            buff@.len() == 48 ==> (r matches Ok(p) && p@ == buff@),
            buff@.len() != 48 ==> (r matches Err(e) && e == ParseError::InvalidLength),
    {
        if buff.len() != 48 {
            return Err(ParseError::InvalidLength);
        }
        let mut s = SntpData::new();
        let mut i: usize = 0;
        while i < 48
            invariant
                i <= 48,
                buff@.len() == 48,
                forall|j: int| 0 <= j < i ==> s@[j] == buff@[j],
            decreases 48 - i,
        {
            s.data[i] = buff[i];
            i = i + 1;
        }
        proof {
            assert(s@ =~= buff@);
        }
        Ok(s)
    }

    /// The 3-bit version field.
    pub fn get_version(&self) -> (r: u8)
        ensures
            r == version_bits(self@),
            r <= 7,
    {
        let r: u8 = (self.data[0] & 0x38) >> 3;
        proof {
            let b = self.data@[0];
            assert(((b & 0x38) >> 3u8) <= 7) by (bit_vector);
        }
        r
    }

    /// Writes the version field, masking the value to its low three bits; no
    /// other bit of the packet changes.
    pub fn set_version(&mut self, version: u8)
        ensures
            final(self)@ == with_version(old(self)@, version),
            final(self)@.len() == old(self)@.len(),
            version_bits(final(self)@) == version & 0x07,
            mode_bits(final(self)@) == mode_bits(old(self)@),
            forall|i: int| 1 <= i < old(self)@.len() ==> final(self)@[i] == old(self)@[i],
    {
        self.data[0] = (self.data[0] & 0xC7) | ((version & 0x7) << 3);
        proof {
            let b = old(self).data@[0];
            let v = version;
            assert((((b & 0xC7) | ((v & 0x07) << 3u8)) & 0x38) >> 3u8 == v & 0x07) by (bit_vector);
            assert(((b & 0xC7) | ((v & 0x07) << 3u8)) & 0x07 == b & 0x07) by (bit_vector);
        }
    }

    /// Writes the mode field; no other bit of the packet changes.
    pub fn set_mode(&mut self, mode: SntpMode)
        ensures
            final(self)@ == with_mode(old(self)@, mode),
            final(self)@.len() == old(self)@.len(),
            mode_of(final(self)@) == mode,
            version_bits(final(self)@) == version_bits(old(self)@),
            forall|i: int| 1 <= i < old(self)@.len() ==> final(self)@[i] == old(self)@[i],
    {
        let v: u8 = mode.to_val();
        self.data[0] = (self.data[0] & 0xF8) | (0x7 & v);
        proof {
            let b = old(self).data@[0];
            assert(((b & 0xF8) | (0x07 & v)) == ((b & 0xF8) | (v & 0x07)) && ((b & 0xF8) | (0x07
                & v)) & 0x07 == v && (v & 0x07) == v) by (bit_vector)
                requires
                    v <= 5,
            ;
            assert((((b & 0xF8) | (0x07 & v)) & 0x38) >> 3u8 == (b & 0x38) >> 3u8) by (bit_vector);
        }
    }

    /// The mode the packet's first byte decodes to.
    pub fn get_mode(&self) -> (r: SntpMode)
        ensures
            r == mode_of(self@),
    {
        SntpMode::from_val(self.data[0] & 0x7)
    }

    /// The reference timestamp field (bytes 16 to 23).
    pub fn get_reference_timestamp(&self) -> (r: NtpEpochTime)
        ensures
            r@ == field_ms(self@, 16),
    {
        SntpData::data_to_ms(&self.data[16..24])
    }

    /// The originate timestamp field, T1 (bytes 24 to 31).
    pub fn get_originate_timestamp(&self) -> (r: NtpEpochTime)
        ensures
            r@ == field_ms(self@, 24),
    {
        SntpData::data_to_ms(&self.data[24..32])
    }

    /// The receive timestamp field, T2 (bytes 32 to 39).
    pub fn get_receive_time(&self) -> (r: NtpEpochTime)
        ensures
            r@ == field_ms(self@, 32),
    {
        SntpData::data_to_ms(&self.data[32..40])
    }

    /// The transmit timestamp field, T3 (bytes 40 to 47).
    pub fn get_transmit_time(&self) -> (r: NtpEpochTime)
        ensures
            r@ == field_ms(self@, 40),
    {
        SntpData::data_to_ms(&self.data[40..48])
    }

    /// Writes the transmit timestamp field; the other 40 bytes are untouched.
    pub fn set_transmit_time(&mut self, ms: NtpEpochTime)
        ensures
            final(self)@ == old(self)@.subrange(0, 40) + wire_of_ms(ms@),
            final(self)@.len() == old(self)@.len(),
            final(self)@.subrange(40, 48) == wire_of_ms(ms@),
            forall|i: int| 0 <= i < 40 ==> final(self)@[i] == old(self)@[i],
    {
        let d = SntpData::ms_to_data(ms);
        let mut i: usize = 0;
        while i < 8
            invariant
                i <= 8,
                d@ == wire_of_ms(ms@),
                forall|j: int| 0 <= j < 40 ==> self@[j] == old(self)@[j],
                forall|j: int| 0 <= j < i ==> self@[40 + j] == d@[j],
                forall|j: int| 40 + i <= j < 48 ==> self@[j] == old(self)@[j],
            decreases 8 - i,
        {
            self.data[40 + i] = d[i];
            i = i + 1;
        }
        proof {
            assert(self@ =~= old(self)@.subrange(0, 40) + wire_of_ms(ms@));
            assert(self@.subrange(40, 48) =~= wire_of_ms(ms@));
        }
    }

    /// Decodes an 8-byte NTP 32.32 wire fragment to milliseconds; any other
    /// length decodes to zero.
    pub fn data_to_ms(data: &[u8]) -> (r: NtpEpochTime)
        ensures
            data@.len() == 8 ==> r@ == ms_of_wire(data@),
            data@.len() != 8 ==> r@ == 0,
    {
        if data.len() != 8 {
            return NtpEpochTime::new(0);
        }
        let int_part: u64 = (data[0] as u64) * 0x100_0000 + (data[1] as u64) * 0x1_0000 + (
        data[2] as u64) * 0x100 + (data[3] as u64);
        let frac_raw: u64 = (data[4] as u64) * 0x100_0000 + (data[5] as u64) * 0x1_0000 + (
        data[6] as u64) * 0x100 + (data[7] as u64);
        let frac_part: u64 = frac_raw + 1;
        NtpEpochTime::new(int_part * 1000 + (frac_part * 1000) / 0x1_0000_0000)
    }

    /// Encodes milliseconds as the 8-byte NTP 32.32 wire fragment: big-endian
    /// seconds, then the big-endian fraction of 2^32.
    pub fn ms_to_data(ms: NtpEpochTime) -> (r: [u8; 8])
        ensures
            r@ == wire_of_ms(ms@),
    {
        let msv: u64 = ms.to_u64();
        let int_part: u64 = msv / 1000;
        let frac_part: u64 = ((msv % 1000) * 0x1_0000_0000) / 1000;
        let mut data: [u8; 8] = [0; 8];
        data[0] = ((int_part / 0x100_0000) % 256) as u8;
        data[1] = ((int_part / 0x1_0000) % 256) as u8;
        data[2] = ((int_part / 0x100) % 256) as u8;
        data[3] = (int_part % 256) as u8;
        data[4] = ((frac_part / 0x100_0000) % 256) as u8;
        data[5] = ((frac_part / 0x1_0000) % 256) as u8;
        data[6] = ((frac_part / 0x100) % 256) as u8;
        data[7] = (frac_part % 256) as u8;
        proof {
            assert(data@ =~= wire_of_ms(ms@));
        }
        data
    }

    /// The classic SNTP offset estimator ((T2 - T1) + (T3 - T4)) / 2, with
    /// the division truncating toward zero; negative means the local clock is
    /// ahead. The packet is read, never changed, and no clock is touched.
    pub fn local_time_offset(&self, response_received_at: NtpEpochTime) -> (r: i64)
        requires
            response_received_at@ <= i64::MAX,
            offset_sum(self@, response_received_at@) >= i64::MIN,
        ensures
            r == div2_trunc(offset_sum(self@, response_received_at@)),
    {
        proof {
            lemma_ms_of_wire_bound(self@.subrange(24, 32));
            lemma_ms_of_wire_bound(self@.subrange(32, 40));
            lemma_ms_of_wire_bound(self@.subrange(40, 48));
        }
        let t1: i64 = self.get_originate_timestamp().to_u64() as i64;
        let t2: i64 = self.get_receive_time().to_u64() as i64;
        let t3: i64 = self.get_transmit_time().to_u64() as i64;
        let t4: i64 = response_received_at.to_u64() as i64;
        let s: i64 = (t2 - t1) + (t3 - t4);
        s / 2
    }

    /// The raw 48 bytes, for handing to a transport.
    pub fn get_data(&self) -> (r: &[u8])
        ensures
            r@ == self@,
    {
        self.data.as_slice()
    }
}

/// Writing one of the mode and version fields never disturbs the other: a
/// mode survives a later version write, and a masked version survives a later
/// mode write.
pub proof fn lemma_field_isolation(s: Seq<u8>, m: SntpMode, v: u8)
    requires
        s.len() == 48,
    ensures
        mode_of(with_version(with_mode(s, m), v)) == m,
        version_bits(with_mode(with_version(s, v), m)) == v & 0x07,
{
    let b = s[0];
    let mv = mode_value(m);
    assert((((b & 0xF8) | (mv & 0x07)) & 0xC7 | ((v & 0x07) << 3u8)) & 0x07 == mv && mv & 0x07
        == mv) by (bit_vector)
        requires
            mv <= 5,
    ;
    assert(((((b & 0xC7) | ((v & 0x07) << 3u8)) & 0xF8 | (mv & 0x07)) & 0x38) >> 3u8 == v
        & 0x07) by (bit_vector);
    crate::mode::lemma_mode_value_round_trip(m);
}

} // verus!
