use sntp::{NtpEpochTime, ParseError, SntpData, SntpMode, NTP_TO_UNIX_EPOCH_SECONDS};

#[test]
fn test_ms_conv() {
    let ms = NtpEpochTime::new(5229834209);

    let data = SntpData::ms_to_data(ms);
    assert_eq!(&[0, 79, 205, 10, 53, 129, 6, 36], &data);

    let ms_conv = SntpData::data_to_ms(&data);
    assert_eq!(ms, ms_conv);
}

#[test]
fn sntp_data_gen() {
    let mut data = SntpData::new();
    data.set_mode(SntpMode::Client);
    data.set_version(4);
    data.set_transmit_time(NtpEpochTime::new(1001));

    assert_eq!(NtpEpochTime::new(1001), data.get_transmit_time());
    assert_eq!(SntpMode::Client, data.get_mode());
    assert_eq!(4, data.get_version());
}

#[test]
fn sntp_data_parse() {
    let buf = [
        36, 2, 3, 232, 0, 0, 1, 39, 0, 0, 9, 20, 162, 23, 41, 56, 221, 111, 129, 38, 220, 243,
        246, 238, 221, 111, 132, 223, 232, 180, 57, 88, 221, 111, 132, 223, 223, 210, 132, 17,
        221, 111, 132, 223, 223, 213, 89, 109,
    ];

    let sntp_resp = SntpData::from_buffer(&buf).unwrap();

    assert_eq!(
        NtpEpochTime::new(3715072294863),
        sntp_resp.get_reference_timestamp()
    );
    assert_eq!(
        NtpEpochTime::new(3715073247909),
        sntp_resp.get_originate_timestamp()
    );
    assert_eq!(NtpEpochTime::new(3715073247874), sntp_resp.get_receive_time());
    assert_eq!(NtpEpochTime::new(3715073247874), sntp_resp.get_transmit_time());
}

#[test]
fn wire_round_trip_representative() {
    // 4294967295999 is the largest count whose seconds part fits the 32-bit
    // wire field; anything above it truncates on encode.
    for ms in [0u64, 1001, 5229834209, 4294967295999] {
        let t = NtpEpochTime::new(ms);
        let back = SntpData::data_to_ms(&SntpData::ms_to_data(t));
        assert_eq!(t, back);
    }
}

#[test]
fn wire_encode_truncates_high_seconds() {
    // One count past the round-trip range: the seconds word wraps to zero.
    let t = NtpEpochTime::new(4294967296000);
    let back = SntpData::data_to_ms(&SntpData::ms_to_data(t));
    assert_eq!(NtpEpochTime::new(0), back);

    let t2 = NtpEpochTime::new(4294967296000 + 1500);
    let back2 = SntpData::data_to_ms(&SntpData::ms_to_data(t2));
    assert_eq!(NtpEpochTime::new(1500), back2);
}

#[test]
fn request_construction() {
    let req = SntpData::new_request_sec(NtpEpochTime::new(1001));
    assert_eq!(SntpMode::Client, req.get_mode());
    assert_eq!(4, req.get_version());
    assert_eq!(NtpEpochTime::new(1001), req.get_transmit_time());
}

#[test]
fn request_reserved_bytes_are_zero() {
    let req = SntpData::new_request_sec(NtpEpochTime::new(0));
    let bytes = req.get_data();
    assert_eq!(48, bytes.len());
    assert_eq!(0x23, bytes[0]);
    for i in 1..40 {
        assert_eq!(0, bytes[i]);
    }
}

#[test]
fn parse_rejects_wrong_length() {
    assert_eq!(
        Some(ParseError::InvalidLength),
        SntpData::from_buffer(&[0u8; 47]).err()
    );
    assert_eq!(
        Some(ParseError::InvalidLength),
        SntpData::from_buffer(&[0u8; 49]).err()
    );
    assert!(SntpData::from_buffer(&[0xFFu8; 48]).is_ok());
}

#[test]
fn parse_copies_verbatim() {
    let mut buf = [0u8; 48];
    for i in 0..48 {
        buf[i] = i as u8;
    }
    let p = SntpData::from_buffer(&buf).unwrap();
    assert_eq!(&buf[..], p.get_data());
}

#[test]
fn field_isolation() {
    let mut p = SntpData::new();
    p.set_mode(SntpMode::Server);
    p.set_version(4);
    assert_eq!(SntpMode::Server, p.get_mode());
    assert_eq!(4, p.get_version());

    let mut q = SntpData::new();
    q.set_version(7);
    q.set_mode(SntpMode::Client);
    assert_eq!(7, q.get_version());
    assert_eq!(SntpMode::Client, q.get_mode());
}

#[test]
fn version_is_masked_to_three_bits() {
    let mut p = SntpData::new();
    p.set_version(12);
    assert_eq!(4, p.get_version());
}

#[test]
fn mode_wire_round_trip() {
    let modes = [
        SntpMode::Unknown,
        SntpMode::SymmetricActive,
        SntpMode::SymmetricPassive,
        SntpMode::Client,
        SntpMode::Server,
        SntpMode::Broadcast,
    ];
    for m in modes {
        assert_eq!(m, SntpMode::from_val(m.to_val()));
    }
    assert_eq!(SntpMode::Unknown, SntpMode::from_val(0));
    assert_eq!(SntpMode::Unknown, SntpMode::from_val(6));
    assert_eq!(SntpMode::Unknown, SntpMode::from_val(7));
}

fn packet_with_times(originate: u64, receive: u64, transmit: u64) -> SntpData {
    let mut buf = [0u8; 48];
    buf[24..32].copy_from_slice(&SntpData::ms_to_data(NtpEpochTime::new(originate)));
    buf[32..40].copy_from_slice(&SntpData::ms_to_data(NtpEpochTime::new(receive)));
    buf[40..48].copy_from_slice(&SntpData::ms_to_data(NtpEpochTime::new(transmit)));
    SntpData::from_buffer(&buf).unwrap()
}

#[test]
fn offset_sign_convention() {
    let p = packet_with_times(900, 1000, 1000);
    assert_eq!(0, p.local_time_offset(NtpEpochTime::new(1100)));
}

#[test]
fn offset_positive_when_local_clock_behind() {
    // Server clock reads 500 ms ahead of the local clock at both instants.
    let p = packet_with_times(1000, 1500, 1700);
    assert_eq!(500, p.local_time_offset(NtpEpochTime::new(1200)));
}

#[test]
fn offset_division_truncates_toward_zero() {
    // Sum is (1000 - 1003) + (1000 - 1002) == -5; truncation gives -2.
    let p = packet_with_times(1003, 1000, 1000);
    assert_eq!(-2, p.local_time_offset(NtpEpochTime::new(1002)));
}

#[test]
fn data_to_ms_wrong_length_is_zero() {
    assert_eq!(NtpEpochTime::new(0), SntpData::data_to_ms(&[1, 2, 3]));
    assert_eq!(NtpEpochTime::new(0), SntpData::data_to_ms(&[0u8; 9]));
}

#[test]
fn unix_second_conversions() {
    let t = NtpEpochTime::from_unix_seconds(0);
    assert_eq!(NTP_TO_UNIX_EPOCH_SECONDS * 1000, t.to_u64());
    assert_eq!(0, t.to_unix_seconds());

    let u = 1_700_000_000u64;
    assert_eq!(u, NtpEpochTime::from_unix_seconds(u).to_unix_seconds());
}

#[test]
fn from_unix_seconds_wraps_silently() {
    // 2^64 - NTP_TO_UNIX_EPOCH_SECONDS: the seconds sum wraps to zero.
    let t = NtpEpochTime::from_unix_seconds(0xFFFF_FFFF_7C55_8180);
    assert_eq!(0, t.to_u64());
}

#[test]
fn transmit_time_is_written_in_place() {
    let buf = [0xABu8; 48];
    let mut p = SntpData::from_buffer(&buf).unwrap();
    p.set_transmit_time(NtpEpochTime::new(5229834209));
    let bytes = p.get_data();
    for i in 0..40 {
        assert_eq!(0xAB, bytes[i]);
    }
    assert_eq!(&[0, 79, 205, 10, 53, 129, 6, 36], &bytes[40..48]);
    assert_eq!(NtpEpochTime::new(5229834209), p.get_transmit_time());
}
