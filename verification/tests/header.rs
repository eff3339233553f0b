use tinymid::{DecodedHeader, DivisionKind, FileFormat, HeaderError, MIDIFile};

fn header_bytes(format: [u8; 2], tracks: [u8; 2], division: [u8; 2]) -> Vec<u8> {
    vec![
        0x4D, 0x54, 0x68, 0x64, 0x00, 0x00, 0x00, 0x06, format[0], format[1], tracks[0],
        tracks[1], division[0], division[1],
    ]
}

fn decode(bytes: Vec<u8>) -> Result<DecodedHeader, HeaderError> {
    MIDIFile::new(bytes).map(|file| file.header())
}

#[test]
fn decodes_a_multiple_track_header() {
    let bytes: Vec<u8> =
        vec![0x4D, 0x54, 0x68, 0x64, 0x00, 0x00, 0x00, 0x06, 0x00, 0x01, 0x00, 0x02, 0x00, 0x78];
    let header = decode(bytes).unwrap();
    assert_eq!(header.format, FileFormat::MultipleTrack);
    assert_eq!(header.track_chunk_count, 2);
    assert_eq!(header.division, 120);
    assert_eq!(header.division_kind(), DivisionKind::TicksPerBeat);
}

#[test]
fn zero_track_chunks_is_reported_for_an_otherwise_valid_header() {
    let bytes: Vec<u8> =
        vec![0x4D, 0x54, 0x68, 0x64, 0x00, 0x00, 0x00, 0x06, 0x00, 0x00, 0x00, 0x00, 0x00, 0x78];
    assert_eq!(decode(bytes), Err(HeaderError::ZeroTrackChunks));
}

#[test]
fn empty_input_ends_unexpectedly() {
    assert_eq!(decode(Vec::new()), Err(HeaderError::UnexpectedEndOfFile));
}

#[test]
fn every_proper_prefix_of_a_valid_header_ends_unexpectedly() {
    let whole = header_bytes([0, 1], [0, 2], [0, 0x78]);
    for len in 0..whole.len() {
        let prefix: Vec<u8> = whole[..len].to_vec();
        assert_eq!(decode(prefix), Err(HeaderError::UnexpectedEndOfFile), "length {}", len);
    }
    assert!(decode(whole).is_ok());
}

#[test]
fn a_field_cut_in_half_ends_unexpectedly_whatever_its_first_byte() {
    // Nine bytes: the format code has its first byte only, and no format code
    // starts with it.
    let bytes: Vec<u8> = vec![0x4D, 0x54, 0x68, 0x64, 0, 0, 0, 6, 0x05];
    assert_eq!(decode(bytes), Err(HeaderError::UnexpectedEndOfFile));
    // Seven bytes: three bytes of a length that could not be six.
    let bytes: Vec<u8> = vec![0x4D, 0x54, 0x68, 0x64, 0xFF, 0xFF, 0xFF];
    assert_eq!(decode(bytes), Err(HeaderError::UnexpectedEndOfFile));
    // Three bytes that are not the start of the identifier.
    let bytes: Vec<u8> = vec![0x58, 0x58, 0x58];
    assert_eq!(decode(bytes), Err(HeaderError::UnexpectedEndOfFile));
}

#[test]
fn a_short_input_with_a_broken_whole_field_reports_that_field() {
    let bytes: Vec<u8> = vec![0x58, 0x58, 0x58, 0x58];
    assert_eq!(
        decode(bytes),
        Err(HeaderError::InvalidIdentifier {
            expected: String::from("MThd"),
            actual: String::from("XXXX"),
        })
    );
    let bytes: Vec<u8> = vec![0x4D, 0x54, 0x68, 0x64, 0, 0, 0, 7];
    assert_eq!(decode(bytes), Err(HeaderError::InvalidHeaderLength { expected: 6, actual: 7 }));
    let bytes: Vec<u8> = vec![0x4D, 0x54, 0x68, 0x64, 0, 0, 0, 6, 0, 9, 0];
    assert_eq!(decode(bytes), Err(HeaderError::InvalidFormatCode { actual: 9 }));
    let bytes: Vec<u8> = vec![0x4D, 0x54, 0x68, 0x64, 0, 0, 0, 6, 0, 1, 0, 0, 0];
    assert_eq!(decode(bytes), Err(HeaderError::ZeroTrackChunks));
}

#[test]
fn valid_headers_decode_to_the_values_they_spell() {
    let header = decode(header_bytes([0, 0], [0, 1], [0, 1])).unwrap();
    assert_eq!(
        header,
        DecodedHeader { format: FileFormat::SingleTrack, track_chunk_count: 1, division: 1 }
    );
    let header = decode(header_bytes([0, 1], [0xFF, 0xFF], [0x7F, 0xFF])).unwrap();
    assert_eq!(
        header,
        DecodedHeader {
            format: FileFormat::MultipleTrack,
            track_chunk_count: 65535,
            division: 32767,
        }
    );
    let header = decode(header_bytes([0, 2], [0x01, 0x00], [0x80, 0x00])).unwrap();
    assert_eq!(
        header,
        DecodedHeader {
            format: FileFormat::MultipleSong,
            track_chunk_count: 256,
            division: -32768,
        }
    );
    let header = decode(header_bytes([0, 2], [0x12, 0x34], [0xFF, 0xFF])).unwrap();
    assert_eq!(
        header,
        DecodedHeader { format: FileFormat::MultipleSong, track_chunk_count: 0x1234, division: -1 }
    );
}

#[test]
fn words_are_read_with_the_more_significant_byte_first() {
    let header = decode(header_bytes([0, 0], [0x00, 0x10], [0x01, 0xE0])).unwrap();
    assert_eq!(header.track_chunk_count, 16);
    assert_eq!(header.division, 480);
    let header = decode(header_bytes([0, 0], [0x10, 0x00], [0xE0, 0x01])).unwrap();
    assert_eq!(header.track_chunk_count, 4096);
    assert_eq!(header.division, -8191);
}

#[test]
fn bytes_behind_the_header_are_ignored() {
    let mut bytes = header_bytes([0, 1], [0, 3], [0, 96]);
    bytes.extend_from_slice(&[0x4D, 0x54, 0x72, 0x6B, 0xFF, 0x00, 0x13]);
    let header = decode(bytes).unwrap();
    assert_eq!(
        header,
        DecodedHeader { format: FileFormat::MultipleTrack, track_chunk_count: 3, division: 96 }
    );
}

#[test]
fn identifier_mismatch_reports_expected_and_actual() {
    let mut bytes = header_bytes([0, 1], [0, 2], [0, 0x78]);
    bytes[3] = 0x58;
    assert_eq!(
        decode(bytes),
        Err(HeaderError::InvalidIdentifier {
            expected: String::from("MThd"),
            actual: String::from("MThX"),
        })
    );
}

#[test]
fn identifier_is_compared_with_its_case() {
    let mut bytes = header_bytes([0, 1], [0, 2], [0, 0x78]);
    bytes[0] = 0x6D;
    assert_eq!(
        decode(bytes),
        Err(HeaderError::InvalidIdentifier {
            expected: String::from("MThd"),
            actual: String::from("mThd"),
        })
    );
}

#[test]
fn identifier_bytes_are_taken_as_character_codes() {
    let mut bytes = header_bytes([0, 1], [0, 2], [0, 0x78]);
    bytes[0] = 0xE9;
    bytes[1] = 0x00;
    bytes[2] = 0xFF;
    bytes[3] = 0x7F;
    assert_eq!(
        decode(bytes),
        Err(HeaderError::InvalidIdentifier {
            expected: String::from("MThd"),
            actual: String::from("\u{E9}\u{0}\u{FF}\u{7F}"),
        })
    );
}

#[test]
fn identifier_is_judged_before_every_other_field() {
    let bytes: Vec<u8> = vec![0x4D, 0x54, 0x72, 0x6B, 0, 0, 0, 4, 0, 3, 0, 0, 0, 0];
    assert_eq!(
        decode(bytes),
        Err(HeaderError::InvalidIdentifier {
            expected: String::from("MThd"),
            actual: String::from("MTrk"),
        })
    );
}

#[test]
fn wrong_header_length_reports_expected_and_actual() {
    let mut bytes = header_bytes([0, 1], [0, 2], [0, 0x78]);
    bytes[7] = 0x04;
    assert_eq!(decode(bytes), Err(HeaderError::InvalidHeaderLength { expected: 6, actual: 4 }));
}

#[test]
fn header_length_is_read_with_the_most_significant_byte_first() {
    let mut bytes = header_bytes([0, 1], [0, 2], [0, 0x78]);
    bytes[4] = 0x01;
    bytes[5] = 0x02;
    bytes[6] = 0x03;
    bytes[7] = 0x04;
    assert_eq!(
        decode(bytes),
        Err(HeaderError::InvalidHeaderLength { expected: 6, actual: 0x0102_0304 })
    );
    let mut bytes = header_bytes([0, 1], [0, 2], [0, 0x78]);
    bytes[4] = 0x06;
    bytes[7] = 0x00;
    assert_eq!(
        decode(bytes),
        Err(HeaderError::InvalidHeaderLength { expected: 6, actual: 0x0600_0000 })
    );
    let mut bytes = header_bytes([0, 1], [0, 2], [0, 0x78]);
    bytes[4] = 0xFF;
    bytes[5] = 0xFF;
    bytes[6] = 0xFF;
    bytes[7] = 0xFF;
    assert_eq!(
        decode(bytes),
        Err(HeaderError::InvalidHeaderLength { expected: 6, actual: u32::MAX })
    );
}

#[test]
fn header_length_is_judged_before_the_format_code() {
    let bytes: Vec<u8> = vec![0x4D, 0x54, 0x68, 0x64, 0, 0, 0, 0, 0, 3, 0, 0, 0, 0];
    assert_eq!(decode(bytes), Err(HeaderError::InvalidHeaderLength { expected: 6, actual: 0 }));
}

#[test]
fn format_code_three_is_rejected() {
    assert_eq!(
        decode(header_bytes([0, 3], [0, 2], [0, 0x78])),
        Err(HeaderError::InvalidFormatCode { actual: 3 })
    );
}

#[test]
fn format_codes_above_three_are_rejected_with_their_value() {
    assert_eq!(
        decode(header_bytes([0x01, 0x00], [0, 2], [0, 0x78])),
        Err(HeaderError::InvalidFormatCode { actual: 256 })
    );
    assert_eq!(
        decode(header_bytes([0x02, 0x01], [0, 2], [0, 0x78])),
        Err(HeaderError::InvalidFormatCode { actual: 513 })
    );
    assert_eq!(
        decode(header_bytes([0xFF, 0xFF], [0, 2], [0, 0x78])),
        Err(HeaderError::InvalidFormatCode { actual: 65535 })
    );
}

#[test]
fn format_code_zero_is_a_single_track() {
    let header = decode(header_bytes([0, 0], [0, 1], [0, 0x78])).unwrap();
    assert_eq!(header.format, FileFormat::SingleTrack);
}

#[test]
fn format_code_one_is_multiple_tracks() {
    let header = decode(header_bytes([0, 1], [0, 1], [0, 0x78])).unwrap();
    assert_eq!(header.format, FileFormat::MultipleTrack);
}

#[test]
fn format_code_two_is_multiple_songs() {
    let header = decode(header_bytes([0, 2], [0, 1], [0, 0x78])).unwrap();
    assert_eq!(header.format, FileFormat::MultipleSong);
}

#[test]
fn format_code_is_judged_before_the_track_count() {
    assert_eq!(
        decode(header_bytes([0, 3], [0, 0], [0, 0])),
        Err(HeaderError::InvalidFormatCode { actual: 3 })
    );
}

#[test]
fn zero_track_chunks_is_reported_for_every_format_and_division() {
    for format in 0u8..3 {
        assert_eq!(
            decode(header_bytes([0, format], [0, 0], [0, 0x78])),
            Err(HeaderError::ZeroTrackChunks)
        );
        assert_eq!(
            decode(header_bytes([0, format], [0, 0], [0xE2, 0x50])),
            Err(HeaderError::ZeroTrackChunks)
        );
        assert_eq!(
            decode(header_bytes([0, format], [0, 0], [0, 0])),
            Err(HeaderError::ZeroTrackChunks)
        );
    }
}

#[test]
fn zero_track_chunks_is_reported_where_the_division_is_missing() {
    let bytes: Vec<u8> = vec![0x4D, 0x54, 0x68, 0x64, 0, 0, 0, 6, 0, 1, 0, 0];
    assert_eq!(decode(bytes), Err(HeaderError::ZeroTrackChunks));
}

#[test]
fn zero_division_is_rejected() {
    assert_eq!(decode(header_bytes([0, 1], [0, 2], [0, 0])), Err(HeaderError::ZeroDivision));
}

#[test]
fn positive_division_counts_ticks_per_beat() {
    let header = decode(header_bytes([0, 1], [0, 2], [0x00, 0xF0])).unwrap();
    assert_eq!(header.division, 240);
    assert_eq!(header.division_kind(), DivisionKind::TicksPerBeat);
}

#[test]
fn negative_division_is_in_smpte_format() {
    let header = decode(header_bytes([0, 1], [0, 2], [0xE2, 0x50])).unwrap();
    assert_eq!(header.division, -7600);
    assert_eq!(header.division_kind(), DivisionKind::Smpte);
}

#[test]
fn division_kind_goes_by_the_sign_alone() {
    let ticks =
        DecodedHeader { format: FileFormat::SingleTrack, track_chunk_count: 1, division: 1 };
    assert_eq!(ticks.division_kind(), DivisionKind::TicksPerBeat);
    let ticks = DecodedHeader { division: i16::MAX, ..ticks };
    assert_eq!(ticks.division_kind(), DivisionKind::TicksPerBeat);
    let smpte = DecodedHeader { division: -1, ..ticks };
    assert_eq!(smpte.division_kind(), DivisionKind::Smpte);
    let smpte = DecodedHeader { division: i16::MIN, ..ticks };
    assert_eq!(smpte.division_kind(), DivisionKind::Smpte);
}

#[test]
fn every_decoded_header_has_a_track_and_a_division() {
    for format in 0u8..4 {
        for tracks in [0u8, 1, 2] {
            for division in [[0u8, 0u8], [0, 1], [0x80, 0], [0xFF, 0xFF]] {
                if let Ok(header) = decode(header_bytes([0, format], [0, tracks], division)) {
                    assert!(header.track_chunk_count >= 1);
                    assert_ne!(header.division, 0);
                    assert!(format <= 2);
                }
            }
        }
    }
}
