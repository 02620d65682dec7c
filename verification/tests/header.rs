use scrol::storage::header::{Header, FILE_VERSION, HEADER_SIZE, MAGIC_BYTES};
use scrol::Error;

fn sample_image() -> Vec<u8> {
    let mut image = vec![0x73, 0x63, 0x72, 0x6F, 0x6C, 0x00, 0x00, 0x00, 0x01, 0x00, 0x00, 0x00];
    image.extend(vec![0u8; 20]);
    image
}

#[test]
fn constants_describe_the_layout() {
    assert_eq!(MAGIC_BYTES, *b"scrol\0\0\0");
    assert_eq!(FILE_VERSION, 1);
    assert_eq!(HEADER_SIZE, 32);
}

#[test]
fn new_header_has_magic_version_and_zero_padding() {
    let h = Header::new();
    assert_eq!(h.magic, [0x73, 0x63, 0x72, 0x6F, 0x6C, 0x00, 0x00, 0x00]);
    assert_eq!(h.version, 1);
    assert_eq!(h.reserved, [0u8; 20]);
}

#[test]
fn default_header_is_the_new_header() {
    assert_eq!(Header::default(), Header::new());
}

#[test]
fn new_header_is_valid() {
    assert!(Header::new().validate().is_ok());
}

#[test]
fn fresh_header_is_written_as_the_documented_bytes() {
    let image = Header::new().write_to();
    assert_eq!(image.len(), 32);
    assert_eq!(image.to_vec(), sample_image());
}

#[test]
fn version_is_written_least_significant_byte_first() {
    let h = Header { magic: MAGIC_BYTES, version: 0x0A0B0C0D, reserved: [0u8; 20] };
    let image = h.write_to();
    assert_eq!(image[8..12], [0x0D, 0x0C, 0x0B, 0x0A]);
    assert_eq!(image[8..12], 0x0A0B0C0Du32.to_le_bytes());
}

#[test]
fn version_is_read_least_significant_byte_first() {
    let mut image = sample_image();
    image[8] = 0x78;
    image[9] = 0x56;
    image[10] = 0x34;
    image[11] = 0x12;
    let h = Header::read_from(&image).unwrap();
    assert_eq!(h.version, 0x12345678);
    assert_eq!(h.version, u32::from_le_bytes([0x78, 0x56, 0x34, 0x12]));
}

#[test]
fn largest_version_survives_the_round_trip() {
    let h = Header { magic: MAGIC_BYTES, version: u32::MAX, reserved: [0xFF; 20] };
    let image = h.write_to();
    assert_eq!(image[8..12], [0xFF, 0xFF, 0xFF, 0xFF]);
    assert_eq!(Header::read_from(&image).unwrap(), h);
}

#[test]
fn read_after_write_gives_the_header_back() {
    let mut reserved = [0u8; 20];
    for (i, b) in reserved.iter_mut().enumerate() {
        *b = 200 + i as u8;
    }
    let h = Header { magic: MAGIC_BYTES, version: FILE_VERSION, reserved };
    let image = h.write_to();
    assert_eq!(image[12..32], reserved);
    let back = Header::read_from(&image).unwrap();
    assert_eq!(back, h);
    assert_eq!(back.write_to(), image);
}

#[test]
fn read_after_write_keeps_foreign_magic_and_version() {
    let h = Header { magic: [9, 8, 7, 6, 5, 4, 3, 2], version: 70000, reserved: [1u8; 20] };
    assert_eq!(Header::read_from(&h.write_to()).unwrap(), h);
}

#[test]
fn read_takes_only_the_first_32_bytes() {
    let mut image = sample_image();
    image.extend(vec![0xAB; 100]);
    assert_eq!(Header::read_from(&image).unwrap(), Header::new());
}

#[test]
fn read_passes_reserved_bytes_through() {
    let mut image = sample_image();
    image[12] = 1;
    image[31] = 255;
    let h = Header::read_from(&image).unwrap();
    assert_eq!(h.reserved[0], 1);
    assert_eq!(h.reserved[19], 255);
    assert!(h.validate().is_ok());
}

#[test]
fn read_of_a_short_source_is_an_io_error() {
    let image = sample_image();
    match Header::read_from(&image[..10]) {
        Err(Error::Io(e)) => {
            assert_eq!(e.kind(), std::io::ErrorKind::UnexpectedEof);
            assert_eq!(format!("{}", e), "failed to fill whole buffer");
        }
        other => panic!("expected an I/O error, got {:?}", other),
    }
    assert!(matches!(Header::read_from(&image[..31]), Err(Error::Io(_))));
    assert!(matches!(Header::read_from(&[]), Err(Error::Io(_))));
    assert!(Header::read_from(&image[..32]).is_ok());
}

#[test]
fn read_does_not_validate() {
    let image = vec![0u8; 32];
    let h = Header::read_from(&image).unwrap();
    assert_eq!(h.magic, [0u8; 8]);
    assert_eq!(h.version, 0);
}

#[test]
fn wrong_magic_is_a_format_mismatch() {
    let mut h = Header::new();
    h.magic[0] = 0;
    match h.validate() {
        Err(Error::InvalidFormatError { expected, found }) => {
            assert_eq!(expected, "[115, 99, 114, 111, 108, 0, 0, 0]");
            assert_eq!(found, "[0, 99, 114, 111, 108, 0, 0, 0]");
            assert_eq!(expected, format!("{:?}", MAGIC_BYTES));
            assert_eq!(found, format!("{:?}", h.magic));
        }
        other => panic!("expected a format mismatch, got {:?}", other),
    }
}

#[test]
fn wrong_magic_is_reported_before_a_wrong_version() {
    let h = Header { magic: [255, 254, 10, 9, 100, 99, 1, 0], version: 77, reserved: [0u8; 20] };
    match h.validate() {
        Err(Error::InvalidFormatError { expected, found }) => {
            assert_eq!(expected, format!("{:?}", MAGIC_BYTES));
            assert_eq!(found, "[255, 254, 10, 9, 100, 99, 1, 0]");
        }
        other => panic!("expected a format mismatch, got {:?}", other),
    }
}

#[test]
fn wrong_version_is_a_corruption_naming_both_versions() {
    let h = Header { magic: MAGIC_BYTES, version: 2, reserved: [0u8; 20] };
    match h.validate() {
        Err(Error::CorruptedDatabase { reason }) => {
            assert_eq!(reason, "Unsupported file version: expected 1, found 2");
        }
        other => panic!("expected a corruption error, got {:?}", other),
    }
}

#[test]
fn version_zero_and_the_largest_version_are_refused() {
    for v in [0u32, 10, 4294967295] {
        let h = Header { magic: MAGIC_BYTES, version: v, reserved: [0u8; 20] };
        match h.validate() {
            Err(Error::CorruptedDatabase { reason }) => {
                assert_eq!(
                    reason,
                    format!("Unsupported file version: expected {}, found {}", FILE_VERSION, v)
                );
            }
            other => panic!("expected a corruption error, got {:?}", other),
        }
    }
}
