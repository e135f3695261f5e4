use hprof_slurp::errors::HprofSlurpError;
use hprof_slurp::format::{detect_dump_format, holds_at, DumpFormat};
use hprof_slurp::header::{parse_file_header, slurp_header, FileHeader};
use hprof_slurp::slurp::{format_label, slurp_file, SlurpPlan};

fn header_bytes(label: &str, id_size: u32, timestamp: u64) -> Vec<u8> {
    let mut bytes = label.as_bytes().to_vec();
    bytes.push(0);
    bytes.extend_from_slice(&id_size.to_be_bytes());
    bytes.extend_from_slice(&timestamp.to_be_bytes());
    bytes
}

#[test]
fn detects_hprof_signature() {
    let bytes = b"JAVA PROFILE 1.0.2\0extra";
    assert_eq!(DumpFormat::Hprof, detect_dump_format(bytes).unwrap());
}

#[test]
fn detects_phd_signature() {
    let mut bytes = vec![0x00, 0x12];
    bytes.extend_from_slice(b"portable heap dump");
    bytes.extend_from_slice(&[0, 0, 0, 0]);
    assert_eq!(DumpFormat::Phd, detect_dump_format(&bytes).unwrap());
}

#[test]
fn detects_openj9_core_signature() {
    let bytes = [0x7F, b'E', b'L', b'F', 0x00, 0x00];
    assert_eq!(DumpFormat::OpenJ9Core, detect_dump_format(&bytes).unwrap());
}

#[test]
fn unknown_signature_is_rejected() {
    let bytes = b"?";
    assert!(matches!(
        detect_dump_format(bytes),
        Err(HprofSlurpError::UnsupportedDumpFormat { .. })
    ));
}

#[test]
fn unsupported_32_bits() {
    let bytes = header_bytes("JAVA PROFILE 1.0.2", 4, 1_700_000_000_000);
    assert_eq!(slurp_file(&bytes), Ok(SlurpPlan::NativePipeline));
    let result = slurp_header(&bytes);
    assert!(result.is_err());
}

#[test]
fn supported_64_bits() {
    let bytes = header_bytes("JAVA PROFILE 1.0.2", 8, 1_700_000_000_000);
    assert_eq!(slurp_file(&bytes), Ok(SlurpPlan::NativePipeline));
    let result = slurp_header(&bytes);
    assert!(result.is_ok());
    assert_eq!(
        result.unwrap(),
        FileHeader {
            format: "JAVA PROFILE 1.0.2".to_string(),
            size_pointers: 8,
            timestamp: 1_700_000_000_000,
        }
    );
}

#[test]
fn unknown_signature_message() {
    assert_eq!(
        detect_dump_format(b"?"),
        Err(HprofSlurpError::UnsupportedDumpFormat {
            message: "Unrecognized heap dump signature".to_string()
        })
    );
}

#[test]
fn elf_magic_wins_over_everything_else() {
    assert_eq!(detect_dump_format(&[0x7F, b'E', b'L', b'F']), Ok(DumpFormat::OpenJ9Core));
    assert!(detect_dump_format(&[0x7F, b'E', b'L']).is_err());
}

#[test]
fn phd_needs_length_prefix_and_whole_name() {
    let mut exact = vec![0x00, 0x12];
    exact.extend_from_slice(b"portable heap dump");
    assert_eq!(detect_dump_format(&exact), Ok(DumpFormat::Phd));

    let mut short = vec![0x00, 0x12];
    short.extend_from_slice(b"portable heap dum");
    assert!(detect_dump_format(&short).is_err());

    let mut wrong_len = vec![0x00, 0x13];
    wrong_len.extend_from_slice(b"portable heap dump!");
    assert!(detect_dump_format(&wrong_len).is_err());

    let mut high_byte = vec![0x01, 0x12];
    high_byte.extend_from_slice(b"portable heap dump");
    assert!(detect_dump_format(&high_byte).is_err());

    let mut long_len = vec![0xFF, 0xFF];
    long_len.extend_from_slice(b"portable heap dump");
    assert!(detect_dump_format(&long_len).is_err());
}

#[test]
fn short_buffers_are_sniffed_without_panic() {
    assert!(detect_dump_format(&[]).is_err());
    assert!(detect_dump_format(&[0x00]).is_err());
    assert!(detect_dump_format(&[0x00, 0x12]).is_err());
    assert!(detect_dump_format(b"JAVA PROFIL").is_err());
    assert_eq!(detect_dump_format(b"JAVA PROFILE"), Ok(DumpFormat::Hprof));
}

#[test]
fn holds_at_checks_bounds() {
    assert!(holds_at(b"abcdef", 2, b"cd"));
    assert!(!holds_at(b"abcdef", 2, b"ce"));
    assert!(!holds_at(b"abcdef", 5, b"fg"));
    assert!(!holds_at(b"abcdef", 7, b""));
    assert!(holds_at(b"abcdef", 6, b""));
    assert!(!holds_at(b"abc", usize::MAX, b"a"));
}

#[test]
fn empty_input_is_its_own_failure() {
    let empty = slurp_file(&[]);
    assert_eq!(
        empty,
        Err(HprofSlurpError::UnsupportedDumpFormat { message: "Empty input file".to_string() })
    );
    let unknown = slurp_file(b"?");
    assert_eq!(
        unknown,
        Err(HprofSlurpError::UnsupportedDumpFormat {
            message: "Unrecognized heap dump signature".to_string()
        })
    );
    assert_ne!(empty, unknown);
}

#[test]
fn helper_formats_are_routed_to_the_helper() {
    let mut phd = vec![0x00, 0x12];
    phd.extend_from_slice(b"portable heap dump");
    phd.extend_from_slice(&[0, 0, 0, 0]);
    assert_eq!(slurp_file(&phd), Ok(SlurpPlan::JavaHelper { format: DumpFormat::Phd }));
    assert_eq!(
        slurp_file(&[0x7F, b'E', b'L', b'F', 2, 1]),
        Ok(SlurpPlan::JavaHelper { format: DumpFormat::OpenJ9Core })
    );
    assert_eq!(slurp_file(b"JAVA PROFILE 1.0.2\0"), Ok(SlurpPlan::NativePipeline));
}

#[test]
fn format_labels() {
    assert_eq!(format_label(DumpFormat::Phd), "phd");
    assert_eq!(format_label(DumpFormat::OpenJ9Core), "openj9-core");
    assert_eq!(format_label(DumpFormat::Hprof), "hprof");
}

#[test]
fn identifier_width_decides() {
    for width in [0u32, 1, 2, 3, 5, 6, 7, 9, 16, 64, u32::MAX] {
        let bytes = header_bytes("JAVA PROFILE 1.0.2", width, 0);
        assert_eq!(slurp_header(&bytes), Err(HprofSlurpError::InvalidIdSize));
    }
    let four = header_bytes("JAVA PROFILE 1.0.2", 4, 0);
    assert_eq!(
        slurp_header(&four),
        Err(HprofSlurpError::UnsupportedIdSize {
            message: "32 bits heap dumps are not supported yet".to_string()
        })
    );
    let eight = header_bytes("JAVA PROFILE 1.0.2", 8, 0);
    assert!(slurp_header(&eight).is_ok());
}

#[test]
fn header_is_31_bytes_for_the_usual_label() {
    let bytes = header_bytes("JAVA PROFILE 1.0.2", 8, 0x0102_0304_0506_0708);
    assert_eq!(bytes.len(), 31);
    let (rest, header) = parse_file_header(&bytes).unwrap();
    assert!(rest.is_empty());
    assert_eq!(header.format, "JAVA PROFILE 1.0.2");
    assert_eq!(header.size_pointers, 8);
    assert_eq!(header.timestamp, 0x0102_0304_0506_0708);
}

#[test]
fn leftover_bytes_are_an_invalid_header_size() {
    let mut bytes = header_bytes("JAVA PROFILE 1.0", 8, 7);
    bytes.extend_from_slice(&[0, 0]);
    assert_eq!(bytes.len(), 31);
    assert_eq!(slurp_header(&bytes), Err(HprofSlurpError::InvalidHeaderSize));
    let (rest, header) = parse_file_header(&bytes).unwrap();
    assert_eq!(rest, &[0u8, 0][..]);
    assert_eq!(header.format, "JAVA PROFILE 1.0");
    assert_eq!(header.timestamp, 7);
}

#[test]
fn width_is_checked_before_leftover_bytes() {
    let mut bytes = header_bytes("JAVA", 5, 7);
    bytes.push(1);
    assert_eq!(slurp_header(&bytes), Err(HprofSlurpError::InvalidIdSize));
    let mut four = header_bytes("JAVA", 4, 7);
    four.push(1);
    assert!(matches!(slurp_header(&four), Err(HprofSlurpError::UnsupportedIdSize { .. })));
}

#[test]
fn incomplete_header_is_rejected() {
    assert_eq!(parse_file_header(&[]), None);
    assert_eq!(parse_file_header(b"JAVA PROFILE 1.0.2"), None);
    let bytes = header_bytes("JAVA PROFILE 1.0.2", 8, 0);
    assert_eq!(parse_file_header(&bytes[..30]), None);
    assert_eq!(
        slurp_header(&bytes[..30]),
        Err(HprofSlurpError::InvalidHprofFile { message: "incomplete file header".to_string() })
    );
}

#[test]
fn label_that_is_not_utf8_is_kept_lossily() {
    let mut bytes = vec![b'J', 0xFF, b'P', 0];
    bytes.extend_from_slice(&8u32.to_be_bytes());
    bytes.extend_from_slice(&1u64.to_be_bytes());
    let header = slurp_header(&bytes).unwrap();
    assert_eq!(header.format, "J\u{FFFD}P");
}

#[test]
fn empty_label_is_decoded() {
    let bytes = header_bytes("", 8, u64::MAX);
    let header = slurp_header(&bytes).unwrap();
    assert_eq!(header.format, "");
    assert_eq!(header.timestamp, u64::MAX);
}
