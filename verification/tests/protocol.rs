use tealdrive::config::{RelativePath, RootId};
use tealdrive::errors::TealDriveError;
use tealdrive::limits::{Limits, MAX_CHUNK_SIZE, MAX_CONTROL_PAYLOAD, MAX_DIRECTORY_PAGE_SIZE, MAX_FRAME_PAYLOAD};
use tealdrive::policy::feature_gate::FeatureFlags;
use tealdrive::protocol::chunk::{RawChunk, RAW_CHUNK_HEADER_LEN};
use tealdrive::protocol::codec::check_control_payload;
use tealdrive::protocol::compression::Compression;
use tealdrive::protocol::flags::{TdrvFlags, FLAG_COMPRESSED};
use tealdrive::protocol::frame::{RequestId, TdrvFrame, TransferId};
use tealdrive::protocol::header::{validate_encoding_for_message, Encoding, TdrvHeader, HEADER_LEN};
use tealdrive::protocol::message_type::MessageType;
use tealdrive::protocol::payload::{
    ClientHelloPayload, DownloadBeginRequest, ListDirectoryRequest, ReadTextFileRequest,
    UploadBeginRequest,
};
use tealdrive::protocol::schema::{FilterMode, SortMode};

fn client_hello() -> ClientHelloPayload {
    let limits = Limits::default();
    ClientHelloPayload {
        protocol_version: 1,
        supported_encodings: vec![Encoding::MessagePack, Encoding::RawBinary],
        supported_compressions: vec![Compression::NoCompression],
        max_frame_size: limits.max_frame_payload,
        max_control_payload_size: limits.max_control_payload,
        max_chunk_size: limits.max_chunk_size,
        feature_flags: FeatureFlags::default(),
    }
}

fn valid_header() -> TdrvHeader {
    TdrvHeader::new(MessageType::ListDirectory, RequestId::new(), 12)
}

#[test]
fn known_compression_values_parse() {
    assert_eq!(Compression::try_from(0), Ok(Compression::NoCompression));
    assert_eq!(Compression::try_from(1), Ok(Compression::Gzip));
    assert_eq!(Compression::try_from(2), Ok(Compression::DeflateFuture));
    assert_eq!(Compression::try_from(3), Ok(Compression::ZstdFuture));
}

#[test]
fn unknown_compression_rejected() {
    assert!(matches!(
        Compression::try_from(9),
        Err(TealDriveError::InvalidCompression)
    ));
}

#[test]
fn deflate_and_zstd_are_not_supported_in_v1() {
    assert!(Compression::NoCompression.is_v1_supported());
    assert!(Compression::Gzip.is_v1_supported());
    assert!(!Compression::DeflateFuture.is_v1_supported());
    assert!(!Compression::ZstdFuture.is_v1_supported());
}

#[test]
fn known_flags_roundtrip() {
    let flags = TdrvFlags {
        error: true,
        stream: true,
        final_frame: false,
        ack_required: true,
        compressed: true,
    };

    assert_eq!(TdrvFlags::from_bits(flags.bits()), Ok(flags));
}

#[test]
fn unknown_flags_rejected() {
    assert!(matches!(
        TdrvFlags::from_bits(0x8000),
        Err(TealDriveError::InvalidFlags)
    ));
}

#[test]
fn flag_bits_exact_values() {
    assert_eq!(TdrvFlags::empty().bits(), 0);
    assert_eq!(TdrvFlags::compressed().bits(), FLAG_COMPRESSED);
}

#[test]
fn known_encoding_values_parse() {
    assert_eq!(Encoding::try_from(0), Ok(Encoding::NoEncoding));
    assert_eq!(Encoding::try_from(1), Ok(Encoding::MessagePack));
    assert_eq!(Encoding::try_from(2), Ok(Encoding::RawBinary));
}

#[test]
fn unknown_encoding_rejected() {
    assert!(matches!(
        Encoding::try_from(9),
        Err(TealDriveError::InvalidEncoding)
    ));
}

#[test]
fn control_messages_reject_raw_binary_encoding() {
    assert!(matches!(
        validate_encoding_for_message(MessageType::ListDirectory, Encoding::RawBinary),
        Err(TealDriveError::InvalidEncoding)
    ));
}

#[test]
fn chunk_messages_require_raw_binary_encoding() {
    assert!(validate_encoding_for_message(MessageType::UploadChunk, Encoding::RawBinary).is_ok());
    assert!(matches!(
        validate_encoding_for_message(MessageType::UploadChunk, Encoding::MessagePack),
        Err(TealDriveError::InvalidEncoding)
    ));
}

#[test]
fn valid_header_roundtrip() {
    let header = valid_header();
    let encoded = header.encode();
    let decoded = TdrvHeader::decode(&encoded).expect("valid header");

    assert_eq!(decoded, header);
    assert_eq!(encoded.len(), HEADER_LEN);
}

#[test]
fn invalid_magic_rejected() {
    let mut encoded = valid_header().encode();
    encoded[0..4].copy_from_slice(b"NOPE");

    assert!(matches!(
        TdrvHeader::decode(&encoded),
        Err(TealDriveError::InvalidMagic)
    ));
}

#[test]
fn unsupported_version_rejected() {
    let mut encoded = valid_header().encode();
    encoded[4] = 2;

    assert!(matches!(
        TdrvHeader::decode(&encoded),
        Err(TealDriveError::UnsupportedVersion)
    ));
}

#[test]
fn reserved_non_zero_rejected() {
    let mut encoded = valid_header().encode();
    encoded[11] = 1;

    assert!(matches!(
        TdrvHeader::decode(&encoded),
        Err(TealDriveError::ReservedFieldNonZero)
    ));
}

#[test]
fn payload_too_large_rejected() {
    let mut encoded = valid_header().encode();
    let too_large = (MAX_FRAME_PAYLOAD as u32) + 1;
    encoded[28..32].copy_from_slice(&too_large.to_be_bytes());

    assert!(matches!(
        TdrvHeader::decode(&encoded),
        Err(TealDriveError::PayloadTooLarge)
    ));
}

#[test]
fn header_fields_are_big_endian() {
    let mut header = TdrvHeader::new(MessageType::UploadChunk, RequestId::new(), 0x0001_0203);
    header.encoding = Encoding::RawBinary;
    header.flags.stream = true;
    let encoded = header.encode();
    let decoded = TdrvHeader::decode(&encoded).expect("valid big-endian header");

    assert_eq!(u16::from(decoded.message_type), 0x0101);
    assert_eq!(&encoded[7..9], &[0x01, 0x01]);
    assert_eq!(&encoded[28..32], &[0x00, 0x01, 0x02, 0x03]);
    assert_eq!(decoded.payload_len, 0x0001_0203);
    assert!(decoded.flags.stream);
}

#[test]
fn compressed_flag_must_match_compression() {
    let mut encoded = valid_header().encode();
    encoded[9] = u8::from(Compression::Gzip);

    assert!(matches!(
        TdrvHeader::decode(&encoded),
        Err(TealDriveError::InvalidFlags)
    ));
}

#[test]
fn compression_must_match_compressed_flag() {
    let mut header = valid_header();
    header.flags.compressed = true;
    let encoded = header.encode();

    assert!(matches!(
        TdrvHeader::decode(&encoded),
        Err(TealDriveError::InvalidFlags)
    ));
}

#[test]
fn unsupported_future_compression_rejected_in_v1_header() {
    let mut encoded = valid_header().encode();
    encoded[5..7].copy_from_slice(&FLAG_COMPRESSED.to_be_bytes());
    encoded[9] = u8::from(Compression::DeflateFuture);

    assert!(matches!(
        TdrvHeader::decode(&encoded),
        Err(TealDriveError::InvalidCompression)
    ));
}

#[test]
fn frame_roundtrip() {
    let payload = b"hello".to_vec();
    let header = TdrvHeader::new(MessageType::ListDirectory, RequestId::new(), 0);
    let frame = TdrvFrame::new(header, payload).expect("valid frame");
    let encoded = frame.encode().expect("encoded frame");
    let decoded = TdrvFrame::decode(&encoded).expect("decoded frame");

    assert_eq!(decoded, frame);
}

#[test]
fn payload_len_mismatch_rejected_on_encode() {
    let payload = b"hello".to_vec();
    let header = TdrvHeader::new(MessageType::ListDirectory, RequestId::new(), 99);
    let frame = TdrvFrame { header, payload };

    assert!(matches!(
        frame.encode(),
        Err(TealDriveError::PayloadLengthMismatch)
    ));
}

#[test]
fn payload_len_mismatch_rejected_on_decode() {
    let payload = b"hello".to_vec();
    let header = TdrvHeader::new(MessageType::ListDirectory, RequestId::new(), 4);
    let mut encoded = Vec::new();
    encoded.extend_from_slice(&header.encode());
    encoded.extend_from_slice(&payload);

    assert!(matches!(
        TdrvFrame::decode(&encoded),
        Err(TealDriveError::PayloadLengthMismatch)
    ));
}

#[test]
fn oversized_payload_rejected() {
    let payload = vec![0_u8; MAX_FRAME_PAYLOAD + 1];
    let header = TdrvHeader::new(MessageType::ListDirectory, RequestId::new(), 0);

    assert!(matches!(
        TdrvFrame::new(header, payload),
        Err(TealDriveError::PayloadTooLarge)
    ));
}

#[test]
fn valid_chunk_roundtrip() {
    let chunk = RawChunk {
        transfer_id: TransferId::new(),
        chunk_index: 7,
        offset: 4096,
        chunk_bytes: b"chunk".to_vec(),
    };

    let encoded = chunk.encode().expect("valid chunk");
    let decoded = RawChunk::decode(&encoded).expect("decoded chunk");

    assert_eq!(decoded, chunk);
}

#[test]
fn truncated_chunk_rejected() {
    assert!(matches!(
        RawChunk::decode(&[0_u8; RAW_CHUNK_HEADER_LEN - 1]),
        Err(TealDriveError::InvalidChunk)
    ));
}

#[test]
fn chunk_len_mismatch_rejected() {
    let chunk = RawChunk {
        transfer_id: TransferId::new(),
        chunk_index: 1,
        offset: 0,
        chunk_bytes: b"abc".to_vec(),
    };
    let mut encoded = chunk.encode().expect("valid chunk");
    encoded[28..32].copy_from_slice(&9_u32.to_be_bytes());

    assert!(matches!(
        RawChunk::decode(&encoded),
        Err(TealDriveError::InvalidChunk)
    ));
}

#[test]
fn oversized_chunk_rejected() {
    let chunk = RawChunk {
        transfer_id: TransferId::new(),
        chunk_index: 1,
        offset: 0,
        chunk_bytes: vec![0_u8; MAX_CHUNK_SIZE + 1],
    };

    assert!(matches!(chunk.encode(), Err(TealDriveError::InvalidChunk)));
}

#[test]
fn big_endian_chunk_fields_parse_correctly() {
    let transfer_id = TransferId::new();
    let chunk = RawChunk {
        transfer_id,
        chunk_index: 0x0102_0304,
        offset: 0x0102_0304_0506_0708,
        chunk_bytes: vec![1, 2, 3],
    };

    let encoded = chunk.encode().expect("valid chunk");
    let decoded = RawChunk::decode(&encoded).expect("decoded chunk");

    assert_eq!(decoded.transfer_id, transfer_id);
    assert_eq!(decoded.chunk_index, 0x0102_0304);
    assert_eq!(decoded.offset, 0x0102_0304_0506_0708);
}

#[test]
fn list_directory_over_max_limit_rejected() {
    let request = ListDirectoryRequest {
        root_id: RootId::new("home"),
        relative_path: RelativePath::new("docs"),
        cursor: None,
        limit: MAX_DIRECTORY_PAGE_SIZE + 1,
        include_hidden: false,
        sort: SortMode::NameAsc,
        filter: FilterMode::default(),
    };

    assert!(matches!(
        request.validate(&Limits::default()),
        Err(TealDriveError::Validation)
    ));
}

#[test]
fn client_hello_too_large_chunk_size_rejected() {
    let mut payload = client_hello();
    payload.max_chunk_size = MAX_CHUNK_SIZE + 1;

    assert!(matches!(
        payload.validate(&Limits::default()),
        Err(TealDriveError::Validation)
    ));
}

#[test]
fn client_hello_within_limits_accepted() {
    assert_eq!(client_hello().validate(&Limits::default()), Ok(()));
}

#[test]
fn download_begin_too_large_chunk_size_rejected() {
    let request = DownloadBeginRequest {
        root_id: RootId::new("home"),
        relative_path: RelativePath::new("file.bin"),
        requested_chunk_size: Some(MAX_CHUNK_SIZE + 1),
    };

    assert!(matches!(
        request.validate(&Limits::default()),
        Err(TealDriveError::Validation)
    ));
}

#[test]
fn read_text_file_too_large_max_bytes_rejected() {
    let request = ReadTextFileRequest {
        root_id: RootId::new("home"),
        relative_path: RelativePath::new("notes.txt"),
        max_bytes: Some(Limits::default().max_text_edit_size + 1),
        encoding: None,
    };

    assert!(matches!(
        request.validate(&Limits::default()),
        Err(TealDriveError::Validation)
    ));
}

#[test]
fn read_text_file_encoding_must_be_utf8() {
    let mut request = ReadTextFileRequest {
        root_id: RootId::new("home"),
        relative_path: RelativePath::new("notes.txt"),
        max_bytes: None,
        encoding: Some("UTF-8".to_owned()),
    };
    assert_eq!(request.validate(&Limits::default()), Ok(()));
    request.encoding = Some("latin-1".to_owned());
    assert_eq!(request.validate(&Limits::default()), Err(TealDriveError::Validation));
}

#[test]
fn upload_chunk_size_limit() {
    let mut request = UploadBeginRequest {
        root_id: RootId::new("home"),
        relative_path: RelativePath::new(""),
        filename: "a.bin".to_owned(),
        total_size: 10,
        chunk_size: MAX_CHUNK_SIZE,
        sha256: None,
    };
    assert_eq!(request.validate(&Limits::default()), Ok(()));
    request.chunk_size = MAX_CHUNK_SIZE + 1;
    assert_eq!(request.validate(&Limits::default()), Err(TealDriveError::Validation));
}

#[test]
fn oversized_control_payload_rejected() {
    assert_eq!(
        check_control_payload(&vec![0_u8; MAX_CONTROL_PAYLOAD + 1]),
        Err(TealDriveError::PayloadTooLarge)
    );
    assert_eq!(check_control_payload(&vec![0_u8; MAX_CONTROL_PAYLOAD]), Ok(()));
}

#[test]
fn fresh_ids_carry_uuid_v4_marks() {
    for _ in 0..8 {
        let r = RequestId::new();
        assert_eq!(r.0[6] & 0xf0, 0x40);
        assert_eq!(r.0[8] & 0xc0, 0x80);
        let t = TransferId::new();
        assert_eq!(t.0[6] & 0xf0, 0x40);
        assert_eq!(t.0[8] & 0xc0, 0x80);
    }
    assert_ne!(RequestId::new(), RequestId::new());
}

#[test]
fn oversized_control_payload_rejected_before_decode() {
    let bytes = vec![0_u8; MAX_CONTROL_PAYLOAD + 1];
    assert_eq!(check_control_payload(&bytes), Err(TealDriveError::PayloadTooLarge));
    assert_eq!(check_control_payload(&bytes[..MAX_CONTROL_PAYLOAD]), Ok(()));
}
