use base64::Engine;
use flate2::write::{GzEncoder, ZlibEncoder};
use idl_verification::account::{Compression, DataSource, Encoding, Format, Metadata};
use idl_verification::address::Address;
use idl_verification::bytes::{append_bytes, bytes_equal, copy_range, read_le_u32};
use idl_verification::content::{
    decode_data, decode_packed_bytes, ensure_success_status, packed_metadata_data,
    resolve_external_content, resolve_metadata_content_bytes, resolve_url_content,
    uncompress_data, unpack_external_data, ContentError, ContentStep, ExternalMetadataData,
};
use idl_verification::metadata::{IdlVerificationMetadata, MetadataFault};
use idl_verification::outcome::{
    idl_hash_from_bytes, idl_verification_outcome_lines, reproduce_idl, reproduced_idl_path,
    verify_idl_against_on_chain, IdlVerificationOutcome,
};
use idl_verification::target::MetadataTarget;
use std::io::Write;

fn filled(byte: u8) -> Address {
    Address { bytes: [byte; 32] }
}

fn gzip(data: &[u8]) -> Vec<u8> {
    let mut encoder = GzEncoder::new(Vec::new(), flate2::Compression::default());
    encoder.write_all(data).unwrap();
    encoder.finish().unwrap()
}

fn zlib(data: &[u8]) -> Vec<u8> {
    let mut encoder = ZlibEncoder::new(Vec::new(), flate2::Compression::default());
    encoder.write_all(data).unwrap();
    encoder.finish().unwrap()
}

fn metadata(source: DataSource, compression: Compression, encoding: Encoding, packed: &[u8]) -> Metadata {
    let mut data = vec![7; 5];
    data.extend_from_slice(packed);
    data.extend_from_slice(&[8, 8]);
    Metadata {
        program: filled(1),
        authority: filled(0),
        mutable: true,
        canonical: true,
        seed: [0; 16],
        encoding,
        compression,
        format: Format::Json,
        data_source: source,
        data_length: packed.len() as u32,
        data,
    }
}

fn done(step: Result<ContentStep, ContentError>) -> Vec<u8> {
    match step {
        Ok(ContentStep::Done(content)) => content,
        other => panic!("{other:?}"),
    }
}

#[test]
fn packed_data_follows_the_padding() {
    let mut account =
        metadata(DataSource::Direct, Compression::Uncompressed, Encoding::Utf8, b"abc");
    assert_eq!(packed_metadata_data(&account).unwrap(), b"abc");
    account.data_length = 5;
    assert_eq!(packed_metadata_data(&account).unwrap(), b"abc\x08\x08");
    account.data_length = 6;
    assert!(matches!(packed_metadata_data(&account), Err(ContentError::LengthExceedsData)));
    account.data_length = u32::MAX;
    assert!(matches!(
        resolve_metadata_content_bytes(&account),
        Err(ContentError::LengthExceedsData)
    ));
}

#[test]
fn compressed_bytes_are_uncompressed() {
    let text = b"{\"a\":1}".repeat(50);
    assert_eq!(uncompress_data(&text, Compression::Uncompressed).unwrap(), text);
    assert_eq!(uncompress_data(&gzip(&text), Compression::Gzip).unwrap(), text);
    assert_eq!(uncompress_data(&zlib(&text), Compression::Zlib).unwrap(), text);
    assert!(matches!(uncompress_data(&zlib(&text), Compression::Gzip), Err(ContentError::Gzip(_))));
    assert!(matches!(uncompress_data(&gzip(&text), Compression::Zlib), Err(ContentError::Zlib(_))));
    assert!(uncompress_data(&gzip(&text)[..20], Compression::Gzip).is_err());
}

#[test]
fn encoded_bytes_are_decoded() {
    assert_eq!(decode_data(b"\xff\x00", Encoding::Raw).unwrap(), b"\xff\x00");
    assert_eq!(decode_data(b"\xff\x00", Encoding::Utf8).unwrap(), b"\xff\x00");
    assert_eq!(decode_data(b"StV1DL6CwTryKyV", Encoding::Base58).unwrap(), b"hello world");
    assert_eq!(decode_data(b"aGVsbG8=", Encoding::Base64).unwrap(), b"hello");
    assert!(matches!(decode_data(b"0OIl", Encoding::Base58), Err(ContentError::Base58(_))));
    assert!(matches!(decode_data(b"\xff", Encoding::Base58), Err(ContentError::Base58NotUtf8(_))));
    assert!(matches!(decode_data(b"aGVsbG8", Encoding::Base64), Err(ContentError::Base64(_))));
    assert!(matches!(decode_data(b"\xff", Encoding::Base64), Err(ContentError::Base64NotUtf8(_))));
}

#[test]
fn bytes_are_uncompressed_before_they_are_decoded() {
    let encoded = base64::prelude::BASE64_STANDARD.encode(b"content");
    let packed = gzip(encoded.as_bytes());
    assert_eq!(
        decode_packed_bytes(&packed, Compression::Gzip, Encoding::Base64).unwrap(),
        b"content"
    );
    assert!(matches!(
        decode_packed_bytes(b"plain", Compression::Zlib, Encoding::Base64),
        Err(ContentError::Zlib(_))
    ));
}

#[test]
fn direct_content_is_in_the_account() {
    let account = metadata(
        DataSource::Direct,
        Compression::Uncompressed,
        Encoding::Utf8,
        b"{\"a\":1}",
    );
    assert_eq!(done(resolve_metadata_content_bytes(&account)), b"{\"a\":1}");
    let packed = zlib(b"42");
    let account = metadata(DataSource::Direct, Compression::Zlib, Encoding::Raw, &packed);
    assert_eq!(done(resolve_metadata_content_bytes(&account)), b"42");
    let account = metadata(DataSource::Direct, Compression::Gzip, Encoding::Raw, b"not gzip");
    assert!(matches!(resolve_metadata_content_bytes(&account), Err(ContentError::Gzip(_))));
}

#[test]
fn url_is_to_be_fetched() {
    let account = metadata(
        DataSource::Url,
        Compression::Uncompressed,
        Encoding::Utf8,
        "https://example.com/\u{e9}".as_bytes(),
    );
    assert!(matches!(
        resolve_metadata_content_bytes(&account),
        Ok(ContentStep::FetchUrl(url)) if url == "https://example.com/\u{e9}"
    ));
    let account =
        metadata(DataSource::Url, Compression::Uncompressed, Encoding::Raw, b"\xc3\x28");
    assert!(matches!(resolve_metadata_content_bytes(&account), Err(ContentError::UrlNotUtf8(_))));
}

#[test]
fn body_behind_a_url_is_the_content_as_it_came() {
    let body = gzip(b"aGk=");
    assert_eq!(resolve_url_content(200, body.clone()).unwrap(), body);
    assert_eq!(resolve_url_content(204, vec![]).unwrap(), b"");
    assert!(matches!(resolve_url_content(404, body.clone()), Err(ContentError::UrlStatus)));
    assert!(matches!(resolve_url_content(301, body), Err(ContentError::UrlStatus)));
}

#[test]
fn every_level_of_compression_is_undone() {
    let texts = [b"".to_vec(), b"a".to_vec(), (0..=255u8).cycle().take(5000).collect()];
    for level in 0..=9 {
        for text in &texts {
            let mut encoder = GzEncoder::new(Vec::new(), flate2::Compression::new(level));
            encoder.write_all(text).unwrap();
            let packed = encoder.finish().unwrap();
            assert_eq!(&uncompress_data(&packed, Compression::Gzip).unwrap(), text);
            let mut encoder = ZlibEncoder::new(Vec::new(), flate2::Compression::new(level));
            encoder.write_all(text).unwrap();
            let packed = encoder.finish().unwrap();
            assert_eq!(&uncompress_data(&packed, Compression::Zlib).unwrap(), text);
        }
    }
}

#[test]
fn bytes_without_the_gzip_mark_are_refused() {
    let packed = gzip(b"text");
    for at in 0..3 {
        let mut other = packed.clone();
        other[at] ^= 1;
        assert!(matches!(
            uncompress_data(&other, Compression::Gzip),
            Err(ContentError::Gzip(_))
        ));
    }
    for short in [&b""[..], b"\x1f", b"\x1f\x8b"] {
        assert!(matches!(uncompress_data(short, Compression::Gzip), Err(ContentError::Gzip(_))));
    }
}

#[test]
fn decoding_undoes_encoding() {
    let texts: [&[u8]; 7] =
        [b"", b"\0", b"\0\0a", b"hi", b"\xff\xfe\xfd", b"\0\0\0\0", b"seven b\0"];
    for text in texts {
        let base58 = bs58::encode(text).into_string();
        assert_eq!(decode_data(base58.as_bytes(), Encoding::Base58).unwrap(), text);
        let base64 = base64::prelude::BASE64_STANDARD.encode(text);
        assert_eq!(decode_data(base64.as_bytes(), Encoding::Base64).unwrap(), text);
    }
    assert_eq!(decode_data(b"11", Encoding::Base58).unwrap(), [0, 0]);
    assert_eq!(decode_data(b"12g", Encoding::Base58).unwrap(), [0, b'a']);
    assert_eq!(decode_data(b"5R", Encoding::Base58).unwrap(), [1, 0]);
}

#[test]
fn only_the_one_base64_form_is_taken() {
    for text in ["aGk", "aGl=", "a===", "aGk=aGk=", "aG k=", "aGk=\n", "-_8=", "aGVsbG8\u{e9}"] {
        assert!(matches!(
            decode_data(text.as_bytes(), Encoding::Base64),
            Err(ContentError::Base64(_))
        ));
    }
    assert_eq!(decode_data(b"aGk=", Encoding::Base64).unwrap(), b"hi");
    assert_eq!(decode_data(b"+/8=", Encoding::Base64).unwrap(), [0xfb, 0xff]);
    assert_eq!(decode_data(b"", Encoding::Base64).unwrap(), b"");
}

#[test]
fn base58_alphabet_is_that_of_bitcoin() {
    for c in (0..=255u8).map(char::from) {
        let taken = decode_data(c.to_string().as_bytes(), Encoding::Base58).is_ok();
        let expected = c.is_ascii_alphanumeric() && !"0OIl".contains(c);
        assert_eq!(taken, expected, "{c:?}");
    }
}

#[test]
fn success_statuses_are_the_two_hundreds() {
    assert!(ensure_success_status(200).is_ok());
    assert!(ensure_success_status(299).is_ok());
    for status in [0, 100, 199, 300, 404, 500, 999] {
        assert!(matches!(ensure_success_status(status), Err(ContentError::UrlStatus)));
    }
}

fn pointer(offset: u32, length: u32) -> Vec<u8> {
    let mut data = vec![3; 32];
    data.extend_from_slice(&offset.to_le_bytes());
    data.extend_from_slice(&length.to_le_bytes());
    data
}

#[test]
fn external_pointer_reads_back() {
    let mut data = pointer(0x0102_0304, 0x0a0b_0c0d);
    data.push(1);
    let read = unpack_external_data(&data).unwrap();
    assert_eq!(read.address, filled(3));
    assert_eq!(read.offset, 0x0102_0304);
    assert_eq!(read.length, Some(0x0a0b_0c0d));
    assert_eq!(unpack_external_data(&pointer(5, 0)).unwrap().length, None);
    assert!(matches!(unpack_external_data(&data[..39]), Err(ContentError::PointerTooShort)));
}

#[test]
fn external_account_is_to_be_fetched() {
    let account = metadata(
        DataSource::External,
        Compression::Gzip,
        Encoding::Base58,
        &pointer(2, 3),
    );
    match resolve_metadata_content_bytes(&account) {
        Ok(ContentStep::FetchAccount(external)) => {
            assert_eq!(external.address, filled(3));
            assert_eq!(external.offset, 2);
            assert_eq!(external.length, Some(3));
        }
        other => panic!("{other:?}"),
    }
    let account =
        metadata(DataSource::External, Compression::Uncompressed, Encoding::Raw, b"short");
    assert!(matches!(resolve_metadata_content_bytes(&account), Err(ContentError::PointerTooShort)));
}

#[test]
fn external_content_is_picked_and_unpacked() {
    let at = |offset: u32, length: Option<u32>| ExternalMetadataData {
        address: filled(3),
        offset,
        length,
    };
    let read = |external: ExternalMetadataData, data: &[u8]| {
        resolve_external_content(&external, data, Compression::Uncompressed, Encoding::Utf8)
    };
    assert_eq!(read(at(2, Some(3)), b"0123456").unwrap(), b"234");
    assert_eq!(read(at(2, None), b"0123456").unwrap(), b"23456");
    assert_eq!(read(at(7, None), b"0123456").unwrap(), b"");
    assert_eq!(read(at(2, Some(5)), b"0123456").unwrap(), b"23456");
    assert!(matches!(read(at(8, None), b"0123456"), Err(ContentError::OffsetExceedsData)));
    assert!(matches!(read(at(2, Some(6)), b"0123456"), Err(ContentError::LengthExceedsRemaining)));
    let mut data = vec![9; 4];
    data.extend(gzip(b"aGk="));
    assert_eq!(
        resolve_external_content(&at(4, None), &data, Compression::Gzip, Encoding::Base64).unwrap(),
        b"hi"
    );
    assert!(matches!(
        resolve_external_content(&at(0, None), &data, Compression::Gzip, Encoding::Base64),
        Err(ContentError::Gzip(_))
    ));
}

#[test]
fn byte_helpers_keep_order() {
    assert!(bytes_equal(b"abc", b"abc"));
    assert!(!bytes_equal(b"abc", b"abd"));
    assert!(!bytes_equal(b"abc", b"ab"));
    assert_eq!(copy_range(b"abcdef", 2, 4), b"cd");
    assert_eq!(copy_range(b"abcdef", 6, 6), b"");
    let mut data = b"ab".to_vec();
    append_bytes(&mut data, b"cd");
    assert_eq!(data, b"abcd");
    assert_eq!(read_le_u32(&[0, 0x78, 0x56, 0x34, 0x12], 1), 0x1234_5678);
    assert_eq!(read_le_u32(&[0xff; 4], 0), u32::MAX);
}

#[test]
fn idl_hash_uses_exact_raw_bytes() {
    let hash_a = idl_hash_from_bytes(b"{\"a\":1}\0");
    let hash_b = idl_hash_from_bytes(b"{\"a\":1}");
    assert_ne!(hash_a, hash_b);
}

#[test]
fn idl_hash_is_sha256_in_hexadecimal() {
    assert_eq!(
        idl_hash_from_bytes(b"hello"),
        "2cf24dba5fb0a30e26e83b2ac5b9e29e1b161e5c1fa7425e73043362938b9824"
    );
}

fn compared(on_chain: &[u8]) -> IdlVerificationOutcome {
    let target = MetadataTarget { authority: filled(4), canonical: true, program_data: None };
    let reproduced = reproduce_idl("repo/idl.json".to_string(), b"hello".to_vec());
    assert_eq!(reproduced.path, "repo/idl.json");
    assert_eq!(reproduced.sha256, idl_hash_from_bytes(b"hello"));
    verify_idl_against_on_chain(&filled(1), on_chain, &target, reproduced, &filled(2))
}

#[test]
fn comparison_is_byte_by_byte() {
    let outcome = compared(b"hello");
    assert!(outcome.success);
    assert_eq!(outcome.reproduced_hash, outcome.on_chain_hash);
    assert_eq!(outcome.idl_account, filled(1));
    assert_eq!(outcome.idl_verification_account, filled(2));
    assert_eq!(outcome.authority, filled(4));
    assert!(outcome.canonical);
    assert_eq!(outcome.reproduced_path, "repo/idl.json");

    let outcome = compared(b"hello\0");
    assert!(!outcome.success);
    assert_eq!(outcome.reproduced_hash, idl_hash_from_bytes(b"hello"));
    assert_eq!(outcome.on_chain_hash, idl_hash_from_bytes(b"hello\0"));
}

#[test]
fn outcome_is_told_line_by_line() {
    let text = |byte: u8| solana_address::Address::new_from_array([byte; 32]).to_string();
    let hash = idl_hash_from_bytes(b"hello");
    assert_eq!(
        idl_verification_outcome_lines(&compared(b"hello")),
        vec![
            "Verified IDL Path: repo/idl.json".to_string(),
            format!("IDL Metadata Account: {}", text(1)),
            format!("IDL Verification Metadata Account: {}", text(2)),
            format!("IDL Metadata Authority: {}", text(4)),
            format!("IDL Hash from repo: {hash}"),
            format!("On-chain IDL Hash: {hash}"),
            "IDL Verification: success ✅".to_string(),
        ]
    );
    assert_eq!(
        idl_verification_outcome_lines(&compared(b"other"))[6],
        "IDL Verification: failed ❌"
    );
}

#[test]
fn addresses_are_told_in_base58() {
    for zeros in [0, 1, 5, 31, 32] {
        let mut account = filled(0xe7);
        account.bytes[..zeros].fill(0);
        let mut outcome = compared(b"hello");
        outcome.idl_account = account;
        assert_eq!(
            idl_verification_outcome_lines(&outcome)[1],
            format!("IDL Metadata Account: {}", bs58::encode(account.bytes).into_string())
        );
    }
}

#[test]
fn reproduction_reads_the_file_of_a_valid_record() {
    let mut record = IdlVerificationMetadata::new(
        "https://example.com".to_string(),
        "abc".to_string(),
        "idl/program.json".to_string(),
    )
    .unwrap();
    assert_eq!(reproduced_idl_path("/tmp/repo", &record).unwrap(), "/tmp/repo/idl/program.json");
    record.commit = " ".to_string();
    assert_eq!(reproduced_idl_path("/tmp/repo", &record), Err(MetadataFault::BlankCommit));
}
