use std::io::Write;

use su3::accessors::trim_padding;
use su3::{
    deserialise, serialise, serialise_into, CodeField, ContentType, FileType, SignatureType,
    Su3, Su3Error,
};

fn package(signature_type: SignatureType) -> Su3 {
    Su3 {
        signature_type,
        file_type: FileType::XmlGz,
        content_type: ContentType::NewsFeed,
        raw_version: b"0.9.50\0\0\0\0\0\0\0\0\0\0".to_vec(),
        raw_signer_id: b"zzz@mail.i2p".to_vec(),
        raw_content: vec![1, 2, 3, 4, 5],
        raw_signature: vec![0xAB; signature_type.length() as usize],
    }
}

#[test]
fn signature_lengths_follow_the_table() {
    assert_eq!(SignatureType::DsaSha1.length(), 40);
    assert_eq!(SignatureType::EcdsaSha256P256.length(), 64);
    assert_eq!(SignatureType::EcdsaSha384P384.length(), 96);
    assert_eq!(SignatureType::EcdsaSha512P521.length(), 132);
    assert_eq!(SignatureType::RsaSha2562048.length(), 256);
    assert_eq!(SignatureType::RsaSha3843072.length(), 384);
    assert_eq!(SignatureType::RsaSha5124096.length(), 512);
    assert_eq!(SignatureType::EddsaSha512Ed25519ph.length(), 64);
}

#[test]
fn signature_length_lookup_is_stable() {
    let t = SignatureType::EcdsaSha512P521;
    assert_eq!(t.length(), t.length());
    assert_eq!(SignatureType::RsaSha3843072.length(), SignatureType::RsaSha3843072.length());
}

#[test]
fn enum_codes() {
    assert_eq!(SignatureType::EddsaSha512Ed25519ph.code(), 8);
    assert_eq!(SignatureType::from_code(8), Some(SignatureType::EddsaSha512Ed25519ph));
    assert_eq!(SignatureType::from_code(7), None);
    assert_eq!(SignatureType::from_code(4), Some(SignatureType::RsaSha2562048));
    assert_eq!(FileType::Exe.code(), 6);
    assert_eq!(FileType::from_code(3), Some(FileType::XmlGz));
    assert_eq!(FileType::from_code(7), None);
    assert_eq!(ContentType::BlocklistFeed.code(), 5);
    assert_eq!(ContentType::from_code(1), Some(ContentType::RouterUpdate));
    assert_eq!(ContentType::from_code(6), None);
}

#[test]
fn defaults() {
    assert_eq!(SignatureType::default(), SignatureType::DsaSha1);
    assert_eq!(FileType::default(), FileType::Zip);
    assert_eq!(ContentType::default(), ContentType::Unknown);
    let p = Su3::default();
    assert_eq!(p.signature_type, SignatureType::DsaSha1);
    assert!(p.raw_version.is_empty() && p.raw_signer_id.is_empty());
    assert!(p.raw_content.is_empty() && p.raw_signature.is_empty());
}

#[test]
fn encoding_of_a_default_package() {
    let p = Su3 { raw_version: vec![0; 16], ..Su3::default() };
    let bytes = serialise(&p).unwrap();
    let mut expected = vec![
        0x49, 0x32, 0x50, 0x73, 0x75, 0x33, 0, 0, 0, 0, 0, 40, 0, 16, 0, 0, 0, 0, 0, 0, 0, 0, 0,
        0, 0, 0, 0, 0,
    ];
    expected.extend_from_slice(&[0; 12]);
    expected.extend_from_slice(&[0; 16]);
    assert_eq!(bytes, expected);
    assert_eq!(bytes.len(), 56);
}

#[test]
fn encoding_header_fields() {
    let p = package(SignatureType::EcdsaSha512P521);
    let bytes = serialise(&p).unwrap();
    assert_eq!(&bytes[8..10], &[0, 3]);
    assert_eq!(&bytes[10..12], &[0, 132]);
    assert_eq!(bytes[13], 16);
    assert_eq!(bytes[15], 12);
    assert_eq!(&bytes[16..24], &[0, 0, 0, 0, 0, 0, 0, 5]);
    assert_eq!(bytes[25], 3);
    assert_eq!(bytes[27], 4);
    assert_eq!(bytes.len(), 40 + 16 + 12 + 5 + 132);
    assert_eq!(&bytes[bytes.len() - 132..], &vec![0xAB; 132][..]);
}

#[test]
fn round_trip_every_signature_type() {
    for t in [
        SignatureType::DsaSha1,
        SignatureType::EcdsaSha256P256,
        SignatureType::EcdsaSha384P384,
        SignatureType::EcdsaSha512P521,
        SignatureType::RsaSha2562048,
        SignatureType::RsaSha3843072,
        SignatureType::RsaSha5124096,
        SignatureType::EddsaSha512Ed25519ph,
    ] {
        let p = package(t);
        let bytes = serialise(&p).unwrap();
        let (rest, q) = deserialise(&bytes).unwrap();
        assert!(rest.is_empty());
        assert_eq!(q, p);
    }
}

#[test]
fn round_trip_with_empty_regions_and_long_version() {
    let p = Su3 {
        signature_type: SignatureType::DsaSha1,
        file_type: FileType::Dmg,
        content_type: ContentType::Plugin,
        raw_version: vec![b'7'; 255],
        raw_signer_id: Vec::new(),
        raw_content: Vec::new(),
        raw_signature: vec![9; 40],
    };
    let bytes = serialise(&p).unwrap();
    assert_eq!(deserialise(&bytes).unwrap(), (&[][..], p));
}

#[test]
fn trailing_bytes_are_returned() {
    let p = package(SignatureType::DsaSha1);
    let mut bytes = serialise(&p).unwrap();
    bytes.extend_from_slice(&[7, 8, 9]);
    let (rest, q) = deserialise(&bytes).unwrap();
    assert_eq!(rest, &[7, 8, 9]);
    assert_eq!(q, p);
}

#[test]
fn signature_longer_than_table_is_cut_on_decode() {
    let mut p = package(SignatureType::DsaSha1);
    p.raw_signature = vec![1; 42];
    let bytes = serialise(&p).unwrap();
    let (rest, q) = deserialise(&bytes).unwrap();
    assert_eq!(rest, &[1, 1]);
    assert_eq!(q.raw_signature, vec![1; 40]);
}

#[test]
fn truncated_header_is_insufficient_data() {
    let bytes = serialise(&package(SignatureType::EcdsaSha256P256)).unwrap();
    for k in 0..40 {
        match deserialise(&bytes[..k]) {
            Err(Su3Error::InsufficientData { .. }) => {}
            other => panic!("length {}: {:?}", k, other),
        }
    }
    assert_eq!(
        deserialise(&bytes[..3]),
        Err(Su3Error::InsufficientData { required: 6, available: 3 })
    );
    assert_eq!(
        deserialise(&bytes[..20]),
        Err(Su3Error::InsufficientData { required: 34, available: 14 })
    );
    assert_eq!(deserialise(&[]), Err(Su3Error::InsufficientData { required: 6, available: 0 }));
}

#[test]
fn truncated_anywhere_is_insufficient_data() {
    let bytes = serialise(&package(SignatureType::EcdsaSha256P256)).unwrap();
    for k in 0..bytes.len() {
        assert!(matches!(
            deserialise(&bytes[..k]),
            Err(Su3Error::InsufficientData { .. })
        ));
    }
    assert_eq!(
        deserialise(&bytes[..50]),
        Err(Su3Error::InsufficientData { required: 16, available: 10 })
    );
    assert_eq!(
        deserialise(&bytes[..60]),
        Err(Su3Error::InsufficientData { required: 12, available: 4 })
    );
    assert_eq!(
        deserialise(&bytes[..70]),
        Err(Su3Error::InsufficientData { required: 5, available: 2 })
    );
    assert_eq!(
        deserialise(&bytes[..bytes.len() - 1]),
        Err(Su3Error::InsufficientData { required: 64, available: 63 })
    );
}

#[test]
fn huge_content_length_is_insufficient_data() {
    let mut bytes = serialise(&package(SignatureType::DsaSha1)).unwrap();
    for b in &mut bytes[16..24] {
        *b = 0xFF;
    }
    assert_eq!(
        deserialise(&bytes),
        Err(Su3Error::InsufficientData { required: u64::MAX, available: 45 })
    );
}

#[test]
fn unknown_file_type_code() {
    let mut bytes = serialise(&package(SignatureType::DsaSha1)).unwrap();
    bytes[25] = 0xFF;
    assert_eq!(
        deserialise(&bytes),
        Err(Su3Error::UnknownEnumCode { field: CodeField::FileType, code: 0xFF })
    );
}

#[test]
fn unknown_signature_and_content_type_codes() {
    let mut bytes = serialise(&package(SignatureType::DsaSha1)).unwrap();
    bytes[9] = 7;
    assert_eq!(
        deserialise(&bytes),
        Err(Su3Error::UnknownEnumCode { field: CodeField::SignatureType, code: 7 })
    );
    let mut bytes = serialise(&package(SignatureType::DsaSha1)).unwrap();
    bytes[27] = 6;
    assert_eq!(
        deserialise(&bytes),
        Err(Su3Error::UnknownEnumCode { field: CodeField::ContentType, code: 6 })
    );
}

#[test]
fn flipped_magic_byte() {
    let mut bytes = serialise(&package(SignatureType::DsaSha1)).unwrap();
    bytes[0] ^= 0xFF;
    assert_eq!(deserialise(&bytes), Err(Su3Error::MagicMismatch));
    let mut bytes = serialise(&package(SignatureType::DsaSha1)).unwrap();
    bytes[5] = b'4';
    assert_eq!(deserialise(&bytes), Err(Su3Error::MagicMismatch));
}

#[test]
fn short_version_is_rejected_on_encode() {
    let mut p = package(SignatureType::DsaSha1);
    p.raw_version = vec![0; 15];
    assert_eq!(serialise(&p), Err(Su3Error::InvalidVersionLength { actual: 15 }));
    let mut out = vec![5u8; 200];
    assert_eq!(
        serialise_into(&p, &mut out),
        Err(Su3Error::InvalidVersionLength { actual: 15 })
    );
    assert_eq!(out, vec![5u8; 200]);
}

#[test]
fn short_version_is_accepted_on_decode() {
    let mut bytes = serialise(&package(SignatureType::DsaSha1)).unwrap();
    bytes[13] = 4;
    let (rest, q) = deserialise(&bytes).unwrap();
    assert_eq!(q.raw_version, b"0.9.".to_vec());
    assert_eq!(q.raw_signer_id, b"50\0\0\0\0\0\0\0\0\0\0".to_vec());
    assert_eq!(rest.len(), 12);
}

#[test]
fn serialise_into_writes_the_front() {
    let p = package(SignatureType::DsaSha1);
    let expected = serialise(&p).unwrap();
    let mut out = vec![0xEEu8; expected.len() + 4];
    assert_eq!(serialise_into(&p, &mut out), Ok(expected.len()));
    assert_eq!(&out[..expected.len()], &expected[..]);
    assert_eq!(&out[expected.len()..], &[0xEE; 4]);
}

#[test]
fn serialise_into_too_small_buffer() {
    let p = package(SignatureType::DsaSha1);
    let n = serialise(&p).unwrap().len();
    let mut out = vec![1u8; n - 1];
    assert_eq!(
        serialise_into(&p, &mut out),
        Err(Su3Error::OutputTooSmall { required: n, available: n - 1 })
    );
    assert_eq!(out, vec![1u8; n - 1]);
}

#[test]
fn version_text_drops_padding() {
    let p = package(SignatureType::DsaSha1);
    assert_eq!(p.version(), Ok("0.9.50".to_string()));
    let mut q = p.clone();
    q.raw_version = b"\0\0abc\0d\0\0".to_vec();
    assert_eq!(q.version(), Ok("abc\0d".to_string()));
    q.raw_version = vec![0; 16];
    assert_eq!(q.version(), Ok(String::new()));
    q.raw_version = vec![0xFF, 0xFE, 0, 0];
    assert_eq!(q.version(), Err(Su3Error::TextDecode));
}

#[test]
fn signer_id_text() {
    let mut p = package(SignatureType::DsaSha1);
    assert_eq!(p.signer_id(), Ok("zzz@mail.i2p".to_string()));
    p.raw_signer_id = vec![0xC3, 0x28];
    assert_eq!(p.signer_id(), Err(Su3Error::TextDecode));
    p.raw_signer_id = Vec::new();
    assert_eq!(p.signer_id(), Ok(String::new()));
}

#[test]
fn trim_padding_both_ends() {
    assert_eq!(trim_padding(b"\0\0ab\0c\0"), b"ab\0c");
    assert_eq!(trim_padding(b"abc"), b"abc");
    assert_eq!(trim_padding(b"\0\0\0"), b"");
    assert_eq!(trim_padding(b""), b"");
}

#[test]
fn gzip_content_is_decompressed() {
    let text = b"<feed>news of the day</feed>".to_vec();
    let mut encoder = flate2::write::GzEncoder::new(Vec::new(), flate2::Compression::default());
    encoder.write_all(&text).unwrap();
    let compressed = encoder.finish().unwrap();
    let mut p = package(SignatureType::DsaSha1);
    p.raw_content = compressed.clone();
    p.file_type = FileType::XmlGz;
    assert_eq!(p.content().unwrap(), text);
    p.file_type = FileType::TxtGz;
    assert_eq!(p.content().unwrap(), text);
    p.file_type = FileType::Zip;
    assert_eq!(p.content().unwrap(), compressed);
}

#[test]
fn malformed_gzip_content_fails() {
    let mut p = package(SignatureType::DsaSha1);
    p.file_type = FileType::TxtGz;
    p.raw_content = vec![1, 2, 3, 4, 5, 6, 7, 8, 9, 10, 11, 12];
    assert!(p.content().is_err());
    p.file_type = FileType::Html;
    assert_eq!(p.content().unwrap(), vec![1, 2, 3, 4, 5, 6, 7, 8, 9, 10, 11, 12]);
}
