//! The wire format as mathematics: what a package encodes to, and what a
//! byte sequence decodes to. All multi-byte integers are big-endian.

use vstd::prelude::*;

use crate::{CodeField, ContentType, FileType, SignatureType, Su3Error, Su3Model};

verus! {

/// Length of the fixed header that precedes the four byte regions
pub const HEADER_LEN: usize = 40;

/// The literal `I2Psu3` that opens every package
pub open spec fn magic() -> Seq<u8> {
    seq![0x49u8, 0x32u8, 0x50u8, 0x73u8, 0x75u8, 0x33u8]
}

/// The two bytes of `v`, most significant first
pub open spec fn u16_bytes(v: u16) -> Seq<u8> {
    seq![(v >> 8u16) as u8, v as u8]
}

/// The eight bytes of `v`, most significant first
pub open spec fn u64_bytes(v: u64) -> Seq<u8> {
    seq![
        (v >> 56u64) as u8,
        (v >> 48u64) as u8,
        (v >> 40u64) as u8,
        (v >> 32u64) as u8,
        (v >> 24u64) as u8,
        (v >> 16u64) as u8,
        (v >> 8u64) as u8,
        v as u8,
    ]
}

/// The 16-bit integer stored big-endian at `b[i]`, `b[i + 1]`
pub open spec fn be_u16_at(b: Seq<u8>, i: int) -> u16 {
    ((b[i] as u16) << 8u16) | (b[i + 1] as u16)
}

/// The 64-bit integer stored big-endian at `b[i]` .. `b[i + 7]`
pub open spec fn be_u64_at(b: Seq<u8>, i: int) -> u64 {
    ((b[i] as u64) << 56u64) | ((b[i + 1] as u64) << 48u64) | ((b[i + 2] as u64) << 40u64) | ((
    b[i + 3] as u64) << 32u64) | ((b[i + 4] as u64) << 24u64) | ((b[i + 5] as u64) << 16u64) | ((
    b[i + 6] as u64) << 8u64) | (b[i + 7] as u64)
}

/// The fixed header of a package; lengths of more than 255 bytes are kept
/// modulo 256 in the one-byte length fields
pub open spec fn header(m: Su3Model) -> Seq<u8> {
    magic() + seq![0u8, 0u8] + u16_bytes(m.signature_type.spec_code()) + u16_bytes(
        m.signature_type.spec_length(),
    ) + seq![0u8, (m.raw_version.len() % 256) as u8, 0u8, (m.raw_signer_id.len() % 256) as u8]
        + u64_bytes(m.raw_content.len() as u64) + seq![
        0u8,
        m.file_type.spec_code(),
        0u8,
        m.content_type.spec_code(),
    ] + Seq::new(12, |i: int| 0u8)
}

/// The bytes a package encodes to: the header, then the four regions verbatim
pub open spec fn encoding(m: Su3Model) -> Seq<u8> {
    header(m) + m.raw_version + m.raw_signer_id + m.raw_content + m.raw_signature
}

/// Whether `b` opens with the magic literal
pub open spec fn has_magic(b: Seq<u8>) -> bool {
    b.subrange(0, 6) == magic()
}

/// What decoding `b` gives: the bytes left after the signature and the
/// package, or the first error met in field order
pub open spec fn parse(b: Seq<u8>) -> Result<(Seq<u8>, Su3Model), Su3Error> {
    if b.len() < 6 {
        Err(Su3Error::InsufficientData { required: 6, available: b.len() as u64 })
    } else if !has_magic(b) {
        Err(Su3Error::MagicMismatch)
    } else if b.len() < 40 {
        Err(Su3Error::InsufficientData { required: 34, available: (b.len() - 6) as u64 })
    } else {
        let version_len = b[13] as int;
        let signer_len = b[15] as int;
        let content_len = be_u64_at(b, 16) as int;
        let signature_len = be_u16_at(b, 10) as int;
        let version_end = 40 + version_len;
        let signer_end = version_end + signer_len;
        let content_end = signer_end + content_len;
        let signature_end = content_end + signature_len;
        if b.len() < version_end {
            Err(Su3Error::InsufficientData {
                required: version_len as u64,
                available: (b.len() - 40) as u64,
            })
        } else if b.len() < signer_end {
            Err(Su3Error::InsufficientData {
                required: signer_len as u64,
                available: (b.len() - version_end) as u64,
            })
        } else if b.len() < content_end {
            Err(Su3Error::InsufficientData {
                required: content_len as u64,
                available: (b.len() - signer_end) as u64,
            })
        } else if b.len() < signature_end {
            Err(Su3Error::InsufficientData {
                required: signature_len as u64,
                available: (b.len() - content_end) as u64,
            })
        } else {
            let signature_code = be_u16_at(b, 8);
            match SignatureType::spec_from_code(signature_code) {
                None => Err(
                    Su3Error::UnknownEnumCode {
                        field: CodeField::SignatureType,
                        code: signature_code,
                    },
                ),
                Some(signature_type) => match FileType::spec_from_code(b[25]) {
                    None => Err(
                        Su3Error::UnknownEnumCode { field: CodeField::FileType, code: b[25] as u16 },
                    ),
                    Some(file_type) => match ContentType::spec_from_code(b[27]) {
                        None => Err(
                            Su3Error::UnknownEnumCode {
                                field: CodeField::ContentType,
                                code: b[27] as u16,
                            },
                        ),
                        Some(content_type) => Ok(
                            (
                                b.subrange(signature_end, b.len() as int),
                                Su3Model {
                                    signature_type,
                                    file_type,
                                    content_type,
                                    raw_version: b.subrange(40, version_end),
                                    raw_signer_id: b.subrange(version_end, signer_end),
                                    raw_content: b.subrange(signer_end, content_end),
                                    raw_signature: b.subrange(content_end, signature_end),
                                },
                            ),
                        ),
                    },
                },
            }
        }
    }
}

} // verus!
