//! Decoding a byte buffer into a package.

use vstd::prelude::*;
use vstd::slice::slice_to_vec;

use crate::format::{be_u16_at, be_u64_at, has_magic, magic, parse, HEADER_LEN};
use crate::{CodeField, ContentType, FileType, SignatureType, Su3, Su3Error};

verus! {

/// The `len` bytes of `data` that start at `pos`, or `InsufficientData` when
/// fewer remain
fn take(data: &[u8], pos: usize, len: u64) -> (r: Result<&[u8], Su3Error>)
    requires
        pos <= data@.len(),
    ensures
        match r {
            Ok(s) => len <= data@.len() - pos && s@ == data@.subrange(
                pos as int,
                pos + len as int,
            ),
            Err(e) => len > data@.len() - pos && e == (Su3Error::InsufficientData {
                required: len,
                available: (data@.len() - pos) as u64,
            }),
        },
{
    let available = data.len() - pos;
    if (available as u64) < len {
        Err(Su3Error::InsufficientData { required: len, available: available as u64 })
    } else {
        Ok(&data[pos..pos + len as usize])
    }
}

/// Decode a package from the start of `data`; returns the bytes that follow
/// the signature together with the package. Trailing bytes are left to the
/// caller, and a version region shorter than 16 bytes is accepted.
pub fn deserialise(data: &[u8]) -> (r: Result<(&[u8], Su3), Su3Error>)
    ensures
        match r {
            Ok((rest, p)) => parse(data@) == Ok::<_, Su3Error>((rest@, p@)),
            Err(e) => parse(data@) == Err::<(Seq<u8>, crate::Su3Model), _>(e),
        },
{
    let n = data.len();
    if n < 6 {
        return Err(Su3Error::InsufficientData { required: 6, available: n as u64 });
    }
    if !(data[0] == 0x49 && data[1] == 0x32 && data[2] == 0x50 && data[3] == 0x73 && data[4]
        == 0x75 && data[5] == 0x33) {
        proof {
            if has_magic(data@) {
                assert(data@.subrange(0, 6)[0] == magic()[0]);
                assert(data@.subrange(0, 6)[1] == magic()[1]);
                assert(data@.subrange(0, 6)[2] == magic()[2]);
                assert(data@.subrange(0, 6)[3] == magic()[3]);
                assert(data@.subrange(0, 6)[4] == magic()[4]);
                assert(data@.subrange(0, 6)[5] == magic()[5]);
            }
        }
        return Err(Su3Error::MagicMismatch);
    }
    assert(data@.subrange(0, 6) =~= magic());
    if n < HEADER_LEN {
        return Err(Su3Error::InsufficientData { required: 34, available: (n - 6) as u64 });
    }
    let signature_code: u16 = ((data[8] as u16) << 8u16) | (data[9] as u16);
    let signature_len: u16 = ((data[10] as u16) << 8u16) | (data[11] as u16);
    let version_len: u8 = data[13];
    let signer_len: u8 = data[15];
    let content_len: u64 = ((data[16] as u64) << 56u64) | ((data[17] as u64) << 48u64) | ((
    data[18] as u64) << 40u64) | ((data[19] as u64) << 32u64) | ((data[20] as u64) << 24u64) | ((
    data[21] as u64) << 16u64) | ((data[22] as u64) << 8u64) | (data[23] as u64);
    let file_code: u8 = data[25];
    let content_code: u8 = data[27];
    assert(signature_code == be_u16_at(data@, 8));
    assert(signature_len == be_u16_at(data@, 10));
    assert(content_len == be_u64_at(data@, 16));

    let raw_version = take(data, HEADER_LEN, version_len as u64)?;
    let pos: usize = HEADER_LEN + version_len as usize;
    let raw_signer_id = take(data, pos, signer_len as u64)?;
    let pos: usize = pos + signer_len as usize;
    let raw_content = take(data, pos, content_len)?;
    let pos: usize = pos + content_len as usize;
    let raw_signature = take(data, pos, signature_len as u64)?;
    let pos: usize = pos + signature_len as usize;

    let signature_type = match SignatureType::from_code(signature_code) {
        Some(t) => t,
        None => {
            return Err(
                Su3Error::UnknownEnumCode { field: CodeField::SignatureType, code: signature_code },
            );
        },
    };
    let file_type = match FileType::from_code(file_code) {
        Some(t) => t,
        None => {
            return Err(
                Su3Error::UnknownEnumCode { field: CodeField::FileType, code: file_code as u16 },
            );
        },
    };
    let content_type = match ContentType::from_code(content_code) {
        Some(t) => t,
        None => {
            return Err(
                Su3Error::UnknownEnumCode {
                    field: CodeField::ContentType,
                    code: content_code as u16,
                },
            );
        },
    };
    let su3 = Su3 {
        signature_type,
        file_type,
        content_type,
        raw_version: slice_to_vec(raw_version),
        raw_signer_id: slice_to_vec(raw_signer_id),
        raw_content: slice_to_vec(raw_content),
        raw_signature: slice_to_vec(raw_signature),
    };
    let rest = &data[pos..n];
    Ok((rest, su3))
}

} // verus!
