//! Encoding a package into bytes.

use vstd::prelude::*;
use vstd::slice::slice_to_vec;

use crate::format::{encoding, header, magic, u16_bytes, u64_bytes};
use crate::{Su3, Su3Error, MIN_VERSION_LENGTH};

verus! {

/// Append the bytes of `b` to `out`
fn append_bytes(out: &mut Vec<u8>, b: &[u8])
    ensures
        final(out)@ == old(out)@ + b@,
{
    let mut copy = slice_to_vec(b);
    out.append(&mut copy);
}

/// Encode a package. The signature-length field holds the table length of the
/// declared algorithm whatever the signature region holds; the one-byte
/// length fields of the version and signer id keep their lengths modulo 256.
/// Fails, with nothing written, when the version region holds fewer than 16
/// bytes.
pub fn serialise(su3: &Su3) -> (r: Result<Vec<u8>, Su3Error>)
    ensures
        match r {
            Ok(v) => su3.raw_version@.len() >= MIN_VERSION_LENGTH && v@ == encoding(su3@),
            Err(e) => su3.raw_version@.len() < MIN_VERSION_LENGTH && e
                == (Su3Error::InvalidVersionLength { actual: su3.raw_version@.len() as usize }),
        },
{
    let version_len = su3.raw_version.len();
    if version_len < MIN_VERSION_LENGTH {
        return Err(Su3Error::InvalidVersionLength { actual: version_len });
    }
    let mut out: Vec<u8> = Vec::new();
    out.push(0x49);
    out.push(0x32);
    out.push(0x50);
    out.push(0x73);
    out.push(0x75);
    out.push(0x33);
    out.push(0);
    out.push(0);
    let code = su3.signature_type.code();
    out.push((code >> 8u16) as u8);
    out.push(code as u8);
    let signature_len = su3.signature_type.length();
    out.push((signature_len >> 8u16) as u8);
    out.push(signature_len as u8);
    out.push(0);
    out.push((version_len % 256) as u8);
    out.push(0);
    out.push((su3.raw_signer_id.len() % 256) as u8);
    let content_len = su3.raw_content.len() as u64;
    out.push((content_len >> 56u64) as u8);
    out.push((content_len >> 48u64) as u8);
    out.push((content_len >> 40u64) as u8);
    out.push((content_len >> 32u64) as u8);
    out.push((content_len >> 24u64) as u8);
    out.push((content_len >> 16u64) as u8);
    out.push((content_len >> 8u64) as u8);
    out.push(content_len as u8);
    out.push(0);
    out.push(su3.file_type.code());
    out.push(0);
    out.push(su3.content_type.code());
    let mut i: usize = 0;
    while i < 12
        invariant
            0 <= i <= 12,
            out@.len() == 28 + i,
            forall|k: int| 28 <= k < out@.len() ==> out@[k] == 0,
            forall|k: int| 0 <= k < 28 ==> out@[k] == #[trigger] header(su3@)[k],
        decreases 12 - i,
    {
        out.push(0);
        i = i + 1;
    }
    assert(out@ =~= header(su3@));
    append_bytes(&mut out, su3.raw_version.as_slice());
    append_bytes(&mut out, su3.raw_signer_id.as_slice());
    append_bytes(&mut out, su3.raw_content.as_slice());
    append_bytes(&mut out, su3.raw_signature.as_slice());
    Ok(out)
}

/// Encode a package into the front of `out` and return the number of bytes
/// written. Fails with `InvalidVersionLength` as `serialise` does, and with
/// `OutputTooSmall` when `out` cannot hold the encoding; `out` is left as it
/// was on failure.
pub fn serialise_into(su3: &Su3, out: &mut [u8]) -> (r: Result<usize, Su3Error>)
    ensures
        match r {
            Ok(n) => su3.raw_version@.len() >= MIN_VERSION_LENGTH && n == encoding(su3@).len()
                && n <= old(out)@.len() && final(out)@ == encoding(su3@) + old(out)@.subrange(
                n as int,
                old(out)@.len() as int,
            ),
            Err(e) => final(out)@ == old(out)@ && if su3.raw_version@.len() < MIN_VERSION_LENGTH {
                e == (Su3Error::InvalidVersionLength { actual: su3.raw_version@.len() as usize })
            } else {
                encoding(su3@).len() > old(out)@.len() && e == (Su3Error::OutputTooSmall {
                    required: encoding(su3@).len() as usize,
                    available: old(out)@.len() as usize,
                })
            },
        },
{
    let bytes = serialise(su3)?;
    let n = bytes.len();
    if n > out.len() {
        return Err(Su3Error::OutputTooSmall { required: n, available: out.len() });
    }
    let mut i: usize = 0;
    while i < n
        invariant
            0 <= i <= n,
            n == bytes@.len(),
            n <= old(out)@.len(),
            out@.len() == old(out)@.len(),
            forall|k: int| 0 <= k < i ==> out@[k] == bytes@[k],
            forall|k: int| i <= k < out@.len() ==> out@[k] == old(out)@[k],
        decreases n - i,
    {
        out[i] = bytes[i];
        i = i + 1;
    }
    assert(out@ =~= bytes@ + old(out)@.subrange(n as int, old(out)@.len() as int));
    Ok(n)
}

} // verus!
