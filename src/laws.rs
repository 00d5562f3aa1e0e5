//! Laws that relate encoding and decoding.

use vstd::prelude::*;

use crate::format::{
    be_u16_at, be_u64_at, encoding, has_magic, header, magic, parse, u16_bytes, u64_bytes,
};
use crate::{CodeField, ContentType, FileType, SignatureType, Su3Error, Su3Model};

verus! {

/// Reading back the two bytes of a 16-bit integer gives the integer
pub proof fn lemma_u16_bytes(v: u16)
    ensures
        be_u16_at(u16_bytes(v), 0) == v,
{
    assert((((((v >> 8u16) as u8) as u16) << 8u16) | ((v as u8) as u16)) == v) by (bit_vector);
}

/// Reading back the eight bytes of a 64-bit integer gives the integer
pub proof fn lemma_u64_bytes(v: u64)
    ensures
        be_u64_at(u64_bytes(v), 0) == v,
{
    assert((((((v >> 56u64) as u8) as u64) << 56u64) | ((((v >> 48u64) as u8) as u64) << 48u64)
        | ((((v >> 40u64) as u8) as u64) << 40u64) | ((((v >> 32u64) as u8) as u64) << 32u64) | ((((
    v >> 24u64) as u8) as u64) << 24u64) | ((((v >> 16u64) as u8) as u64) << 16u64) | ((((v
        >> 8u64) as u8) as u64) << 8u64) | ((v as u8) as u64)) == v) by (bit_vector);
}

/// Each enum's wire code looks up to the same variant
pub proof fn lemma_codes_round_trip(s: SignatureType, f: FileType, c: ContentType)
    ensures
        SignatureType::spec_from_code(s.spec_code()) == Some(s),
        FileType::spec_from_code(f.spec_code()) == Some(f),
        ContentType::spec_from_code(c.spec_code()) == Some(c),
{
}

/// The fields of the header sit where the decoder reads them
proof fn lemma_header_fields(m: Su3Model)
    requires
        m.raw_content.len() <= u64::MAX,
    ensures
        header(m).len() == 40,
        encoding(m).len() == 40 + m.raw_version.len() + m.raw_signer_id.len()
            + m.raw_content.len() + m.raw_signature.len(),
        forall|i: int| 0 <= i < 40 ==> #[trigger] encoding(m)[i] == header(m)[i],
        has_magic(encoding(m)),
        be_u16_at(encoding(m), 8) == m.signature_type.spec_code(),
        be_u16_at(encoding(m), 10) == m.signature_type.spec_length(),
        encoding(m)[13] == (m.raw_version.len() % 256) as u8,
        encoding(m)[15] == (m.raw_signer_id.len() % 256) as u8,
        be_u64_at(encoding(m), 16) == m.raw_content.len() as u64,
        encoding(m)[25] == m.file_type.spec_code(),
        encoding(m)[27] == m.content_type.spec_code(),
{
    let h = header(m);
    let e = encoding(m);
    let sc = u16_bytes(m.signature_type.spec_code());
    let sl = u16_bytes(m.signature_type.spec_length());
    let cl = u64_bytes(m.raw_content.len() as u64);
    assert(h.len() == 40);
    assert(e =~= h + (m.raw_version + m.raw_signer_id + m.raw_content + m.raw_signature));
    assert(forall|i: int| 0 <= i < 40 ==> #[trigger] e[i] == h[i]);
    assert(e.subrange(0, 6) =~= magic());
    lemma_u16_bytes(m.signature_type.spec_code());
    lemma_u16_bytes(m.signature_type.spec_length());
    lemma_u64_bytes(m.raw_content.len() as u64);
    assert(e[8] == sc[0] && e[9] == sc[1]);
    assert(e[10] == sl[0] && e[11] == sl[1]);
    assert(e[16] == cl[0] && e[17] == cl[1] && e[18] == cl[2] && e[19] == cl[3]);
    assert(e[20] == cl[4] && e[21] == cl[5] && e[22] == cl[6] && e[23] == cl[7]);
}

/// Decoding the encoding of a package gives the package back and leaves no
/// bytes over, for every package whose version region holds 16 to 255
/// bytes, whose signer id fits its one-byte length field, and whose signature
/// region has the length the table gives for its algorithm
pub proof fn lemma_round_trip(m: Su3Model)
    requires
        16 <= m.raw_version.len() <= 255,
        m.raw_signer_id.len() <= 255,
        m.raw_content.len() <= u64::MAX,
        m.raw_signature.len() == m.signature_type.spec_length(),
    ensures
        parse(encoding(m)) == Ok::<_, Su3Error>((Seq::<u8>::empty(), m)),
{
    lemma_header_fields(m);
    lemma_codes_round_trip(m.signature_type, m.file_type, m.content_type);
    let e = encoding(m);
    let ve: int = 40 + m.raw_version.len() as int;
    let se: int = ve + m.raw_signer_id.len();
    let ce: int = se + m.raw_content.len();
    let ge: int = ce + m.raw_signature.len();
    assert(e.subrange(40, ve) =~= m.raw_version);
    assert(e.subrange(ve, se) =~= m.raw_signer_id);
    assert(e.subrange(se, ce) =~= m.raw_content);
    assert(e.subrange(ce, ge) =~= m.raw_signature);
    assert(e.subrange(ge, e.len() as int) =~= Seq::<u8>::empty());
}

/// Cutting the encoding of a package short anywhere inside its fixed header
/// makes decoding fail with `InsufficientData`: for the magic literal when
/// fewer than 6 bytes are left, else for the rest of the header
pub proof fn lemma_truncated_header(m: Su3Model, k: int)
    requires
        0 <= k < 40,
        m.raw_content.len() <= u64::MAX,
    ensures
        parse(encoding(m).subrange(0, k)) == Err::<(Seq<u8>, Su3Model), _>(
            if k < 6 {
                Su3Error::InsufficientData { required: 6, available: k as u64 }
            } else {
                Su3Error::InsufficientData { required: 34, available: (k - 6) as u64 }
            },
        ),
{
    lemma_header_fields(m);
    let e = encoding(m);
    let t = e.subrange(0, k);
    if k >= 6 {
        assert(t.subrange(0, 6) =~= e.subrange(0, 6));
    }
}

/// Cutting the encoding of a package short anywhere makes decoding fail with
/// `InsufficientData`, for every package whose one-byte length fields hold
/// its version and signer id lengths and whose signature region has the
/// length the table gives for its algorithm
pub proof fn lemma_truncated(m: Su3Model, k: int)
    requires
        0 <= k < encoding(m).len(),
        m.raw_version.len() <= 255,
        m.raw_signer_id.len() <= 255,
        m.raw_content.len() <= u64::MAX,
        m.raw_signature.len() == m.signature_type.spec_length(),
    ensures
        parse(encoding(m).subrange(0, k)) matches Err(Su3Error::InsufficientData { .. }),
{
    lemma_header_fields(m);
    let e = encoding(m);
    let t = e.subrange(0, k);
    if k < 40 {
        lemma_truncated_header(m, k);
    } else {
        assert(t.subrange(0, 6) =~= e.subrange(0, 6));
        assert(forall|i: int| 0 <= i < k ==> #[trigger] t[i] == e[i]);
        assert(be_u16_at(t, 10) == be_u16_at(e, 10));
        assert(be_u64_at(t, 16) == be_u64_at(e, 16));
    }
}

/// A buffer that differs from the encoding of a package only in a file type
/// code outside the closed set fails to decode with `UnknownEnumCode` for the
/// file type field, for every package whose one-byte length fields hold its
/// version and signer id lengths and whose signature region has the length
/// the table gives for its algorithm
pub proof fn lemma_unknown_file_type(m: Su3Model, code: u8)
    requires
        FileType::spec_from_code(code) is None,
        m.raw_version.len() <= 255,
        m.raw_signer_id.len() <= 255,
        m.raw_content.len() <= u64::MAX,
        m.raw_signature.len() == m.signature_type.spec_length(),
    ensures
        parse(encoding(m).update(25, code)) == Err::<(Seq<u8>, Su3Model), _>(
            Su3Error::UnknownEnumCode { field: CodeField::FileType, code: code as u16 },
        ),
{
    lemma_header_fields(m);
    lemma_codes_round_trip(m.signature_type, m.file_type, m.content_type);
    let e = encoding(m);
    let t = e.update(25, code);
    assert(t.subrange(0, 6) =~= e.subrange(0, 6));
    assert(forall|i: int| 0 <= i < e.len() && i != 25 ==> #[trigger] t[i] == e[i]);
    assert(be_u16_at(t, 8) == be_u16_at(e, 8));
    assert(be_u16_at(t, 10) == be_u16_at(e, 10));
    assert(be_u64_at(t, 16) == be_u64_at(e, 16));
}

/// Changing the first byte of the encoding of a package makes decoding fail
/// with `MagicMismatch`
pub proof fn lemma_magic_flipped(m: Su3Model, byte: u8)
    requires
        byte != encoding(m)[0],
        m.raw_content.len() <= u64::MAX,
    ensures
        parse(encoding(m).update(0, byte)) == Err::<(Seq<u8>, Su3Model), _>(
            Su3Error::MagicMismatch,
        ),
{
    lemma_header_fields(m);
    let t = encoding(m).update(0, byte);
    assert(t.subrange(0, 6)[0] == byte);
    assert(magic()[0] == encoding(m)[0]);
}

} // verus!
