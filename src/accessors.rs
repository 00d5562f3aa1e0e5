//! Accessors that read a package's regions as text or as decompressed bytes.

use vstd::prelude::*;

use crate::{FileType, Su3, Su3Error};

verus! {

#[verifier::external_type_specification]
#[verifier::external_body]
pub struct ExIoError(std::io::Error);

/// What gzip decompression makes of a byte sequence: the decompressed bytes,
/// or `None` where the input is not a valid gzip stream
pub uninterp spec fn gunzipped(b: Seq<u8>) -> Option<Seq<u8>>;

/// What UTF-8 decoding makes of a byte sequence: its characters, or `None`
/// where the bytes are not valid UTF-8
pub uninterp spec fn utf8_text(b: Seq<u8>) -> Option<Seq<char>>;

/// Relies on flate2::read::GzDecoder, read to the end with
/// `std::io::Read::read_to_end`: it yields the decompressed bytes of an
/// in-memory gzip stream, or an I/O error where the stream is malformed.
#[verifier::external_body]
fn gunzip(b: &[u8]) -> (r: Result<Vec<u8>, std::io::Error>)
    ensures
        match r {
            Ok(v) => gunzipped(b@) == Some(v@),
            Err(_) => gunzipped(b@) is None,
        },
{
    let mut decoder = flate2::read::GzDecoder::new(b);
    let mut decompressed = Vec::with_capacity(b.len());
    std::io::Read::read_to_end(&mut decoder, &mut decompressed)?;
    Ok(decompressed)
}

/// Relies on core::str::from_utf8: it accepts exactly the valid UTF-8 byte
/// sequences, and the empty sequence decodes to the empty string.
#[verifier::external_body]
fn decode_utf8(b: &[u8]) -> (r: Option<String>)
    ensures
        match r {
            Some(s) => utf8_text(b@) == Some(s@),
            None => utf8_text(b@) is None,
        },
        b@.len() == 0 ==> r is Some && r->Some_0@.len() == 0,
{
    match core::str::from_utf8(b) {
        Ok(s) => Some(String::from(s)),
        Err(_) => None,
    }
}

/// `b` with its leading and trailing zero bytes removed
pub open spec fn trim_zeros(b: Seq<u8>) -> Seq<u8>
    decreases b.len(),
{
    if b.len() > 0 && b[0] == 0 {
        trim_zeros(b.drop_first())
    } else if b.len() > 0 && b.last() == 0 {
        trim_zeros(b.drop_last())
    } else {
        b
    }
}

/// Remove the zero-byte padding from both ends of `b`
pub fn trim_padding(b: &[u8]) -> (r: &[u8])
    ensures
        r@ == trim_zeros(b@),
{
    let n = b.len();
    let mut start: usize = 0;
    assert(b@.subrange(0, n as int) =~= b@);
    while start < n && b[start] == 0
        invariant
            start <= n,
            n == b@.len(),
            trim_zeros(b@) == trim_zeros(b@.subrange(start as int, n as int)),
        decreases n - start,
    {
        assert(b@.subrange(start as int, n as int).drop_first() =~= b@.subrange(
            start + 1,
            n as int,
        ));
        start = start + 1;
    }
    let mut end: usize = n;
    while end > start && b[end - 1] == 0
        invariant
            start <= end <= n,
            n == b@.len(),
            start < end ==> b@[start as int] != 0,
            trim_zeros(b@) == trim_zeros(b@.subrange(start as int, end as int)),
        decreases end - start,
    {
        assert(b@.subrange(start as int, end as int).drop_last() =~= b@.subrange(
            start as int,
            end - 1,
        ));
        end = end - 1;
    }
    let r = &b[start..end];
    assert(r@ == trim_zeros(r@));
    r
}

/// Whether content of this file type is gzip-compressed
pub open spec fn is_gzip(t: FileType) -> bool {
    t == FileType::TxtGz || t == FileType::XmlGz
}

impl Su3 {
    /// The content, decompressed where the file type is a gzip one (`TxtGz`,
    /// `XmlGz`); other content, ZIP included, comes back as it is stored.
    /// Fails with the I/O error of the decompression on a malformed gzip
    /// stream.
    pub fn content(&self) -> (r: Result<Vec<u8>, std::io::Error>)
        ensures
            is_gzip(self.file_type) ==> match r {
                Ok(v) => gunzipped(self.raw_content@) == Some(v@),
                Err(_) => gunzipped(self.raw_content@) is None,
            },
            !is_gzip(self.file_type) ==> r is Ok && r->Ok_0@ == self.raw_content@,
    {
        match self.file_type {
            FileType::TxtGz | FileType::XmlGz => gunzip(self.raw_content.as_slice()),
            _ => Ok(self.raw_content.clone()),
        }
    }

    /// The signer id as text; fails with `TextDecode` where it is not UTF-8
    pub fn signer_id(&self) -> (r: Result<String, Su3Error>)
        ensures
            match r {
                Ok(s) => utf8_text(self.raw_signer_id@) == Some(s@),
                Err(e) => utf8_text(self.raw_signer_id@) is None && e == Su3Error::TextDecode,
            },
    {
        match decode_utf8(self.raw_signer_id.as_slice()) {
            Some(s) => Ok(s),
            None => Err(Su3Error::TextDecode),
        }
    }

    /// The version as text, without its zero-byte padding; fails with
    /// `TextDecode` where it is not UTF-8
    pub fn version(&self) -> (r: Result<String, Su3Error>)
        ensures
            match r {
                Ok(s) => utf8_text(trim_zeros(self.raw_version@)) == Some(s@),
                Err(e) => utf8_text(trim_zeros(self.raw_version@)) is None && e
                    == Su3Error::TextDecode,
            },
    {
        let trimmed = trim_padding(self.raw_version.as_slice());
        match decode_utf8(trimmed) {
            Some(s) => Ok(s),
            None => Err(Su3Error::TextDecode),
        }
    }
}

} // verus!
