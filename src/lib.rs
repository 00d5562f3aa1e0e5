//! Codec for the SU3 signed-package format: a fixed 40-byte header of typed
//! fields followed by four variable-length regions (version, signer id,
//! content, signature) whose lengths the header gives.
//!
//! Decoded packages own copies of their byte regions.

use vstd::prelude::*;

pub mod accessors;
pub mod de;
pub mod format;
pub mod laws;
pub mod ser;

pub use de::deserialise;
pub use ser::{serialise, serialise_into};

verus! {

/// Signature algorithm of a package
#[derive(Clone, Copy, Debug, PartialEq, Eq, Structural, PartialOrd, Ord, Hash)]
pub enum SignatureType {
    /// DSA-SHA1
    DsaSha1,
    /// ECDSA-SHA256-P256
    EcdsaSha256P256,
    /// ECDSA-SHA384-P384
    EcdsaSha384P384,
    /// ECDSA-SHA512-P521
    EcdsaSha512P521,
    /// RSA-SHA256-2048
    RsaSha2562048,
    /// RSA-SHA384-3072
    RsaSha3843072,
    /// RSA-SHA512-4096
    RsaSha5124096,
    /// EdDSA-SHA512-Ed25519ph
    EddsaSha512Ed25519ph,
}

impl SignatureType {
    /// Signature length in bytes for each algorithm
    pub open spec fn spec_length(self) -> u16 {
        match self {
            SignatureType::DsaSha1 => 40,
            SignatureType::EcdsaSha256P256 => 64,
            SignatureType::EcdsaSha384P384 => 96,
            SignatureType::EcdsaSha512P521 => 132,
            SignatureType::RsaSha2562048 => 256,
            SignatureType::RsaSha3843072 => 384,
            SignatureType::RsaSha5124096 => 512,
            SignatureType::EddsaSha512Ed25519ph => 64,
        }
    }

    /// Get the signature length in bytes
    pub fn length(&self) -> (r: u16)
        ensures
            r == self.spec_length(),
    {
        match self {
            SignatureType::DsaSha1 => 40,
            SignatureType::EcdsaSha256P256 | SignatureType::EddsaSha512Ed25519ph => 64,
            SignatureType::EcdsaSha384P384 => 96,
            SignatureType::EcdsaSha512P521 => 132,
            SignatureType::RsaSha2562048 => 256,
            SignatureType::RsaSha3843072 => 384,
            SignatureType::RsaSha5124096 => 512,
        }
    }
}

impl SignatureType {
    /// Numeric code of the algorithm on the wire
    pub open spec fn spec_code(self) -> u16 {
        match self {
            SignatureType::DsaSha1 => 0,
            SignatureType::EcdsaSha256P256 => 1,
            SignatureType::EcdsaSha384P384 => 2,
            SignatureType::EcdsaSha512P521 => 3,
            SignatureType::RsaSha2562048 => 4,
            SignatureType::RsaSha3843072 => 5,
            SignatureType::RsaSha5124096 => 6,
            SignatureType::EddsaSha512Ed25519ph => 8,
        }
    }

    /// The algorithm a wire code stands for, if any
    pub open spec fn spec_from_code(code: u16) -> Option<SignatureType> {
        if code == 0 {
            Some(SignatureType::DsaSha1)
        } else if code == 1 {
            Some(SignatureType::EcdsaSha256P256)
        } else if code == 2 {
            Some(SignatureType::EcdsaSha384P384)
        } else if code == 3 {
            Some(SignatureType::EcdsaSha512P521)
        } else if code == 4 {
            Some(SignatureType::RsaSha2562048)
        } else if code == 5 {
            Some(SignatureType::RsaSha3843072)
        } else if code == 6 {
            Some(SignatureType::RsaSha5124096)
        } else if code == 8 {
            Some(SignatureType::EddsaSha512Ed25519ph)
        } else {
            None
        }
    }

    /// Numeric code of the algorithm on the wire
    pub fn code(&self) -> (r: u16)
        ensures
            r == self.spec_code(),
    {
        match self {
            SignatureType::DsaSha1 => 0,
            SignatureType::EcdsaSha256P256 => 1,
            SignatureType::EcdsaSha384P384 => 2,
            SignatureType::EcdsaSha512P521 => 3,
            SignatureType::RsaSha2562048 => 4,
            SignatureType::RsaSha3843072 => 5,
            SignatureType::RsaSha5124096 => 6,
            SignatureType::EddsaSha512Ed25519ph => 8,
        }
    }

    /// Look up the algorithm for a wire code; `None` for an unassigned code
    pub fn from_code(code: u16) -> (r: Option<SignatureType>)
        ensures
            r == SignatureType::spec_from_code(code),
    {
        match code {
            0 => Some(SignatureType::DsaSha1),
            1 => Some(SignatureType::EcdsaSha256P256),
            2 => Some(SignatureType::EcdsaSha384P384),
            3 => Some(SignatureType::EcdsaSha512P521),
            4 => Some(SignatureType::RsaSha2562048),
            5 => Some(SignatureType::RsaSha3843072),
            6 => Some(SignatureType::RsaSha5124096),
            8 => Some(SignatureType::EddsaSha512Ed25519ph),
            _ => None,
        }
    }
}

impl Default for SignatureType {
    fn default() -> (r: SignatureType)
        ensures
            r == SignatureType::DsaSha1,
    {
        SignatureType::DsaSha1
    }
}

/// Format of the package content
#[derive(Clone, Copy, Debug, PartialEq, Eq, Structural, PartialOrd, Ord, Hash)]
pub enum FileType {
    /// ZIP file
    Zip,
    /// XML file
    Xml,
    /// HTML file
    Html,
    /// gzip-compressed XML file
    XmlGz,
    /// gzip-compressed text file
    TxtGz,
    /// DMG file
    Dmg,
    /// EXE file
    Exe,
}

impl FileType {
    /// Numeric code of the file type on the wire
    pub open spec fn spec_code(self) -> u8 {
        match self {
            FileType::Zip => 0,
            FileType::Xml => 1,
            FileType::Html => 2,
            FileType::XmlGz => 3,
            FileType::TxtGz => 4,
            FileType::Dmg => 5,
            FileType::Exe => 6,
        }
    }

    /// The file type a wire code stands for, if any
    pub open spec fn spec_from_code(code: u8) -> Option<FileType> {
        if code == 0 {
            Some(FileType::Zip)
        } else if code == 1 {
            Some(FileType::Xml)
        } else if code == 2 {
            Some(FileType::Html)
        } else if code == 3 {
            Some(FileType::XmlGz)
        } else if code == 4 {
            Some(FileType::TxtGz)
        } else if code == 5 {
            Some(FileType::Dmg)
        } else if code == 6 {
            Some(FileType::Exe)
        } else {
            None
        }
    }

    /// Numeric code of the file type on the wire
    pub fn code(&self) -> (r: u8)
        ensures
            r == self.spec_code(),
    {
        match self {
            FileType::Zip => 0,
            FileType::Xml => 1,
            FileType::Html => 2,
            FileType::XmlGz => 3,
            FileType::TxtGz => 4,
            FileType::Dmg => 5,
            FileType::Exe => 6,
        }
    }

    /// Look up the file type for a wire code; `None` for an unassigned code
    pub fn from_code(code: u8) -> (r: Option<FileType>)
        ensures
            r == FileType::spec_from_code(code),
    {
        match code {
            0 => Some(FileType::Zip),
            1 => Some(FileType::Xml),
            2 => Some(FileType::Html),
            3 => Some(FileType::XmlGz),
            4 => Some(FileType::TxtGz),
            5 => Some(FileType::Dmg),
            6 => Some(FileType::Exe),
            _ => None,
        }
    }
}

impl Default for FileType {
    fn default() -> (r: FileType)
        ensures
            r == FileType::Zip,
    {
        FileType::Zip
    }
}

/// Semantic category of the package content
#[derive(Clone, Copy, Debug, PartialEq, Eq, Structural, PartialOrd, Ord, Hash)]
pub enum ContentType {
    /// Unknown content type
    Unknown,
    /// Router update
    RouterUpdate,
    /// Plugin (update)
    Plugin,
    /// Reseed data
    ReseedData,
    /// News feed
    NewsFeed,
    /// Blocklist feed
    BlocklistFeed,
}

impl ContentType {
    /// Numeric code of the content type on the wire
    pub open spec fn spec_code(self) -> u8 {
        match self {
            ContentType::Unknown => 0,
            ContentType::RouterUpdate => 1,
            ContentType::Plugin => 2,
            ContentType::ReseedData => 3,
            ContentType::NewsFeed => 4,
            ContentType::BlocklistFeed => 5,
        }
    }

    /// The content type a wire code stands for, if any
    pub open spec fn spec_from_code(code: u8) -> Option<ContentType> {
        if code == 0 {
            Some(ContentType::Unknown)
        } else if code == 1 {
            Some(ContentType::RouterUpdate)
        } else if code == 2 {
            Some(ContentType::Plugin)
        } else if code == 3 {
            Some(ContentType::ReseedData)
        } else if code == 4 {
            Some(ContentType::NewsFeed)
        } else if code == 5 {
            Some(ContentType::BlocklistFeed)
        } else {
            None
        }
    }

    /// Numeric code of the content type on the wire
    pub fn code(&self) -> (r: u8)
        ensures
            r == self.spec_code(),
    {
        match self {
            ContentType::Unknown => 0,
            ContentType::RouterUpdate => 1,
            ContentType::Plugin => 2,
            ContentType::ReseedData => 3,
            ContentType::NewsFeed => 4,
            ContentType::BlocklistFeed => 5,
        }
    }

    /// Look up the content type for a wire code; `None` for an unassigned code
    pub fn from_code(code: u8) -> (r: Option<ContentType>)
        ensures
            r == ContentType::spec_from_code(code),
    {
        match code {
            0 => Some(ContentType::Unknown),
            1 => Some(ContentType::RouterUpdate),
            2 => Some(ContentType::Plugin),
            3 => Some(ContentType::ReseedData),
            4 => Some(ContentType::NewsFeed),
            5 => Some(ContentType::BlocklistFeed),
            _ => None,
        }
    }
}

impl Default for ContentType {
    fn default() -> (r: ContentType)
        ensures
            r == ContentType::Unknown,
    {
        ContentType::Unknown
    }
}

/// Typed representation of an SU3 package
#[derive(Clone, Debug, PartialEq, Eq, PartialOrd, Ord, Hash)]
pub struct Su3 {
    /// Signature algorithm
    pub signature_type: SignatureType,
    /// Format of the content
    pub file_type: FileType,
    /// Category of the content
    pub content_type: ContentType,
    /// Version text, padded with trailing zero bytes to at least 16 bytes
    pub raw_version: Vec<u8>,
    /// Signer id text (eg. "zzz@mail.i2p"), without padding
    pub raw_signer_id: Vec<u8>,
    /// Content bytes, possibly compressed
    pub raw_content: Vec<u8>,
    /// Signature over every byte of the encoded package that precedes it
    pub raw_signature: Vec<u8>,
}

/// Mathematical model of a package: its enums and its four byte regions
pub struct Su3Model {
    pub signature_type: SignatureType,
    pub file_type: FileType,
    pub content_type: ContentType,
    pub raw_version: Seq<u8>,
    pub raw_signer_id: Seq<u8>,
    pub raw_content: Seq<u8>,
    pub raw_signature: Seq<u8>,
}

impl View for Su3 {
    type V = Su3Model;

    open spec fn view(&self) -> Su3Model {
        Su3Model {
            signature_type: self.signature_type,
            file_type: self.file_type,
            content_type: self.content_type,
            raw_version: self.raw_version@,
            raw_signer_id: self.raw_signer_id@,
            raw_content: self.raw_content@,
            raw_signature: self.raw_signature@,
        }
    }
}

impl Default for Su3 {
    fn default() -> (r: Su3)
        ensures
            r.signature_type == SignatureType::DsaSha1,
            r.file_type == FileType::Zip,
            r.content_type == ContentType::Unknown,
            r.raw_version@.len() == 0,
            r.raw_signer_id@.len() == 0,
            r.raw_content@.len() == 0,
            r.raw_signature@.len() == 0,
    {
        Su3 {
            signature_type: SignatureType::DsaSha1,
            file_type: FileType::Zip,
            content_type: ContentType::Unknown,
            raw_version: Vec::new(),
            raw_signer_id: Vec::new(),
            raw_content: Vec::new(),
            raw_signature: Vec::new(),
        }
    }
}

/// Header field whose enum code was not recognised
#[derive(Clone, Copy, Debug, PartialEq, Eq, Structural)]
pub enum CodeField {
    /// The signature type field
    SignatureType,
    /// The file type field
    FileType,
    /// The content type field
    ContentType,
}

/// Why decoding, encoding or a text accessor failed
#[derive(Clone, Copy, Debug, PartialEq, Eq, Structural)]
pub enum Su3Error {
    /// The buffer does not start with the magic bytes `I2Psu3`
    MagicMismatch,
    /// A field needs `required` bytes where only `available` remain
    InsufficientData { required: u64, available: u64 },
    /// An enum field holds a code outside its closed set
    UnknownEnumCode { field: CodeField, code: u16 },
    /// The version region is shorter than the 16 bytes the format demands
    InvalidVersionLength { actual: usize },
    /// The output buffer cannot hold the encoded package
    OutputTooSmall { required: usize, available: usize },
    /// A text field is not valid UTF-8
    TextDecode,
}

/// Fewest bytes the version region may hold
pub const MIN_VERSION_LENGTH: usize = 16;

} // verus!
