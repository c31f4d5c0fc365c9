//! 7z properties: the single-byte structural markers of the header grammar
//! and the variable-length compression-method identifiers.

use vstd::prelude::*;
use vstd::slice::slice_index_get;

verus! {

/// Magic number of the 7z format.
pub fn magic_number() -> (r: [u8; 6])
    ensures
        r@ == seq![0x37u8, 0x7au8, 0xbcu8, 0xafu8, 0x27u8, 0x1cu8],
{
    let r: [u8; 6] = [0x37, 0x7a, 0xbc, 0xaf, 0x27, 0x1c];
    proof {
        assert(r@ =~= seq![0x37u8, 0x7au8, 0xbcu8, 0xafu8, 0x27u8, 0x1cu8]);
    }
    r
}

/// Represents 7z properties.
#[derive(Clone, Copy, Debug, PartialEq, Eq, Structural)]
pub enum Property {
    End,
    Header,
    ArchiveProperties,
    AdditionalStreamsInfo,
    MainStreamsInfo,
    FilesInfo,
    PackInfo,
    UnpackInfo,
    SubStreamsInfo,
    Size,
    Crc,
    Folder,
    CodersUnpackSize,
    NumUnpackStream,
    EmptyStream,
    EmptyFile,
    Anti,
    Name,
    CTime,
    ATime,
    MTime,
    WinAttributes,
    Comment,
    EncodedHeader,
    StartPos,
    Dummy,
}

impl Property {
    /// The single-byte code of this property in the header grammar.
    pub open spec fn code(self) -> u8 {
        match self {
            Property::End => 0x00,
            Property::Header => 0x01,
            Property::ArchiveProperties => 0x02,
            Property::AdditionalStreamsInfo => 0x03,
            Property::MainStreamsInfo => 0x04,
            Property::FilesInfo => 0x05,
            Property::PackInfo => 0x06,
            Property::UnpackInfo => 0x07,
            Property::SubStreamsInfo => 0x08,
            Property::Size => 0x09,
            Property::Crc => 0x0a,
            Property::Folder => 0x0b,
            Property::CodersUnpackSize => 0x0c,
            Property::NumUnpackStream => 0x0d,
            Property::EmptyStream => 0x0e,
            Property::EmptyFile => 0x0f,
            Property::Anti => 0x10,
            Property::Name => 0x11,
            Property::CTime => 0x12,
            Property::ATime => 0x13,
            Property::MTime => 0x14,
            Property::WinAttributes => 0x15,
            Property::Comment => 0x16,
            Property::EncodedHeader => 0x17,
            Property::StartPos => 0x18,
            Property::Dummy => 0x19,
        }
    }

    /// The property a byte stands for, if it is an assigned code.
    pub open spec fn spec_from_code(code: u8) -> Option<Property> {
        if code == 0x00 {
            Some(Property::End)
        } else if code == 0x01 {
            Some(Property::Header)
        } else if code == 0x02 {
            Some(Property::ArchiveProperties)
        } else if code == 0x03 {
            Some(Property::AdditionalStreamsInfo)
        } else if code == 0x04 {
            Some(Property::MainStreamsInfo)
        } else if code == 0x05 {
            Some(Property::FilesInfo)
        } else if code == 0x06 {
            Some(Property::PackInfo)
        } else if code == 0x07 {
            Some(Property::UnpackInfo)
        } else if code == 0x08 {
            Some(Property::SubStreamsInfo)
        } else if code == 0x09 {
            Some(Property::Size)
        } else if code == 0x0a {
            Some(Property::Crc)
        } else if code == 0x0b {
            Some(Property::Folder)
        } else if code == 0x0c {
            Some(Property::CodersUnpackSize)
        } else if code == 0x0d {
            Some(Property::NumUnpackStream)
        } else if code == 0x0e {
            Some(Property::EmptyStream)
        } else if code == 0x0f {
            Some(Property::EmptyFile)
        } else if code == 0x10 {
            Some(Property::Anti)
        } else if code == 0x11 {
            Some(Property::Name)
        } else if code == 0x12 {
            Some(Property::CTime)
        } else if code == 0x13 {
            Some(Property::ATime)
        } else if code == 0x14 {
            Some(Property::MTime)
        } else if code == 0x15 {
            Some(Property::WinAttributes)
        } else if code == 0x16 {
            Some(Property::Comment)
        } else if code == 0x17 {
            Some(Property::EncodedHeader)
        } else if code == 0x18 {
            Some(Property::StartPos)
        } else if code == 0x19 {
            Some(Property::Dummy)
        } else {
            None
        }
    }

    /// Gets the code of this property.
    pub fn to_code(&self) -> (r: u8)
        ensures
            r == self.code(),
    {
        match self {
            Property::End => 0x00,
            Property::Header => 0x01,
            Property::ArchiveProperties => 0x02,
            Property::AdditionalStreamsInfo => 0x03,
            Property::MainStreamsInfo => 0x04,
            Property::FilesInfo => 0x05,
            Property::PackInfo => 0x06,
            Property::UnpackInfo => 0x07,
            Property::SubStreamsInfo => 0x08,
            Property::Size => 0x09,
            Property::Crc => 0x0a,
            Property::Folder => 0x0b,
            Property::CodersUnpackSize => 0x0c,
            Property::NumUnpackStream => 0x0d,
            Property::EmptyStream => 0x0e,
            Property::EmptyFile => 0x0f,
            Property::Anti => 0x10,
            Property::Name => 0x11,
            Property::CTime => 0x12,
            Property::ATime => 0x13,
            Property::MTime => 0x14,
            Property::WinAttributes => 0x15,
            Property::Comment => 0x16,
            Property::EncodedHeader => 0x17,
            Property::StartPos => 0x18,
            Property::Dummy => 0x19,
        }
    }

    /// The name of this property, as written in the header grammar.
    pub open spec fn spec_name(self) -> Seq<char> {
        match self {
            Property::End => "End"@,
            Property::Header => "Header"@,
            Property::ArchiveProperties => "ArchiveProperties"@,
            Property::AdditionalStreamsInfo => "AdditionalStreamsInfo"@,
            Property::MainStreamsInfo => "MainStreamsInfo"@,
            Property::FilesInfo => "FilesInfo"@,
            Property::PackInfo => "PackInfo"@,
            Property::UnpackInfo => "UnpackInfo"@,
            Property::SubStreamsInfo => "SubStreamsInfo"@,
            Property::Size => "Size"@,
            Property::Crc => "Crc"@,
            Property::Folder => "Folder"@,
            Property::CodersUnpackSize => "CodersUnpackSize"@,
            Property::NumUnpackStream => "NumUnpackStream"@,
            Property::EmptyStream => "EmptyStream"@,
            Property::EmptyFile => "EmptyFile"@,
            Property::Anti => "Anti"@,
            Property::Name => "Name"@,
            Property::CTime => "CTime"@,
            Property::ATime => "ATime"@,
            Property::MTime => "MTime"@,
            Property::WinAttributes => "WinAttributes"@,
            Property::Comment => "Comment"@,
            Property::EncodedHeader => "EncodedHeader"@,
            Property::StartPos => "StartPos"@,
            Property::Dummy => "Dummy"@,
        }
    }

    /// Gets the name of this property.
    pub fn name(&self) -> (r: &'static str)
        ensures
            r@ == self.spec_name(),
    {
        match self {
            Property::End => "End",
            Property::Header => "Header",
            Property::ArchiveProperties => "ArchiveProperties",
            Property::AdditionalStreamsInfo => "AdditionalStreamsInfo",
            Property::MainStreamsInfo => "MainStreamsInfo",
            Property::FilesInfo => "FilesInfo",
            Property::PackInfo => "PackInfo",
            Property::UnpackInfo => "UnpackInfo",
            Property::SubStreamsInfo => "SubStreamsInfo",
            Property::Size => "Size",
            Property::Crc => "Crc",
            Property::Folder => "Folder",
            Property::CodersUnpackSize => "CodersUnpackSize",
            Property::NumUnpackStream => "NumUnpackStream",
            Property::EmptyStream => "EmptyStream",
            Property::EmptyFile => "EmptyFile",
            Property::Anti => "Anti",
            Property::Name => "Name",
            Property::CTime => "CTime",
            Property::ATime => "ATime",
            Property::MTime => "MTime",
            Property::WinAttributes => "WinAttributes",
            Property::Comment => "Comment",
            Property::EncodedHeader => "EncodedHeader",
            Property::StartPos => "StartPos",
            Property::Dummy => "Dummy",
        }
    }

    /// Gets the property associated with a byte, or `None` for any of the
    /// byte values outside the assigned range.
    pub fn from_code(code: u8) -> (r: Option<Property>)
        ensures
            r == Self::spec_from_code(code),
    {
        match code {
            0x00 => Some(Property::End),
            0x01 => Some(Property::Header),
            0x02 => Some(Property::ArchiveProperties),
            0x03 => Some(Property::AdditionalStreamsInfo),
            0x04 => Some(Property::MainStreamsInfo),
            0x05 => Some(Property::FilesInfo),
            0x06 => Some(Property::PackInfo),
            0x07 => Some(Property::UnpackInfo),
            0x08 => Some(Property::SubStreamsInfo),
            0x09 => Some(Property::Size),
            0x0a => Some(Property::Crc),
            0x0b => Some(Property::Folder),
            0x0c => Some(Property::CodersUnpackSize),
            0x0d => Some(Property::NumUnpackStream),
            0x0e => Some(Property::EmptyStream),
            0x0f => Some(Property::EmptyFile),
            0x10 => Some(Property::Anti),
            0x11 => Some(Property::Name),
            0x12 => Some(Property::CTime),
            0x13 => Some(Property::ATime),
            0x14 => Some(Property::MTime),
            0x15 => Some(Property::WinAttributes),
            0x16 => Some(Property::Comment),
            0x17 => Some(Property::EncodedHeader),
            0x18 => Some(Property::StartPos),
            0x19 => Some(Property::Dummy),
            _ => None,
        }
    }
}

impl From<Property> for u8 {
    /// Converts a property to its single-byte code.
    fn from(property: Property) -> (r: u8)
        ensures
            r == property.code(),
    {
        property.to_code()
    }
}

impl vstd::std_specs::convert::FromSpecImpl<Property> for u8 {
    open spec fn obeys_from_spec() -> bool {
        true
    }

    open spec fn from_spec(property: Property) -> u8 {
        property.code()
    }
}

/// Decoding a property's own code gives that property back: the code
/// assignment has no duplicates.
pub proof fn lemma_property_code_round_trip(p: Property)
    ensures
        Property::spec_from_code(p.code()) == Some(p),
{
}

/// Every byte outside the assigned code range decodes to nothing.
pub proof fn lemma_property_code_unassigned(code: u8)
    requires
        0x1a <= code,
    ensures
        Property::spec_from_code(code) is None,
{
}

/// True exactly when `id` is the one-byte sequence `a`.
fn id_is1(id: &[u8], a: u8) -> (r: bool)
    ensures
        r == (id@ == seq![a]),
{
    let r = id.len() == 1 && *slice_index_get(id, 0) == a;
    proof {
        if r {
            assert(id@ =~= seq![a]);
        } else {
            assert(id@ != seq![a]) by {
                if id@ == seq![a] {
                    assert(id@.len() == 1);
                    assert(id@[0] == a);
                }
            }
        }
    }
    r
}

/// True exactly when `id` is the three-byte sequence `a b c`.
fn id_is3(id: &[u8], a: u8, b: u8, c: u8) -> (r: bool)
    ensures
        r == (id@ == seq![a, b, c]),
{
    let r = id.len() == 3 && *slice_index_get(id, 0) == a && *slice_index_get(id, 1) == b
        && *slice_index_get(id, 2) == c;
    proof {
        if r {
            assert(id@ =~= seq![a, b, c]);
        } else {
            assert(id@ != seq![a, b, c]) by {
                if id@ == seq![a, b, c] {
                    assert(id@.len() == 3);
                    assert(id@[0] == a && id@[1] == b && id@[2] == c);
                }
            }
        }
    }
    r
}

/// True exactly when `id` is the four-byte sequence `a b c d`.
fn id_is4(id: &[u8], a: u8, b: u8, c: u8, d: u8) -> (r: bool)
    ensures
        r == (id@ == seq![a, b, c, d]),
{
    let r = id.len() == 4 && *slice_index_get(id, 0) == a && *slice_index_get(id, 1) == b
        && *slice_index_get(id, 2) == c && *slice_index_get(id, 3) == d;
    proof {
        if r {
            assert(id@ =~= seq![a, b, c, d]);
        } else {
            assert(id@ != seq![a, b, c, d]) by {
                if id@ == seq![a, b, c, d] {
                    assert(id@.len() == 4);
                    assert(id@[0] == a && id@[1] == b && id@[2] == c && id@[3] == d);
                }
            }
        }
    }
    r
}

/// Represents 7z compression methods.
#[derive(Clone, Copy, Debug, PartialEq, Eq, Structural)]
pub enum Method {
    Copy,
    Delta,
    Lzma2,
    Sz(Sz),
    Misc(Misc),
    Crypto(Crypto),
}

/// Represents 7z methods.
#[derive(Clone, Copy, Debug, PartialEq, Eq, Structural)]
pub enum Sz {
    Lzma,
    Bcj,
    Bcj2,
    Ppc,
    Ia64,
    Arm,
    ArmT,
    Sparc,
    Ppmd,
}

/// Represents misc methods.
#[derive(Clone, Copy, Debug, PartialEq, Eq, Structural)]
pub enum Misc {
    Deflate,
    Deflate64,
    Bzip2,
}

/// Represents crypto methods.
#[derive(Clone, Copy, Debug, PartialEq, Eq, Structural)]
pub enum Crypto {
    SzAes,
}

impl Sz {
    /// The canonical identifier bytes of this method.
    pub open spec fn spec_id(self) -> Seq<u8> {
        match self {
            Sz::Lzma => seq![0x03u8, 0x01u8, 0x01u8],
            Sz::Bcj => seq![0x03u8, 0x03u8, 0x01u8, 0x03u8],
            Sz::Bcj2 => seq![0x03u8, 0x03u8, 0x01u8, 0x1bu8],
            Sz::Ppc => seq![0x03u8, 0x03u8, 0x02u8, 0x05u8],
            Sz::Ia64 => seq![0x03u8, 0x03u8, 0x04u8, 0x01u8],
            Sz::Arm => seq![0x03u8, 0x03u8, 0x05u8, 0x01u8],
            Sz::ArmT => seq![0x03u8, 0x03u8, 0x07u8, 0x01u8],
            Sz::Sparc => seq![0x03u8, 0x03u8, 0x08u8, 0x05u8],
            Sz::Ppmd => seq![0x03u8, 0x04u8, 0x01u8],
        }
    }

    /// The method a byte sequence stands for, if it is an identifier of
    /// this family.
    pub open spec fn spec_by_id(id: Seq<u8>) -> Option<Sz> {
        if id == seq![0x03u8, 0x01u8, 0x01u8] {
            Some(Sz::Lzma)
        } else if id == seq![0x03u8, 0x03u8, 0x01u8, 0x03u8] {
            Some(Sz::Bcj)
        } else if id == seq![0x03u8, 0x03u8, 0x01u8, 0x1bu8] {
            Some(Sz::Bcj2)
        } else if id == seq![0x03u8, 0x03u8, 0x02u8, 0x05u8] {
            Some(Sz::Ppc)
        } else if id == seq![0x03u8, 0x03u8, 0x04u8, 0x01u8] {
            Some(Sz::Ia64)
        } else if id == seq![0x03u8, 0x03u8, 0x05u8, 0x01u8] {
            Some(Sz::Arm)
        } else if id == seq![0x03u8, 0x03u8, 0x07u8, 0x01u8] {
            Some(Sz::ArmT)
        } else if id == seq![0x03u8, 0x03u8, 0x08u8, 0x05u8] {
            Some(Sz::Sparc)
        } else if id == seq![0x03u8, 0x04u8, 0x01u8] {
            Some(Sz::Ppmd)
        } else {
            None
        }
    }

    /// Gets the ID of this method.
    pub fn id(&self) -> (r: Vec<u8>)
        ensures
            r@ == self.spec_id(),
    {
        let r: Vec<u8> = match self {
            Sz::Lzma => vec![0x03, 0x01, 0x01],
            Sz::Bcj => vec![0x03, 0x03, 0x01, 0x03],
            Sz::Bcj2 => vec![0x03, 0x03, 0x01, 0x1b],
            Sz::Ppc => vec![0x03, 0x03, 0x02, 0x05],
            Sz::Ia64 => vec![0x03, 0x03, 0x04, 0x01],
            Sz::Arm => vec![0x03, 0x03, 0x05, 0x01],
            Sz::ArmT => vec![0x03, 0x03, 0x07, 0x01],
            Sz::Sparc => vec![0x03, 0x03, 0x08, 0x05],
            Sz::Ppmd => vec![0x03, 0x04, 0x01],
        };
        proof {
            assert(r@ =~= self.spec_id());
        }
        r
    }

    /// Gets the method associated with this ID.
    pub fn by_id(id: &[u8]) -> (r: Option<Sz>)
        ensures
            r == Self::spec_by_id(id@),
    {
        if id_is3(id, 0x03, 0x01, 0x01) {
            Some(Sz::Lzma)
        } else if id_is4(id, 0x03, 0x03, 0x01, 0x03) {
            Some(Sz::Bcj)
        } else if id_is4(id, 0x03, 0x03, 0x01, 0x1b) {
            Some(Sz::Bcj2)
        } else if id_is4(id, 0x03, 0x03, 0x02, 0x05) {
            Some(Sz::Ppc)
        } else if id_is4(id, 0x03, 0x03, 0x04, 0x01) {
            Some(Sz::Ia64)
        } else if id_is4(id, 0x03, 0x03, 0x05, 0x01) {
            Some(Sz::Arm)
        } else if id_is4(id, 0x03, 0x03, 0x07, 0x01) {
            Some(Sz::ArmT)
        } else if id_is4(id, 0x03, 0x03, 0x08, 0x05) {
            Some(Sz::Sparc)
        } else if id_is3(id, 0x03, 0x04, 0x01) {
            Some(Sz::Ppmd)
        } else {
            None
        }
    }
}

impl Misc {
    /// The canonical identifier bytes of this method.
    pub open spec fn spec_id(self) -> Seq<u8> {
        match self {
            Misc::Deflate => seq![0x04u8, 0x01u8, 0x08u8],
            Misc::Deflate64 => seq![0x04u8, 0x01u8, 0x09u8],
            Misc::Bzip2 => seq![0x04u8, 0x02u8, 0x02u8],
        }
    }

    /// The method a byte sequence stands for, if it is an identifier of
    /// this family.
    pub open spec fn spec_by_id(id: Seq<u8>) -> Option<Misc> {
        if id == seq![0x04u8, 0x01u8, 0x08u8] {
            Some(Misc::Deflate)
        } else if id == seq![0x04u8, 0x01u8, 0x09u8] {
            Some(Misc::Deflate64)
        } else if id == seq![0x04u8, 0x02u8, 0x02u8] {
            Some(Misc::Bzip2)
        } else {
            None
        }
    }

    /// Gets the ID of this method.
    pub fn id(&self) -> (r: Vec<u8>)
        ensures
            r@ == self.spec_id(),
    {
        let r: Vec<u8> = match self {
            Misc::Deflate => vec![0x04, 0x01, 0x08],
            Misc::Deflate64 => vec![0x04, 0x01, 0x09],
            Misc::Bzip2 => vec![0x04, 0x02, 0x02],
        };
        proof {
            assert(r@ =~= self.spec_id());
        }
        r
    }

    /// Gets the method associated with this ID.
    pub fn by_id(id: &[u8]) -> (r: Option<Misc>)
        ensures
            r == Self::spec_by_id(id@),
    {
        if id_is3(id, 0x04, 0x01, 0x08) {
            Some(Misc::Deflate)
        } else if id_is3(id, 0x04, 0x01, 0x09) {
            Some(Misc::Deflate64)
        } else if id_is3(id, 0x04, 0x02, 0x02) {
            Some(Misc::Bzip2)
        } else {
            None
        }
    }
}

impl Crypto {
    /// The canonical identifier bytes of this method.
    pub open spec fn spec_id(self) -> Seq<u8> {
        match self {
            Crypto::SzAes => seq![0x06u8, 0xf1u8, 0x07u8, 0x01u8],
        }
    }

    /// The method a byte sequence stands for, if it is an identifier of
    /// this family.
    pub open spec fn spec_by_id(id: Seq<u8>) -> Option<Crypto> {
        if id == seq![0x06u8, 0xf1u8, 0x07u8, 0x01u8] {
            Some(Crypto::SzAes)
        } else {
            None
        }
    }

    /// Gets the ID of this method.
    pub fn id(&self) -> (r: Vec<u8>)
        ensures
            r@ == self.spec_id(),
    {
        let r: Vec<u8> = match self {
            Crypto::SzAes => vec![0x06, 0xf1, 0x07, 0x01],
        };
        proof {
            assert(r@ =~= self.spec_id());
        }
        r
    }

    /// Gets the method associated with this ID.
    pub fn by_id(id: &[u8]) -> (r: Option<Crypto>)
        ensures
            r == Self::spec_by_id(id@),
    {
        if id_is4(id, 0x06, 0xf1, 0x07, 0x01) {
            Some(Crypto::SzAes)
        } else {
            None
        }
    }
}

impl Method {
    /// The canonical identifier bytes of this method.
    pub open spec fn spec_id(self) -> Seq<u8> {
        match self {
            Method::Copy => seq![0x00u8],
            Method::Delta => seq![0x03u8],
            Method::Lzma2 => seq![0x21u8],
            Method::Sz(sz) => sz.spec_id(),
            Method::Misc(misc) => misc.spec_id(),
            Method::Crypto(crypto) => crypto.spec_id(),
        }
    }

    /// The method a byte sequence stands for: one of the three single-byte
    /// reserved codes, or an identifier of one of the families. The single
    /// byte `0x03` is `Delta`; only longer sequences starting with `0x03`
    /// belong to the `Sz` family.
    pub open spec fn spec_by_id(id: Seq<u8>) -> Option<Method> {
        if id == seq![0x00u8] {
            Some(Method::Copy)
        } else if id == seq![0x03u8] {
            Some(Method::Delta)
        } else if id == seq![0x21u8] {
            Some(Method::Lzma2)
        } else {
            match Sz::spec_by_id(id) {
                Some(sz) => Some(Method::Sz(sz)),
                None => match Misc::spec_by_id(id) {
                    Some(misc) => Some(Method::Misc(misc)),
                    None => match Crypto::spec_by_id(id) {
                        Some(crypto) => Some(Method::Crypto(crypto)),
                        None => None,
                    },
                },
            }
        }
    }

    /// Gets the ID of this method.
    pub fn id(&self) -> (r: Vec<u8>)
        ensures
            r@ == self.spec_id(),
    {
        match self {
            Method::Copy => {
                let r: Vec<u8> = vec![0x00];
                proof {
                    assert(r@ =~= self.spec_id());
                }
                r
            },
            Method::Delta => {
                let r: Vec<u8> = vec![0x03];
                proof {
                    assert(r@ =~= self.spec_id());
                }
                r
            },
            Method::Lzma2 => {
                let r: Vec<u8> = vec![0x21];
                proof {
                    assert(r@ =~= self.spec_id());
                }
                r
            },
            Method::Sz(sz) => sz.id(),
            Method::Misc(misc) => misc.id(),
            Method::Crypto(crypto) => crypto.id(),
        }
    }

    /// Gets the method associated with this ID.
    pub fn by_id(id: &[u8]) -> (r: Option<Method>)
        ensures
            r == Self::spec_by_id(id@),
    {
        if id_is1(id, 0x00) {
            Some(Method::Copy)
        } else if id_is1(id, 0x03) {
            Some(Method::Delta)
        } else if id_is1(id, 0x21) {
            Some(Method::Lzma2)
        } else {
            match Sz::by_id(id) {
                Some(sz) => Some(Method::Sz(sz)),
                None => match Misc::by_id(id) {
                    Some(misc) => Some(Method::Misc(misc)),
                    None => match Crypto::by_id(id) {
                        Some(crypto) => Some(Method::Crypto(crypto)),
                        None => None,
                    },
                },
            }
        }
    }
}

/// Decoding a method's own identifier gives that method back: the
/// identifier assignment has no duplicates, and the single-byte `Delta`
/// code never shadows a longer `Sz`-family identifier.
pub proof fn lemma_method_id_round_trip(m: Method)
    ensures
        Method::spec_by_id(m.spec_id()) == Some(m),
{
    assert(seq![0x00u8].len() == 1 && seq![0x00u8][0] == 0x00u8);
    assert(seq![0x03u8].len() == 1 && seq![0x03u8][0] == 0x03u8);
    assert(seq![0x21u8].len() == 1 && seq![0x21u8][0] == 0x21u8);
    match m {
        Method::Copy => assert(Method::spec_by_id(m.spec_id()) == Some(m)),
        Method::Delta => assert(Method::spec_by_id(m.spec_id()) == Some(m)),
        Method::Lzma2 => assert(Method::spec_by_id(m.spec_id()) == Some(m)),
        Method::Sz(sz) => {
            assert(m.spec_id().len() >= 3) by {
                match sz {
                    Sz::Lzma => assert(sz.spec_id().len() == 3),
                    Sz::Bcj => assert(sz.spec_id().len() == 4),
                    Sz::Bcj2 => assert(sz.spec_id().len() == 4),
                    Sz::Ppc => assert(sz.spec_id().len() == 4),
                    Sz::Ia64 => assert(sz.spec_id().len() == 4),
                    Sz::Arm => assert(sz.spec_id().len() == 4),
                    Sz::ArmT => assert(sz.spec_id().len() == 4),
                    Sz::Sparc => assert(sz.spec_id().len() == 4),
                    Sz::Ppmd => assert(sz.spec_id().len() == 3),
                }
            }
            assert(Sz::spec_by_id(sz.spec_id()) == Some(sz));
            assert(Method::spec_by_id(m.spec_id()) == Some(m));
        },
        Method::Misc(misc) => {
            assert(m.spec_id().len() == 3) by {
                match misc {
                    Misc::Deflate => assert(misc.spec_id().len() == 3),
                    Misc::Deflate64 => assert(misc.spec_id().len() == 3),
                    Misc::Bzip2 => assert(misc.spec_id().len() == 3),
                }
            }
            assert(Misc::spec_by_id(misc.spec_id()) == Some(misc));
            assert(Method::spec_by_id(m.spec_id()) == Some(m));
        },
        Method::Crypto(crypto) => {
            assert(m.spec_id().len() == 4);
            assert(Crypto::spec_by_id(crypto.spec_id()) == Some(crypto));
            assert(Method::spec_by_id(m.spec_id()) == Some(m));
        },
    }
}

/// A byte sequence decodes only to the method whose canonical identifier
/// it is: whenever decoding succeeds, re-encoding gives the input back.
pub proof fn lemma_method_by_id_sound(id: Seq<u8>, m: Method)
    requires
        Method::spec_by_id(id) == Some(m),
    ensures
        m.spec_id() == id,
{
}

} // verus!
