//! Tests for 7z properties and compression-method identifiers.

use sz::property::{Crypto, Method, Misc, Property, Sz};

#[test]
fn magic_number() {
    assert_eq!(sz::property::magic_number(), [b'7', b'z', 0xbc, 0xaf, 0x27, 0x1c]);
}

#[test]
fn property() {
    assert_eq!(u8::from(Property::End), 0x00);
    assert_eq!(u8::from(Property::Header), 0x01);
    assert_eq!(u8::from(Property::ArchiveProperties), 0x02);
    assert_eq!(u8::from(Property::AdditionalStreamsInfo), 0x03);
    assert_eq!(u8::from(Property::MainStreamsInfo), 0x04);
    assert_eq!(u8::from(Property::FilesInfo), 0x05);
    assert_eq!(u8::from(Property::PackInfo), 0x06);
    assert_eq!(u8::from(Property::UnpackInfo), 0x07);
    assert_eq!(u8::from(Property::SubStreamsInfo), 0x08);
    assert_eq!(u8::from(Property::Size), 0x09);
    assert_eq!(u8::from(Property::Crc), 0x0a);
    assert_eq!(u8::from(Property::Folder), 0x0b);
    assert_eq!(u8::from(Property::CodersUnpackSize), 0x0c);
    assert_eq!(u8::from(Property::NumUnpackStream), 0x0d);
    assert_eq!(u8::from(Property::EmptyStream), 0x0e);
    assert_eq!(u8::from(Property::EmptyFile), 0x0f);
    assert_eq!(u8::from(Property::Anti), 0x10);
    assert_eq!(u8::from(Property::Name), 0x11);
    assert_eq!(u8::from(Property::CTime), 0x12);
    assert_eq!(u8::from(Property::ATime), 0x13);
    assert_eq!(u8::from(Property::MTime), 0x14);
    assert_eq!(u8::from(Property::WinAttributes), 0x15);
    assert_eq!(u8::from(Property::Comment), 0x16);
    assert_eq!(u8::from(Property::EncodedHeader), 0x17);
    assert_eq!(u8::from(Property::StartPos), 0x18);
    assert_eq!(u8::from(Property::Dummy), 0x19);
}

#[test]
fn property_code_round_trip() {
    let all = [
        Property::End,
        Property::Header,
        Property::ArchiveProperties,
        Property::AdditionalStreamsInfo,
        Property::MainStreamsInfo,
        Property::FilesInfo,
        Property::PackInfo,
        Property::UnpackInfo,
        Property::SubStreamsInfo,
        Property::Size,
        Property::Crc,
        Property::Folder,
        Property::CodersUnpackSize,
        Property::NumUnpackStream,
        Property::EmptyStream,
        Property::EmptyFile,
        Property::Anti,
        Property::Name,
        Property::CTime,
        Property::ATime,
        Property::MTime,
        Property::WinAttributes,
        Property::Comment,
        Property::EncodedHeader,
        Property::StartPos,
        Property::Dummy,
    ];
    for p in all {
        assert_eq!(Property::from_code(p.to_code()), Some(p));
    }
    for code in 0x1au8..=0xff {
        assert_eq!(Property::from_code(code), None);
    }
}

#[test]
fn get_method_id() {
    assert_eq!(Method::Copy.id(), [0x00]);
    assert_eq!(Method::Delta.id(), [0x03]);
    assert_eq!(Method::Lzma2.id(), [0x21]);
    assert_eq!(Method::Sz(Sz::Lzma).id(), [0x03, 0x01, 0x01]);
    assert_eq!(Method::Sz(Sz::Bcj).id(), [0x03, 0x03, 0x01, 0x03]);
    assert_eq!(Method::Sz(Sz::Bcj2).id(), [0x03, 0x03, 0x01, 0x1b]);
    assert_eq!(Method::Sz(Sz::Ppc).id(), [0x03, 0x03, 0x02, 0x05]);
    assert_eq!(Method::Sz(Sz::Ia64).id(), [0x03, 0x03, 0x04, 0x01]);
    assert_eq!(Method::Sz(Sz::Arm).id(), [0x03, 0x03, 0x05, 0x01]);
    assert_eq!(Method::Sz(Sz::ArmT).id(), [0x03, 0x03, 0x07, 0x01]);
    assert_eq!(Method::Sz(Sz::Sparc).id(), [0x03, 0x03, 0x08, 0x05]);
    assert_eq!(Method::Sz(Sz::Ppmd).id(), [0x03, 0x04, 0x01]);
    assert_eq!(Method::Misc(Misc::Deflate).id(), [0x04, 0x01, 0x08]);
    assert_eq!(Method::Misc(Misc::Deflate64).id(), [0x04, 0x01, 0x09]);
    assert_eq!(Method::Misc(Misc::Bzip2).id(), [0x04, 0x02, 0x02]);
    assert_eq!(Method::Crypto(Crypto::SzAes).id(), [0x06, 0xf1, 0x07, 0x01]);
}

#[test]
fn get_method_by_id() {
    assert!(matches!(Method::by_id(&[0x00]).unwrap(), Method::Copy));
    assert!(matches!(Method::by_id(&[0x03]).unwrap(), Method::Delta));
    assert!(matches!(Method::by_id(&[0x21]).unwrap(), Method::Lzma2));
    assert!(matches!(
        Method::by_id(&[0x03, 0x01, 0x01]).unwrap(),
        Method::Sz(Sz::Lzma)
    ));
    assert!(matches!(
        Method::by_id(&[0x03, 0x03, 0x01, 0x03]).unwrap(),
        Method::Sz(Sz::Bcj)
    ));
    assert!(matches!(
        Method::by_id(&[0x03, 0x03, 0x01, 0x1b]).unwrap(),
        Method::Sz(Sz::Bcj2)
    ));
    assert!(matches!(
        Method::by_id(&[0x03, 0x03, 0x02, 0x05]).unwrap(),
        Method::Sz(Sz::Ppc)
    ));
    assert!(matches!(
        Method::by_id(&[0x03, 0x03, 0x04, 0x01]).unwrap(),
        Method::Sz(Sz::Ia64)
    ));
    assert!(matches!(
        Method::by_id(&[0x03, 0x03, 0x05, 0x01]).unwrap(),
        Method::Sz(Sz::Arm)
    ));
    assert!(matches!(
        Method::by_id(&[0x03, 0x03, 0x07, 0x01]).unwrap(),
        Method::Sz(Sz::ArmT)
    ));
    assert!(matches!(
        Method::by_id(&[0x03, 0x03, 0x08, 0x05]).unwrap(),
        Method::Sz(Sz::Sparc)
    ));
    assert!(matches!(
        Method::by_id(&[0x03, 0x04, 0x01]).unwrap(),
        Method::Sz(Sz::Ppmd)
    ));
    assert!(matches!(
        Method::by_id(&[0x04, 0x01, 0x08]).unwrap(),
        Method::Misc(Misc::Deflate)
    ));
    assert!(matches!(
        Method::by_id(&[0x04, 0x01, 0x09]).unwrap(),
        Method::Misc(Misc::Deflate64)
    ));
    assert!(matches!(
        Method::by_id(&[0x04, 0x02, 0x02]).unwrap(),
        Method::Misc(Misc::Bzip2)
    ));
    assert!(matches!(
        Method::by_id(&[0x06, 0xf1, 0x07, 0x01]).unwrap(),
        Method::Crypto(Crypto::SzAes)
    ));
}

#[test]
fn get_method_by_id_with_bad_id() {
    assert!(Method::by_id(&[u8::MAX]).is_none());
}

#[test]
fn method_id_round_trip() {
    let all = [
        Method::Copy,
        Method::Delta,
        Method::Lzma2,
        Method::Sz(Sz::Lzma),
        Method::Sz(Sz::Bcj),
        Method::Sz(Sz::Bcj2),
        Method::Sz(Sz::Ppc),
        Method::Sz(Sz::Ia64),
        Method::Sz(Sz::Arm),
        Method::Sz(Sz::ArmT),
        Method::Sz(Sz::Sparc),
        Method::Sz(Sz::Ppmd),
        Method::Misc(Misc::Deflate),
        Method::Misc(Misc::Deflate64),
        Method::Misc(Misc::Bzip2),
        Method::Crypto(Crypto::SzAes),
    ];
    for m in all {
        assert_eq!(Method::by_id(&m.id()), Some(m));
    }
}

#[test]
fn method_by_id_no_match() {
    assert!(Method::by_id(&[]).is_none());
    assert!(Method::by_id(&[0xff]).is_none());
    // A valid family prefix with no matching suffix is no match either.
    assert!(Method::by_id(&[0x03, 0x01]).is_none());
    assert!(Method::by_id(&[0x03, 0x01, 0x02]).is_none());
    assert!(Method::by_id(&[0x03, 0x04]).is_none());
    assert!(Method::by_id(&[0x04]).is_none());
    assert!(Method::by_id(&[0x04, 0x01]).is_none());
    assert!(Method::by_id(&[0x06]).is_none());
    assert!(Method::by_id(&[0x06, 0xf1, 0x07]).is_none());
    assert!(Method::by_id(&[0x06, 0xf1, 0x07, 0x01, 0x00]).is_none());
}

#[test]
fn method_length_disambiguation() {
    // The single byte 0x03 is Delta; the full three-byte sequence is
    // Sz(Lzma). Length, not the first byte alone, decides.
    assert!(matches!(Method::by_id(&[0x03]), Some(Method::Delta)));
    assert!(matches!(
        Method::by_id(&[0x03, 0x01, 0x01]),
        Some(Method::Sz(Sz::Lzma))
    ));
}

#[test]
fn property_name() {
    assert_eq!(Property::Header.name(), "Header");
    assert_eq!(Property::EncodedHeader.name(), "EncodedHeader");
}
