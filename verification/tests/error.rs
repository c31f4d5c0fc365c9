//! Tests for the error taxonomy.

use std::io;

use sz::error::{Error, InvalidArchive, SzResult, UnsupportedArchive};
use sz::property::Property;

#[test]
fn display_invalid_archive_error() {
    let invalid_signature_error = Error::InvalidArchive(InvalidArchive::Signature(Default::default()));
    assert_eq!(invalid_signature_error.to_message(), "invalid 7z archive");

    assert_eq!(
        invalid_signature_error.source_message().unwrap(),
        "invalid signature `[00, 00, 00, 00, 00, 00]`"
    );
    assert_eq!(
        Error::InvalidArchive(InvalidArchive::StartHeaderCrc)
            .source_message()
            .unwrap(),
        "start header CRC mismatch"
    );
    assert_eq!(
        Error::InvalidArchive(InvalidArchive::NextHeaderCrc)
            .source_message()
            .unwrap(),
        "next header CRC mismatch"
    );
    assert_eq!(
        Error::InvalidArchive(InvalidArchive::EndProperty {
            pos: Property::Header,
            id: u8::default()
        })
        .source_message()
        .unwrap(),
        "expected end id for Header, found `0x00`"
    );
}

#[test]
fn display_io_error() {
    assert_eq!(
        Error::Io(io::ErrorKind::NotFound.into()).to_message(),
        "entity not found"
    );
}

#[test]
fn display_password_required_error() {
    assert_eq!(
        Error::PasswordRequired.to_message(),
        "password required to decrypt 7z archive"
    );
}

#[test]
fn display_unsupported_archive_error() {
    let unsupported_version_error = Error::UnsupportedArchive(UnsupportedArchive::Version {
        major: u8::default(),
        minor: u8::default(),
    });
    assert_eq!(
        unsupported_version_error.to_message(),
        "unsupported 7z archive"
    );

    assert_eq!(
        unsupported_version_error.source_message().unwrap(),
        "unsupported version `0.0`"
    );
    assert_eq!(
        Error::UnsupportedArchive(UnsupportedArchive::CompressionMethod("LZMA".to_string()))
            .source_message()
            .unwrap(),
        "unsupported compression method `LZMA`"
    );
}

#[test]
fn display_other_error() {
    assert_eq!(Error::Other("Error".into()).to_message(), "Error");
}

#[test]
fn source_invalid_archive_error() {
    assert!(matches!(
        Error::InvalidArchive(InvalidArchive::Signature(Default::default())),
        Error::InvalidArchive(InvalidArchive::Signature(_))
    ));
    assert!(matches!(
        Error::InvalidArchive(InvalidArchive::StartHeaderCrc),
        Error::InvalidArchive(InvalidArchive::StartHeaderCrc)
    ));
    assert!(matches!(
        Error::InvalidArchive(InvalidArchive::NextHeaderCrc),
        Error::InvalidArchive(InvalidArchive::NextHeaderCrc)
    ));
    assert!(matches!(
        Error::InvalidArchive(InvalidArchive::EndProperty {
            pos: Property::Header,
            id: 0
        }),
        Error::InvalidArchive(InvalidArchive::EndProperty { .. })
    ));
}

#[test]
fn source_io_error() {
    assert!(Error::Io(io::ErrorKind::NotFound.into())
        .source_message()
        .is_none());
}

#[test]
fn source_password_required_error() {
    assert!(Error::PasswordRequired.source_message().is_none());
}

#[test]
fn source_unsupported_archive_error() {
    assert!(Error::UnsupportedArchive(UnsupportedArchive::Version {
        major: u8::default(),
        minor: u8::default()
    })
    .source_message()
    .is_some());
    assert!(
        Error::UnsupportedArchive(UnsupportedArchive::CompressionMethod("LZMA".to_string()))
            .source_message()
            .is_some()
    );
}

#[test]
fn source_other_error() {
    assert!(Error::Other("Error".into()).source_message().is_none());
}

#[test]
fn invalid_archive_error_to_error() {
    assert!(matches!(
        Error::from(InvalidArchive::Signature(Default::default())),
        Error::InvalidArchive(InvalidArchive::Signature(_))
    ));
    assert!(matches!(
        Error::from(InvalidArchive::StartHeaderCrc),
        Error::InvalidArchive(InvalidArchive::StartHeaderCrc)
    ));
    assert!(matches!(
        Error::from(InvalidArchive::NextHeaderCrc),
        Error::InvalidArchive(InvalidArchive::NextHeaderCrc)
    ));
    assert!(matches!(
        Error::from(InvalidArchive::EndProperty {
            pos: Property::Header,
            id: u8::default()
        }),
        Error::InvalidArchive(InvalidArchive::EndProperty { .. })
    ));
}

#[test]
fn error_to_std_io_error() {
    assert!(matches!(
        io::Error::from(Error::Io(io::ErrorKind::NotFound.into())),
        io::Error { .. }
    ));
}

#[test]
fn std_io_error_to_error() {
    assert!(matches!(
        Error::from(io::Error::from(io::ErrorKind::NotFound)),
        Error::Io(_)
    ));
}

#[test]
fn unsupported_archive_error_to_error() {
    assert!(matches!(
        Error::from(UnsupportedArchive::Version {
            major: u8::default(),
            minor: u8::default()
        }),
        Error::UnsupportedArchive(UnsupportedArchive::Version { .. })
    ));
    assert!(matches!(
        Error::from(UnsupportedArchive::CompressionMethod("LZMA".to_string())),
        Error::UnsupportedArchive(UnsupportedArchive::CompressionMethod(_))
    ));
}

#[test]
fn result_type() {
    // The alias names an ordinary `Result` whose error is the 7z `Error`.
    let r: SzResult<()> = std::result::Result::<(), Error>::Ok(());
    assert!(matches!(r, Ok(())));
}

#[test]
fn signature_message_hex_digits() {
    // Each byte renders as two lower-case hex digits.
    let e = Error::InvalidArchive(InvalidArchive::Signature([0x37, 0x7a, 0xbc, 0xaf, 0x27, 0x1c]));
    assert_eq!(
        e.source_message().unwrap(),
        "invalid signature `[37, 7a, bc, af, 27, 1c]`"
    );
}

#[test]
fn end_property_message_hex() {
    let e = Error::InvalidArchive(InvalidArchive::EndProperty {
        pos: Property::FilesInfo,
        id: 0x1b,
    });
    assert_eq!(
        e.source_message().unwrap(),
        "expected end id for FilesInfo, found `0x1b`"
    );
}

#[test]
fn version_message_decimal() {
    let e = Error::UnsupportedArchive(UnsupportedArchive::Version { major: 0, minor: 4 });
    assert_eq!(e.source_message().unwrap(), "unsupported version `0.4`");
    let e = Error::UnsupportedArchive(UnsupportedArchive::Version {
        major: 205,
        minor: 37,
    });
    assert_eq!(e.source_message().unwrap(), "unsupported version `205.37`");
}
