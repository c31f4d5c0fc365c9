//! The error type for this crate.

use vstd::prelude::*;

use crate::property::Property;

verus! {

/// The lower-case hexadecimal digit character for a value below 16.
pub open spec fn hex_digit(d: u8) -> char {
    if d == 0 {
        '0'
    } else if d == 1 {
        '1'
    } else if d == 2 {
        '2'
    } else if d == 3 {
        '3'
    } else if d == 4 {
        '4'
    } else if d == 5 {
        '5'
    } else if d == 6 {
        '6'
    } else if d == 7 {
        '7'
    } else if d == 8 {
        '8'
    } else if d == 9 {
        '9'
    } else if d == 10 {
        'a'
    } else if d == 11 {
        'b'
    } else if d == 12 {
        'c'
    } else if d == 13 {
        'd'
    } else if d == 14 {
        'e'
    } else {
        'f'
    }
}

/// The two lower-case hexadecimal digit characters of a byte.
pub open spec fn byte_hex(b: u8) -> Seq<char> {
    seq![hex_digit(b / 16), hex_digit(b % 16)]
}

/// The decimal digit characters of a byte, without leading zeros.
pub open spec fn byte_dec(n: u8) -> Seq<char> {
    if n < 10 {
        seq![hex_digit(n)]
    } else if n < 100 {
        seq![hex_digit(n / 10), hex_digit(n % 10)]
    } else {
        seq![hex_digit(n / 100), hex_digit((n / 10) % 10), hex_digit(n % 10)]
    }
}

/// Gets the one-character string of a digit below 16.
fn digit_str(d: u8) -> (r: &'static str)
    requires
        d < 16,
    ensures
        r@ == seq![hex_digit(d)],
{
    match d {
        0 => {
            proof {
                reveal_strlit("0");
                assert("0"@ =~= seq![hex_digit(d)]);
            }
            "0"
        },
        1 => {
            proof {
                reveal_strlit("1");
                assert("1"@ =~= seq![hex_digit(d)]);
            }
            "1"
        },
        2 => {
            proof {
                reveal_strlit("2");
                assert("2"@ =~= seq![hex_digit(d)]);
            }
            "2"
        },
        3 => {
            proof {
                reveal_strlit("3");
                assert("3"@ =~= seq![hex_digit(d)]);
            }
            "3"
        },
        4 => {
            proof {
                reveal_strlit("4");
                assert("4"@ =~= seq![hex_digit(d)]);
            }
            "4"
        },
        5 => {
            proof {
                reveal_strlit("5");
                assert("5"@ =~= seq![hex_digit(d)]);
            }
            "5"
        },
        6 => {
            proof {
                reveal_strlit("6");
                assert("6"@ =~= seq![hex_digit(d)]);
            }
            "6"
        },
        7 => {
            proof {
                reveal_strlit("7");
                assert("7"@ =~= seq![hex_digit(d)]);
            }
            "7"
        },
        8 => {
            proof {
                reveal_strlit("8");
                assert("8"@ =~= seq![hex_digit(d)]);
            }
            "8"
        },
        9 => {
            proof {
                reveal_strlit("9");
                assert("9"@ =~= seq![hex_digit(d)]);
            }
            "9"
        },
        10 => {
            proof {
                reveal_strlit("a");
                assert("a"@ =~= seq![hex_digit(d)]);
            }
            "a"
        },
        11 => {
            proof {
                reveal_strlit("b");
                assert("b"@ =~= seq![hex_digit(d)]);
            }
            "b"
        },
        12 => {
            proof {
                reveal_strlit("c");
                assert("c"@ =~= seq![hex_digit(d)]);
            }
            "c"
        },
        13 => {
            proof {
                reveal_strlit("d");
                assert("d"@ =~= seq![hex_digit(d)]);
            }
            "d"
        },
        14 => {
            proof {
                reveal_strlit("e");
                assert("e"@ =~= seq![hex_digit(d)]);
            }
            "e"
        },
        _ => {
            proof {
                reveal_strlit("f");
                assert("f"@ =~= seq![hex_digit(d)]);
            }
            "f"
        },
    }
}

/// Appends the two hexadecimal digits of a byte.
fn append_byte_hex(s: &mut String, b: u8)
    ensures
        final(s)@ == old(s)@ + byte_hex(b),
{
    s.append(digit_str(b / 16));
    s.append(digit_str(b % 16));
    proof {
        assert(s@ =~= old(s)@ + byte_hex(b));
    }
}

/// Appends the decimal digits of a byte, without leading zeros.
fn append_byte_dec(s: &mut String, n: u8)
    ensures
        final(s)@ == old(s)@ + byte_dec(n),
{
    if n >= 100 {
        s.append(digit_str(n / 100));
    }
    if n >= 10 {
        s.append(digit_str((n / 10) % 10));
    }
    s.append(digit_str(n % 10));
    proof {
        assert(s@ =~= old(s)@ + byte_dec(n));
    }
}

#[verifier::external_type_specification]
#[verifier::external_body]
pub struct ExIoError(std::io::Error);

/// The error type for the 7z format.
#[derive(Debug)]
pub enum Error {
    /// The archive was invalid.
    InvalidArchive(InvalidArchive),
    /// An error caused by I/O.
    Io(std::io::Error),
    /// The password was required to decrypt the archive.
    PasswordRequired,
    /// The archive was not supported.
    UnsupportedArchive(UnsupportedArchive),
    /// A custom error.
    Other(String),
}

/// The error type if the archive was invalid.
#[derive(Debug)]
pub enum InvalidArchive {
    /// The signature was invalid.
    Signature([u8; 6]),
    /// A CRC of the start header mismatched.
    StartHeaderCrc,
    /// A CRC of the next header mismatched.
    NextHeaderCrc,
    /// The end property was invalid.
    EndProperty {
        /// The position of property where the end property was invalid.
        pos: Property,
        /// The id which was found.
        id: u8,
    },
}

/// The error type if the archive was not supported.
#[derive(Debug)]
pub enum UnsupportedArchive {
    /// The version was not supported.
    Version {
        /// Major version.
        major: u8,
        /// Minor version.
        minor: u8,
    },
    /// The compression method was not supported.
    CompressionMethod(String),
}

impl InvalidArchive {
    /// The message this entry renders.
    pub open spec fn spec_message(self) -> Seq<char> {
        match self {
            InvalidArchive::Signature(bytes) => "invalid signature `["@ + byte_hex(bytes@[0])
                + ", "@ + byte_hex(bytes@[1]) + ", "@ + byte_hex(bytes@[2]) + ", "@ + byte_hex(
                bytes@[3],
            ) + ", "@ + byte_hex(bytes@[4]) + ", "@ + byte_hex(bytes@[5]) + "]`"@,
            InvalidArchive::StartHeaderCrc => "start header CRC mismatch"@,
            InvalidArchive::NextHeaderCrc => "next header CRC mismatch"@,
            InvalidArchive::EndProperty { pos, id } => "expected end id for "@ + pos.spec_name()
                + ", found `0x"@ + byte_hex(id) + "`"@,
        }
    }

    /// Renders the message of this entry.
    pub fn to_message(&self) -> (r: String)
        ensures
            r@ == self.spec_message(),
    {
        match self {
            InvalidArchive::Signature(bytes) => {
                let mut s = String::from_str("invalid signature `[");
                append_byte_hex(&mut s, bytes[0]);
                s.append(", ");
                append_byte_hex(&mut s, bytes[1]);
                s.append(", ");
                append_byte_hex(&mut s, bytes[2]);
                s.append(", ");
                append_byte_hex(&mut s, bytes[3]);
                s.append(", ");
                append_byte_hex(&mut s, bytes[4]);
                s.append(", ");
                append_byte_hex(&mut s, bytes[5]);
                s.append("]`");
                proof {
                    assert(s@ =~= self.spec_message());
                }
                s
            },
            InvalidArchive::StartHeaderCrc => String::from_str("start header CRC mismatch"),
            InvalidArchive::NextHeaderCrc => String::from_str("next header CRC mismatch"),
            InvalidArchive::EndProperty { pos, id } => {
                let mut s = String::from_str("expected end id for ");
                s.append(pos.name());
                s.append(", found `0x");
                append_byte_hex(&mut s, *id);
                s.append("`");
                proof {
                    assert(s@ =~= self.spec_message());
                }
                s
            },
        }
    }
}

impl UnsupportedArchive {
    /// The message this entry renders.
    pub open spec fn spec_message(self) -> Seq<char> {
        match self {
            UnsupportedArchive::Version { major, minor } => "unsupported version `"@ + byte_dec(
                major,
            ) + "."@ + byte_dec(minor) + "`"@,
            UnsupportedArchive::CompressionMethod(name) => "unsupported compression method `"@
                + name@ + "`"@,
        }
    }

    /// Renders the message of this entry.
    pub fn to_message(&self) -> (r: String)
        ensures
            r@ == self.spec_message(),
    {
        match self {
            UnsupportedArchive::Version { major, minor } => {
                let mut s = String::from_str("unsupported version `");
                append_byte_dec(&mut s, *major);
                s.append(".");
                append_byte_dec(&mut s, *minor);
                s.append("`");
                proof {
                    assert(s@ =~= self.spec_message());
                }
                s
            },
            UnsupportedArchive::CompressionMethod(name) => {
                let mut s = String::from_str("unsupported compression method `");
                s.append(name.as_str());
                s.append("`");
                proof {
                    assert(s@ =~= self.spec_message());
                }
                s
            },
        }
    }
}

/// Relies on the `Display` implementation of `std::io::Error`, through
/// `ToString::to_string`: the description of the underlying I/O failure.
#[verifier::external_body]
fn io_error_message(e: &std::io::Error) -> (r: String) {
    e.to_string()
}

impl Error {
    /// Renders the fixed top-level message of this error kind; for an
    /// I/O error, the description of the underlying failure, and for a
    /// custom error, its own text.
    pub fn to_message(&self) -> (r: String)
        ensures
            (match self {
                Error::InvalidArchive(_) => r@ == "invalid 7z archive"@,
                Error::Io(_) => true,
                Error::PasswordRequired => r@ == "password required to decrypt 7z archive"@,
                Error::UnsupportedArchive(_) => r@ == "unsupported 7z archive"@,
                Error::Other(text) => r@ == text@,
            }),
    {
        match self {
            Error::InvalidArchive(_) => String::from_str("invalid 7z archive"),
            Error::Io(e) => io_error_message(e),
            Error::PasswordRequired => String::from_str("password required to decrypt 7z archive"),
            Error::UnsupportedArchive(_) => String::from_str("unsupported 7z archive"),
            Error::Other(text) => text.clone(),
        }
    }

    /// Renders the message of the structured cause underlying this error,
    /// where there is one: the top-level kinds `InvalidArchive` and
    /// `UnsupportedArchive` carry a cause, the others do not.
    pub fn source_message(&self) -> (r: Option<String>)
        ensures
            (match self {
                Error::InvalidArchive(cause) => r matches Some(m) && m@ == cause.spec_message(),
                Error::UnsupportedArchive(cause) => r matches Some(m) && m@
                    == cause.spec_message(),
                _ => r is None,
            }),
    {
        match self {
            Error::InvalidArchive(cause) => Some(cause.to_message()),
            Error::UnsupportedArchive(cause) => Some(cause.to_message()),
            _ => None,
        }
    }
}

impl From<InvalidArchive> for Error {
    /// Wraps an `InvalidArchive` cause in its top-level error kind.
    fn from(err: InvalidArchive) -> (r: Error) {
        Error::InvalidArchive(err)
    }
}

impl vstd::std_specs::convert::FromSpecImpl<InvalidArchive> for Error {
    open spec fn obeys_from_spec() -> bool {
        true
    }

    open spec fn from_spec(err: InvalidArchive) -> Error {
        Error::InvalidArchive(err)
    }
}

impl From<UnsupportedArchive> for Error {
    /// Wraps an `UnsupportedArchive` cause in its top-level error kind.
    fn from(err: UnsupportedArchive) -> (r: Error) {
        Error::UnsupportedArchive(err)
    }
}

impl vstd::std_specs::convert::FromSpecImpl<UnsupportedArchive> for Error {
    open spec fn obeys_from_spec() -> bool {
        true
    }

    open spec fn from_spec(err: UnsupportedArchive) -> Error {
        Error::UnsupportedArchive(err)
    }
}

impl From<std::io::Error> for Error {
    /// Wraps an arbitrary I/O failure in the `Io` kind, losing nothing.
    fn from(err: std::io::Error) -> (r: Error) {
        Error::Io(err)
    }
}

impl vstd::std_specs::convert::FromSpecImpl<std::io::Error> for Error {
    open spec fn obeys_from_spec() -> bool {
        true
    }

    open spec fn from_spec(err: std::io::Error) -> Error {
        Error::Io(err)
    }
}

/// Relies on std::io::Error::new: an I/O error of kind `Other` carrying
/// the given message.
#[verifier::external_body]
fn io_error_with_message(msg: String) -> (r: std::io::Error) {
    std::io::Error::new(std::io::ErrorKind::Other, msg)
}

impl From<Error> for std::io::Error {
    /// Converts a taxonomy entry into an I/O error of kind `Other`.
    ///
    /// Only the rendered message is carried, so the entry's discriminant
    /// is lost here. An embedding that keeps the entry itself,
    /// downcastable, needs the standard error traits, which no type of
    /// the verified core can implement; the mirror of the taxonomy that
    /// attaches them provides that embedding.
    fn from(err: Error) -> (r: std::io::Error) {
        io_error_with_message(err.to_message())
    }
}

impl vstd::std_specs::convert::FromSpecImpl<Error> for std::io::Error {
    open spec fn obeys_from_spec() -> bool {
        false
    }

    open spec fn from_spec(err: Error) -> std::io::Error {
        arbitrary()
    }
}

/// Alias for a [`Result`](core::result::Result) with [`crate::Error`].
pub type SzResult<T> = core::result::Result<T, Error>;

} // verus!
