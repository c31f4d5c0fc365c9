//! Binary vocabulary of the 7z container format: the single-byte property
//! codes of the header grammar, the variable-length compression-method
//! identifiers, the 100-nanosecond fixed-epoch timestamp codec, and the
//! error taxonomy raised when a header violates the format's invariants.

use vstd::prelude::*;

pub mod error;
pub mod filetime;
pub mod property;

pub use crate::error::Error;
pub use crate::error::SzResult;
pub use crate::filetime::FileTime;

verus! {

} // verus!
