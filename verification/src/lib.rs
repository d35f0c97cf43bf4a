//! Decoding of the file record (header) of a Double-precision Array File
//! (DAF), a binary container format whose multi-byte integer fields may be
//! stored in either little- or big-endian order.  The file record announces
//! its own byte ordering through an embedded marker string; this crate
//! resolves that marker, decodes the integer header fields under the resolved
//! ordering, and exposes the layout constants that readers of the remaining
//! records depend on.

use vstd::prelude::*;

pub mod byteorder;
pub mod daf;

verus! {

/// The ways decoding a file record can fail.
#[derive(Debug, Clone, Copy, PartialEq, Eq, Structural)]
pub enum DecodeError {
    /// Fewer than 1024 bytes were supplied; a file record occupies exactly
    /// the first 1024 bytes of a DAF file.
    BufferTooShort,
    /// The 8-byte binary-format marker matches neither recognized
    /// byte-ordering string.
    UnknownFormatMarker,
}

} // verus!
