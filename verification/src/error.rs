use vstd::prelude::*;

use crate::version::Version;

verus! {

/// Errors reported by the serialization operations.
///
/// `NativeError` is the error type of the backend codec; this layer never
/// inspects it, only carries it through to the caller.
#[derive(Clone, Debug)]
#[non_exhaustive]
pub enum Error<NativeError> {
    /// The input buffer is too short to contain a 4-byte version header;
    /// `len` is the length that was actually supplied.
    VersionHeader { len: usize },
    /// The backend codec failed to encode or decode; the cause is attached.
    ExternSerializer { source: NativeError },
    /// The version header read from the wire does not equal the version this
    /// serializer is fixed at.
    VersionMismatch { version: Version, wanted: Version },
}

} // verus!
