use vstd::prelude::*;

use crate::error::Error;
use crate::version::Version;

verus! {

/// The operation surface of a serializer fixed at one protocol version.
///
/// `serialize` and `deserialize` frame the codec bytes in a 4-byte version
/// header and enforce strict equality between the header on the wire and the
/// version this serializer is fixed at. The `_no_version` variants neither
/// write nor inspect a header: they are for callers that manage versioning
/// themselves, and bytes they produce are not decodable by the
/// header-checking variants without a spurious mismatch, since the leading
/// payload bytes would be misread as a header.
pub trait BinarySerializer: Sized {
    /// The error type of the backend codec; carried through opaquely.
    type NativeError;

    /// The major version number this serializer is fixed at.
    spec fn spec_major() -> u16;

    /// The minor version number this serializer is fixed at.
    spec fn spec_minor() -> u16;

    /// The version this serializer is fixed at.
    fn version() -> (r: Version)
        ensures
            r == (Version { major: Self::spec_major(), minor: Self::spec_minor() }),
    ;

    /// Encode `value` with the backend codec, with no version header.
    ///
    /// The result is exactly the codec's output: no header is written, and
    /// the input is never rejected on version grounds.
    fn serialize_no_version<T: ?Sized + serde::Serialize>(value: &T) -> (r: Result<
        Vec<u8>,
        Error<Self::NativeError>,
    >)
        ensures
            r matches Err(e) ==> e is ExternSerializer,
    ;

    /// Decode `bytes` with the backend codec, expecting no version header.
    ///
    /// The bytes are handed to the codec untouched: no header is read, no
    /// length is required, and the only failure is the codec's own.
    fn deserialize_no_version<'a, T: serde::Deserialize<'a>>(bytes: &'a [u8]) -> (r: Result<
        T,
        Error<Self::NativeError>,
    >)
        ensures
            r matches Err(e) ==> e is ExternSerializer,
    ;

    /// Encode `value` with the backend codec and prepend this serializer's
    /// 4-byte version header.
    fn serialize<T: ?Sized + serde::Serialize>(value: &T) -> (r: Result<
        Vec<u8>,
        Error<Self::NativeError>,
    >)
        ensures
            r matches Ok(bytes) ==> bytes@.len() >= 4 && bytes@.subrange(0, 4) == (Version {
                major: Self::spec_major(),
                minor: Self::spec_minor(),
            }).spec_serialize() && Version::spec_deserialize(bytes@) == (Version {
                major: Self::spec_major(),
                minor: Self::spec_minor(),
            }),
            r matches Err(e) ==> e is ExternSerializer,
    ;

    /// Split a 4-byte version header off `bytes`, demand that it equals this
    /// serializer's fixed version exactly, and decode the remainder with the
    /// backend codec.
    ///
    /// The header check is strict equality, not a range check: a buffer
    /// written at any other version is refused with `VersionMismatch`
    /// carrying both the observed and the wanted version, before the codec
    /// ever sees the payload.
    fn deserialize<'a, T: serde::Deserialize<'a>>(bytes: &'a [u8]) -> (r: Result<
        T,
        Error<Self::NativeError>,
    >)
        ensures
            bytes@.len() < 4 ==> (r matches Err(e) && e matches Error::VersionHeader { len }
                && len == bytes@.len()),
            bytes@.len() >= 4 && Version::spec_deserialize(bytes@) != (Version {
                major: Self::spec_major(),
                minor: Self::spec_minor(),
            }) ==> (r matches Err(e) && e matches Error::VersionMismatch { version, wanted }
                && version == Version::spec_deserialize(bytes@) && wanted == (Version {
                major: Self::spec_major(),
                minor: Self::spec_minor(),
            })),
            bytes@.len() >= 4 && Version::spec_deserialize(bytes@) == (Version {
                major: Self::spec_major(),
                minor: Self::spec_minor(),
            }) ==> (r matches Err(e) ==> e is ExternSerializer),
    ;
}

} // verus!
