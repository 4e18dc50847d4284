use std::marker::PhantomData;

use vstd::prelude::*;

use crate::binary_serializer::BinarySerializer;
use crate::error::Error;
use crate::version::{
    lemma_header_round_trip, lemma_range_gate, static_version_of, StaticVersionType, Version,
};
use crate::versioned::Versioned;

verus! {

/// `bincode::ErrorKind`, the error type of the backend codec, declared so
/// that values of it can be carried through this crate's signatures; this
/// layer never looks inside one.
#[verifier::external_type_specification]
#[verifier::external_body]
pub struct ExErrorKind(bincode::ErrorKind);

/// Relies on `bincode::serialize`: encodes a serde-serializable value with
/// bincode's default configuration. The result is decided by the codec; the
/// callers state nothing of it beyond which error variant they wrap it in.
#[verifier::external_body]
pub(crate) fn bincode_encode<T: ?Sized + serde::Serialize>(value: &T) -> (r: Result<
    Vec<u8>,
    Box<bincode::ErrorKind>,
>) {
    bincode::serialize(value)
}

/// Relies on `bincode::deserialize`: decodes a value from bytes with
/// bincode's default configuration, ignoring trailing bytes. The result is
/// decided by the codec; the callers state nothing of it beyond which error
/// variant they wrap it in.
#[verifier::external_body]
pub(crate) fn bincode_decode<'a, T: serde::Deserialize<'a>>(bytes: &'a [u8]) -> (r: Result<
    T,
    Box<bincode::ErrorKind>,
>) {
    bincode::deserialize(bytes)
}

/// A serializer fixed at the version `VER` stands for, with bincode as the
/// backend codec.
pub struct BincodeSerializer<VER: StaticVersionType>(PhantomData<VER>);

impl<VER: StaticVersionType> BinarySerializer for BincodeSerializer<VER> {
    type NativeError = Box<bincode::ErrorKind>;

    open spec fn spec_major() -> u16 {
        VER::spec_major()
    }

    open spec fn spec_minor() -> u16 {
        VER::spec_minor()
    }

    fn version() -> Version {
        VER::version()
    }

    fn serialize_no_version<T: ?Sized + serde::Serialize>(value: &T) -> Result<
        Vec<u8>,
        Error<Self::NativeError>,
    > {
        match bincode_encode(value) {
            Ok(bytes) => Ok(bytes),
            Err(source) => Err(Error::ExternSerializer { source }),
        }
    }

    fn deserialize_no_version<'a, T: serde::Deserialize<'a>>(bytes: &'a [u8]) -> Result<
        T,
        Error<Self::NativeError>,
    > {
        match bincode_decode::<T>(bytes) {
            Ok(value) => Ok(value),
            Err(source) => Err(Error::ExternSerializer { source }),
        }
    }

    fn serialize<T: ?Sized + serde::Serialize>(value: &T) -> Result<
        Vec<u8>,
        Error<Self::NativeError>,
    > {
        let ver = VER::version();
        match bincode_encode(value) {
            Ok(payload) => {
                let ghost p = payload@;
                let buf = ver.with_header(payload);
                proof {
                    lemma_header_round_trip(ver, p);
                    assert(buf@.subrange(0, 4) =~= ver.spec_serialize());
                }
                Ok(buf)
            },
            Err(source) => Err(Error::ExternSerializer { source }),
        }
    }

    fn deserialize<'a, T: serde::Deserialize<'a>>(bytes: &'a [u8]) -> Result<
        T,
        Error<Self::NativeError>,
    > {
        let (ver, rest) = match Version::deserialize::<Box<bincode::ErrorKind>>(bytes) {
            Ok(p) => p,
            Err(e) => {
                return Err(e);
            },
        };
        if ver.major != VER::major() || ver.minor != VER::minor() {
            return Err(Error::VersionMismatch { version: ver, wanted: Self::version() });
        }
        match bincode_decode::<T>(rest) {
            Ok(value) => Ok(value),
            Err(source) => Err(Error::ExternSerializer { source }),
        }
    }
}

/// A static compatibility gate: given a serializer's fixed version `VER` and
/// a payload type's declared range, it decides whether the pairing is
/// admissible.
///
/// An inadmissible pairing is a wiring mistake, not a data error, so the
/// gate is not an error value: `assert_compatible` demands a proof of
/// compatibility from every verified caller, and the range-checked
/// serializer operations carry the same demand in their preconditions, so an
/// incompatible pairing is refused before the program runs.
pub struct VersionChecker<VER: StaticVersionType, TYPE: ?Sized + Versioned> {
    _phantom_ver: PhantomData<VER>,
    _phantom_type: PhantomData<TYPE>,
}

impl<VER: StaticVersionType, TYPE: ?Sized + Versioned> VersionChecker<VER, TYPE> {
    /// Whether the version `VER` stands for lies inside `TYPE`'s declared
    /// compatibility range.
    pub open spec fn spec_compatible() -> bool {
        static_version_of::<VER>().spec_in_range(
            TYPE::spec_min_version(),
            TYPE::spec_max_version(),
        )
    }

    /// Decide at runtime whether the version `VER` stands for lies inside
    /// `TYPE`'s declared compatibility range.
    pub fn compatible() -> (r: bool)
        ensures
            r == Self::spec_compatible(),
    {
        let v = VER::version();
        let min = TYPE::min_version();
        let max = TYPE::max_version();
        v.in_range(&min, &max)
    }

    /// Require the pairing of `VER` and `TYPE` to be compatible before any
    /// work proceeds.
    pub fn assert_compatible()
        requires
            Self::spec_compatible(),
    {
    }

    /// The admissibility condition written out field by field, for every
    /// pairing of `VER` and `TYPE`: the pairing is admissible exactly when
    /// the serializer's version is neither strictly below the lower end nor
    /// strictly above the upper end of the declared range, comparing
    /// `major` first and then `minor`.
    pub proof fn lemma_gate_exact()
        ensures
            Self::spec_compatible() <==> !(VER::spec_major() < TYPE::spec_min_version().major
                || VER::spec_major() > TYPE::spec_max_version().major || (VER::spec_major()
                == TYPE::spec_min_version().major && VER::spec_minor()
                < TYPE::spec_min_version().minor) || (VER::spec_major()
                == TYPE::spec_max_version().major && VER::spec_minor()
                > TYPE::spec_max_version().minor)),
    {
        lemma_range_gate(
            static_version_of::<VER>(),
            TYPE::spec_min_version(),
            TYPE::spec_max_version(),
        );
    }
}

/// The operation surface of a version-aware serializer: the same four
/// operations as [`BinarySerializer`], each additionally gated on the
/// payload type's declared compatibility range.
///
/// Every operation carries the precondition that the serializer's fixed
/// version lies inside the payload type's declared range, so a mismatched
/// pairing is refused when the caller is checked. The header check of
/// `deserialize` is still strict equality against this serializer's own
/// version: a caller using a differently-versioned serializer on the same
/// payload type gets a `VersionMismatch` even where the declared range would
/// have tolerated the wire version. The two checks are deliberately
/// separate.
pub trait VersionedBinarySerializer: Sized {
    /// The error type of the backend codec; carried through opaquely.
    type NativeError;

    /// The static version identity this serializer is fixed at.
    type StaticVersion: StaticVersionType;

    /// The major version number this serializer is fixed at.
    spec fn spec_major() -> u16;

    /// The minor version number this serializer is fixed at.
    spec fn spec_minor() -> u16;

    /// The version this serializer is fixed at.
    fn version() -> (r: Version)
        ensures
            r == (Version { major: Self::spec_major(), minor: Self::spec_minor() }),
    ;

    /// Encode `value` with the backend codec, with no version header.
    fn serialize_no_version<T: ?Sized + serde::Serialize + Versioned>(value: &T) -> (r: Result<
        Vec<u8>,
        Error<Self::NativeError>,
    >)
        requires
            (Version { major: Self::spec_major(), minor: Self::spec_minor() }).spec_in_range(
                T::spec_min_version(),
                T::spec_max_version(),
            ),
        ensures
            r matches Err(e) ==> e is ExternSerializer,
    ;

    /// Decode `bytes` with the backend codec, expecting no version header.
    fn deserialize_no_version<'a, T: serde::Deserialize<'a> + Versioned>(bytes: &'a [u8]) -> (r:
        Result<T, Error<Self::NativeError>>)
        requires
            (Version { major: Self::spec_major(), minor: Self::spec_minor() }).spec_in_range(
                T::spec_min_version(),
                T::spec_max_version(),
            ),
        ensures
            r matches Err(e) ==> e is ExternSerializer,
    ;

    /// Encode `value` with the backend codec and prepend this serializer's
    /// 4-byte version header.
    fn serialize<T: ?Sized + serde::Serialize + Versioned>(value: &T) -> (r: Result<
        Vec<u8>,
        Error<Self::NativeError>,
    >)
        requires
            (Version { major: Self::spec_major(), minor: Self::spec_minor() }).spec_in_range(
                T::spec_min_version(),
                T::spec_max_version(),
            ),
        ensures
            r matches Ok(bytes) ==> bytes@.len() >= 4 && bytes@.subrange(0, 4) == (Version {
                major: Self::spec_major(),
                minor: Self::spec_minor(),
            }).spec_serialize() && Version::spec_deserialize(bytes@) == (Version {
                major: Self::spec_major(),
                minor: Self::spec_minor(),
            }),
            r matches Err(e) ==> e is ExternSerializer,
    ;

    /// Split a 4-byte version header off `bytes`, demand strict equality
    /// with this serializer's fixed version, and decode the remainder with
    /// the backend codec.
    fn deserialize<'a, T: serde::Deserialize<'a> + Versioned>(bytes: &'a [u8]) -> (r: Result<
        T,
        Error<Self::NativeError>,
    >)
        requires
            (Version { major: Self::spec_major(), minor: Self::spec_minor() }).spec_in_range(
                T::spec_min_version(),
                T::spec_max_version(),
            ),
        ensures
            bytes@.len() < 4 ==> (r matches Err(e) && e matches Error::VersionHeader { len }
                && len == bytes@.len()),
            bytes@.len() >= 4 && Version::spec_deserialize(bytes@) != (Version {
                major: Self::spec_major(),
                minor: Self::spec_minor(),
            }) ==> (r matches Err(e) && e matches Error::VersionMismatch { version, wanted }
                && version == Version::spec_deserialize(bytes@) && wanted == (Version {
                major: Self::spec_major(),
                minor: Self::spec_minor(),
            })),
            bytes@.len() >= 4 && Version::spec_deserialize(bytes@) == (Version {
                major: Self::spec_major(),
                minor: Self::spec_minor(),
            }) ==> (r matches Err(e) ==> e is ExternSerializer),
    ;
}

/// A version-aware serializer fixed at the version `VER` stands for, with
/// bincode as the backend codec.
pub struct VersionedBincodeSerializer<VER: StaticVersionType>(PhantomData<VER>);

impl<VER: StaticVersionType> VersionedBinarySerializer for VersionedBincodeSerializer<VER> {
    type NativeError = Box<bincode::ErrorKind>;

    type StaticVersion = VER;

    open spec fn spec_major() -> u16 {
        VER::spec_major()
    }

    open spec fn spec_minor() -> u16 {
        VER::spec_minor()
    }

    fn version() -> Version {
        VER::version()
    }

    fn serialize_no_version<T: ?Sized + serde::Serialize + Versioned>(value: &T) -> Result<
        Vec<u8>,
        Error<Self::NativeError>,
    > {
        VersionChecker::<VER, T>::assert_compatible();
        match bincode_encode(value) {
            Ok(bytes) => Ok(bytes),
            Err(source) => Err(Error::ExternSerializer { source }),
        }
    }

    fn deserialize_no_version<'a, T: serde::Deserialize<'a> + Versioned>(bytes: &'a [u8]) -> Result<
        T,
        Error<Self::NativeError>,
    > {
        VersionChecker::<VER, T>::assert_compatible();
        match bincode_decode::<T>(bytes) {
            Ok(value) => Ok(value),
            Err(source) => Err(Error::ExternSerializer { source }),
        }
    }

    fn serialize<T: ?Sized + serde::Serialize + Versioned>(value: &T) -> Result<
        Vec<u8>,
        Error<Self::NativeError>,
    > {
        VersionChecker::<VER, T>::assert_compatible();
        let ver = VER::version();
        match bincode_encode(value) {
            Ok(payload) => {
                let ghost p = payload@;
                let buf = ver.with_header(payload);
                proof {
                    lemma_header_round_trip(ver, p);
                    assert(buf@.subrange(0, 4) =~= ver.spec_serialize());
                }
                Ok(buf)
            },
            Err(source) => Err(Error::ExternSerializer { source }),
        }
    }

    fn deserialize<'a, T: serde::Deserialize<'a> + Versioned>(bytes: &'a [u8]) -> Result<
        T,
        Error<Self::NativeError>,
    > {
        VersionChecker::<VER, T>::assert_compatible();
        let (ver, rest) = match Version::deserialize::<Box<bincode::ErrorKind>>(bytes) {
            Ok(p) => p,
            Err(e) => {
                return Err(e);
            },
        };
        if ver.major != VER::major() || ver.minor != VER::minor() {
            return Err(Error::VersionMismatch { version: ver, wanted: Self::version() });
        }
        match bincode_decode::<T>(rest) {
            Ok(value) => Ok(value),
            Err(source) => Err(Error::ExternSerializer { source }),
        }
    }
}

} // verus!
