use vstd::prelude::*;

use crate::error::Error;

verus! {

use vstd::bytes::{
    spec_u16_to_le_bytes, spec_u16_from_le_bytes, u16_to_le_bytes, u16_from_le_bytes,
    lemma_auto_spec_u16_to_from_le_bytes,
};
use vstd::slice::slice_subrange;
use vstd::std_specs::cmp::PartialOrdSpec;
use vstd::string::{StrSliceExecFns, StringExecFns};

/// The character for one decimal digit.
pub open spec fn spec_digit_char(d: int) -> char
    recommends
        0 <= d <= 9,
{
    if d == 0 {
        '0'
    } else if d == 1 {
        '1'
    } else if d == 2 {
        '2'
    } else if d == 3 {
        '3'
    } else if d == 4 {
        '4'
    } else if d == 5 {
        '5'
    } else if d == 6 {
        '6'
    } else if d == 7 {
        '7'
    } else if d == 8 {
        '8'
    } else {
        '9'
    }
}

/// The decimal representation of `n`: most significant digit first, no
/// leading zeros (a single `'0'` for zero).
pub open spec fn spec_decimal(n: int) -> Seq<char>
    recommends
        n >= 0,
    decreases n,
{
    if n < 10 {
        seq![spec_digit_char(n)]
    } else {
        spec_decimal(n / 10).push(spec_digit_char(n % 10))
    }
}

/// The string literal for one decimal digit.
fn digit_str(d: u16) -> (r: &'static str)
    requires
        d < 10,
    ensures
        r@ == seq![spec_digit_char(d as int)],
{
    proof {
        reveal_strlit("0");
        reveal_strlit("1");
        reveal_strlit("2");
        reveal_strlit("3");
        reveal_strlit("4");
        reveal_strlit("5");
        reveal_strlit("6");
        reveal_strlit("7");
        reveal_strlit("8");
        reveal_strlit("9");
    }
    let r: &'static str = if d == 0 {
        "0"
    } else if d == 1 {
        "1"
    } else if d == 2 {
        "2"
    } else if d == 3 {
        "3"
    } else if d == 4 {
        "4"
    } else if d == 5 {
        "5"
    } else if d == 6 {
        "6"
    } else if d == 7 {
        "7"
    } else if d == 8 {
        "8"
    } else {
        "9"
    };
    assert(r@ =~= seq![spec_digit_char(d as int)]);
    r
}

/// Append the decimal representation of `n` to `out`.
fn push_decimal(out: &mut String, n: u16)
    ensures
        final(out)@ == old(out)@ + spec_decimal(n as int),
    decreases n,
{
    if n < 10 {
        out.append(digit_str(n));
        assert(out@ =~= old(out)@ + spec_decimal(n as int));
    } else {
        push_decimal(out, n / 10);
        out.append(digit_str(n % 10));
        assert(out@ =~= old(out)@ + spec_decimal(n as int));
    }
}

/// A protocol version number: a `(major, minor)` pair, ordered
/// lexicographically (major first, then minor) and carried on the wire as
/// exactly 4 bytes: `major` as a little-endian `u16` followed by `minor` as a
/// little-endian `u16`.
#[derive(Clone, Copy, Debug, PartialEq, Eq, Hash, Ord, Structural)]
pub struct Version {
    /// major version number
    pub major: u16,
    /// minor version number
    pub minor: u16,
}

impl PartialOrd for Version {
    fn partial_cmp(&self, other: &Version) -> (r: Option<core::cmp::Ordering>) {
        if self.major < other.major {
            Some(core::cmp::Ordering::Less)
        } else if other.major < self.major {
            Some(core::cmp::Ordering::Greater)
        } else if self.minor < other.minor {
            Some(core::cmp::Ordering::Less)
        } else if other.minor < self.minor {
            Some(core::cmp::Ordering::Greater)
        } else {
            Some(core::cmp::Ordering::Equal)
        }
    }
}

impl vstd::std_specs::cmp::PartialOrdSpecImpl for Version {
    open spec fn obeys_partial_cmp_spec() -> bool {
        true
    }

    open spec fn partial_cmp_spec(&self, other: &Version) -> Option<core::cmp::Ordering> {
        if self.major < other.major {
            Some(core::cmp::Ordering::Less)
        } else if self.major > other.major {
            Some(core::cmp::Ordering::Greater)
        } else if self.minor < other.minor {
            Some(core::cmp::Ordering::Less)
        } else if self.minor > other.minor {
            Some(core::cmp::Ordering::Greater)
        } else {
            Some(core::cmp::Ordering::Equal)
        }
    }
}

impl Version {
    /// The 4-byte wire form of this version.
    pub open spec fn spec_serialize(self) -> Seq<u8> {
        spec_u16_to_le_bytes(self.major) + spec_u16_to_le_bytes(self.minor)
    }

    /// The version encoded in the first 4 bytes of `bytes`.
    pub open spec fn spec_deserialize(bytes: Seq<u8>) -> Version
        recommends
            bytes.len() >= 4,
    {
        Version {
            major: spec_u16_from_le_bytes(bytes.subrange(0, 2)),
            minor: spec_u16_from_le_bytes(bytes.subrange(2, 4)),
        }
    }

    /// Lexicographic order: compare `major` first, then `minor`.
    pub open spec fn spec_le(self, other: Version) -> bool {
        self.major < other.major || (self.major == other.major && self.minor <= other.minor)
    }

    /// `min <= self <= max` under the lexicographic version order.
    pub open spec fn spec_in_range(self, min: Version, max: Version) -> bool {
        min.spec_le(self) && self.spec_le(max)
    }

    /// Encode this version as its 4-byte wire form.
    pub fn serialize(&self) -> (r: Vec<u8>)
        ensures
            r@ == self.spec_serialize(),
            r@.len() == 4,
    {
        proof {
            lemma_auto_spec_u16_to_from_le_bytes();
        }
        let mut out = u16_to_le_bytes(self.major);
        let mut minor_bytes = u16_to_le_bytes(self.minor);
        out.append(&mut minor_bytes);
        out
    }

    /// Frame `payload` behind this version's 4-byte header: the result is
    /// exactly the header followed by `payload`, unmodified.
    pub fn with_header(&self, payload: Vec<u8>) -> (r: Vec<u8>)
        ensures
            r@ == self.spec_serialize() + payload@,
    {
        let mut buf = self.serialize();
        let mut payload = payload;
        buf.append(&mut payload);
        buf
    }

    /// Split a 4-byte version header off the front of `bytes`.
    ///
    /// Fails with `Error::VersionHeader` exactly when `bytes` is too short to
    /// contain a header; otherwise returns the version read from the first 4
    /// bytes and the untouched remainder.
    pub fn deserialize<'a, NativeError>(bytes: &'a [u8]) -> (r: Result<
        (Version, &'a [u8]),
        Error<NativeError>,
    >)
        ensures
            bytes@.len() < 4 ==> (r matches Err(e) && e == (Error::<NativeError>::VersionHeader {
                len: bytes@.len() as usize,
            })),
            bytes@.len() >= 4 ==> (r matches Ok(p) && p.0 == Version::spec_deserialize(bytes@)
                && p.1@ == bytes@.skip(4)),
    {
        if bytes.len() < 4 {
            return Err(Error::VersionHeader { len: bytes.len() });
        }
        let major_bytes = slice_subrange(bytes, 0, 2);
        let minor_bytes = slice_subrange(bytes, 2, 4);
        let rest = slice_subrange(bytes, 4, bytes.len());
        let ver = Version {
            major: u16_from_le_bytes(major_bytes),
            minor: u16_from_le_bytes(minor_bytes),
        };
        proof {
            assert(bytes@.subrange(4, bytes@.len() as int) =~= bytes@.skip(4));
        }
        Ok((ver, rest))
    }

    /// Render this version as `"major.minor"` in decimal.
    pub fn to_string(&self) -> (r: String)
        ensures
            r@ == spec_decimal(self.major as int) + seq!['.'] + spec_decimal(self.minor as int),
    {
        let mut out = String::new();
        push_decimal(&mut out, self.major);
        out.append(".");
        push_decimal(&mut out, self.minor);
        proof {
            reveal_strlit(".");
            assert(out@ =~= spec_decimal(self.major as int) + seq!['.'] + spec_decimal(
                self.minor as int,
            ));
        }
        out
    }

    /// Decide `min <= self <= max` under the lexicographic version order.
    pub fn in_range(&self, min: &Version, max: &Version) -> (r: bool)
        ensures
            r == self.spec_in_range(*min, *max),
    {
        let ge_min = min.major < self.major || (min.major == self.major
            && min.minor <= self.minor);
        let le_max = self.major < max.major || (self.major == max.major
            && self.minor <= max.minor);
        ge_min && le_max
    }
}

/// Marker supertrait of [`StaticVersionType`].
///
/// It keeps the set of static version identities closed: its own supertrait
/// is a marker in a module that this crate does not expose, so no outside
/// crate can implement `Sealed`, and no outside type can pose as a static
/// version and slip past the compatibility gate.
pub trait Sealed: crate::sealed::Marker {}

/// A compile-time-bound version identity.
///
/// A type implementing this trait stands for one fixed protocol version, so a
/// serializer's version can be a type parameter rather than runtime state:
/// two serializers instantiated at different versions are different types,
/// and using the wrong one is caught when the program is checked, not when it
/// runs.
pub trait StaticVersionType: Sealed + Sized + Clone + Copy {
    /// The major version number this type stands for.
    spec fn spec_major() -> u16;

    /// The minor version number this type stands for.
    spec fn spec_minor() -> u16;

    /// The major version number this type stands for.
    fn major() -> (r: u16)
        ensures
            r == Self::spec_major(),
    ;

    /// The minor version number this type stands for.
    fn minor() -> (r: u16)
        ensures
            r == Self::spec_minor(),
    ;

    /// The version this type stands for, as a runtime value.
    fn version() -> (r: Version)
        ensures
            r == (Version { major: Self::spec_major(), minor: Self::spec_minor() }),
    ;

    /// An instance of the (zero-size) identity type.
    fn instance() -> Self;
}

/// The version a static version identity stands for.
pub open spec fn static_version_of<V: StaticVersionType>() -> Version {
    Version { major: V::spec_major(), minor: V::spec_minor() }
}

/// The one family of static version identities: a zero-size type carrying
/// its major and minor version numbers as const generic parameters.
#[derive(Clone, Copy, Debug)]
pub struct StaticVersion<const MAJOR: u16, const MINOR: u16> {}

impl<const MAJOR: u16, const MINOR: u16> crate::sealed::Marker for StaticVersion<MAJOR, MINOR> {}

impl<const MAJOR: u16, const MINOR: u16> Sealed for StaticVersion<MAJOR, MINOR> {}

impl<const MAJOR: u16, const MINOR: u16> StaticVersionType for StaticVersion<MAJOR, MINOR> {
    open spec fn spec_major() -> u16 {
        MAJOR
    }

    open spec fn spec_minor() -> u16 {
        MINOR
    }

    fn major() -> u16 {
        MAJOR
    }

    fn minor() -> u16 {
        MINOR
    }

    fn version() -> Version {
        Version { major: MAJOR, minor: MINOR }
    }

    fn instance() -> Self {
        StaticVersion {}
    }
}

impl<const MAJOR: u16, const MINOR: u16> StaticVersion<MAJOR, MINOR> {
    /// Render the version this type stands for as `"major.minor"` in
    /// decimal.
    pub fn to_string(&self) -> (r: String)
        ensures
            r@ == spec_decimal(MAJOR as int) + seq!['.'] + spec_decimal(MINOR as int),
    {
        let v = Version { major: MAJOR, minor: MINOR };
        v.to_string()
    }
}

/// The comparison order on versions agrees with the specification order:
/// `partial_cmp` answers `Less` or `Equal` exactly when `spec_le` holds.
pub proof fn lemma_order_agrees_with_spec_le(a: Version, b: Version)
    ensures
        (a.partial_cmp_spec(&b) == Some(core::cmp::Ordering::Less) || a.partial_cmp_spec(&b)
            == Some(core::cmp::Ordering::Equal)) <==> a.spec_le(b),
{
}

/// The compatibility gate in the form it is usually written down: a version
/// lies inside a declared range exactly when it is neither strictly below
/// the lower end nor strictly above the upper end, comparing `major` first
/// and then `minor`.
pub proof fn lemma_range_gate(v: Version, min: Version, max: Version)
    ensures
        v.spec_in_range(min, max) <==> !(v.major < min.major || v.major > max.major || (v.major
            == min.major && v.minor < min.minor) || (v.major == max.major && v.minor
            > max.minor)),
{
}

/// Header round trip: reading a version header back off a buffer that was
/// built by `serialize` followed by any payload yields that same version
/// and the untouched payload.
pub proof fn lemma_header_round_trip(v: Version, rest: Seq<u8>)
    ensures
        Version::spec_deserialize(v.spec_serialize() + rest) == v,
        (v.spec_serialize() + rest).len() == 4 + rest.len(),
        (v.spec_serialize() + rest).skip(4) == rest,
{
    lemma_auto_spec_u16_to_from_le_bytes();
    let buf = v.spec_serialize() + rest;
    assert(buf.subrange(0, 2) =~= spec_u16_to_le_bytes(v.major));
    assert(buf.subrange(2, 4) =~= spec_u16_to_le_bytes(v.minor));
    assert(buf.skip(4) =~= rest);
}

} // verus!
