use vstd::prelude::*;

use crate::bincode_serializer::{bincode_decode, bincode_encode};

verus! {

use vstd::bytes::{
    spec_u32_from_le_bytes, spec_u32_to_le_bytes, u32_from_le_bytes, u32_to_le_bytes,
    lemma_auto_spec_u32_to_from_le_bytes,
};
use vstd::slice::slice_subrange;

/// Word round trip: reading the version word back off a buffer that was
/// built as the word's 4 little-endian bytes followed by any payload yields
/// that same word, so a buffer written by `serialize_oneoff` always passes
/// the word gate of `deserialize_oneoff` at the same version.
pub proof fn lemma_oneoff_word_round_trip(word: u32, rest: Seq<u8>)
    ensures
        (spec_u32_to_le_bytes(word) + rest).len() == 4 + rest.len(),
        spec_u32_from_le_bytes((spec_u32_to_le_bytes(word) + rest).subrange(0, 4)) == word,
{
    lemma_auto_spec_u32_to_from_le_bytes();
    assert((spec_u32_to_le_bytes(word) + rest).subrange(0, 4) =~= spec_u32_to_le_bytes(word));
}

/// Errors reported by the bincode-backed serializer with a single `u32`
/// version word.
#[derive(Debug)]
pub enum BincodeSerializerError {
    /// The input buffer is too short to contain the 4-byte version word.
    VersionError,
    /// The version word read from the wire does not equal the version this
    /// serializer is fixed at.
    VersionMismatch { version: u32, wanted: u32 },
    /// The backend codec failed to encode or decode; the cause is attached.
    BincodeError(Box<bincode::ErrorKind>),
}

/// A serializer whose wire form carries its version as one little-endian
/// `u32` word, fixed by the const parameter `VERSION`, with bincode as the
/// backend codec.
pub struct BincodeSerializer<const VERSION: u32>;

impl<const VERSION: u32> BincodeSerializer<VERSION> {
    /// Encode `value` with the backend codec, with no version word.
    pub fn serialize<T: ?Sized + serde::Serialize>(value: &T) -> (r: Result<
        Vec<u8>,
        BincodeSerializerError,
    >)
        ensures
            r matches Err(e) ==> e is BincodeError,
    {
        match bincode_encode(value) {
            Ok(bytes) => Ok(bytes),
            Err(e) => Err(BincodeSerializerError::BincodeError(e)),
        }
    }

    /// Decode `bytes` with the backend codec, expecting no version word.
    pub fn deserialize<'a, T: serde::Deserialize<'a>>(bytes: &'a [u8]) -> (r: Result<
        T,
        BincodeSerializerError,
    >)
        ensures
            r matches Err(e) ==> e is BincodeError,
    {
        match bincode_decode::<T>(bytes) {
            Ok(value) => Ok(value),
            Err(e) => Err(BincodeSerializerError::BincodeError(e)),
        }
    }

    /// Frame `payload` behind the 4-byte little-endian version word
    /// `VERSION`: the result is exactly the word followed by `payload`,
    /// unmodified.
    pub fn with_version_word(payload: Vec<u8>) -> (r: Vec<u8>)
        ensures
            r@ == spec_u32_to_le_bytes(VERSION) + payload@,
    {
        let mut buf = u32_to_le_bytes(VERSION);
        let mut payload = payload;
        buf.append(&mut payload);
        buf
    }

    /// Encode `value` with the backend codec and prepend the 4-byte
    /// little-endian version word `VERSION`.
    pub fn serialize_oneoff<T: ?Sized + serde::Serialize>(value: &T) -> (r: Result<
        Vec<u8>,
        BincodeSerializerError,
    >)
        ensures
            r matches Ok(bytes) ==> bytes@.len() >= 4 && bytes@.subrange(0, 4)
                == spec_u32_to_le_bytes(VERSION),
            r matches Err(e) ==> e is BincodeError,
    {
        match bincode_encode(value) {
            Ok(payload) => {
                let ghost p = payload@;
                let buf = Self::with_version_word(payload);
                proof {
                    lemma_oneoff_word_round_trip(VERSION, p);
                    assert(buf@.subrange(0, 4) =~= spec_u32_to_le_bytes(VERSION));
                }
                Ok(buf)
            },
            Err(e) => Err(BincodeSerializerError::BincodeError(e)),
        }
    }

    /// Split the 4-byte version word off `bytes`, demand that it equals
    /// `VERSION` exactly, and decode the remainder with the backend codec.
    ///
    /// A buffer shorter than the version word is refused with
    /// `VersionError`; one carrying any other version word is refused with
    /// `VersionMismatch`, before the codec sees the payload.
    pub fn deserialize_oneoff<'a, T: serde::Deserialize<'a>>(bytes: &'a [u8]) -> (r: Result<
        T,
        BincodeSerializerError,
    >)
        ensures
            bytes@.len() < 4 ==> (r matches Err(e) && e is VersionError),
            bytes@.len() >= 4 && spec_u32_from_le_bytes(bytes@.subrange(0, 4)) != VERSION ==> (
            r matches Err(e) && e matches BincodeSerializerError::VersionMismatch {
                version,
                wanted,
            } && version == spec_u32_from_le_bytes(bytes@.subrange(0, 4)) && wanted == VERSION),
            bytes@.len() >= 4 && spec_u32_from_le_bytes(bytes@.subrange(0, 4)) == VERSION ==> (
            r matches Err(e) ==> e is BincodeError),
    {
        if bytes.len() < 4 {
            return Err(BincodeSerializerError::VersionError);
        }
        let word = slice_subrange(bytes, 0, 4);
        let ver: u32 = u32_from_le_bytes(word);
        if ver != VERSION {
            return Err(BincodeSerializerError::VersionMismatch { version: ver, wanted: VERSION });
        }
        let rest = slice_subrange(bytes, 4, bytes.len());
        match bincode_decode::<T>(rest) {
            Ok(value) => Ok(value),
            Err(e) => Err(BincodeSerializerError::BincodeError(e)),
        }
    }
}

} // verus!
