pub mod binary_serializer;
pub mod bincode_serializer;
pub mod error;
mod sealed;
pub mod version;
pub mod versioned;
pub mod versioned_bincode_serializer;

pub use crate::binary_serializer::BinarySerializer;
pub use crate::bincode_serializer::BincodeSerializer as Serializer;
