use serde::de::{Deserialize, Deserializer};
use serde::ser::{Serialize, Serializer};
use versioned_binary_serialization::bincode_serializer::{
    BincodeSerializer, VersionedBinarySerializer, VersionedBincodeSerializer,
};
use versioned_binary_serialization::version::{StaticVersion, Version};
use versioned_binary_serialization::versioned::Versioned;
use versioned_binary_serialization::BinarySerializer;

type Serializer01 = BincodeSerializer<StaticVersion<0, 1>>;
type Serializer02 = BincodeSerializer<StaticVersion<0, 2>>;
type Serializer03 = BincodeSerializer<StaticVersion<0, 3>>;

type VSerializer01 = VersionedBincodeSerializer<StaticVersion<0, 1>>;
type VSerializer02 = VersionedBincodeSerializer<StaticVersion<0, 2>>;
type VSerializer03 = VersionedBincodeSerializer<StaticVersion<0, 3>>;

#[derive(Debug, PartialEq)]
pub struct Thing {
    pub field1: u32,
    pub field2: String,
    pub field3: u64,
}

impl Serialize for Thing {
    fn serialize<S: Serializer>(&self, s: S) -> Result<S::Ok, S::Error> {
        (self.field1, &self.field2, self.field3).serialize(s)
    }
}

impl<'de> Deserialize<'de> for Thing {
    fn deserialize<D: Deserializer<'de>>(d: D) -> Result<Self, D::Error> {
        let (field1, field2, field3) = <(u32, String, u64)>::deserialize(d)?;
        Ok(Thing {
            field1,
            field2,
            field3,
        })
    }
}

impl Versioned for Thing {
    fn spec_min_version() -> Version {
        Version { major: 0, minor: 1 }
    }
    fn spec_max_version() -> Version {
        Version { major: 0, minor: 2 }
    }
    fn min_version() -> Version {
        Version { major: 0, minor: 1 }
    }
    fn max_version() -> Version {
        Version { major: 0, minor: 2 }
    }
    fn range_well_formed() {}
}

#[derive(Debug, PartialEq)]
pub struct ThingV3 {
    pub field1: u64,
    pub field2: String,
    pub field3: u64,
}

impl Serialize for ThingV3 {
    fn serialize<S: Serializer>(&self, s: S) -> Result<S::Ok, S::Error> {
        (self.field1, &self.field2, self.field3).serialize(s)
    }
}

impl<'de> Deserialize<'de> for ThingV3 {
    fn deserialize<D: Deserializer<'de>>(d: D) -> Result<Self, D::Error> {
        let (field1, field2, field3) = <(u64, String, u64)>::deserialize(d)?;
        Ok(ThingV3 {
            field1,
            field2,
            field3,
        })
    }
}

impl Versioned for ThingV3 {
    fn spec_min_version() -> Version {
        Version { major: 0, minor: 3 }
    }
    fn spec_max_version() -> Version {
        Version { major: 0, minor: 3 }
    }
    fn min_version() -> Version {
        Version { major: 0, minor: 3 }
    }
    fn max_version() -> Version {
        Version { major: 0, minor: 3 }
    }
    fn range_well_formed() {}
}

#[test]
fn version_in_version_out() {
    let thing_in = Thing {
        field1: 0,
        field2: "0.1".to_string(),
        field3: 1,
    };

    let buf = Serializer01::serialize(&thing_in).unwrap();

    let version_in = Serializer01::version();
    let (version_out, _) = Version::deserialize::<bincode::Error>(&buf).unwrap();
    assert_eq!(version_in, version_out);

    let thing_out = Serializer01::deserialize::<Thing>(&buf);
    assert!(thing_out.is_ok());
    let ver_err_out = Serializer02::deserialize::<Thing>(&buf);
    assert!(ver_err_out.is_err());
    let ver_err_out = Serializer03::deserialize::<Thing>(&buf);
    assert!(ver_err_out.is_err());
    let type_err_out = Serializer03::deserialize::<ThingV3>(&buf);
    assert!(type_err_out.is_err());
}

#[test]
fn version_in_version_out_versioned() {
    let thing_in = Thing {
        field1: 0,
        field2: "0.1".to_string(),
        field3: 1,
    };

    let buf = VSerializer01::serialize(&thing_in).unwrap();

    let version_in = VSerializer01::version();
    let (version_out, _) = Version::deserialize::<bincode::Error>(&buf).unwrap();
    assert_eq!(version_in, version_out);

    let thing_out = VSerializer01::deserialize::<Thing>(&buf);
    assert!(thing_out.is_ok());
    let ver_err_out = VSerializer02::deserialize::<Thing>(&buf);
    assert!(ver_err_out.is_err());
    let ver_err_out = VSerializer02::deserialize::<Thing>(&buf);
    assert!(ver_err_out.is_err());
    let type_err_out = VSerializer03::deserialize::<ThingV3>(&buf);
    assert!(type_err_out.is_err());
}
