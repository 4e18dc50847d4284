use versioned_binary_serialization::error::Error;
use versioned_binary_serialization::version::{StaticVersion, StaticVersionType, Version};

#[test]
fn test_compare_version() {
    let v1 = Version { major: 1, minor: 3 };
    let v2 = Version { major: 1, minor: 2 };

    assert!(v1 > v2);

    let v3 = Version { major: 2, minor: 3 };
    let v4 = Version { major: 1, minor: 3 };

    assert!(v3 > v4);

    let v5 = Version { major: 2, minor: 2 };
    let v6 = Version { major: 1, minor: 3 };

    assert!(v5 > v6);
}

#[test]
fn test_version_display() {
    assert_eq!("1.2", Version { major: 1, minor: 2 }.to_string());
}

#[test]
fn test_static_version_display() {
    assert_eq!("1.2", StaticVersion::<1, 2> {}.to_string());
}

#[test]
fn test_static_version_const() {
    assert_eq!(
        Version {
            major: StaticVersion::<1, 2>::major(),
            minor: StaticVersion::<1, 2>::minor(),
        },
        StaticVersion::<1, 2>::version()
    );
    assert_eq!(Version { major: 1, minor: 2 }, StaticVersion::<1, 2>::version());
}

#[test]
fn test_static_version_instance() {
    let v = StaticVersion::<3, 4>::instance();
    assert_eq!("3.4", v.to_string());
}

#[test]
fn test_version_display_multi_digit() {
    assert_eq!("10.203", Version { major: 10, minor: 203 }.to_string());
    assert_eq!("0.0", Version { major: 0, minor: 0 }.to_string());
    assert_eq!("65535.65535", Version { major: 65535, minor: 65535 }.to_string());
}

#[test]
fn test_header_bytes_exact() {
    let v = Version { major: 0, minor: 1 };
    assert_eq!(vec![0u8, 0, 1, 0], v.serialize());

    let v = Version { major: 65535, minor: 258 };
    assert_eq!(vec![255u8, 255, 2, 1], v.serialize());
}

#[test]
fn test_header_framing_exact() {
    let v = Version { major: 0, minor: 1 };
    let framed = v.with_header(vec![7, 8]);
    assert_eq!(vec![0u8, 0, 1, 0, 7, 8], framed);
}

#[test]
fn test_header_round_trip() {
    let v = Version { major: 7, minor: 300 };
    let mut buf = v.serialize();
    buf.extend_from_slice(&[9, 8, 7]);
    let (out, rest) = Version::deserialize::<bincode::Error>(&buf).unwrap();
    assert_eq!(v, out);
    assert_eq!(&[9, 8, 7], rest);
}

#[test]
fn test_header_length_guard() {
    for len in 0..4usize {
        let bytes = vec![0u8; len];
        let r = Version::deserialize::<bincode::Error>(&bytes);
        assert!(matches!(r, Err(Error::VersionHeader { len: l }) if l == len));
    }
    let bytes = vec![0u8; 4];
    assert!(Version::deserialize::<bincode::Error>(&bytes).is_ok());
}
