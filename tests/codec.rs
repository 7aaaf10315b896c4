use lvd_lib::array::Array;
use lvd_lib::id::Id;
use lvd_lib::objects::base::{MetaInfo, VersionInfo};
use lvd_lib::objects::flags::{AttributeFlags, CollisionFlags};
use lvd_lib::objects::material::MaterialType;
use lvd_lib::objects::point::Point;
use lvd_lib::objects::shape::{LvdPath, Shape2};
use lvd_lib::string::FixedString;
use lvd_lib::tag::Tag;
use lvd_lib::vector::Vector2;
use lvd_lib::version::{Version, Versioned};
use lvd_lib::wire::{c_bool, cbool, DecodeError, Endian, RecordKind, Wire};

fn encoded<T: Version>(v: T, e: Endian) -> Vec<u8> {
    let mut out = Vec::new();
    Versioned::new(v).encode(e, &mut out);
    out
}

#[test]
fn empty_array_is_a_zero_count() {
    let bytes = encoded(Array::<Tag>::new(), Endian::Big);
    assert_eq!(bytes, vec![1, 0, 0, 0, 0]);
    let (back, end) = Versioned::<Array<Tag>>::read(Endian::Big, &bytes, 0).unwrap();
    assert!(back.inner.is_empty());
    assert_eq!(end, 5);
}

#[test]
fn array_reads_exactly_its_count() {
    let arr = Array::from_elements(vec![Versioned::new(Tag::from_raw(1)), Versioned::new(Tag::from_raw(2))]);
    let mut bytes = encoded(arr, Endian::Big);
    assert_eq!(bytes, vec![1, 0, 0, 0, 2, 1, 0, 0, 0, 1, 1, 0, 0, 0, 2]);
    bytes.extend_from_slice(&[9, 9, 9]);
    let (back, end) = Versioned::<Array<Tag>>::read(Endian::Big, &bytes, 0).unwrap();
    assert_eq!(back.inner.len(), 2);
    assert_eq!(back.inner.elements()[0].inner.to_raw(), 1);
    assert_eq!(back.inner.elements()[1].inner.to_raw(), 2);
    assert_eq!(end, 15);
}

#[test]
fn array_with_missing_element_fails() {
    let bytes = vec![1u8, 0, 0, 0, 2, 1, 0, 0, 0, 1];
    let r = Versioned::<Array<Tag>>::read(Endian::Big, &bytes, 0);
    assert_eq!(r.map(|(_, e)| e), Err(DecodeError::Truncated { pos: 10 }));
}

#[test]
fn array_little_endian_count() {
    let arr = Array::from_elements(vec![Versioned::new(Id(7))]);
    let bytes = encoded(arr, Endian::Little);
    assert_eq!(bytes, vec![1, 1, 0, 0, 0, 1, 7, 0, 0, 0]);
}

#[test]
fn record_round_trip() {
    let meta = MetaInfo::V1 {
        version_info: Versioned::new(VersionInfo::V1 { editor_version: 3, format_version: 0x0102_0304 }),
        name: Versioned::new(FixedString::<56>::from_str("curve1").unwrap()),
    };
    let bytes = encoded(meta, Endian::Big);
    assert_eq!(bytes.len(), 1 + (1 + 8) + (1 + 56));
    assert_eq!(&bytes[..11], &[1, 1, 0, 0, 0, 3, 1, 2, 3, 4, 1]);
    let (back, end) = Versioned::<MetaInfo>::read(Endian::Big, &bytes, 0).unwrap();
    assert_eq!(end, bytes.len());
    let MetaInfo::V1 { version_info, name } = back.inner;
    assert_eq!(version_info.inner, VersionInfo::V1 { editor_version: 3, format_version: 0x0102_0304 });
    assert_eq!(name.inner.to_string().unwrap(), "curve1");
    assert_eq!(encoded(MetaInfo::V1 { version_info, name }, Endian::Big), bytes);
}

#[test]
fn unsupported_record_version_fails_after_selector() {
    let bytes = vec![3u8, 0, 0, 0, 0];
    let r = Versioned::<Point>::read(Endian::Big, &bytes, 0);
    assert_eq!(r.map(|(_, e)| e), Err(DecodeError::UnsupportedVersion { record: RecordKind::Point, version: 3, pos: 1 }));
}

#[test]
fn empty_input_is_truncated() {
    let r = Versioned::<Point>::read(Endian::Big, &[], 0);
    assert_eq!(r.map(|(_, e)| e), Err(DecodeError::Truncated { pos: 0 }));
}

#[test]
fn shape_skips_padding_and_writes_zeros() {
    let path = LvdPath::V1 { points: Versioned::new(Array::<Vector2>::new()) };
    let shape = Shape2::Point { pos_x: 0x3f80_0000, pos_y: 0x4000_0000, path: Versioned::new(path) };
    let bytes = encoded(shape, Endian::Big);
    let mut expected = vec![3u8, 0, 0, 0, 1, 0x3f, 0x80, 0, 0, 0x40, 0, 0, 0];
    expected.extend_from_slice(&[0; 8]);
    expected.extend_from_slice(&[1, 1, 0, 0, 0, 0]);
    assert_eq!(bytes, expected);
    let mut dirty = bytes.clone();
    for b in &mut dirty[13..21] {
        *b = 0xAA;
    }
    let (back, end) = Versioned::<Shape2>::read(Endian::Big, &dirty, 0).unwrap();
    assert_eq!(end, bytes.len());
    assert_eq!(encoded(back.inner, Endian::Big), bytes);
}

#[test]
fn shape_with_unknown_code_fails() {
    let bytes = vec![3u8, 0, 0, 0, 9];
    let r = Versioned::<Shape2>::read(Endian::Big, &bytes, 0);
    assert_eq!(r.map(|(_, e)| e), Err(DecodeError::InvalidValue { pos: 1 }));
}

#[test]
fn collision_flags_named_bits() {
    let mut f = CollisionFlags::from_bits(0x0001_0000);
    assert!(f.dynamic());
    assert!(!f.throughable());
    f.set_throughable(true);
    assert_eq!(f.to_bits(), 0x0001_0001);
    let mut g = CollisionFlags::from_bits(0xFFFF_FFFE);
    g.set_throughable(true);
    assert_eq!(g.to_bits(), 0xFFFF_FFFF);
    g.set_dynamic(false);
    assert_eq!(g.to_bits(), 0xFFFE_FFFF);
}

#[test]
fn flags_read_in_stream_order() {
    let (f, end) = CollisionFlags::decode(Endian::Big, &[0, 1, 0, 1], 0).unwrap();
    assert!(f.dynamic() && f.throughable());
    assert_eq!(end, 4);
    let (g, _) = CollisionFlags::decode(Endian::Little, &[1, 0, 1, 0], 0).unwrap();
    assert_eq!(g.to_bits(), 0x0001_0001);
}

#[test]
fn attribute_flags_keep_reserved_half() {
    let mut a = AttributeFlags::from_bits(0xDEAD_BEEF_0000_0000);
    a.set_fall(true);
    a.set_ignore_boss(true);
    assert_eq!(a.to_bits(), 0xDEAD_BEEF_8000_0004);
    assert!(a.fall() && a.ignore_boss() && !a.length0());
    let mut out = Vec::new();
    a.encode(Endian::Big, &mut out);
    assert_eq!(out, vec![0xDE, 0xAD, 0xBE, 0xEF, 0x80, 0, 0, 4]);
    let (b, _) = AttributeFlags::decode(Endian::Big, &out, 0).unwrap();
    assert_eq!(b, a);
}

#[test]
fn material_codes() {
    assert_eq!(MaterialType::from_code(14), Some(MaterialType::Ice));
    assert_eq!(MaterialType::from_code(44), None);
    assert_eq!(MaterialType::JackMementoes.code(), 43);
    let r = MaterialType::decode(Endian::Big, &[0, 0, 0, 44], 0);
    assert_eq!(r, Err(DecodeError::InvalidValue { pos: 0 }));
}

#[test]
fn flag_bytes() {
    assert_eq!(c_bool(true), 1);
    assert_eq!(c_bool(false), 0);
    assert!(cbool(2));
    assert!(!cbool(0));
    let (b, _) = bool::decode(Endian::Big, &[7], 0).unwrap();
    assert!(b);
}

#[test]
fn signed_values_round_trip() {
    let mut out = Vec::new();
    (-2i32).encode(Endian::Big, &mut out);
    assert_eq!(out, vec![0xFF, 0xFF, 0xFF, 0xFE]);
    assert_eq!(i32::decode(Endian::Big, &out, 0), Ok((-2, 4)));
}
