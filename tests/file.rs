use lvd_lib::array::Array;
use lvd_lib::file::{decode_file, encode_file, LvdFile};
use lvd_lib::lvd::Lvd;
use lvd_lib::version::{Version, Versioned};
use lvd_lib::wire::{DecodeError, Endian, RecordKind};

fn empty<T: Version>() -> Versioned<Array<T>> {
    Versioned::new(Array::new())
}

fn minimal_v1() -> Vec<u8> {
    let mut b = vec![0u8, 0, 0, 1, 1, 1, b'L', b'V', b'D', b'1'];
    for _ in 0..6 {
        b.extend_from_slice(&[1, 0, 0, 0, 0]);
    }
    b
}

#[test]
fn minimal_envelope_round_trips() {
    let bytes = minimal_v1();
    let file = decode_file(Endian::Big, &bytes).unwrap();
    match &file.data.inner {
        Lvd::V1 { collisions, start_positions, restart_positions, camera_regions, death_regions, enemy_generators } => {
            assert!(collisions.inner.is_empty());
            assert!(start_positions.inner.is_empty());
            assert!(restart_positions.inner.is_empty());
            assert!(camera_regions.inner.is_empty());
            assert!(death_regions.inner.is_empty());
            assert!(enemy_generators.inner.is_empty());
        },
        _ => panic!("expected the first layout"),
    }
    assert_eq!(encode_file(&file, Endian::Big), bytes);
}

#[test]
fn envelope_bad_magic() {
    let mut bytes = minimal_v1();
    bytes[7] = b'X';
    assert_eq!(decode_file(Endian::Big, &bytes).err(), Some(DecodeError::BadMagic { pos: 5 }));
}

#[test]
fn envelope_unsupported_version() {
    let mut bytes = minimal_v1();
    bytes[4] = 14;
    assert_eq!(
        decode_file(Endian::Big, &bytes).err(),
        Some(DecodeError::UnsupportedVersion { record: RecordKind::Lvd, version: 14, pos: 5 })
    );
}

#[test]
fn envelope_truncated() {
    let bytes = minimal_v1();
    assert!(decode_file(Endian::Big, &bytes[..bytes.len() - 1]).is_err());
    assert!(decode_file(Endian::Big, &bytes[..4]).is_err());
}

#[test]
fn envelope_latest_layout_little_endian() {
    let data = Lvd::V13 {
        collisions: empty(), start_positions: empty(), restart_positions: empty(), camera_regions: empty(),
        death_regions: empty(), enemy_generators: empty(), fs_items: empty(), fs_unknown: empty(),
        fs_area_cams: empty(), fs_area_locks: empty(), fs_cam_limits: empty(), damage_shapes: empty(),
        item_popups: empty(), ptrainer_ranges: empty(), ptrainer_floating_floors: empty(),
        general_shapes2: empty(), general_shapes3: empty(), area_lights: empty(), fs_start_points: empty(),
        area_hints: empty(), split_areas: empty(), shrinked_camera_regions: empty(), shrinked_death_regions: empty(),
    };
    let file = LvdFile { data: Versioned::new(data) };
    let bytes = encode_file(&file, Endian::Little);
    assert_eq!(&bytes[..10], &[1, 0, 0, 0, 13, 1, b'L', b'V', b'D', b'1']);
    assert_eq!(bytes.len(), 10 + 23 * 5);
    let back = decode_file(Endian::Little, &bytes).unwrap();
    assert_eq!(encode_file(&back, Endian::Little), bytes);
}

#[test]
fn legacy_word_is_written_as_one() {
    let mut bytes = minimal_v1();
    bytes[3] = 7;
    let file = decode_file(Endian::Big, &bytes).unwrap();
    assert_eq!(encode_file(&file, Endian::Big), minimal_v1());
}
