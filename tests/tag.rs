use lvd_lib::tag::{ParseTagError, Tag};
use lvd_lib::version::{Version, Versioned};
use lvd_lib::wire::{DecodeError, Endian, RecordKind, Wire};

#[test]
fn label_to_id() {
    assert_eq!(Tag::from_str("IPP0001"), Ok(Tag::from_raw(159645697)));
    assert_eq!(Tag::from_str("IPP0002"), Ok(Tag::from_raw(159645698)));
    assert_eq!(Tag::from_str("FSP0010"), Ok(Tag::from_raw(110886922)));
    assert_eq!(Tag::from_str("FSP0011"), Ok(Tag::from_raw(110886923)));
    assert_eq!(Tag::from_str("PAL0101"), Ok(Tag::from_raw(269156453)));
    assert_eq!(Tag::from_str("PAL0102"), Ok(Tag::from_raw(269156454)));
    assert_eq!(Tag::from_str("SLD1001"), Ok(Tag::from_raw(325125097)));
    assert_eq!(Tag::from_str("SLD1002"), Ok(Tag::from_raw(325125098)));
    assert_eq!(Tag::from_str("AAA0000"), Ok(Tag::from_raw(17317888)));
    assert_eq!(Tag::from_str("ZZZ9999"), Ok(Tag::from_raw(450275087)));
    assert_eq!(Tag::from_str("C_Y0001"), Ok(Tag::from_raw(50741249)));
    assert_eq!(Tag::from_str("SE_0001"), Ok(Tag::from_raw(321388545)));
    assert_eq!(Tag::from_str("___0000"), Ok(Tag::from_raw(0)));
    assert_eq!(Tag::from_str("___0001"), Ok(Tag::from_raw(1)));
}

#[test]
fn id_to_label() {
    assert_eq!(Tag::from_raw(159645697).to_string(), "IPP0001");
    assert_eq!(Tag::from_raw(159645698).to_string(), "IPP0002");
    assert_eq!(Tag::from_raw(110886922).to_string(), "FSP0010");
    assert_eq!(Tag::from_raw(110886923).to_string(), "FSP0011");
    assert_eq!(Tag::from_raw(269156453).to_string(), "PAL0101");
    assert_eq!(Tag::from_raw(269156454).to_string(), "PAL0102");
    assert_eq!(Tag::from_raw(325125097).to_string(), "SLD1001");
    assert_eq!(Tag::from_raw(325125098).to_string(), "SLD1002");
    assert_eq!(Tag::from_raw(17317888).to_string(), "AAA0000");
    assert_eq!(Tag::from_raw(450275087).to_string(), "ZZZ9999");
    assert_eq!(Tag::from_raw(50741249).to_string(), "C_Y0001");
    assert_eq!(Tag::from_raw(321388545).to_string(), "SE_0001");
    assert_eq!(Tag::from_raw(0).to_string(), "___0000");
    assert_eq!(Tag::from_raw(1).to_string(), "___0001");
}

#[test]
fn use_invalid_string_length() {
    for s in ["", "I", "IP", "IPP", "IPP0", "IPP00", "IPP000", "IPP00001"] {
        assert_eq!(Tag::from_str(s), Err(ParseTagError::InvalidStringLength(s.len())));
    }
}

#[test]
fn use_unsupported_character_letter() {
    assert_eq!(Tag::from_str("bLK0001"), Err(ParseTagError::LetterNotFound('b')));
    assert_eq!(Tag::from_str("BlK0001"), Err(ParseTagError::LetterNotFound('l')));
    assert_eq!(Tag::from_str("BLk0001"), Err(ParseTagError::LetterNotFound('k')));
    assert_eq!(Tag::from_str("@LK0000"), Err(ParseTagError::LetterNotFound('@')));
    assert_eq!(Tag::from_str("B[L0000"), Err(ParseTagError::LetterNotFound('[')));
    assert_eq!(Tag::from_str("0LK0000"), Err(ParseTagError::LetterNotFound('0')));
    assert_eq!(Tag::from_str("B1K0000"), Err(ParseTagError::LetterNotFound('1')));
    assert_eq!(Tag::from_str("BL20000"), Err(ParseTagError::LetterNotFound('2')));
}

#[test]
fn use_unsupported_character_digit() {
    assert_eq!(Tag::from_str("RNG/001"), Err(ParseTagError::DigitNotFound('/')));
    assert_eq!(Tag::from_str("RNG0:01"), Err(ParseTagError::DigitNotFound(':')));
    assert_eq!(Tag::from_str("RNGA001"), Err(ParseTagError::DigitNotFound('A')));
    assert_eq!(Tag::from_str("RNG0B00"), Err(ParseTagError::DigitNotFound('B')));
    assert_eq!(Tag::from_str("RNG00C0"), Err(ParseTagError::DigitNotFound('C')));
    assert_eq!(Tag::from_str("RNG000D"), Err(ParseTagError::DigitNotFound('D')));
}

#[test]
fn wrap_number() {
    assert_eq!(Tag::from_raw(9999).to_string(), "___9999");
    assert_eq!(Tag::from_raw(10000).to_string(), "___0000");
}

#[test]
fn tag_text_round_trips() {
    for s in ["IPP0001", "___0000", "ZZZ9999", "C_Y0001", "SE_0001", "A_B0420"] {
        let t = Tag::from_str(s).unwrap();
        assert_eq!(t.to_string(), s);
    }
}

#[test]
fn letter_error_comes_before_digit_error() {
    assert_eq!(Tag::from_str("aLKx001"), Err(ParseTagError::LetterNotFound('a')));
}

#[test]
fn tag_wire_both_byte_orders() {
    let t = Tag::from_raw(159645697);
    let mut be = Vec::new();
    Versioned::new(t).encode(Endian::Big, &mut be);
    assert_eq!(be, vec![1, 0x09, 0x84, 0x00, 0x01]);
    let mut le = Vec::new();
    Versioned::new(t).encode(Endian::Little, &mut le);
    assert_eq!(le, vec![1, 0x01, 0x00, 0x84, 0x09]);
    let (back, end) = Versioned::<Tag>::read(Endian::Little, &le, 0).unwrap();
    assert_eq!(back.inner, t);
    assert_eq!(end, 5);
}

#[test]
fn tag_unsupported_version_stops_after_selector() {
    let buf = [2u8, 0, 0, 0, 1];
    let r = Versioned::<Tag>::read(Endian::Big, &buf, 0);
    assert_eq!(
        r.map(|(v, e)| (v.inner, e)),
        Err(DecodeError::UnsupportedVersion { record: RecordKind::Tag, version: 2, pos: 1 })
    );
}

#[test]
fn tag_truncated_payload() {
    let buf = [1u8, 0, 0];
    let r = Tag::decode_payload(1, Endian::Big, &buf, 1);
    assert_eq!(r.map(|(v, e)| (v, e)), Err(DecodeError::Truncated { pos: 1 }));
}
