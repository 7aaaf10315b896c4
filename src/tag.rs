//! A compact identifier of three letters and a four-digit number, packed into 32 bits.
use vstd::prelude::*;
use vstd::string::StringSliceAdditionalSpecFns;
use crate::version::Version;
use crate::wire::{bytes32, lemma_u32_at, read_u32, write_u32, DecodeError, Endian, RecordKind};

verus! {

/// An identifier for matching and filtering objects, such as `IPP0001`.
///
/// Bit layout of the 32-bit value, most significant first: 3 unused bits, three 5-bit letter
/// fields, and a 14-bit number. A letter field holds 0 for `_` and `c - 'A' + 1` for a capital
/// letter `c`; the number is shown modulo 10000 with four digits.
#[derive(Clone, Copy, Debug, Default, PartialEq, Eq, Hash, PartialOrd, Ord, Structural)]
pub struct Tag(u32);

/// The error returned when text is not a valid tag.
#[derive(Clone, Copy, Debug, PartialEq, Eq, Structural)]
pub enum ParseTagError {
    /// The text is not seven bytes long; holds the length found.
    InvalidStringLength(usize),
    /// A character among the first three is neither a capital letter nor an underscore.
    LetterNotFound(char),
    /// A character among the last four is not a decimal digit.
    DigitNotFound(char),
}

/// Relies on `String::push`: appends one character.
#[verifier::external_body]
fn push_char(s: &mut String, c: char)
    ensures
        final(s)@ == old(s)@.push(c),
{
    s.push(c);
}

/// A capital letter or an underscore.
pub open spec fn is_tag_letter(c: u8) -> bool {
    c == 95 || (65 <= c && c <= 90)
}

/// A decimal digit.
pub open spec fn is_tag_digit(c: u8) -> bool {
    48 <= c && c <= 57
}

/// The 5-bit field value of a letter character.
pub open spec fn letter_value(c: u8) -> u32 {
    if c == 95 {
        0
    } else {
        (c - 64) as u32
    }
}

/// The value of a digit character.
pub open spec fn digit_value(c: u8) -> u32 {
    (c - 48) as u32
}

/// The position of the first invalid letter among the first three bytes, or 3 if there is none.
pub open spec fn first_bad_letter(b: Seq<u8>) -> int {
    if !is_tag_letter(b[0]) {
        0
    } else if !is_tag_letter(b[1]) {
        1
    } else if !is_tag_letter(b[2]) {
        2
    } else {
        3
    }
}

/// The position of the first invalid digit among bytes 3 to 6, or 7 if there is none.
pub open spec fn first_bad_digit(b: Seq<u8>) -> int {
    if !is_tag_digit(b[3]) {
        3
    } else if !is_tag_digit(b[4]) {
        4
    } else if !is_tag_digit(b[5]) {
        5
    } else if !is_tag_digit(b[6]) {
        6
    } else {
        7
    }
}

/// The number that the four digit characters spell.
pub open spec fn tag_number(b: Seq<u8>) -> u32 {
    (digit_value(b[3]) * 1000 + digit_value(b[4]) * 100 + digit_value(b[5]) * 10 + digit_value(b[6])) as u32
}

/// The packed value of a valid seven-byte tag text.
pub open spec fn tag_value(b: Seq<u8>) -> u32 {
    (letter_value(b[0]) << 24u32) | (letter_value(b[1]) << 19u32) | (letter_value(b[2]) << 14u32) | tag_number(b)
}

/// The character a 5-bit letter field shows: `_` for zero, else the field above `@`.
pub open spec fn letter_char(f: u32) -> char {
    if f == 0 {
        '_'
    } else {
        ((f + 64) as u8) as char
    }
}

/// The digit character of a value below ten.
pub open spec fn digit_char(d: u32) -> char {
    ((d + 48) as u8) as char
}

/// The number a packed value shows: its low 14 bits, modulo 10000.
pub open spec fn shown_number(raw: u32) -> u32 {
    (raw & 0x3fffu32) % 10000
}

/// The seven-character text of a packed value.
pub open spec fn tag_text(raw: u32) -> Seq<char> {
    let n = shown_number(raw);
    seq![
        letter_char((raw >> 24u32) & 0x1fu32),
        letter_char((raw >> 19u32) & 0x1fu32),
        letter_char((raw >> 14u32) & 0x1fu32),
        digit_char(n / 1000),
        digit_char((n / 100) % 10),
        digit_char((n / 10) % 10),
        digit_char(n % 10),
    ]
}

impl View for Tag {
    type V = u32;

    closed spec fn view(&self) -> u32 {
        self.0
    }
}

impl Tag {
    /// The tag with the given packed value.
    pub fn from_raw(raw: u32) -> (r: Tag)
        ensures
            r@ == raw,
    {
        Tag(raw)
    }

    /// The packed value.
    pub fn to_raw(&self) -> (r: u32)
        ensures
            r == self@,
    {
        self.0
    }

    /// Parses the seven-character text form.
    pub fn from_str(s: &str) -> (r: Result<Tag, ParseTagError>)
        ensures
            s.spec_bytes().len() != 7 <==> r == Err::<Tag, ParseTagError>(
                ParseTagError::InvalidStringLength(s.spec_bytes().len() as usize),
            ),
            s.spec_bytes().len() == 7 ==> {
                let b = s.spec_bytes();
                if first_bad_letter(b) < 3 {
                    r == Err::<Tag, ParseTagError>(ParseTagError::LetterNotFound(b[first_bad_letter(b)] as char))
                } else if first_bad_digit(b) < 7 {
                    r == Err::<Tag, ParseTagError>(ParseTagError::DigitNotFound(b[first_bad_digit(b)] as char))
                } else {
                    r matches Ok(t) && t@ == tag_value(b)
                }
            },
    {
        let b = s.as_bytes();
        if b.len() != 7 {
            return Err(ParseTagError::InvalidStringLength(b.len()));
        }
        let mut i: usize = 0;
        while i < 3
            invariant
                b@ == s.spec_bytes(),
                b@.len() == 7,
                i <= 3,
                first_bad_letter(b@) >= i,
            decreases 3 - i,
        {
            let c = b[i];
            if !(c == 95 || (65 <= c && c <= 90)) {
                return Err(ParseTagError::LetterNotFound(c as char));
            }
            i = i + 1;
        }
        while i < 7
            invariant
                b@ == s.spec_bytes(),
                b@.len() == 7,
                3 <= i <= 7,
                first_bad_letter(b@) == 3,
                first_bad_digit(b@) >= i,
            decreases 7 - i,
        {
            let c = b[i];
            if !(48 <= c && c <= 57) {
                return Err(ParseTagError::DigitNotFound(c as char));
            }
            i = i + 1;
        }
        let l0 = letter_field(b[0]);
        let l1 = letter_field(b[1]);
        let l2 = letter_field(b[2]);
        let number = ((b[3] - 48) as u32) * 1000 + ((b[4] - 48) as u32) * 100 + ((b[5] - 48) as u32) * 10 + ((b[6]
            - 48) as u32);
        Ok(Tag((l0 << 24u32) | (l1 << 19u32) | (l2 << 14u32) | number))
    }

    /// The seven-character text form: three letters, then the number modulo 10000 with four
    /// digits.
    pub fn to_string(&self) -> (r: String)
        ensures
            r@ == tag_text(self@),
    {
        let raw = self.0;
        proof {
            assert(((raw >> 24u32) & 0x1fu32) < 32) by (bit_vector);
            assert(((raw >> 19u32) & 0x1fu32) < 32) by (bit_vector);
            assert(((raw >> 14u32) & 0x1fu32) < 32) by (bit_vector);
        }
        let mut s = String::new();
        push_char(&mut s, letter_of((raw >> 24u32) & 0x1fu32));
        push_char(&mut s, letter_of((raw >> 19u32) & 0x1fu32));
        push_char(&mut s, letter_of((raw >> 14u32) & 0x1fu32));
        let n = (raw & 0x3fffu32) % 10000;
        push_char(&mut s, digit_of(n / 1000));
        push_char(&mut s, digit_of((n / 100) % 10));
        push_char(&mut s, digit_of((n / 10) % 10));
        push_char(&mut s, digit_of(n % 10));
        proof {
            assert(s@ =~= tag_text(self@));
        }
        s
    }
}

fn letter_field(c: u8) -> (r: u32)
    requires
        is_tag_letter(c),
    ensures
        r == letter_value(c),
        r < 32,
{
    if c == 95 {
        0
    } else {
        (c - 64) as u32
    }
}

fn letter_of(f: u32) -> (r: char)
    requires
        f < 32,
    ensures
        r == letter_char(f),
{
    if f == 0 {
        '_'
    } else {
        ((f + 64) as u8) as char
    }
}

fn digit_of(d: u32) -> (r: char)
    requires
        d < 10,
    ensures
        r == digit_char(d),
{
    ((d + 48) as u8) as char
}

impl Version for Tag {
    open spec fn spec_version(&self) -> u8 {
        1
    }

    open spec fn spec_supported(version: u8) -> bool {
        version == 1
    }

    open spec fn spec_kind() -> RecordKind {
        RecordKind::Tag
    }

    open spec fn wf(&self) -> bool {
        true
    }

    open spec fn spec_bytes(&self, e: Endian) -> Seq<u8> {
        bytes32(e, self@)
    }

    open spec fn spec_accepts(&self, e: Endian, s: Seq<u8>) -> bool {
        s == bytes32(e, self@)
    }

    open spec fn same(&self, other: &Self) -> bool {
        self@ == other@
    }

    proof fn lemma_canonical(&self, e: Endian) {
    }

    fn version(&self) -> (r: u8) {
        1
    }

    fn decode_payload(version: u8, e: Endian, buf: &[u8], pos: usize) -> (r: Result<(Self, usize), DecodeError>) {
        if version != 1 {
            return Err(DecodeError::UnsupportedVersion { record: RecordKind::Tag, version, pos });
        }
        match read_u32(e, buf, pos) {
            Ok((raw, end)) => {
                let v = Tag(raw);
                proof {
                    lemma_u32_at(e, buf@, pos as int, raw);
                    assert forall|x: Self|
                        x.spec_version() == version && x.wf() && pos + x.spec_bytes(e).len() <= buf@.len()
                            && #[trigger] x.spec_accepts(e, buf@.subrange(pos as int, pos + x.spec_bytes(e).len()))
                            implies v.same(&x) && end == pos + x.spec_bytes(e).len() by {
                        lemma_u32_at(e, buf@, pos as int, x@);
                    }
                }
                Ok((v, end))
            },
            Err(err) => Err(err),
        }
    }

    fn encode_payload(&self, e: Endian, out: &mut Vec<u8>) {
        write_u32(e, self.0, out);
    }
}

/// Text of the form `[A-Z_]{3}[0-9]{4}` packs into a value whose text is the same again.
pub proof fn lemma_tag_text_round_trip(b: Seq<u8>)
    requires
        b.len() == 7,
        first_bad_letter(b) == 3,
        first_bad_digit(b) == 7,
    ensures
        tag_text(tag_value(b)) == b.map_values(|c: u8| c as char),
{
    let l0 = letter_value(b[0]);
    let l1 = letter_value(b[1]);
    let l2 = letter_value(b[2]);
    let d0 = digit_value(b[3]);
    let d1 = digit_value(b[4]);
    let d2 = digit_value(b[5]);
    let d3 = digit_value(b[6]);
    let n = tag_number(b);
    assert(l0 < 32 && l1 < 32 && l2 < 32);
    assert(d0 < 10 && d1 < 10 && d2 < 10 && d3 < 10);
    assert(n == d0 * 1000 + d1 * 100 + d2 * 10 + d3);
    assert(n < 10000);
    let raw = tag_value(b);
    assert(raw == (l0 << 24u32) | (l1 << 19u32) | (l2 << 14u32) | n);
    assert(((((l0 << 24u32) | (l1 << 19u32) | (l2 << 14u32) | n) >> 24u32) & 0x1fu32) == l0) by (bit_vector)
        requires
            l0 < 32,
            l1 < 32,
            l2 < 32,
            n < 10000,
    ;
    assert(((((l0 << 24u32) | (l1 << 19u32) | (l2 << 14u32) | n) >> 19u32) & 0x1fu32) == l1) by (bit_vector)
        requires
            l0 < 32,
            l1 < 32,
            l2 < 32,
            n < 10000,
    ;
    assert(((((l0 << 24u32) | (l1 << 19u32) | (l2 << 14u32) | n) >> 14u32) & 0x1fu32) == l2) by (bit_vector)
        requires
            l0 < 32,
            l1 < 32,
            l2 < 32,
            n < 10000,
    ;
    assert((((l0 << 24u32) | (l1 << 19u32) | (l2 << 14u32) | n) & 0x3fffu32) == n) by (bit_vector)
        requires
            l0 < 32,
            l1 < 32,
            l2 < 32,
            n < 10000,
    ;
    assert(shown_number(raw) == n);
    assert(n / 1000 == d0 && (n / 100) % 10 == d1 && (n / 10) % 10 == d2 && n % 10 == d3) by (nonlinear_arith)
        requires
            n == d0 * 1000 + d1 * 100 + d2 * 10 + d3,
            d0 < 10,
            d1 < 10,
            d2 < 10,
            d3 < 10,
    ;
    assert(tag_text(raw) =~= b.map_values(|c: u8| c as char));
}

} // verus!
