//! Fixed-width primitive codecs and the traits that every encodable value implements.
use vstd::prelude::*;

verus! {

/// Byte order of a whole stream; it is chosen once and never mixed within one file.
#[derive(Clone, Copy, Debug, PartialEq, Eq, Structural)]
pub enum Endian {
    /// The most significant byte is stored first.
    Big,
    /// The least significant byte is stored first.
    Little,
}

/// The record types whose version selector the codec checks.
#[derive(Clone, Copy, Debug, PartialEq, Eq, Structural)]
pub enum RecordKind {
    Array,
    Id,
    FixedString,
    Tag,
    Vector2,
    Vector3,
    Rect,
    VersionInfo,
    MetaInfo,
    Base,
    LvdPath,
    Shape2,
    ShapeArrayElement2,
    ShapeArray2,
    Shape3,
    Point,
    Region,
    Collision,
    CollisionCliff,
    CollisionAttribute,
    CollisionSpiritsFloor,
    DamageShape,
    EnemyGenerator,
    FsItem,
    FsUnknown,
    FsAreaCam,
    FsAreaLock,
    FsCamLimit,
    AreaLight,
    FsStartPoint,
    AreaHint,
    SplitArea,
    GeneralShape2,
    GeneralShape3,
    ItemPopup,
    PTrainerRange,
    PTrainerFloatingFloor,
    Lvd,
}

/// Why a decode failed. Every failure is fatal for the value being decoded.
#[derive(Clone, Copy, Debug, PartialEq, Eq, Structural)]
pub enum DecodeError {
    /// Fewer bytes remain at `pos` than the next fixed-width read needs.
    Truncated { pos: usize },
    /// The version selector matches no variant of `record`; `pos` is just past the selector.
    UnsupportedVersion { record: RecordKind, version: u8, pos: usize },
    /// No zero byte occurs in the window of a fixed-capacity string starting at `pos`.
    MissingTerminator { pos: usize },
    /// The signature at `pos` is not the expected one.
    BadMagic { pos: usize },
    /// The 32-bit code at `pos` names no known variant or value.
    InvalidValue { pos: usize },
}

/// A value with a fixed, self-delimiting encoding.
pub trait Wire: Sized {
    /// The value can be encoded.
    spec fn wf(&self) -> bool;

    /// The bytes `encode` writes.
    spec fn spec_bytes(&self, e: Endian) -> Seq<u8>;

    /// `s` is an encoding of the value; bytes that decoding skips may hold anything.
    spec fn spec_accepts(&self, e: Endian, s: Seq<u8>) -> bool;

    /// Both values hold the same content.
    spec fn same(&self, other: &Self) -> bool;

    /// The canonical encoding is accepted.
    proof fn lemma_canonical(&self, e: Endian)
        requires
            self.wf(),
        ensures
            self.spec_accepts(e, self.spec_bytes(e)),
    ;

    /// Reads a value at `pos`. On success, the bytes read are an encoding of the value; and
    /// whenever some value is encoded at `pos`, decoding succeeds with that value.
    fn decode(e: Endian, buf: &[u8], pos: usize) -> (r: Result<(Self, usize), DecodeError>)
        requires
            pos <= buf@.len(),
        ensures
            match r {
                Ok((v, end)) => {
                    &&& end == pos + v.spec_bytes(e).len()
                    &&& end <= buf@.len()
                    &&& v.wf()
                    &&& v.spec_accepts(e, buf@.subrange(pos as int, end as int))
                },
                Err(_) => true,
            },
            forall|x: Self|
                x.wf() && pos + x.spec_bytes(e).len() <= buf@.len() && #[trigger] x.spec_accepts(
                    e,
                    buf@.subrange(pos as int, pos + x.spec_bytes(e).len()),
                ) ==> match r {
                    Ok((v, end)) => v.same(&x) && end == pos + x.spec_bytes(e).len(),
                    Err(_) => false,
                },
    ;

    /// Appends the canonical encoding.
    fn encode(&self, e: Endian, out: &mut Vec<u8>)
        requires
            self.wf(),
        ensures
            final(out)@ == old(out)@ + self.spec_bytes(e),
    ;
}

/// Splitting an accepted window at a boundary inside it.
pub proof fn lemma_window_split(s: Seq<u8>, pos: int, a: int, b: int)
    requires
        0 <= pos,
        0 <= a,
        0 <= b,
        pos + a + b <= s.len(),
    ensures
        s.subrange(pos, pos + a + b).subrange(0, a) == s.subrange(pos, pos + a),
        s.subrange(pos, pos + a + b).subrange(a, a + b) == s.subrange(pos + a, pos + a + b),
{
    assert(s.subrange(pos, pos + a + b).subrange(0, a) =~= s.subrange(pos, pos + a));
    assert(s.subrange(pos, pos + a + b).subrange(a, a + b) =~= s.subrange(pos + a, pos + a + b));
}

/// Appending is associative.
pub proof fn lemma_append_assoc(a: Seq<u8>, b: Seq<u8>, c: Seq<u8>)
    ensures
        (a + b) + c == a + (b + c),
{
    assert((a + b) + c =~= a + (b + c));
}

// ---------------------------------------------------------------- u8

impl Wire for u8 {
    open spec fn wf(&self) -> bool {
        true
    }

    open spec fn spec_bytes(&self, e: Endian) -> Seq<u8> {
        seq![*self]
    }

    open spec fn spec_accepts(&self, e: Endian, s: Seq<u8>) -> bool {
        s == seq![*self]
    }

    open spec fn same(&self, other: &Self) -> bool {
        *self == *other
    }

    proof fn lemma_canonical(&self, e: Endian) {
    }

    fn decode(e: Endian, buf: &[u8], pos: usize) -> (r: Result<(Self, usize), DecodeError>) {
        if pos >= buf.len() {
            return Err(DecodeError::Truncated { pos });
        }
        let b = buf[pos];
        proof {
            assert(buf@.subrange(pos as int, pos + 1) =~= seq![b]);
            assert forall|x: u8|
                x.wf() && pos + x.spec_bytes(e).len() <= buf@.len() && #[trigger] x.spec_accepts(
                    e,
                    buf@.subrange(pos as int, pos + x.spec_bytes(e).len()),
                ) implies b == x by {
                assert(seq![x][0] == x);
            }
        }
        Ok((b, pos + 1))
    }

    fn encode(&self, e: Endian, out: &mut Vec<u8>) {
        out.push(*self);
        proof {
            assert(final(out)@ =~= old(out)@ + seq![*self]);
        }
    }
}

// ---------------------------------------------------------------- bool

/// The byte a flag is stored as.
pub fn c_bool(x: bool) -> (r: u8)
    ensures
        r == (if x { 1u8 } else { 0u8 }),
{
    if x {
        1
    } else {
        0
    }
}

/// A stored flag byte is set when it is nonzero.
pub fn cbool(x: u8) -> (r: bool)
    ensures
        r == (x != 0),
{
    x != 0
}

impl Wire for bool {
    open spec fn wf(&self) -> bool {
        true
    }

    open spec fn spec_bytes(&self, e: Endian) -> Seq<u8> {
        seq![if *self { 1u8 } else { 0u8 }]
    }

    open spec fn spec_accepts(&self, e: Endian, s: Seq<u8>) -> bool {
        s.len() == 1 && (s[0] != 0) == *self
    }

    open spec fn same(&self, other: &Self) -> bool {
        *self == *other
    }

    proof fn lemma_canonical(&self, e: Endian) {
    }

    fn decode(e: Endian, buf: &[u8], pos: usize) -> (r: Result<(Self, usize), DecodeError>) {
        if pos >= buf.len() {
            return Err(DecodeError::Truncated { pos });
        }
        Ok((cbool(buf[pos]), pos + 1))
    }

    fn encode(&self, e: Endian, out: &mut Vec<u8>) {
        out.push(c_bool(*self));
        proof {
            assert(final(out)@ =~= old(out)@ + self.spec_bytes(e));
        }
    }
}

// ---------------------------------------------------------------- u32 / i32

/// The four bytes of `v`, most significant first.
pub open spec fn be_bytes32(v: u32) -> Seq<u8> {
    seq![(v >> 24u32) as u8, (v >> 16u32) as u8, (v >> 8u32) as u8, v as u8]
}

/// The four bytes of `v` in stream order.
pub open spec fn bytes32(e: Endian, v: u32) -> Seq<u8> {
    match e {
        Endian::Big => be_bytes32(v),
        Endian::Little => seq![v as u8, (v >> 8u32) as u8, (v >> 16u32) as u8, (v >> 24u32) as u8],
    }
}

/// The integer whose bytes, most significant first, are `b0 b1 b2 b3`.
pub open spec fn from_be32(b0: u8, b1: u8, b2: u8, b3: u8) -> u32 {
    ((b0 as u32) << 24u32) | ((b1 as u32) << 16u32) | ((b2 as u32) << 8u32) | (b3 as u32)
}

proof fn lemma_be32(v: u32, b0: u8, b1: u8, b2: u8, b3: u8)
    ensures
        from_be32((v >> 24u32) as u8, (v >> 16u32) as u8, (v >> 8u32) as u8, v as u8) == v,
        ((from_be32(b0, b1, b2, b3) >> 24u32) as u8) == b0,
        ((from_be32(b0, b1, b2, b3) >> 16u32) as u8) == b1,
        ((from_be32(b0, b1, b2, b3) >> 8u32) as u8) == b2,
        (from_be32(b0, b1, b2, b3) as u8) == b3,
{
    assert(((((v >> 24u32) as u8) as u32) << 24u32) | ((((v >> 16u32) as u8) as u32) << 16u32) | ((
    ((v >> 8u32) as u8) as u32) << 8u32) | ((v as u8) as u32) == v) by (bit_vector);
    let w = from_be32(b0, b1, b2, b3);
    assert(w == ((b0 as u32) << 24u32) | ((b1 as u32) << 16u32) | ((b2 as u32) << 8u32) | (b3 as u32));
    assert((((((b0 as u32) << 24u32) | ((b1 as u32) << 16u32) | ((b2 as u32) << 8u32) | (b3 as u32)) >> 24u32) as u8) == b0) by (bit_vector);
    assert((((((b0 as u32) << 24u32) | ((b1 as u32) << 16u32) | ((b2 as u32) << 8u32) | (b3 as u32)) >> 16u32) as u8) == b1) by (bit_vector);
    assert((((((b0 as u32) << 24u32) | ((b1 as u32) << 16u32) | ((b2 as u32) << 8u32) | (b3 as u32)) >> 8u32) as u8) == b2) by (bit_vector);
    assert(((((b0 as u32) << 24u32) | ((b1 as u32) << 16u32) | ((b2 as u32) << 8u32) | (b3 as u32)) as u8) == b3) by (bit_vector);
}

/// The 32-bit integer stored in `s` at `pos`.
pub open spec fn u32_at(e: Endian, s: Seq<u8>, pos: int) -> u32 {
    match e {
        Endian::Big => from_be32(s[pos], s[pos + 1], s[pos + 2], s[pos + 3]),
        Endian::Little => from_be32(s[pos + 3], s[pos + 2], s[pos + 1], s[pos]),
    }
}

/// Reads a 32-bit integer at `pos`.
pub fn read_u32(e: Endian, buf: &[u8], pos: usize) -> (r: Result<(u32, usize), DecodeError>)
    requires
        pos <= buf@.len(),
    ensures
        pos + 4 <= buf@.len() ==> (r matches Ok((v, end)) && v == u32_at(e, buf@, pos as int) && end == pos + 4),
        pos + 4 > buf@.len() ==> r == Err::<(u32, usize), DecodeError>(DecodeError::Truncated { pos }),
{
    if buf.len() - pos < 4 {
        return Err(DecodeError::Truncated { pos });
    }
    let b0 = buf[pos];
    let b1 = buf[pos + 1];
    let b2 = buf[pos + 2];
    let b3 = buf[pos + 3];
    let v = match e {
        Endian::Big => ((b0 as u32) << 24u32) | ((b1 as u32) << 16u32) | ((b2 as u32) << 8u32) | (b3 as u32),
        Endian::Little => ((b3 as u32) << 24u32) | ((b2 as u32) << 16u32) | ((b1 as u32) << 8u32) | (b0 as u32),
    };
    Ok((v, pos + 4))
}

/// Appends the four bytes of `v` in stream order.
pub fn write_u32(e: Endian, v: u32, out: &mut Vec<u8>)
    ensures
        final(out)@ == old(out)@ + bytes32(e, v),
{
    let b0 = (v >> 24u32) as u8;
    let b1 = (v >> 16u32) as u8;
    let b2 = (v >> 8u32) as u8;
    let b3 = v as u8;
    match e {
        Endian::Big => {
            out.push(b0);
            out.push(b1);
            out.push(b2);
            out.push(b3);
        },
        Endian::Little => {
            out.push(b3);
            out.push(b2);
            out.push(b1);
            out.push(b0);
        },
    }
    proof {
        assert(final(out)@ =~= old(out)@ + bytes32(e, v));
    }
}

/// The bytes of `v` are exactly those that `u32_at` reads back as `v`.
pub proof fn lemma_u32_at(e: Endian, s: Seq<u8>, pos: int, v: u32)
    requires
        0 <= pos,
        pos + 4 <= s.len(),
    ensures
        s.subrange(pos, pos + 4) == bytes32(e, v) <==> u32_at(e, s, pos) == v,
{
    lemma_be32(v, s[pos], s[pos + 1], s[pos + 2], s[pos + 3]);
    lemma_be32(v, s[pos + 3], s[pos + 2], s[pos + 1], s[pos]);
    let w = s.subrange(pos, pos + 4);
    if w == bytes32(e, v) {
        assert(w[0] == s[pos] && w[1] == s[pos + 1] && w[2] == s[pos + 2] && w[3] == s[pos + 3]);
    }
    if u32_at(e, s, pos) == v {
        assert(w =~= bytes32(e, v));
    }
}

impl Wire for u32 {
    open spec fn wf(&self) -> bool {
        true
    }

    open spec fn spec_bytes(&self, e: Endian) -> Seq<u8> {
        bytes32(e, *self)
    }

    open spec fn spec_accepts(&self, e: Endian, s: Seq<u8>) -> bool {
        s == bytes32(e, *self)
    }

    open spec fn same(&self, other: &Self) -> bool {
        *self == *other
    }

    proof fn lemma_canonical(&self, e: Endian) {
    }

    fn decode(e: Endian, buf: &[u8], pos: usize) -> (r: Result<(Self, usize), DecodeError>) {
        let r = read_u32(e, buf, pos);
        proof {
            if pos + 4 <= buf@.len() {
                let v = u32_at(e, buf@, pos as int);
                lemma_u32_at(e, buf@, pos as int, v);
                assert forall|x: u32|
                    x.wf() && pos + x.spec_bytes(e).len() <= buf@.len() && #[trigger] x.spec_accepts(
                        e,
                        buf@.subrange(pos as int, pos + x.spec_bytes(e).len()),
                    ) implies v == x by {
                    lemma_u32_at(e, buf@, pos as int, x);
                }
            }
        }
        r
    }

    fn encode(&self, e: Endian, out: &mut Vec<u8>) {
        write_u32(e, *self, out);
    }
}

impl Wire for i32 {
    open spec fn wf(&self) -> bool {
        true
    }

    open spec fn spec_bytes(&self, e: Endian) -> Seq<u8> {
        bytes32(e, *self as u32)
    }

    open spec fn spec_accepts(&self, e: Endian, s: Seq<u8>) -> bool {
        s == bytes32(e, *self as u32)
    }

    open spec fn same(&self, other: &Self) -> bool {
        *self == *other
    }

    proof fn lemma_canonical(&self, e: Endian) {
    }

    fn decode(e: Endian, buf: &[u8], pos: usize) -> (r: Result<(Self, usize), DecodeError>) {
        match read_u32(e, buf, pos) {
            Ok((u, end)) => {
                #[verifier::truncate]
                let v = u as i32;
                proof {
                    assert((u as i32) as u32 == u) by (bit_vector);
                    lemma_u32_at(e, buf@, pos as int, u);
                    assert forall|x: i32|
                        x.wf() && pos + x.spec_bytes(e).len() <= buf@.len() && #[trigger] x.spec_accepts(
                            e,
                            buf@.subrange(pos as int, pos + x.spec_bytes(e).len()),
                        ) implies v == x by {
                        lemma_u32_at(e, buf@, pos as int, x as u32);
                        assert((x as u32) as i32 == x) by (bit_vector);
                    }
                }
                Ok((v, end))
            },
            Err(err) => Err(err),
        }
    }

    fn encode(&self, e: Endian, out: &mut Vec<u8>) {
        write_u32(e, *self as u32, out);
    }
}

// ---------------------------------------------------------------- pairs

/// A pair accepted in a window has its first value accepted at the start of the window and its
/// second value right after it.
proof fn lemma_pair_window<A: Wire, B: Wire>(x: (A, B), e: Endian, s: Seq<u8>, pos: int)
    requires
        0 <= pos,
        pos + x.0.spec_bytes(e).len() + x.1.spec_bytes(e).len() <= s.len(),
        x.spec_accepts(e, s.subrange(pos, pos + x.0.spec_bytes(e).len() + x.1.spec_bytes(e).len())),
    ensures
        x.0.spec_accepts(e, s.subrange(pos, pos + x.0.spec_bytes(e).len())),
        x.1.spec_accepts(
            e,
            s.subrange(pos + x.0.spec_bytes(e).len(), pos + x.0.spec_bytes(e).len() + x.1.spec_bytes(e).len()),
        ),
{
    lemma_window_split(s, pos, x.0.spec_bytes(e).len() as int, x.1.spec_bytes(e).len() as int);
}

/// Two values encoded back to back; records are built from nested pairs of their fields.
impl<A: Wire, B: Wire> Wire for (A, B) {
    open spec fn wf(&self) -> bool {
        self.0.wf() && self.1.wf()
    }

    open spec fn spec_bytes(&self, e: Endian) -> Seq<u8> {
        self.0.spec_bytes(e) + self.1.spec_bytes(e)
    }

    open spec fn spec_accepts(&self, e: Endian, s: Seq<u8>) -> bool {
        let a = self.0.spec_bytes(e).len() as int;
        let b = self.1.spec_bytes(e).len() as int;
        &&& s.len() == a + b
        &&& self.0.spec_accepts(e, s.subrange(0, a))
        &&& self.1.spec_accepts(e, s.subrange(a, a + b))
    }

    open spec fn same(&self, other: &Self) -> bool {
        self.0.same(&other.0) && self.1.same(&other.1)
    }

    proof fn lemma_canonical(&self, e: Endian) {
        self.0.lemma_canonical(e);
        self.1.lemma_canonical(e);
        let s = self.spec_bytes(e);
        let a = self.0.spec_bytes(e).len() as int;
        assert(s.subrange(0, a) =~= self.0.spec_bytes(e));
        assert(s.subrange(a, s.len() as int) =~= self.1.spec_bytes(e));
    }

    fn decode(e: Endian, buf: &[u8], pos: usize) -> (r: Result<(Self, usize), DecodeError>) {
        let ra = A::decode(e, buf, pos);
        let (a, mid) = match ra {
            Ok(t) => t,
            Err(err) => {
                proof {
                    assert forall|x: Self|
                        x.wf() && pos + x.spec_bytes(e).len() <= buf@.len() && #[trigger] x.spec_accepts(
                            e,
                            buf@.subrange(pos as int, pos + x.spec_bytes(e).len()),
                        ) implies false by {
                        lemma_pair_window(x, e, buf@, pos as int);
                    }
                }
                return Err(err);
            },
        };
        let rb = B::decode(e, buf, mid);
        let (b, end) = match rb {
            Ok(t) => t,
            Err(err) => {
                proof {
                    assert forall|x: Self|
                        x.wf() && pos + x.spec_bytes(e).len() <= buf@.len() && #[trigger] x.spec_accepts(
                            e,
                            buf@.subrange(pos as int, pos + x.spec_bytes(e).len()),
                        ) implies false by {
                        lemma_pair_window(x, e, buf@, pos as int);
                    }
                }
                return Err(err);
            },
        };
        proof {
            let la = a.spec_bytes(e).len() as int;
            let lb = b.spec_bytes(e).len() as int;
            lemma_window_split(buf@, pos as int, la, lb);
            assert forall|x: Self|
                x.wf() && pos + x.spec_bytes(e).len() <= buf@.len() && #[trigger] x.spec_accepts(
                    e,
                    buf@.subrange(pos as int, pos + x.spec_bytes(e).len()),
                ) implies (a, b).same(&x) && end == pos + x.spec_bytes(e).len() by {
                lemma_pair_window(x, e, buf@, pos as int);
            }
        }
        Ok(((a, b), end))
    }

    fn encode(&self, e: Endian, out: &mut Vec<u8>) {
        self.0.encode(e, out);
        self.1.encode(e, out);
        proof {
            assert(final(out)@ =~= old(out)@ + self.spec_bytes(e));
        }
    }
}

// ---------------------------------------------------------------- u64

/// The eight bytes of `v` in stream order: the two 32-bit halves, high half first on a
/// big-endian stream.
pub open spec fn bytes64(e: Endian, v: u64) -> Seq<u8> {
    let hi = (v >> 32u64) as u32;
    let lo = v as u32;
    match e {
        Endian::Big => bytes32(e, hi) + bytes32(e, lo),
        Endian::Little => bytes32(e, lo) + bytes32(e, hi),
    }
}

proof fn lemma_halves(v: u64, hi: u32, lo: u32)
    ensures
        ((((v >> 32u64) as u32) as u64) << 32u64) | ((v as u32) as u64) == v,
        (((((hi as u64) << 32u64) | (lo as u64)) >> 32u64) as u32) == hi,
        ((((hi as u64) << 32u64) | (lo as u64)) as u32) == lo,
{
    assert(((((v >> 32u64) as u32) as u64) << 32u64) | ((v as u32) as u64) == v) by (bit_vector);
    assert((((((hi as u64) << 32u64) | (lo as u64)) >> 32u64) as u32) == hi) by (bit_vector);
    assert(((((hi as u64) << 32u64) | (lo as u64)) as u32) == lo) by (bit_vector);
}

impl Wire for u64 {
    open spec fn wf(&self) -> bool {
        true
    }

    open spec fn spec_bytes(&self, e: Endian) -> Seq<u8> {
        bytes64(e, *self)
    }

    open spec fn spec_accepts(&self, e: Endian, s: Seq<u8>) -> bool {
        s == bytes64(e, *self)
    }

    open spec fn same(&self, other: &Self) -> bool {
        *self == *other
    }

    proof fn lemma_canonical(&self, e: Endian) {
    }

    fn decode(e: Endian, buf: &[u8], pos: usize) -> (r: Result<(Self, usize), DecodeError>) {
        let (first, mid) = match read_u32(e, buf, pos) {
            Ok(t) => t,
            Err(err) => return Err(err),
        };
        let (second, end) = match read_u32(e, buf, mid) {
            Ok(t) => t,
            Err(err) => return Err(err),
        };
        let (hi, lo) = match e {
            Endian::Big => (first, second),
            Endian::Little => (second, first),
        };
        let v = ((hi as u64) << 32u64) | (lo as u64);
        proof {
            lemma_halves(v, hi, lo);
            lemma_u32_at(e, buf@, pos as int, first);
            lemma_u32_at(e, buf@, mid as int, second);
            let w = buf@.subrange(pos as int, end as int);
            assert(w =~= buf@.subrange(pos as int, mid as int) + buf@.subrange(mid as int, end as int));
            assert forall|x: u64|
                x.wf() && pos + x.spec_bytes(e).len() <= buf@.len() && #[trigger] x.spec_accepts(
                    e,
                    buf@.subrange(pos as int, pos + x.spec_bytes(e).len()),
                ) implies v == x && end == pos + x.spec_bytes(e).len() by {
                lemma_halves(x, hi, lo);
                let xh = (x >> 32u64) as u32;
                let xl = x as u32;
                let u = buf@.subrange(pos as int, pos + 8);
                assert(u.subrange(0, 4) =~= buf@.subrange(pos as int, pos + 4));
                assert(u.subrange(4, 8) =~= buf@.subrange(pos + 4, pos + 8));
                match e {
                    Endian::Big => {
                        assert(u.subrange(0, 4) == bytes32(e, xh));
                        assert(u.subrange(4, 8) == bytes32(e, xl));
                        lemma_u32_at(e, buf@, pos as int, xh);
                        lemma_u32_at(e, buf@, mid as int, xl);
                    },
                    Endian::Little => {
                        assert(u.subrange(0, 4) == bytes32(e, xl));
                        assert(u.subrange(4, 8) == bytes32(e, xh));
                        lemma_u32_at(e, buf@, pos as int, xl);
                        lemma_u32_at(e, buf@, mid as int, xh);
                    },
                }
            }
        }
        Ok((v, end))
    }

    fn encode(&self, e: Endian, out: &mut Vec<u8>) {
        let hi = (*self >> 32u64) as u32;
        let lo = *self as u32;
        match e {
            Endian::Big => {
                write_u32(e, hi, out);
                write_u32(e, lo, out);
            },
            Endian::Little => {
                write_u32(e, lo, out);
                write_u32(e, hi, out);
            },
        }
        proof {
            assert(final(out)@ =~= old(out)@ + self.spec_bytes(e));
        }
    }
}

// ---------------------------------------------------------------- padding and codes

/// `n` zero bytes.
pub open spec fn zeros(n: int) -> Seq<u8> {
    Seq::new(n as nat, |i: int| 0u8)
}

/// `N` bytes that are skipped on read and written as zeros.
#[derive(Clone, Copy, Debug)]
pub struct Pad<const N: usize> {}

impl<const N: usize> Wire for Pad<N> {
    open spec fn wf(&self) -> bool {
        true
    }

    open spec fn spec_bytes(&self, e: Endian) -> Seq<u8> {
        zeros(N as int)
    }

    open spec fn spec_accepts(&self, e: Endian, s: Seq<u8>) -> bool {
        s.len() == N
    }

    open spec fn same(&self, other: &Self) -> bool {
        true
    }

    proof fn lemma_canonical(&self, e: Endian) {
    }

    fn decode(e: Endian, buf: &[u8], pos: usize) -> (r: Result<(Self, usize), DecodeError>) {
        if buf.len() - pos < N {
            return Err(DecodeError::Truncated { pos });
        }
        Ok((Pad {}, pos + N))
    }

    fn encode(&self, e: Endian, out: &mut Vec<u8>) {
        let ghost start = out@;
        let mut i: usize = 0;
        while i < N
            invariant
                i <= N,
                out@ == start + zeros(i as int),
            decreases N - i,
        {
            out.push(0);
            i = i + 1;
            proof {
                assert(out@ =~= start + zeros(i as int));
            }
        }
    }
}

/// A fixed 32-bit code that selects a variant; any other code fails the decode.
#[derive(Clone, Copy, Debug)]
pub struct Code<const V: u32> {}

impl<const V: u32> Wire for Code<V> {
    open spec fn wf(&self) -> bool {
        true
    }

    open spec fn spec_bytes(&self, e: Endian) -> Seq<u8> {
        bytes32(e, V)
    }

    open spec fn spec_accepts(&self, e: Endian, s: Seq<u8>) -> bool {
        s == bytes32(e, V)
    }

    open spec fn same(&self, other: &Self) -> bool {
        true
    }

    proof fn lemma_canonical(&self, e: Endian) {
    }

    fn decode(e: Endian, buf: &[u8], pos: usize) -> (r: Result<(Self, usize), DecodeError>) {
        let (v, end) = match read_u32(e, buf, pos) {
            Ok(t) => t,
            Err(err) => return Err(err),
        };
        proof {
            lemma_u32_at(e, buf@, pos as int, V);
        }
        if v != V {
            return Err(DecodeError::InvalidValue { pos });
        }
        Ok((Code {}, end))
    }

    fn encode(&self, e: Endian, out: &mut Vec<u8>) {
        write_u32(e, V, out);
    }
}

} // verus!
