//! Two- and three-dimensional shapes and paths.
use vstd::prelude::*;
use crate::array::Array;
use crate::vector::Vector2;
use crate::version::{Version, Versioned};
use crate::wire::{lemma_u32_at, lemma_window_split, read_u32, Code, DecodeError, Endian, Pad, RecordKind, Wire};

verus! {

/// A path through a sequence of points.
#[derive(Debug)]
pub enum LvdPath {
    /// The first and only layout.
    V1 {
        /// The points of the path, in order.
        points: Versioned<Array<Vector2>>,
    },
}

impl Version for LvdPath {
    open spec fn spec_version(&self) -> u8 {
        match self {
            LvdPath::V1 { .. } => 1,
        }
    }

    open spec fn spec_supported(version: u8) -> bool {
        version == 1
    }

    open spec fn spec_kind() -> RecordKind {
        RecordKind::LvdPath
    }

    closed spec fn wf(&self) -> bool {
        match self {
            LvdPath::V1 { points } => (*points).wf(),
        }
    }

    closed spec fn spec_bytes(&self, e: Endian) -> Seq<u8> {
        match self {
            LvdPath::V1 { points } => (*points).spec_bytes(e),
        }
    }

    closed spec fn spec_accepts(&self, e: Endian, s: Seq<u8>) -> bool {
        match self {
            LvdPath::V1 { points } => (*points).spec_accepts(e, s),
        }
    }

    closed spec fn same(&self, other: &Self) -> bool {
        match (self, other) {
            (LvdPath::V1 { points }, LvdPath::V1 { points: o_points }) => (*points).same(&(*o_points)),
        }
    }

    proof fn lemma_canonical(&self, e: Endian) {
        match self {
            LvdPath::V1 { points } => (*points).lemma_canonical(e),
        }
    }

    fn version(&self) -> (r: u8) {
        match self {
            LvdPath::V1 { .. } => 1,
        }
    }

    fn decode_payload(version: u8, e: Endian, buf: &[u8], pos: usize) -> (r: Result<(Self, usize), DecodeError>) {
        match version {
            1 => {
                match <Versioned<Array<Vector2>>>::decode(e, buf, pos) {
                    Ok((points, end)) => Ok((LvdPath::V1 { points }, end)),
                    Err(err) => Err(err),
                }
            },
            _ => Err(DecodeError::UnsupportedVersion { record: RecordKind::LvdPath, version, pos }),
        }
    }

    fn encode_payload(&self, e: Endian, out: &mut Vec<u8>) {
        match self {
            LvdPath::V1 { points } => {
                points.encode(e, out);
                proof {
                    assert(final(out)@ =~= old(out)@ + (*points).spec_bytes(e));
                }
            },
        }
    }
}

/// A two-dimensional shape, chosen by a 32-bit code after the version selector.
#[derive(Debug)]
pub enum Shape2 {
    /// A point.
    Point {
        /// Bits of the x coordinate.
        pos_x: u32,
        /// Bits of the y coordinate.
        pos_y: u32,
        /// The associated path.
        path: Versioned<LvdPath>,
    },
    /// A circle.
    Circle {
        /// Bits of the x coordinate of the center.
        pos_x: u32,
        /// Bits of the y coordinate of the center.
        pos_y: u32,
        /// Bits of the radius.
        radius: u32,
        /// The associated path.
        path: Versioned<LvdPath>,
    },
    /// A rectangle.
    Rect {
        /// Bits of the left edge.
        left: u32,
        /// Bits of the right edge.
        right: u32,
        /// Bits of the bottom edge.
        bottom: u32,
        /// Bits of the top edge.
        top: u32,
        /// The associated path.
        path: Versioned<LvdPath>,
    },
    /// A path.
    Path {
        /// The path.
        path: Versioned<LvdPath>,
    },
}

impl Version for Shape2 {
    open spec fn spec_version(&self) -> u8 {
        3
    }

    open spec fn spec_supported(version: u8) -> bool {
        version == 3
    }

    open spec fn spec_kind() -> RecordKind {
        RecordKind::Shape2
    }

    closed spec fn wf(&self) -> bool {
        match self {
            Shape2::Point { pos_x, pos_y, path } => (Code::<1> {}, (*pos_x, (*pos_y, (Pad::<8> {}, *path)))).wf(),
            Shape2::Circle { pos_x, pos_y, radius, path } => (Code::<2> {}, (*pos_x, (*pos_y, (*radius, (Pad::<4> {}, *path))))).wf(),
            Shape2::Rect { left, right, bottom, top, path } => (Code::<3> {}, (*left, (*right, (*bottom, (*top, *path))))).wf(),
            Shape2::Path { path } => (Code::<4> {}, (Pad::<16> {}, *path)).wf(),
        }
    }

    closed spec fn spec_bytes(&self, e: Endian) -> Seq<u8> {
        match self {
            Shape2::Point { pos_x, pos_y, path } => (Code::<1> {}, (*pos_x, (*pos_y, (Pad::<8> {}, *path)))).spec_bytes(e),
            Shape2::Circle { pos_x, pos_y, radius, path } => (Code::<2> {}, (*pos_x, (*pos_y, (*radius, (Pad::<4> {}, *path))))).spec_bytes(e),
            Shape2::Rect { left, right, bottom, top, path } => (Code::<3> {}, (*left, (*right, (*bottom, (*top, *path))))).spec_bytes(e),
            Shape2::Path { path } => (Code::<4> {}, (Pad::<16> {}, *path)).spec_bytes(e),
        }
    }

    closed spec fn spec_accepts(&self, e: Endian, s: Seq<u8>) -> bool {
        match self {
            Shape2::Point { pos_x, pos_y, path } => (Code::<1> {}, (*pos_x, (*pos_y, (Pad::<8> {}, *path)))).spec_accepts(e, s),
            Shape2::Circle { pos_x, pos_y, radius, path } => (Code::<2> {}, (*pos_x, (*pos_y, (*radius, (Pad::<4> {}, *path))))).spec_accepts(e, s),
            Shape2::Rect { left, right, bottom, top, path } => (Code::<3> {}, (*left, (*right, (*bottom, (*top, *path))))).spec_accepts(e, s),
            Shape2::Path { path } => (Code::<4> {}, (Pad::<16> {}, *path)).spec_accepts(e, s),
        }
    }

    closed spec fn same(&self, other: &Self) -> bool {
        match (self, other) {
            (Shape2::Point { pos_x, pos_y, path }, Shape2::Point { pos_x: o_pos_x, pos_y: o_pos_y, path: o_path }) => (Code::<1> {}, (*pos_x, (*pos_y, (Pad::<8> {}, *path)))).same(&(Code::<1> {}, (*o_pos_x, (*o_pos_y, (Pad::<8> {}, *o_path))))),
            (Shape2::Circle { pos_x, pos_y, radius, path }, Shape2::Circle { pos_x: o_pos_x, pos_y: o_pos_y, radius: o_radius, path: o_path }) => (Code::<2> {}, (*pos_x, (*pos_y, (*radius, (Pad::<4> {}, *path))))).same(&(Code::<2> {}, (*o_pos_x, (*o_pos_y, (*o_radius, (Pad::<4> {}, *o_path)))))),
            (Shape2::Rect { left, right, bottom, top, path }, Shape2::Rect { left: o_left, right: o_right, bottom: o_bottom, top: o_top, path: o_path }) => (Code::<3> {}, (*left, (*right, (*bottom, (*top, *path))))).same(&(Code::<3> {}, (*o_left, (*o_right, (*o_bottom, (*o_top, *o_path)))))),
            (Shape2::Path { path }, Shape2::Path { path: o_path }) => (Code::<4> {}, (Pad::<16> {}, *path)).same(&(Code::<4> {}, (Pad::<16> {}, *o_path))),
            _ => false,
        }
    }

    proof fn lemma_canonical(&self, e: Endian) {
        match self {
            Shape2::Point { pos_x, pos_y, path } => (Code::<1> {}, (*pos_x, (*pos_y, (Pad::<8> {}, *path)))).lemma_canonical(e),
            Shape2::Circle { pos_x, pos_y, radius, path } => (Code::<2> {}, (*pos_x, (*pos_y, (*radius, (Pad::<4> {}, *path))))).lemma_canonical(e),
            Shape2::Rect { left, right, bottom, top, path } => (Code::<3> {}, (*left, (*right, (*bottom, (*top, *path))))).lemma_canonical(e),
            Shape2::Path { path } => (Code::<4> {}, (Pad::<16> {}, *path)).lemma_canonical(e),
        }
    }

    fn version(&self) -> (r: u8) {
        3
    }

    fn decode_payload(version: u8, e: Endian, buf: &[u8], pos: usize) -> (r: Result<(Self, usize), DecodeError>) {
        if version != 3 {
            return Err(DecodeError::UnsupportedVersion { record: RecordKind::Shape2, version, pos });
        }
        let (code, _) = match read_u32(e, buf, pos) {
            Ok(t) => t,
            Err(err) => return Err(err),
        };
        proof {
            assert forall|x: Self|
                x.spec_version() == version && x.wf() && pos + x.spec_bytes(e).len() <= buf@.len()
                    && #[trigger] x.spec_accepts(e, buf@.subrange(pos as int, pos + x.spec_bytes(e).len()))
                    implies code == x.spec_code() by {
                lemma_window_split(buf@, pos as int, 4, x.spec_bytes(e).len() - 4);
                lemma_u32_at(e, buf@, pos as int, x.spec_code());
            }
        }
        match code {
            1 => Self::decode_v1(e, buf, pos),
            2 => Self::decode_v2(e, buf, pos),
            3 => Self::decode_v3(e, buf, pos),
            4 => Self::decode_v4(e, buf, pos),
            _ => Err(DecodeError::InvalidValue { pos }),
        }
    }

    fn encode_payload(&self, e: Endian, out: &mut Vec<u8>) {
        match self {
            Shape2::Point { .. } => self.encode_point(e, out),
            Shape2::Circle { .. } => self.encode_circle(e, out),
            Shape2::Rect { .. } => self.encode_rect(e, out),
            Shape2::Path { .. } => self.encode_path(e, out),
        }
    }
}

impl Shape2 {
    /// The code that selects the held variant.
    pub open spec fn spec_code(&self) -> u32 {
        match self {
            Shape2::Point { .. } => 1,
            Shape2::Circle { .. } => 2,
            Shape2::Rect { .. } => 3,
            Shape2::Path { .. } => 4,
        }
    }

    /// Writes the payload of the `Point` variant.
    fn encode_point(&self, e: Endian, out: &mut Vec<u8>)
        requires
            self is Point,
            self.wf(),
        ensures
            final(out)@ == old(out)@ + self.spec_bytes(e),
    {
        match self {
            Shape2::Point { pos_x, pos_y, path } => {
                Code::<1> {}.encode(e, out);
                pos_x.encode(e, out);
                proof {
                    assert(out@ =~= old(out)@ + (Code::<1> {}.spec_bytes(e) + pos_x.spec_bytes(e)));
                }
                pos_y.encode(e, out);
                proof {
                    assert(out@ =~= old(out)@ + (Code::<1> {}.spec_bytes(e) + pos_x.spec_bytes(e) + pos_y.spec_bytes(e)));
                }
                Pad::<8> {}.encode(e, out);
                proof {
                    assert(out@ =~= old(out)@ + (Code::<1> {}.spec_bytes(e) + pos_x.spec_bytes(e) + pos_y.spec_bytes(e) + Pad::<8> {}.spec_bytes(e)));
                }
                path.encode(e, out);
                proof {
                    assert(final(out)@ =~= old(out)@ + (Code::<1> {}, (*pos_x, (*pos_y, (Pad::<8> {}, *path)))).spec_bytes(e));
                }
            },
            _ => {},
        }
    }

    /// Writes the payload of the `Circle` variant.
    #[verifier::spinoff_prover]
    #[verifier::rlimit(100)]
    fn encode_circle(&self, e: Endian, out: &mut Vec<u8>)
        requires
            self is Circle,
            self.wf(),
        ensures
            final(out)@ == old(out)@ + self.spec_bytes(e),
    {
        match self {
            Shape2::Circle { pos_x, pos_y, radius, path } => {
                Code::<2> {}.encode(e, out);
                pos_x.encode(e, out);
                proof {
                    assert(out@ =~= old(out)@ + (Code::<2> {}.spec_bytes(e) + pos_x.spec_bytes(e)));
                }
                pos_y.encode(e, out);
                proof {
                    assert(out@ =~= old(out)@ + (Code::<2> {}.spec_bytes(e) + pos_x.spec_bytes(e) + pos_y.spec_bytes(e)));
                }
                radius.encode(e, out);
                proof {
                    assert(out@ =~= old(out)@ + (Code::<2> {}.spec_bytes(e) + pos_x.spec_bytes(e) + pos_y.spec_bytes(e) + radius.spec_bytes(e)));
                }
                Pad::<4> {}.encode(e, out);
                proof {
                    assert(out@ =~= old(out)@ + (Code::<2> {}.spec_bytes(e) + pos_x.spec_bytes(e) + pos_y.spec_bytes(e) + radius.spec_bytes(e) + Pad::<4> {}.spec_bytes(e)));
                }
                path.encode(e, out);
                proof {
                    assert(final(out)@ =~= old(out)@ + (Code::<2> {}, (*pos_x, (*pos_y, (*radius, (Pad::<4> {}, *path))))).spec_bytes(e));
                }
            },
            _ => {},
        }
    }

    /// Writes the payload of the `Rect` variant.
    #[verifier::spinoff_prover]
    #[verifier::rlimit(100)]
    fn encode_rect(&self, e: Endian, out: &mut Vec<u8>)
        requires
            self is Rect,
            self.wf(),
        ensures
            final(out)@ == old(out)@ + self.spec_bytes(e),
    {
        match self {
            Shape2::Rect { left, right, bottom, top, path } => {
                Code::<3> {}.encode(e, out);
                left.encode(e, out);
                proof {
                    assert(out@ =~= old(out)@ + (Code::<3> {}.spec_bytes(e) + left.spec_bytes(e)));
                }
                right.encode(e, out);
                proof {
                    assert(out@ =~= old(out)@ + (Code::<3> {}.spec_bytes(e) + left.spec_bytes(e) + right.spec_bytes(e)));
                }
                bottom.encode(e, out);
                proof {
                    assert(out@ =~= old(out)@ + (Code::<3> {}.spec_bytes(e) + left.spec_bytes(e) + right.spec_bytes(e) + bottom.spec_bytes(e)));
                }
                top.encode(e, out);
                proof {
                    assert(out@ =~= old(out)@ + (Code::<3> {}.spec_bytes(e) + left.spec_bytes(e) + right.spec_bytes(e) + bottom.spec_bytes(e) + top.spec_bytes(e)));
                }
                path.encode(e, out);
                proof {
                    assert(final(out)@ =~= old(out)@ + (Code::<3> {}, (*left, (*right, (*bottom, (*top, *path))))).spec_bytes(e));
                }
            },
            _ => {},
        }
    }

    /// Writes the payload of the `Path` variant.
    fn encode_path(&self, e: Endian, out: &mut Vec<u8>)
        requires
            self is Path,
            self.wf(),
        ensures
            final(out)@ == old(out)@ + self.spec_bytes(e),
    {
        match self {
            Shape2::Path { path } => {
                Code::<4> {}.encode(e, out);
                Pad::<16> {}.encode(e, out);
                path.encode(e, out);
                proof {
                    assert(final(out)@ =~= old(out)@ + (Code::<4> {}, (Pad::<16> {}, *path)).spec_bytes(e));
                }
            },
            _ => {},
        }
    }

    /// Reads the payload of the `Point` variant.
    fn decode_v1(e: Endian, buf: &[u8], pos: usize) -> (r: Result<(Self, usize), DecodeError>)
        requires
            pos <= buf@.len(),
        ensures
            match r {
                Ok((v, end)) => {
                    &&& v is Point
                    &&& end == pos + v.spec_bytes(e).len()
                    &&& end <= buf@.len()
                    &&& v.wf()
                    &&& v.spec_accepts(e, buf@.subrange(pos as int, end as int))
                },
                Err(_) => true,
            },
            forall|x: Self|
                x is Point && x.wf() && pos + x.spec_bytes(e).len() <= buf@.len()
                    && #[trigger] x.spec_accepts(e, buf@.subrange(pos as int, pos + x.spec_bytes(e).len()))
                    ==> match r {
                    Ok((v, end)) => v.same(&x) && end == pos + x.spec_bytes(e).len(),
                    Err(_) => false,
                },
    {
        match <(Code<1>, (u32, (u32, (Pad<8>, Versioned<LvdPath>))))>::decode(e, buf, pos) {
            Ok(((_, (pos_x, (pos_y, (_, path)))), end)) => Ok((Shape2::Point { pos_x, pos_y, path }, end)),
            Err(err) => Err(err),
        }
    }

    /// Reads the payload of the `Circle` variant.
    fn decode_v2(e: Endian, buf: &[u8], pos: usize) -> (r: Result<(Self, usize), DecodeError>)
        requires
            pos <= buf@.len(),
        ensures
            match r {
                Ok((v, end)) => {
                    &&& v is Circle
                    &&& end == pos + v.spec_bytes(e).len()
                    &&& end <= buf@.len()
                    &&& v.wf()
                    &&& v.spec_accepts(e, buf@.subrange(pos as int, end as int))
                },
                Err(_) => true,
            },
            forall|x: Self|
                x is Circle && x.wf() && pos + x.spec_bytes(e).len() <= buf@.len()
                    && #[trigger] x.spec_accepts(e, buf@.subrange(pos as int, pos + x.spec_bytes(e).len()))
                    ==> match r {
                    Ok((v, end)) => v.same(&x) && end == pos + x.spec_bytes(e).len(),
                    Err(_) => false,
                },
    {
        match <(Code<2>, (u32, (u32, (u32, (Pad<4>, Versioned<LvdPath>)))))>::decode(e, buf, pos) {
            Ok(((_, (pos_x, (pos_y, (radius, (_, path))))), end)) => Ok((Shape2::Circle { pos_x, pos_y, radius, path }, end)),
            Err(err) => Err(err),
        }
    }

    /// Reads the payload of the `Rect` variant.
    fn decode_v3(e: Endian, buf: &[u8], pos: usize) -> (r: Result<(Self, usize), DecodeError>)
        requires
            pos <= buf@.len(),
        ensures
            match r {
                Ok((v, end)) => {
                    &&& v is Rect
                    &&& end == pos + v.spec_bytes(e).len()
                    &&& end <= buf@.len()
                    &&& v.wf()
                    &&& v.spec_accepts(e, buf@.subrange(pos as int, end as int))
                },
                Err(_) => true,
            },
            forall|x: Self|
                x is Rect && x.wf() && pos + x.spec_bytes(e).len() <= buf@.len()
                    && #[trigger] x.spec_accepts(e, buf@.subrange(pos as int, pos + x.spec_bytes(e).len()))
                    ==> match r {
                    Ok((v, end)) => v.same(&x) && end == pos + x.spec_bytes(e).len(),
                    Err(_) => false,
                },
    {
        match <(Code<3>, (u32, (u32, (u32, (u32, Versioned<LvdPath>)))))>::decode(e, buf, pos) {
            Ok(((_, (left, (right, (bottom, (top, path))))), end)) => Ok((Shape2::Rect { left, right, bottom, top, path }, end)),
            Err(err) => Err(err),
        }
    }

    /// Reads the payload of the `Path` variant.
    fn decode_v4(e: Endian, buf: &[u8], pos: usize) -> (r: Result<(Self, usize), DecodeError>)
        requires
            pos <= buf@.len(),
        ensures
            match r {
                Ok((v, end)) => {
                    &&& v is Path
                    &&& end == pos + v.spec_bytes(e).len()
                    &&& end <= buf@.len()
                    &&& v.wf()
                    &&& v.spec_accepts(e, buf@.subrange(pos as int, end as int))
                },
                Err(_) => true,
            },
            forall|x: Self|
                x is Path && x.wf() && pos + x.spec_bytes(e).len() <= buf@.len()
                    && #[trigger] x.spec_accepts(e, buf@.subrange(pos as int, pos + x.spec_bytes(e).len()))
                    ==> match r {
                    Ok((v, end)) => v.same(&x) && end == pos + x.spec_bytes(e).len(),
                    Err(_) => false,
                },
    {
        match <(Code<4>, (Pad<16>, Versioned<LvdPath>))>::decode(e, buf, pos) {
            Ok(((_, (_, path)), end)) => Ok((Shape2::Path { path }, end)),
            Err(err) => Err(err),
        }
    }

}

/// An element of a [`ShapeArray2`].
#[derive(Debug)]
pub enum ShapeArrayElement2 {
    /// The first and only layout.
    V1 {
        /// The shape.
        shape: Versioned<Shape2>,
    },
}

impl Version for ShapeArrayElement2 {
    open spec fn spec_version(&self) -> u8 {
        match self {
            ShapeArrayElement2::V1 { .. } => 1,
        }
    }

    open spec fn spec_supported(version: u8) -> bool {
        version == 1
    }

    open spec fn spec_kind() -> RecordKind {
        RecordKind::ShapeArrayElement2
    }

    closed spec fn wf(&self) -> bool {
        match self {
            ShapeArrayElement2::V1 { shape } => (*shape).wf(),
        }
    }

    closed spec fn spec_bytes(&self, e: Endian) -> Seq<u8> {
        match self {
            ShapeArrayElement2::V1 { shape } => (*shape).spec_bytes(e),
        }
    }

    closed spec fn spec_accepts(&self, e: Endian, s: Seq<u8>) -> bool {
        match self {
            ShapeArrayElement2::V1 { shape } => (*shape).spec_accepts(e, s),
        }
    }

    closed spec fn same(&self, other: &Self) -> bool {
        match (self, other) {
            (ShapeArrayElement2::V1 { shape }, ShapeArrayElement2::V1 { shape: o_shape }) => (*shape).same(&(*o_shape)),
        }
    }

    proof fn lemma_canonical(&self, e: Endian) {
        match self {
            ShapeArrayElement2::V1 { shape } => (*shape).lemma_canonical(e),
        }
    }

    fn version(&self) -> (r: u8) {
        match self {
            ShapeArrayElement2::V1 { .. } => 1,
        }
    }

    fn decode_payload(version: u8, e: Endian, buf: &[u8], pos: usize) -> (r: Result<(Self, usize), DecodeError>) {
        match version {
            1 => {
                match <Versioned<Shape2>>::decode(e, buf, pos) {
                    Ok((shape, end)) => Ok((ShapeArrayElement2::V1 { shape }, end)),
                    Err(err) => Err(err),
                }
            },
            _ => Err(DecodeError::UnsupportedVersion { record: RecordKind::ShapeArrayElement2, version, pos }),
        }
    }

    fn encode_payload(&self, e: Endian, out: &mut Vec<u8>) {
        match self {
            ShapeArrayElement2::V1 { shape } => {
                shape.encode(e, out);
                proof {
                    assert(final(out)@ =~= old(out)@ + (*shape).spec_bytes(e));
                }
            },
        }
    }
}

/// A collection of two-dimensional shapes.
#[derive(Debug)]
pub enum ShapeArray2 {
    /// The first and only layout.
    V1 {
        /// The shapes.
        shapes: Versioned<Array<ShapeArrayElement2>>,
    },
}

impl Version for ShapeArray2 {
    open spec fn spec_version(&self) -> u8 {
        match self {
            ShapeArray2::V1 { .. } => 1,
        }
    }

    open spec fn spec_supported(version: u8) -> bool {
        version == 1
    }

    open spec fn spec_kind() -> RecordKind {
        RecordKind::ShapeArray2
    }

    closed spec fn wf(&self) -> bool {
        match self {
            ShapeArray2::V1 { shapes } => (*shapes).wf(),
        }
    }

    closed spec fn spec_bytes(&self, e: Endian) -> Seq<u8> {
        match self {
            ShapeArray2::V1 { shapes } => (*shapes).spec_bytes(e),
        }
    }

    closed spec fn spec_accepts(&self, e: Endian, s: Seq<u8>) -> bool {
        match self {
            ShapeArray2::V1 { shapes } => (*shapes).spec_accepts(e, s),
        }
    }

    closed spec fn same(&self, other: &Self) -> bool {
        match (self, other) {
            (ShapeArray2::V1 { shapes }, ShapeArray2::V1 { shapes: o_shapes }) => (*shapes).same(&(*o_shapes)),
        }
    }

    proof fn lemma_canonical(&self, e: Endian) {
        match self {
            ShapeArray2::V1 { shapes } => (*shapes).lemma_canonical(e),
        }
    }

    fn version(&self) -> (r: u8) {
        match self {
            ShapeArray2::V1 { .. } => 1,
        }
    }

    fn decode_payload(version: u8, e: Endian, buf: &[u8], pos: usize) -> (r: Result<(Self, usize), DecodeError>) {
        match version {
            1 => {
                match <Versioned<Array<ShapeArrayElement2>>>::decode(e, buf, pos) {
                    Ok((shapes, end)) => Ok((ShapeArray2::V1 { shapes }, end)),
                    Err(err) => Err(err),
                }
            },
            _ => Err(DecodeError::UnsupportedVersion { record: RecordKind::ShapeArray2, version, pos }),
        }
    }

    fn encode_payload(&self, e: Endian, out: &mut Vec<u8>) {
        match self {
            ShapeArray2::V1 { shapes } => {
                shapes.encode(e, out);
                proof {
                    assert(final(out)@ =~= old(out)@ + (*shapes).spec_bytes(e));
                }
            },
        }
    }
}

/// A three-dimensional shape, chosen by a 32-bit code after the version selector.
#[derive(Debug)]
pub enum Shape3 {
    /// A box.
    Box {
        /// Bits of the left face.
        left: u32,
        /// Bits of the right face.
        right: u32,
        /// Bits of the bottom face.
        bottom: u32,
        /// Bits of the top face.
        top: u32,
        /// Bits of the back face.
        back: u32,
        /// Bits of the front face.
        front: u32,
    },
    /// A sphere.
    Sphere {
        /// Bits of the x coordinate of the center.
        pos_x: u32,
        /// Bits of the y coordinate of the center.
        pos_y: u32,
        /// Bits of the z coordinate of the center.
        pos_z: u32,
        /// Bits of the radius.
        radius: u32,
    },
    /// A capsule.
    Capsule {
        /// Bits of the x coordinate of the start.
        pos_x: u32,
        /// Bits of the y coordinate of the start.
        pos_y: u32,
        /// Bits of the z coordinate of the start.
        pos_z: u32,
        /// Bits of the x component of the axis.
        vec_x: u32,
        /// Bits of the y component of the axis.
        vec_y: u32,
        /// Bits of the z component of the axis.
        vec_z: u32,
        /// Bits of the radius.
        radius: u32,
    },
    /// A point.
    Point {
        /// Bits of the x coordinate.
        pos_x: u32,
        /// Bits of the y coordinate.
        pos_y: u32,
        /// Bits of the z coordinate.
        pos_z: u32,
    },
}

impl Version for Shape3 {
    open spec fn spec_version(&self) -> u8 {
        1
    }

    open spec fn spec_supported(version: u8) -> bool {
        version == 1
    }

    open spec fn spec_kind() -> RecordKind {
        RecordKind::Shape3
    }

    closed spec fn wf(&self) -> bool {
        match self {
            Shape3::Box { left, right, bottom, top, back, front } => (Code::<1> {}, (*left, (*right, (*bottom, (*top, (*back, (*front, Pad::<4> {}))))))).wf(),
            Shape3::Sphere { pos_x, pos_y, pos_z, radius } => (Code::<2> {}, (*pos_x, (*pos_y, (*pos_z, (*radius, Pad::<12> {}))))).wf(),
            Shape3::Capsule { pos_x, pos_y, pos_z, vec_x, vec_y, vec_z, radius } => (Code::<3> {}, (*pos_x, (*pos_y, (*pos_z, (*vec_x, (*vec_y, (*vec_z, *radius))))))).wf(),
            Shape3::Point { pos_x, pos_y, pos_z } => (Code::<4> {}, (*pos_x, (*pos_y, (*pos_z, Pad::<16> {})))).wf(),
        }
    }

    closed spec fn spec_bytes(&self, e: Endian) -> Seq<u8> {
        match self {
            Shape3::Box { left, right, bottom, top, back, front } => (Code::<1> {}, (*left, (*right, (*bottom, (*top, (*back, (*front, Pad::<4> {}))))))).spec_bytes(e),
            Shape3::Sphere { pos_x, pos_y, pos_z, radius } => (Code::<2> {}, (*pos_x, (*pos_y, (*pos_z, (*radius, Pad::<12> {}))))).spec_bytes(e),
            Shape3::Capsule { pos_x, pos_y, pos_z, vec_x, vec_y, vec_z, radius } => (Code::<3> {}, (*pos_x, (*pos_y, (*pos_z, (*vec_x, (*vec_y, (*vec_z, *radius))))))).spec_bytes(e),
            Shape3::Point { pos_x, pos_y, pos_z } => (Code::<4> {}, (*pos_x, (*pos_y, (*pos_z, Pad::<16> {})))).spec_bytes(e),
        }
    }

    closed spec fn spec_accepts(&self, e: Endian, s: Seq<u8>) -> bool {
        match self {
            Shape3::Box { left, right, bottom, top, back, front } => (Code::<1> {}, (*left, (*right, (*bottom, (*top, (*back, (*front, Pad::<4> {}))))))).spec_accepts(e, s),
            Shape3::Sphere { pos_x, pos_y, pos_z, radius } => (Code::<2> {}, (*pos_x, (*pos_y, (*pos_z, (*radius, Pad::<12> {}))))).spec_accepts(e, s),
            Shape3::Capsule { pos_x, pos_y, pos_z, vec_x, vec_y, vec_z, radius } => (Code::<3> {}, (*pos_x, (*pos_y, (*pos_z, (*vec_x, (*vec_y, (*vec_z, *radius))))))).spec_accepts(e, s),
            Shape3::Point { pos_x, pos_y, pos_z } => (Code::<4> {}, (*pos_x, (*pos_y, (*pos_z, Pad::<16> {})))).spec_accepts(e, s),
        }
    }

    closed spec fn same(&self, other: &Self) -> bool {
        match (self, other) {
            (Shape3::Box { left, right, bottom, top, back, front }, Shape3::Box { left: o_left, right: o_right, bottom: o_bottom, top: o_top, back: o_back, front: o_front }) => (Code::<1> {}, (*left, (*right, (*bottom, (*top, (*back, (*front, Pad::<4> {}))))))).same(&(Code::<1> {}, (*o_left, (*o_right, (*o_bottom, (*o_top, (*o_back, (*o_front, Pad::<4> {})))))))),
            (Shape3::Sphere { pos_x, pos_y, pos_z, radius }, Shape3::Sphere { pos_x: o_pos_x, pos_y: o_pos_y, pos_z: o_pos_z, radius: o_radius }) => (Code::<2> {}, (*pos_x, (*pos_y, (*pos_z, (*radius, Pad::<12> {}))))).same(&(Code::<2> {}, (*o_pos_x, (*o_pos_y, (*o_pos_z, (*o_radius, Pad::<12> {})))))),
            (Shape3::Capsule { pos_x, pos_y, pos_z, vec_x, vec_y, vec_z, radius }, Shape3::Capsule { pos_x: o_pos_x, pos_y: o_pos_y, pos_z: o_pos_z, vec_x: o_vec_x, vec_y: o_vec_y, vec_z: o_vec_z, radius: o_radius }) => (Code::<3> {}, (*pos_x, (*pos_y, (*pos_z, (*vec_x, (*vec_y, (*vec_z, *radius))))))).same(&(Code::<3> {}, (*o_pos_x, (*o_pos_y, (*o_pos_z, (*o_vec_x, (*o_vec_y, (*o_vec_z, *o_radius)))))))),
            (Shape3::Point { pos_x, pos_y, pos_z }, Shape3::Point { pos_x: o_pos_x, pos_y: o_pos_y, pos_z: o_pos_z }) => (Code::<4> {}, (*pos_x, (*pos_y, (*pos_z, Pad::<16> {})))).same(&(Code::<4> {}, (*o_pos_x, (*o_pos_y, (*o_pos_z, Pad::<16> {}))))),
            _ => false,
        }
    }

    proof fn lemma_canonical(&self, e: Endian) {
        match self {
            Shape3::Box { left, right, bottom, top, back, front } => (Code::<1> {}, (*left, (*right, (*bottom, (*top, (*back, (*front, Pad::<4> {}))))))).lemma_canonical(e),
            Shape3::Sphere { pos_x, pos_y, pos_z, radius } => (Code::<2> {}, (*pos_x, (*pos_y, (*pos_z, (*radius, Pad::<12> {}))))).lemma_canonical(e),
            Shape3::Capsule { pos_x, pos_y, pos_z, vec_x, vec_y, vec_z, radius } => (Code::<3> {}, (*pos_x, (*pos_y, (*pos_z, (*vec_x, (*vec_y, (*vec_z, *radius))))))).lemma_canonical(e),
            Shape3::Point { pos_x, pos_y, pos_z } => (Code::<4> {}, (*pos_x, (*pos_y, (*pos_z, Pad::<16> {})))).lemma_canonical(e),
        }
    }

    fn version(&self) -> (r: u8) {
        1
    }

    fn decode_payload(version: u8, e: Endian, buf: &[u8], pos: usize) -> (r: Result<(Self, usize), DecodeError>) {
        if version != 1 {
            return Err(DecodeError::UnsupportedVersion { record: RecordKind::Shape3, version, pos });
        }
        let (code, _) = match read_u32(e, buf, pos) {
            Ok(t) => t,
            Err(err) => return Err(err),
        };
        proof {
            assert forall|x: Self|
                x.spec_version() == version && x.wf() && pos + x.spec_bytes(e).len() <= buf@.len()
                    && #[trigger] x.spec_accepts(e, buf@.subrange(pos as int, pos + x.spec_bytes(e).len()))
                    implies code == x.spec_code() by {
                lemma_window_split(buf@, pos as int, 4, x.spec_bytes(e).len() - 4);
                lemma_u32_at(e, buf@, pos as int, x.spec_code());
            }
        }
        match code {
            1 => Self::decode_v1(e, buf, pos),
            2 => Self::decode_v2(e, buf, pos),
            3 => Self::decode_v3(e, buf, pos),
            4 => Self::decode_v4(e, buf, pos),
            _ => Err(DecodeError::InvalidValue { pos }),
        }
    }

    fn encode_payload(&self, e: Endian, out: &mut Vec<u8>) {
        match self {
            Shape3::Box { .. } => self.encode_box(e, out),
            Shape3::Sphere { .. } => self.encode_sphere(e, out),
            Shape3::Capsule { .. } => self.encode_capsule(e, out),
            Shape3::Point { .. } => self.encode_point(e, out),
        }
    }
}

impl Shape3 {
    /// The code that selects the held variant.
    pub open spec fn spec_code(&self) -> u32 {
        match self {
            Shape3::Box { .. } => 1,
            Shape3::Sphere { .. } => 2,
            Shape3::Capsule { .. } => 3,
            Shape3::Point { .. } => 4,
        }
    }

    /// Writes the payload of the `Box` variant.
    #[verifier::spinoff_prover]
    #[verifier::rlimit(100)]
    fn encode_box(&self, e: Endian, out: &mut Vec<u8>)
        requires
            self is Box,
            self.wf(),
        ensures
            final(out)@ == old(out)@ + self.spec_bytes(e),
    {
        match self {
            Shape3::Box { left, right, bottom, top, back, front } => {
                Code::<1> {}.encode(e, out);
                left.encode(e, out);
                proof {
                    assert(out@ =~= old(out)@ + (Code::<1> {}.spec_bytes(e) + left.spec_bytes(e)));
                }
                right.encode(e, out);
                proof {
                    assert(out@ =~= old(out)@ + (Code::<1> {}.spec_bytes(e) + left.spec_bytes(e) + right.spec_bytes(e)));
                }
                bottom.encode(e, out);
                proof {
                    assert(out@ =~= old(out)@ + (Code::<1> {}.spec_bytes(e) + left.spec_bytes(e) + right.spec_bytes(e) + bottom.spec_bytes(e)));
                }
                top.encode(e, out);
                proof {
                    assert(out@ =~= old(out)@ + (Code::<1> {}.spec_bytes(e) + left.spec_bytes(e) + right.spec_bytes(e) + bottom.spec_bytes(e) + top.spec_bytes(e)));
                }
                back.encode(e, out);
                proof {
                    assert(out@ =~= old(out)@ + (Code::<1> {}.spec_bytes(e) + left.spec_bytes(e) + right.spec_bytes(e) + bottom.spec_bytes(e) + top.spec_bytes(e) + back.spec_bytes(e)));
                }
                front.encode(e, out);
                proof {
                    assert(out@ =~= old(out)@ + (Code::<1> {}.spec_bytes(e) + left.spec_bytes(e) + right.spec_bytes(e) + bottom.spec_bytes(e) + top.spec_bytes(e) + back.spec_bytes(e) + front.spec_bytes(e)));
                }
                Pad::<4> {}.encode(e, out);
                proof {
                    assert(final(out)@ =~= old(out)@ + (Code::<1> {}, (*left, (*right, (*bottom, (*top, (*back, (*front, Pad::<4> {}))))))).spec_bytes(e));
                }
            },
            _ => {},
        }
    }

    /// Writes the payload of the `Sphere` variant.
    #[verifier::spinoff_prover]
    #[verifier::rlimit(100)]
    fn encode_sphere(&self, e: Endian, out: &mut Vec<u8>)
        requires
            self is Sphere,
            self.wf(),
        ensures
            final(out)@ == old(out)@ + self.spec_bytes(e),
    {
        match self {
            Shape3::Sphere { pos_x, pos_y, pos_z, radius } => {
                Code::<2> {}.encode(e, out);
                pos_x.encode(e, out);
                proof {
                    assert(out@ =~= old(out)@ + (Code::<2> {}.spec_bytes(e) + pos_x.spec_bytes(e)));
                }
                pos_y.encode(e, out);
                proof {
                    assert(out@ =~= old(out)@ + (Code::<2> {}.spec_bytes(e) + pos_x.spec_bytes(e) + pos_y.spec_bytes(e)));
                }
                pos_z.encode(e, out);
                proof {
                    assert(out@ =~= old(out)@ + (Code::<2> {}.spec_bytes(e) + pos_x.spec_bytes(e) + pos_y.spec_bytes(e) + pos_z.spec_bytes(e)));
                }
                radius.encode(e, out);
                proof {
                    assert(out@ =~= old(out)@ + (Code::<2> {}.spec_bytes(e) + pos_x.spec_bytes(e) + pos_y.spec_bytes(e) + pos_z.spec_bytes(e) + radius.spec_bytes(e)));
                }
                Pad::<12> {}.encode(e, out);
                proof {
                    assert(final(out)@ =~= old(out)@ + (Code::<2> {}, (*pos_x, (*pos_y, (*pos_z, (*radius, Pad::<12> {}))))).spec_bytes(e));
                }
            },
            _ => {},
        }
    }

    /// Writes the payload of the `Capsule` variant.
    #[verifier::spinoff_prover]
    #[verifier::rlimit(100)]
    fn encode_capsule(&self, e: Endian, out: &mut Vec<u8>)
        requires
            self is Capsule,
            self.wf(),
        ensures
            final(out)@ == old(out)@ + self.spec_bytes(e),
    {
        match self {
            Shape3::Capsule { pos_x, pos_y, pos_z, vec_x, vec_y, vec_z, radius } => {
                Code::<3> {}.encode(e, out);
                pos_x.encode(e, out);
                proof {
                    assert(out@ =~= old(out)@ + (Code::<3> {}.spec_bytes(e) + pos_x.spec_bytes(e)));
                }
                pos_y.encode(e, out);
                proof {
                    assert(out@ =~= old(out)@ + (Code::<3> {}.spec_bytes(e) + pos_x.spec_bytes(e) + pos_y.spec_bytes(e)));
                }
                pos_z.encode(e, out);
                proof {
                    assert(out@ =~= old(out)@ + (Code::<3> {}.spec_bytes(e) + pos_x.spec_bytes(e) + pos_y.spec_bytes(e) + pos_z.spec_bytes(e)));
                }
                vec_x.encode(e, out);
                proof {
                    assert(out@ =~= old(out)@ + (Code::<3> {}.spec_bytes(e) + pos_x.spec_bytes(e) + pos_y.spec_bytes(e) + pos_z.spec_bytes(e) + vec_x.spec_bytes(e)));
                }
                vec_y.encode(e, out);
                proof {
                    assert(out@ =~= old(out)@ + (Code::<3> {}.spec_bytes(e) + pos_x.spec_bytes(e) + pos_y.spec_bytes(e) + pos_z.spec_bytes(e) + vec_x.spec_bytes(e) + vec_y.spec_bytes(e)));
                }
                vec_z.encode(e, out);
                proof {
                    assert(out@ =~= old(out)@ + (Code::<3> {}.spec_bytes(e) + pos_x.spec_bytes(e) + pos_y.spec_bytes(e) + pos_z.spec_bytes(e) + vec_x.spec_bytes(e) + vec_y.spec_bytes(e) + vec_z.spec_bytes(e)));
                }
                radius.encode(e, out);
                proof {
                    assert(final(out)@ =~= old(out)@ + (Code::<3> {}, (*pos_x, (*pos_y, (*pos_z, (*vec_x, (*vec_y, (*vec_z, *radius))))))).spec_bytes(e));
                }
            },
            _ => {},
        }
    }

    /// Writes the payload of the `Point` variant.
    fn encode_point(&self, e: Endian, out: &mut Vec<u8>)
        requires
            self is Point,
            self.wf(),
        ensures
            final(out)@ == old(out)@ + self.spec_bytes(e),
    {
        match self {
            Shape3::Point { pos_x, pos_y, pos_z } => {
                Code::<4> {}.encode(e, out);
                pos_x.encode(e, out);
                proof {
                    assert(out@ =~= old(out)@ + (Code::<4> {}.spec_bytes(e) + pos_x.spec_bytes(e)));
                }
                pos_y.encode(e, out);
                proof {
                    assert(out@ =~= old(out)@ + (Code::<4> {}.spec_bytes(e) + pos_x.spec_bytes(e) + pos_y.spec_bytes(e)));
                }
                pos_z.encode(e, out);
                proof {
                    assert(out@ =~= old(out)@ + (Code::<4> {}.spec_bytes(e) + pos_x.spec_bytes(e) + pos_y.spec_bytes(e) + pos_z.spec_bytes(e)));
                }
                Pad::<16> {}.encode(e, out);
                proof {
                    assert(final(out)@ =~= old(out)@ + (Code::<4> {}, (*pos_x, (*pos_y, (*pos_z, Pad::<16> {})))).spec_bytes(e));
                }
            },
            _ => {},
        }
    }

    /// Reads the payload of the `Box` variant.
    fn decode_v1(e: Endian, buf: &[u8], pos: usize) -> (r: Result<(Self, usize), DecodeError>)
        requires
            pos <= buf@.len(),
        ensures
            match r {
                Ok((v, end)) => {
                    &&& v is Box
                    &&& end == pos + v.spec_bytes(e).len()
                    &&& end <= buf@.len()
                    &&& v.wf()
                    &&& v.spec_accepts(e, buf@.subrange(pos as int, end as int))
                },
                Err(_) => true,
            },
            forall|x: Self|
                x is Box && x.wf() && pos + x.spec_bytes(e).len() <= buf@.len()
                    && #[trigger] x.spec_accepts(e, buf@.subrange(pos as int, pos + x.spec_bytes(e).len()))
                    ==> match r {
                    Ok((v, end)) => v.same(&x) && end == pos + x.spec_bytes(e).len(),
                    Err(_) => false,
                },
    {
        match <(Code<1>, (u32, (u32, (u32, (u32, (u32, (u32, Pad<4>)))))))>::decode(e, buf, pos) {
            Ok(((_, (left, (right, (bottom, (top, (back, (front, _))))))), end)) => Ok((Shape3::Box { left, right, bottom, top, back, front }, end)),
            Err(err) => Err(err),
        }
    }

    /// Reads the payload of the `Sphere` variant.
    fn decode_v2(e: Endian, buf: &[u8], pos: usize) -> (r: Result<(Self, usize), DecodeError>)
        requires
            pos <= buf@.len(),
        ensures
            match r {
                Ok((v, end)) => {
                    &&& v is Sphere
                    &&& end == pos + v.spec_bytes(e).len()
                    &&& end <= buf@.len()
                    &&& v.wf()
                    &&& v.spec_accepts(e, buf@.subrange(pos as int, end as int))
                },
                Err(_) => true,
            },
            forall|x: Self|
                x is Sphere && x.wf() && pos + x.spec_bytes(e).len() <= buf@.len()
                    && #[trigger] x.spec_accepts(e, buf@.subrange(pos as int, pos + x.spec_bytes(e).len()))
                    ==> match r {
                    Ok((v, end)) => v.same(&x) && end == pos + x.spec_bytes(e).len(),
                    Err(_) => false,
                },
    {
        match <(Code<2>, (u32, (u32, (u32, (u32, Pad<12>)))))>::decode(e, buf, pos) {
            Ok(((_, (pos_x, (pos_y, (pos_z, (radius, _))))), end)) => Ok((Shape3::Sphere { pos_x, pos_y, pos_z, radius }, end)),
            Err(err) => Err(err),
        }
    }

    /// Reads the payload of the `Capsule` variant.
    fn decode_v3(e: Endian, buf: &[u8], pos: usize) -> (r: Result<(Self, usize), DecodeError>)
        requires
            pos <= buf@.len(),
        ensures
            match r {
                Ok((v, end)) => {
                    &&& v is Capsule
                    &&& end == pos + v.spec_bytes(e).len()
                    &&& end <= buf@.len()
                    &&& v.wf()
                    &&& v.spec_accepts(e, buf@.subrange(pos as int, end as int))
                },
                Err(_) => true,
            },
            forall|x: Self|
                x is Capsule && x.wf() && pos + x.spec_bytes(e).len() <= buf@.len()
                    && #[trigger] x.spec_accepts(e, buf@.subrange(pos as int, pos + x.spec_bytes(e).len()))
                    ==> match r {
                    Ok((v, end)) => v.same(&x) && end == pos + x.spec_bytes(e).len(),
                    Err(_) => false,
                },
    {
        match <(Code<3>, (u32, (u32, (u32, (u32, (u32, (u32, u32)))))))>::decode(e, buf, pos) {
            Ok(((_, (pos_x, (pos_y, (pos_z, (vec_x, (vec_y, (vec_z, radius))))))), end)) => Ok((Shape3::Capsule { pos_x, pos_y, pos_z, vec_x, vec_y, vec_z, radius }, end)),
            Err(err) => Err(err),
        }
    }

    /// Reads the payload of the `Point` variant.
    fn decode_v4(e: Endian, buf: &[u8], pos: usize) -> (r: Result<(Self, usize), DecodeError>)
        requires
            pos <= buf@.len(),
        ensures
            match r {
                Ok((v, end)) => {
                    &&& v is Point
                    &&& end == pos + v.spec_bytes(e).len()
                    &&& end <= buf@.len()
                    &&& v.wf()
                    &&& v.spec_accepts(e, buf@.subrange(pos as int, end as int))
                },
                Err(_) => true,
            },
            forall|x: Self|
                x is Point && x.wf() && pos + x.spec_bytes(e).len() <= buf@.len()
                    && #[trigger] x.spec_accepts(e, buf@.subrange(pos as int, pos + x.spec_bytes(e).len()))
                    ==> match r {
                    Ok((v, end)) => v.same(&x) && end == pos + x.spec_bytes(e).len(),
                    Err(_) => false,
                },
    {
        match <(Code<4>, (u32, (u32, (u32, Pad<16>))))>::decode(e, buf, pos) {
            Ok(((_, (pos_x, (pos_y, (pos_z, _)))), end)) => Ok((Shape3::Point { pos_x, pos_y, pos_z }, end)),
            Err(err) => Err(err),
        }
    }

}

} // verus!
