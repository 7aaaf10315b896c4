//! Collisions: polygonal geometry with per-edge data.
use vstd::prelude::*;
use crate::array::Array;
use crate::objects::base::{Base, MetaInfo};
use crate::objects::flags::{AttributeFlags, CollisionFlags};
use crate::objects::material::MaterialType;
use crate::string::FixedString64;
use crate::vector::Vector2;
use crate::version::{Version, Versioned};
use crate::wire::{DecodeError, Endian, RecordKind, Wire};

verus! {

/// An object representing a two-dimensional polygonal collision.
#[derive(Debug)]
pub enum Collision {
    /// The first layout.
    V1 {
        /// The metadata of the object.
        meta_info: Versioned<MetaInfo>,
        /// The global attributes of the collision.
        flags: CollisionFlags,
        /// The vertices of the collision's geometry.
        vertices: Versioned<Array<Vector2>>,
        /// The unit normal of each edge, pointing to its tangible side.
        normals: Versioned<Array<Vector2>>,
        /// The grabbable edges.
        cliffs: Versioned<Array<CollisionCliff>>,
    },
    /// Replaces the metadata with the common data.
    V2 {
        /// The common data of the object.
        base: Versioned<Base>,
        /// The global attributes of the collision.
        flags: CollisionFlags,
        /// The vertices of the collision's geometry.
        vertices: Versioned<Array<Vector2>>,
        /// The unit normal of each edge, pointing to its tangible side.
        normals: Versioned<Array<Vector2>>,
        /// The grabbable edges.
        cliffs: Versioned<Array<CollisionCliff>>,
    },
    /// Adds the edge attributes.
    V3 {
        /// The common data of the object.
        base: Versioned<Base>,
        /// The global attributes of the collision.
        flags: CollisionFlags,
        /// The vertices of the collision's geometry.
        vertices: Versioned<Array<Vector2>>,
        /// The unit normal of each edge, pointing to its tangible side.
        normals: Versioned<Array<Vector2>>,
        /// The grabbable edges.
        cliffs: Versioned<Array<CollisionCliff>>,
        /// The material and attributes of each edge.
        attributes: Versioned<Array<CollisionAttribute>>,
    },
    /// Adds the spirit battle floors.
    V4 {
        /// The common data of the object.
        base: Versioned<Base>,
        /// The global attributes of the collision.
        flags: CollisionFlags,
        /// The vertices of the collision's geometry.
        vertices: Versioned<Array<Vector2>>,
        /// The unit normal of each edge, pointing to its tangible side.
        normals: Versioned<Array<Vector2>>,
        /// The grabbable edges.
        cliffs: Versioned<Array<CollisionCliff>>,
        /// The material and attributes of each edge.
        attributes: Versioned<Array<CollisionAttribute>>,
        /// The hazardous floors of spirit battles.
        spirits_floors: Versioned<Array<CollisionSpiritsFloor>>,
    },
}

impl Version for Collision {
    open spec fn spec_version(&self) -> u8 {
        match self {
            Collision::V1 { .. } => 1,
            Collision::V2 { .. } => 2,
            Collision::V3 { .. } => 3,
            Collision::V4 { .. } => 4,
        }
    }

    open spec fn spec_supported(version: u8) -> bool {
        version == 1 || version == 2 || version == 3 || version == 4
    }

    open spec fn spec_kind() -> RecordKind {
        RecordKind::Collision
    }

    closed spec fn wf(&self) -> bool {
        match self {
            Collision::V1 { meta_info, flags, vertices, normals, cliffs } => (*meta_info, (*flags, (*vertices, (*normals, *cliffs)))).wf(),
            Collision::V2 { base, flags, vertices, normals, cliffs } => (*base, (*flags, (*vertices, (*normals, *cliffs)))).wf(),
            Collision::V3 { base, flags, vertices, normals, cliffs, attributes } => (*base, (*flags, (*vertices, (*normals, (*cliffs, *attributes))))).wf(),
            Collision::V4 { base, flags, vertices, normals, cliffs, attributes, spirits_floors } => (*base, (*flags, (*vertices, (*normals, (*cliffs, (*attributes, *spirits_floors)))))).wf(),
        }
    }

    closed spec fn spec_bytes(&self, e: Endian) -> Seq<u8> {
        match self {
            Collision::V1 { meta_info, flags, vertices, normals, cliffs } => (*meta_info, (*flags, (*vertices, (*normals, *cliffs)))).spec_bytes(e),
            Collision::V2 { base, flags, vertices, normals, cliffs } => (*base, (*flags, (*vertices, (*normals, *cliffs)))).spec_bytes(e),
            Collision::V3 { base, flags, vertices, normals, cliffs, attributes } => (*base, (*flags, (*vertices, (*normals, (*cliffs, *attributes))))).spec_bytes(e),
            Collision::V4 { base, flags, vertices, normals, cliffs, attributes, spirits_floors } => (*base, (*flags, (*vertices, (*normals, (*cliffs, (*attributes, *spirits_floors)))))).spec_bytes(e),
        }
    }

    closed spec fn spec_accepts(&self, e: Endian, s: Seq<u8>) -> bool {
        match self {
            Collision::V1 { meta_info, flags, vertices, normals, cliffs } => (*meta_info, (*flags, (*vertices, (*normals, *cliffs)))).spec_accepts(e, s),
            Collision::V2 { base, flags, vertices, normals, cliffs } => (*base, (*flags, (*vertices, (*normals, *cliffs)))).spec_accepts(e, s),
            Collision::V3 { base, flags, vertices, normals, cliffs, attributes } => (*base, (*flags, (*vertices, (*normals, (*cliffs, *attributes))))).spec_accepts(e, s),
            Collision::V4 { base, flags, vertices, normals, cliffs, attributes, spirits_floors } => (*base, (*flags, (*vertices, (*normals, (*cliffs, (*attributes, *spirits_floors)))))).spec_accepts(e, s),
        }
    }

    closed spec fn same(&self, other: &Self) -> bool {
        match (self, other) {
            (Collision::V1 { meta_info, flags, vertices, normals, cliffs }, Collision::V1 { meta_info: o_meta_info, flags: o_flags, vertices: o_vertices, normals: o_normals, cliffs: o_cliffs }) => (*meta_info, (*flags, (*vertices, (*normals, *cliffs)))).same(&(*o_meta_info, (*o_flags, (*o_vertices, (*o_normals, *o_cliffs))))),
            (Collision::V2 { base, flags, vertices, normals, cliffs }, Collision::V2 { base: o_base, flags: o_flags, vertices: o_vertices, normals: o_normals, cliffs: o_cliffs }) => (*base, (*flags, (*vertices, (*normals, *cliffs)))).same(&(*o_base, (*o_flags, (*o_vertices, (*o_normals, *o_cliffs))))),
            (Collision::V3 { base, flags, vertices, normals, cliffs, attributes }, Collision::V3 { base: o_base, flags: o_flags, vertices: o_vertices, normals: o_normals, cliffs: o_cliffs, attributes: o_attributes }) => (*base, (*flags, (*vertices, (*normals, (*cliffs, *attributes))))).same(&(*o_base, (*o_flags, (*o_vertices, (*o_normals, (*o_cliffs, *o_attributes)))))),
            (Collision::V4 { base, flags, vertices, normals, cliffs, attributes, spirits_floors }, Collision::V4 { base: o_base, flags: o_flags, vertices: o_vertices, normals: o_normals, cliffs: o_cliffs, attributes: o_attributes, spirits_floors: o_spirits_floors }) => (*base, (*flags, (*vertices, (*normals, (*cliffs, (*attributes, *spirits_floors)))))).same(&(*o_base, (*o_flags, (*o_vertices, (*o_normals, (*o_cliffs, (*o_attributes, *o_spirits_floors))))))),
            _ => false,
        }
    }

    proof fn lemma_canonical(&self, e: Endian) {
        match self {
            Collision::V1 { meta_info, flags, vertices, normals, cliffs } => (*meta_info, (*flags, (*vertices, (*normals, *cliffs)))).lemma_canonical(e),
            Collision::V2 { base, flags, vertices, normals, cliffs } => (*base, (*flags, (*vertices, (*normals, *cliffs)))).lemma_canonical(e),
            Collision::V3 { base, flags, vertices, normals, cliffs, attributes } => (*base, (*flags, (*vertices, (*normals, (*cliffs, *attributes))))).lemma_canonical(e),
            Collision::V4 { base, flags, vertices, normals, cliffs, attributes, spirits_floors } => (*base, (*flags, (*vertices, (*normals, (*cliffs, (*attributes, *spirits_floors)))))).lemma_canonical(e),
        }
    }

    fn version(&self) -> (r: u8) {
        match self {
            Collision::V1 { .. } => 1,
            Collision::V2 { .. } => 2,
            Collision::V3 { .. } => 3,
            Collision::V4 { .. } => 4,
        }
    }

    fn decode_payload(version: u8, e: Endian, buf: &[u8], pos: usize) -> (r: Result<(Self, usize), DecodeError>) {
        match version {
            1 => Self::decode_v1(e, buf, pos),
            2 => Self::decode_v2(e, buf, pos),
            3 => Self::decode_v3(e, buf, pos),
            4 => Self::decode_v4(e, buf, pos),
            _ => Err(DecodeError::UnsupportedVersion { record: RecordKind::Collision, version, pos }),
        }
    }

    fn encode_payload(&self, e: Endian, out: &mut Vec<u8>) {
        match self {
            Collision::V1 { .. } => self.encode_v1(e, out),
            Collision::V2 { .. } => self.encode_v2(e, out),
            Collision::V3 { .. } => self.encode_v3(e, out),
            Collision::V4 { .. } => self.encode_v4(e, out),
        }
    }
}

impl Collision {
    /// Writes the payload of the `V1` variant.
    fn encode_v1(&self, e: Endian, out: &mut Vec<u8>)
        requires
            self is V1,
            self.wf(),
        ensures
            final(out)@ == old(out)@ + self.spec_bytes(e),
    {
        match self {
            Collision::V1 { meta_info, flags, vertices, normals, cliffs } => {
                meta_info.encode(e, out);
                flags.encode(e, out);
                proof {
                    assert(out@ =~= old(out)@ + (meta_info.spec_bytes(e) + flags.spec_bytes(e)));
                }
                vertices.encode(e, out);
                proof {
                    assert(out@ =~= old(out)@ + (meta_info.spec_bytes(e) + flags.spec_bytes(e) + vertices.spec_bytes(e)));
                }
                normals.encode(e, out);
                proof {
                    assert(out@ =~= old(out)@ + (meta_info.spec_bytes(e) + flags.spec_bytes(e) + vertices.spec_bytes(e) + normals.spec_bytes(e)));
                }
                cliffs.encode(e, out);
                proof {
                    assert(final(out)@ =~= old(out)@ + (*meta_info, (*flags, (*vertices, (*normals, *cliffs)))).spec_bytes(e));
                }
            },
            _ => {},
        }
    }

    /// Writes the payload of the `V2` variant.
    fn encode_v2(&self, e: Endian, out: &mut Vec<u8>)
        requires
            self is V2,
            self.wf(),
        ensures
            final(out)@ == old(out)@ + self.spec_bytes(e),
    {
        match self {
            Collision::V2 { base, flags, vertices, normals, cliffs } => {
                base.encode(e, out);
                flags.encode(e, out);
                proof {
                    assert(out@ =~= old(out)@ + (base.spec_bytes(e) + flags.spec_bytes(e)));
                }
                vertices.encode(e, out);
                proof {
                    assert(out@ =~= old(out)@ + (base.spec_bytes(e) + flags.spec_bytes(e) + vertices.spec_bytes(e)));
                }
                normals.encode(e, out);
                proof {
                    assert(out@ =~= old(out)@ + (base.spec_bytes(e) + flags.spec_bytes(e) + vertices.spec_bytes(e) + normals.spec_bytes(e)));
                }
                cliffs.encode(e, out);
                proof {
                    assert(final(out)@ =~= old(out)@ + (*base, (*flags, (*vertices, (*normals, *cliffs)))).spec_bytes(e));
                }
            },
            _ => {},
        }
    }

    /// Writes the payload of the `V3` variant.
    #[verifier::spinoff_prover]
    #[verifier::rlimit(100)]
    fn encode_v3(&self, e: Endian, out: &mut Vec<u8>)
        requires
            self is V3,
            self.wf(),
        ensures
            final(out)@ == old(out)@ + self.spec_bytes(e),
    {
        match self {
            Collision::V3 { base, flags, vertices, normals, cliffs, attributes } => {
                base.encode(e, out);
                flags.encode(e, out);
                proof {
                    assert(out@ =~= old(out)@ + (base.spec_bytes(e) + flags.spec_bytes(e)));
                }
                vertices.encode(e, out);
                proof {
                    assert(out@ =~= old(out)@ + (base.spec_bytes(e) + flags.spec_bytes(e) + vertices.spec_bytes(e)));
                }
                normals.encode(e, out);
                proof {
                    assert(out@ =~= old(out)@ + (base.spec_bytes(e) + flags.spec_bytes(e) + vertices.spec_bytes(e) + normals.spec_bytes(e)));
                }
                cliffs.encode(e, out);
                proof {
                    assert(out@ =~= old(out)@ + (base.spec_bytes(e) + flags.spec_bytes(e) + vertices.spec_bytes(e) + normals.spec_bytes(e) + cliffs.spec_bytes(e)));
                }
                attributes.encode(e, out);
                proof {
                    assert(final(out)@ =~= old(out)@ + (*base, (*flags, (*vertices, (*normals, (*cliffs, *attributes))))).spec_bytes(e));
                }
            },
            _ => {},
        }
    }

    /// Writes the payload of the `V4` variant.
    #[verifier::spinoff_prover]
    #[verifier::rlimit(100)]
    fn encode_v4(&self, e: Endian, out: &mut Vec<u8>)
        requires
            self is V4,
            self.wf(),
        ensures
            final(out)@ == old(out)@ + self.spec_bytes(e),
    {
        match self {
            Collision::V4 { base, flags, vertices, normals, cliffs, attributes, spirits_floors } => {
                base.encode(e, out);
                flags.encode(e, out);
                proof {
                    assert(out@ =~= old(out)@ + (base.spec_bytes(e) + flags.spec_bytes(e)));
                }
                vertices.encode(e, out);
                proof {
                    assert(out@ =~= old(out)@ + (base.spec_bytes(e) + flags.spec_bytes(e) + vertices.spec_bytes(e)));
                }
                normals.encode(e, out);
                proof {
                    assert(out@ =~= old(out)@ + (base.spec_bytes(e) + flags.spec_bytes(e) + vertices.spec_bytes(e) + normals.spec_bytes(e)));
                }
                cliffs.encode(e, out);
                proof {
                    assert(out@ =~= old(out)@ + (base.spec_bytes(e) + flags.spec_bytes(e) + vertices.spec_bytes(e) + normals.spec_bytes(e) + cliffs.spec_bytes(e)));
                }
                attributes.encode(e, out);
                proof {
                    assert(out@ =~= old(out)@ + (base.spec_bytes(e) + flags.spec_bytes(e) + vertices.spec_bytes(e) + normals.spec_bytes(e) + cliffs.spec_bytes(e) + attributes.spec_bytes(e)));
                }
                spirits_floors.encode(e, out);
                proof {
                    assert(final(out)@ =~= old(out)@ + (*base, (*flags, (*vertices, (*normals, (*cliffs, (*attributes, *spirits_floors)))))).spec_bytes(e));
                }
            },
            _ => {},
        }
    }

    /// Reads the payload of layout 1.
    fn decode_v1(e: Endian, buf: &[u8], pos: usize) -> (r: Result<(Self, usize), DecodeError>)
        requires
            pos <= buf@.len(),
        ensures
            match r {
                Ok((v, end)) => {
                    &&& v.spec_version() == 1
                    &&& end == pos + v.spec_bytes(e).len()
                    &&& end <= buf@.len()
                    &&& v.wf()
                    &&& v.spec_accepts(e, buf@.subrange(pos as int, end as int))
                },
                Err(_) => true,
            },
            forall|x: Self|
                x.spec_version() == 1 && x.wf() && pos + x.spec_bytes(e).len() <= buf@.len()
                    && #[trigger] x.spec_accepts(e, buf@.subrange(pos as int, pos + x.spec_bytes(e).len()))
                    ==> match r {
                    Ok((v, end)) => v.same(&x) && end == pos + x.spec_bytes(e).len(),
                    Err(_) => false,
                },
    {
        match <(Versioned<MetaInfo>, (CollisionFlags, (Versioned<Array<Vector2>>, (Versioned<Array<Vector2>>, Versioned<Array<CollisionCliff>>))))>::decode(e, buf, pos) {
            Ok(((meta_info, (flags, (vertices, (normals, cliffs)))), end)) => Ok((Collision::V1 { meta_info, flags, vertices, normals, cliffs }, end)),
            Err(err) => Err(err),
        }
    }

    /// Reads the payload of layout 2.
    fn decode_v2(e: Endian, buf: &[u8], pos: usize) -> (r: Result<(Self, usize), DecodeError>)
        requires
            pos <= buf@.len(),
        ensures
            match r {
                Ok((v, end)) => {
                    &&& v.spec_version() == 2
                    &&& end == pos + v.spec_bytes(e).len()
                    &&& end <= buf@.len()
                    &&& v.wf()
                    &&& v.spec_accepts(e, buf@.subrange(pos as int, end as int))
                },
                Err(_) => true,
            },
            forall|x: Self|
                x.spec_version() == 2 && x.wf() && pos + x.spec_bytes(e).len() <= buf@.len()
                    && #[trigger] x.spec_accepts(e, buf@.subrange(pos as int, pos + x.spec_bytes(e).len()))
                    ==> match r {
                    Ok((v, end)) => v.same(&x) && end == pos + x.spec_bytes(e).len(),
                    Err(_) => false,
                },
    {
        match <(Versioned<Base>, (CollisionFlags, (Versioned<Array<Vector2>>, (Versioned<Array<Vector2>>, Versioned<Array<CollisionCliff>>))))>::decode(e, buf, pos) {
            Ok(((base, (flags, (vertices, (normals, cliffs)))), end)) => Ok((Collision::V2 { base, flags, vertices, normals, cliffs }, end)),
            Err(err) => Err(err),
        }
    }

    /// Reads the payload of layout 3.
    fn decode_v3(e: Endian, buf: &[u8], pos: usize) -> (r: Result<(Self, usize), DecodeError>)
        requires
            pos <= buf@.len(),
        ensures
            match r {
                Ok((v, end)) => {
                    &&& v.spec_version() == 3
                    &&& end == pos + v.spec_bytes(e).len()
                    &&& end <= buf@.len()
                    &&& v.wf()
                    &&& v.spec_accepts(e, buf@.subrange(pos as int, end as int))
                },
                Err(_) => true,
            },
            forall|x: Self|
                x.spec_version() == 3 && x.wf() && pos + x.spec_bytes(e).len() <= buf@.len()
                    && #[trigger] x.spec_accepts(e, buf@.subrange(pos as int, pos + x.spec_bytes(e).len()))
                    ==> match r {
                    Ok((v, end)) => v.same(&x) && end == pos + x.spec_bytes(e).len(),
                    Err(_) => false,
                },
    {
        match <(Versioned<Base>, (CollisionFlags, (Versioned<Array<Vector2>>, (Versioned<Array<Vector2>>, (Versioned<Array<CollisionCliff>>, Versioned<Array<CollisionAttribute>>)))))>::decode(e, buf, pos) {
            Ok(((base, (flags, (vertices, (normals, (cliffs, attributes))))), end)) => Ok((Collision::V3 { base, flags, vertices, normals, cliffs, attributes }, end)),
            Err(err) => Err(err),
        }
    }

    /// Reads the payload of layout 4.
    fn decode_v4(e: Endian, buf: &[u8], pos: usize) -> (r: Result<(Self, usize), DecodeError>)
        requires
            pos <= buf@.len(),
        ensures
            match r {
                Ok((v, end)) => {
                    &&& v.spec_version() == 4
                    &&& end == pos + v.spec_bytes(e).len()
                    &&& end <= buf@.len()
                    &&& v.wf()
                    &&& v.spec_accepts(e, buf@.subrange(pos as int, end as int))
                },
                Err(_) => true,
            },
            forall|x: Self|
                x.spec_version() == 4 && x.wf() && pos + x.spec_bytes(e).len() <= buf@.len()
                    && #[trigger] x.spec_accepts(e, buf@.subrange(pos as int, pos + x.spec_bytes(e).len()))
                    ==> match r {
                    Ok((v, end)) => v.same(&x) && end == pos + x.spec_bytes(e).len(),
                    Err(_) => false,
                },
    {
        match <(Versioned<Base>, (CollisionFlags, (Versioned<Array<Vector2>>, (Versioned<Array<Vector2>>, (Versioned<Array<CollisionCliff>>, (Versioned<Array<CollisionAttribute>>, Versioned<Array<CollisionSpiritsFloor>>))))))>::decode(e, buf, pos) {
            Ok(((base, (flags, (vertices, (normals, (cliffs, (attributes, spirits_floors)))))), end)) => Ok((Collision::V4 { base, flags, vertices, normals, cliffs, attributes, spirits_floors }, end)),
            Err(err) => Err(err),
        }
    }

}

/// A grabbable edge of a collision.
#[derive(Debug)]
pub enum CollisionCliff {
    /// The first layout.
    V1 {
        /// The position of the cliff.
        pos: Versioned<Vector2>,
        /// Bits of the facing direction of the cliff: -1 for left, 1 for right.
        lr: u32,
    },
    /// Adds the common data.
    V2 {
        /// The common data of the object.
        base: Versioned<Base>,
        /// The position of the cliff.
        pos: Versioned<Vector2>,
        /// Bits of the facing direction of the cliff: -1 for left, 1 for right.
        lr: u32,
    },
    /// Adds the index of the edge.
    V3 {
        /// The common data of the object.
        base: Versioned<Base>,
        /// The position of the cliff.
        pos: Versioned<Vector2>,
        /// Bits of the facing direction of the cliff: -1 for left, 1 for right.
        lr: u32,
        /// The index of the edge in the collision.
        line_index: u32,
    },
}

impl Version for CollisionCliff {
    open spec fn spec_version(&self) -> u8 {
        match self {
            CollisionCliff::V1 { .. } => 1,
            CollisionCliff::V2 { .. } => 2,
            CollisionCliff::V3 { .. } => 3,
        }
    }

    open spec fn spec_supported(version: u8) -> bool {
        version == 1 || version == 2 || version == 3
    }

    open spec fn spec_kind() -> RecordKind {
        RecordKind::CollisionCliff
    }

    closed spec fn wf(&self) -> bool {
        match self {
            CollisionCliff::V1 { pos, lr } => (*pos, *lr).wf(),
            CollisionCliff::V2 { base, pos, lr } => (*base, (*pos, *lr)).wf(),
            CollisionCliff::V3 { base, pos, lr, line_index } => (*base, (*pos, (*lr, *line_index))).wf(),
        }
    }

    closed spec fn spec_bytes(&self, e: Endian) -> Seq<u8> {
        match self {
            CollisionCliff::V1 { pos, lr } => (*pos, *lr).spec_bytes(e),
            CollisionCliff::V2 { base, pos, lr } => (*base, (*pos, *lr)).spec_bytes(e),
            CollisionCliff::V3 { base, pos, lr, line_index } => (*base, (*pos, (*lr, *line_index))).spec_bytes(e),
        }
    }

    closed spec fn spec_accepts(&self, e: Endian, s: Seq<u8>) -> bool {
        match self {
            CollisionCliff::V1 { pos, lr } => (*pos, *lr).spec_accepts(e, s),
            CollisionCliff::V2 { base, pos, lr } => (*base, (*pos, *lr)).spec_accepts(e, s),
            CollisionCliff::V3 { base, pos, lr, line_index } => (*base, (*pos, (*lr, *line_index))).spec_accepts(e, s),
        }
    }

    closed spec fn same(&self, other: &Self) -> bool {
        match (self, other) {
            (CollisionCliff::V1 { pos, lr }, CollisionCliff::V1 { pos: o_pos, lr: o_lr }) => (*pos, *lr).same(&(*o_pos, *o_lr)),
            (CollisionCliff::V2 { base, pos, lr }, CollisionCliff::V2 { base: o_base, pos: o_pos, lr: o_lr }) => (*base, (*pos, *lr)).same(&(*o_base, (*o_pos, *o_lr))),
            (CollisionCliff::V3 { base, pos, lr, line_index }, CollisionCliff::V3 { base: o_base, pos: o_pos, lr: o_lr, line_index: o_line_index }) => (*base, (*pos, (*lr, *line_index))).same(&(*o_base, (*o_pos, (*o_lr, *o_line_index)))),
            _ => false,
        }
    }

    proof fn lemma_canonical(&self, e: Endian) {
        match self {
            CollisionCliff::V1 { pos, lr } => (*pos, *lr).lemma_canonical(e),
            CollisionCliff::V2 { base, pos, lr } => (*base, (*pos, *lr)).lemma_canonical(e),
            CollisionCliff::V3 { base, pos, lr, line_index } => (*base, (*pos, (*lr, *line_index))).lemma_canonical(e),
        }
    }

    fn version(&self) -> (r: u8) {
        match self {
            CollisionCliff::V1 { .. } => 1,
            CollisionCliff::V2 { .. } => 2,
            CollisionCliff::V3 { .. } => 3,
        }
    }

    fn decode_payload(version: u8, e: Endian, buf: &[u8], pos: usize) -> (r: Result<(Self, usize), DecodeError>) {
        match version {
            1 => Self::decode_v1(e, buf, pos),
            2 => Self::decode_v2(e, buf, pos),
            3 => Self::decode_v3(e, buf, pos),
            _ => Err(DecodeError::UnsupportedVersion { record: RecordKind::CollisionCliff, version, pos }),
        }
    }

    fn encode_payload(&self, e: Endian, out: &mut Vec<u8>) {
        match self {
            CollisionCliff::V1 { .. } => self.encode_v1(e, out),
            CollisionCliff::V2 { .. } => self.encode_v2(e, out),
            CollisionCliff::V3 { .. } => self.encode_v3(e, out),
        }
    }
}

impl CollisionCliff {
    /// Writes the payload of the `V1` variant.
    fn encode_v1(&self, e: Endian, out: &mut Vec<u8>)
        requires
            self is V1,
            self.wf(),
        ensures
            final(out)@ == old(out)@ + self.spec_bytes(e),
    {
        match self {
            CollisionCliff::V1 { pos, lr } => {
                pos.encode(e, out);
                lr.encode(e, out);
                proof {
                    assert(final(out)@ =~= old(out)@ + (*pos, *lr).spec_bytes(e));
                }
            },
            _ => {},
        }
    }

    /// Writes the payload of the `V2` variant.
    fn encode_v2(&self, e: Endian, out: &mut Vec<u8>)
        requires
            self is V2,
            self.wf(),
        ensures
            final(out)@ == old(out)@ + self.spec_bytes(e),
    {
        match self {
            CollisionCliff::V2 { base, pos, lr } => {
                base.encode(e, out);
                pos.encode(e, out);
                lr.encode(e, out);
                proof {
                    assert(final(out)@ =~= old(out)@ + (*base, (*pos, *lr)).spec_bytes(e));
                }
            },
            _ => {},
        }
    }

    /// Writes the payload of the `V3` variant.
    fn encode_v3(&self, e: Endian, out: &mut Vec<u8>)
        requires
            self is V3,
            self.wf(),
        ensures
            final(out)@ == old(out)@ + self.spec_bytes(e),
    {
        match self {
            CollisionCliff::V3 { base, pos, lr, line_index } => {
                base.encode(e, out);
                pos.encode(e, out);
                lr.encode(e, out);
                line_index.encode(e, out);
                proof {
                    assert(final(out)@ =~= old(out)@ + (*base, (*pos, (*lr, *line_index))).spec_bytes(e));
                }
            },
            _ => {},
        }
    }

    /// Reads the payload of layout 1.
    fn decode_v1(e: Endian, buf: &[u8], pos: usize) -> (r: Result<(Self, usize), DecodeError>)
        requires
            pos <= buf@.len(),
        ensures
            match r {
                Ok((v, end)) => {
                    &&& v.spec_version() == 1
                    &&& end == pos + v.spec_bytes(e).len()
                    &&& end <= buf@.len()
                    &&& v.wf()
                    &&& v.spec_accepts(e, buf@.subrange(pos as int, end as int))
                },
                Err(_) => true,
            },
            forall|x: Self|
                x.spec_version() == 1 && x.wf() && pos + x.spec_bytes(e).len() <= buf@.len()
                    && #[trigger] x.spec_accepts(e, buf@.subrange(pos as int, pos + x.spec_bytes(e).len()))
                    ==> match r {
                    Ok((v, end)) => v.same(&x) && end == pos + x.spec_bytes(e).len(),
                    Err(_) => false,
                },
    {
        match <(Versioned<Vector2>, u32)>::decode(e, buf, pos) {
            Ok(((pos, lr), end)) => Ok((CollisionCliff::V1 { pos, lr }, end)),
            Err(err) => Err(err),
        }
    }

    /// Reads the payload of layout 2.
    fn decode_v2(e: Endian, buf: &[u8], pos: usize) -> (r: Result<(Self, usize), DecodeError>)
        requires
            pos <= buf@.len(),
        ensures
            match r {
                Ok((v, end)) => {
                    &&& v.spec_version() == 2
                    &&& end == pos + v.spec_bytes(e).len()
                    &&& end <= buf@.len()
                    &&& v.wf()
                    &&& v.spec_accepts(e, buf@.subrange(pos as int, end as int))
                },
                Err(_) => true,
            },
            forall|x: Self|
                x.spec_version() == 2 && x.wf() && pos + x.spec_bytes(e).len() <= buf@.len()
                    && #[trigger] x.spec_accepts(e, buf@.subrange(pos as int, pos + x.spec_bytes(e).len()))
                    ==> match r {
                    Ok((v, end)) => v.same(&x) && end == pos + x.spec_bytes(e).len(),
                    Err(_) => false,
                },
    {
        match <(Versioned<Base>, (Versioned<Vector2>, u32))>::decode(e, buf, pos) {
            Ok(((base, (pos, lr)), end)) => Ok((CollisionCliff::V2 { base, pos, lr }, end)),
            Err(err) => Err(err),
        }
    }

    /// Reads the payload of layout 3.
    fn decode_v3(e: Endian, buf: &[u8], pos: usize) -> (r: Result<(Self, usize), DecodeError>)
        requires
            pos <= buf@.len(),
        ensures
            match r {
                Ok((v, end)) => {
                    &&& v.spec_version() == 3
                    &&& end == pos + v.spec_bytes(e).len()
                    &&& end <= buf@.len()
                    &&& v.wf()
                    &&& v.spec_accepts(e, buf@.subrange(pos as int, end as int))
                },
                Err(_) => true,
            },
            forall|x: Self|
                x.spec_version() == 3 && x.wf() && pos + x.spec_bytes(e).len() <= buf@.len()
                    && #[trigger] x.spec_accepts(e, buf@.subrange(pos as int, pos + x.spec_bytes(e).len()))
                    ==> match r {
                    Ok((v, end)) => v.same(&x) && end == pos + x.spec_bytes(e).len(),
                    Err(_) => false,
                },
    {
        match <(Versioned<Base>, (Versioned<Vector2>, (u32, u32)))>::decode(e, buf, pos) {
            Ok(((base, (pos, (lr, line_index))), end)) => Ok((CollisionCliff::V3 { base, pos, lr, line_index }, end)),
            Err(err) => Err(err),
        }
    }

}

/// The material and attributes of an edge.
#[derive(Debug)]
pub enum CollisionAttribute {
    /// The first and only layout.
    V1 {
        /// The material preset of the edge.
        material: MaterialType,
        /// The attributes of the edge.
        flags: AttributeFlags,
    },
}

impl Version for CollisionAttribute {
    open spec fn spec_version(&self) -> u8 {
        match self {
            CollisionAttribute::V1 { .. } => 1,
        }
    }

    open spec fn spec_supported(version: u8) -> bool {
        version == 1
    }

    open spec fn spec_kind() -> RecordKind {
        RecordKind::CollisionAttribute
    }

    closed spec fn wf(&self) -> bool {
        match self {
            CollisionAttribute::V1 { material, flags } => (*material, *flags).wf(),
        }
    }

    closed spec fn spec_bytes(&self, e: Endian) -> Seq<u8> {
        match self {
            CollisionAttribute::V1 { material, flags } => (*material, *flags).spec_bytes(e),
        }
    }

    closed spec fn spec_accepts(&self, e: Endian, s: Seq<u8>) -> bool {
        match self {
            CollisionAttribute::V1 { material, flags } => (*material, *flags).spec_accepts(e, s),
        }
    }

    closed spec fn same(&self, other: &Self) -> bool {
        match (self, other) {
            (CollisionAttribute::V1 { material, flags }, CollisionAttribute::V1 { material: o_material, flags: o_flags }) => (*material, *flags).same(&(*o_material, *o_flags)),
        }
    }

    proof fn lemma_canonical(&self, e: Endian) {
        match self {
            CollisionAttribute::V1 { material, flags } => (*material, *flags).lemma_canonical(e),
        }
    }

    fn version(&self) -> (r: u8) {
        match self {
            CollisionAttribute::V1 { .. } => 1,
        }
    }

    fn decode_payload(version: u8, e: Endian, buf: &[u8], pos: usize) -> (r: Result<(Self, usize), DecodeError>) {
        match version {
            1 => {
                match <(MaterialType, AttributeFlags)>::decode(e, buf, pos) {
                    Ok(((material, flags), end)) => Ok((CollisionAttribute::V1 { material, flags }, end)),
                    Err(err) => Err(err),
                }
            },
            _ => Err(DecodeError::UnsupportedVersion { record: RecordKind::CollisionAttribute, version, pos }),
        }
    }

    fn encode_payload(&self, e: Endian, out: &mut Vec<u8>) {
        match self {
            CollisionAttribute::V1 { material, flags } => {
                material.encode(e, out);
                flags.encode(e, out);
                proof {
                    assert(final(out)@ =~= old(out)@ + (*material, *flags).spec_bytes(e));
                }
            },
        }
    }
}

/// A hazardous floor of a spirit battle, tied to an edge of a collision.
#[derive(Debug)]
pub enum CollisionSpiritsFloor {
    /// The first layout.
    V1 {
        /// The common data of the object.
        base: Versioned<Base>,
        /// The index of the edge in the collision.
        line_index: u32,
        /// The name of the line group.
        line_group: Versioned<FixedString64>,
    },
    /// Adds six unidentified values.
    V2 {
        /// The common data of the object.
        base: Versioned<Base>,
        /// The index of the edge in the collision.
        line_index: u32,
        /// The name of the line group.
        line_group: Versioned<FixedString64>,
        /// Bits of an unidentified value.
        unk1: u32,
        /// Bits of an unidentified value.
        unk2: u32,
        /// Bits of an unidentified value.
        unk3: u32,
        /// Bits of an unidentified value.
        unk4: u32,
        /// Bits of an unidentified value.
        unk5: u32,
        /// Bits of an unidentified value.
        unk6: u32,
    },
}

impl Version for CollisionSpiritsFloor {
    open spec fn spec_version(&self) -> u8 {
        match self {
            CollisionSpiritsFloor::V1 { .. } => 1,
            CollisionSpiritsFloor::V2 { .. } => 2,
        }
    }

    open spec fn spec_supported(version: u8) -> bool {
        version == 1 || version == 2
    }

    open spec fn spec_kind() -> RecordKind {
        RecordKind::CollisionSpiritsFloor
    }

    closed spec fn wf(&self) -> bool {
        match self {
            CollisionSpiritsFloor::V1 { base, line_index, line_group } => (*base, (*line_index, *line_group)).wf(),
            CollisionSpiritsFloor::V2 { base, line_index, line_group, unk1, unk2, unk3, unk4, unk5, unk6 } => (*base, (*line_index, (*line_group, (*unk1, (*unk2, (*unk3, (*unk4, (*unk5, *unk6)))))))).wf(),
        }
    }

    closed spec fn spec_bytes(&self, e: Endian) -> Seq<u8> {
        match self {
            CollisionSpiritsFloor::V1 { base, line_index, line_group } => (*base, (*line_index, *line_group)).spec_bytes(e),
            CollisionSpiritsFloor::V2 { base, line_index, line_group, unk1, unk2, unk3, unk4, unk5, unk6 } => (*base, (*line_index, (*line_group, (*unk1, (*unk2, (*unk3, (*unk4, (*unk5, *unk6)))))))).spec_bytes(e),
        }
    }

    closed spec fn spec_accepts(&self, e: Endian, s: Seq<u8>) -> bool {
        match self {
            CollisionSpiritsFloor::V1 { base, line_index, line_group } => (*base, (*line_index, *line_group)).spec_accepts(e, s),
            CollisionSpiritsFloor::V2 { base, line_index, line_group, unk1, unk2, unk3, unk4, unk5, unk6 } => (*base, (*line_index, (*line_group, (*unk1, (*unk2, (*unk3, (*unk4, (*unk5, *unk6)))))))).spec_accepts(e, s),
        }
    }

    closed spec fn same(&self, other: &Self) -> bool {
        match (self, other) {
            (CollisionSpiritsFloor::V1 { base, line_index, line_group }, CollisionSpiritsFloor::V1 { base: o_base, line_index: o_line_index, line_group: o_line_group }) => (*base, (*line_index, *line_group)).same(&(*o_base, (*o_line_index, *o_line_group))),
            (CollisionSpiritsFloor::V2 { base, line_index, line_group, unk1, unk2, unk3, unk4, unk5, unk6 }, CollisionSpiritsFloor::V2 { base: o_base, line_index: o_line_index, line_group: o_line_group, unk1: o_unk1, unk2: o_unk2, unk3: o_unk3, unk4: o_unk4, unk5: o_unk5, unk6: o_unk6 }) => (*base, (*line_index, (*line_group, (*unk1, (*unk2, (*unk3, (*unk4, (*unk5, *unk6)))))))).same(&(*o_base, (*o_line_index, (*o_line_group, (*o_unk1, (*o_unk2, (*o_unk3, (*o_unk4, (*o_unk5, *o_unk6))))))))),
            _ => false,
        }
    }

    proof fn lemma_canonical(&self, e: Endian) {
        match self {
            CollisionSpiritsFloor::V1 { base, line_index, line_group } => (*base, (*line_index, *line_group)).lemma_canonical(e),
            CollisionSpiritsFloor::V2 { base, line_index, line_group, unk1, unk2, unk3, unk4, unk5, unk6 } => (*base, (*line_index, (*line_group, (*unk1, (*unk2, (*unk3, (*unk4, (*unk5, *unk6)))))))).lemma_canonical(e),
        }
    }

    fn version(&self) -> (r: u8) {
        match self {
            CollisionSpiritsFloor::V1 { .. } => 1,
            CollisionSpiritsFloor::V2 { .. } => 2,
        }
    }

    fn decode_payload(version: u8, e: Endian, buf: &[u8], pos: usize) -> (r: Result<(Self, usize), DecodeError>) {
        match version {
            1 => Self::decode_v1(e, buf, pos),
            2 => Self::decode_v2(e, buf, pos),
            _ => Err(DecodeError::UnsupportedVersion { record: RecordKind::CollisionSpiritsFloor, version, pos }),
        }
    }

    fn encode_payload(&self, e: Endian, out: &mut Vec<u8>) {
        match self {
            CollisionSpiritsFloor::V1 { .. } => self.encode_v1(e, out),
            CollisionSpiritsFloor::V2 { .. } => self.encode_v2(e, out),
        }
    }
}

impl CollisionSpiritsFloor {
    /// Writes the payload of the `V1` variant.
    fn encode_v1(&self, e: Endian, out: &mut Vec<u8>)
        requires
            self is V1,
            self.wf(),
        ensures
            final(out)@ == old(out)@ + self.spec_bytes(e),
    {
        match self {
            CollisionSpiritsFloor::V1 { base, line_index, line_group } => {
                base.encode(e, out);
                line_index.encode(e, out);
                line_group.encode(e, out);
                proof {
                    assert(final(out)@ =~= old(out)@ + (*base, (*line_index, *line_group)).spec_bytes(e));
                }
            },
            _ => {},
        }
    }

    /// Writes the payload of the `V2` variant.
    #[verifier::spinoff_prover]
    #[verifier::rlimit(100)]
    fn encode_v2(&self, e: Endian, out: &mut Vec<u8>)
        requires
            self is V2,
            self.wf(),
        ensures
            final(out)@ == old(out)@ + self.spec_bytes(e),
    {
        match self {
            CollisionSpiritsFloor::V2 { base, line_index, line_group, unk1, unk2, unk3, unk4, unk5, unk6 } => {
                base.encode(e, out);
                line_index.encode(e, out);
                proof {
                    assert(out@ =~= old(out)@ + (base.spec_bytes(e) + line_index.spec_bytes(e)));
                }
                line_group.encode(e, out);
                proof {
                    assert(out@ =~= old(out)@ + (base.spec_bytes(e) + line_index.spec_bytes(e) + line_group.spec_bytes(e)));
                }
                unk1.encode(e, out);
                proof {
                    assert(out@ =~= old(out)@ + (base.spec_bytes(e) + line_index.spec_bytes(e) + line_group.spec_bytes(e) + unk1.spec_bytes(e)));
                }
                unk2.encode(e, out);
                proof {
                    assert(out@ =~= old(out)@ + (base.spec_bytes(e) + line_index.spec_bytes(e) + line_group.spec_bytes(e) + unk1.spec_bytes(e) + unk2.spec_bytes(e)));
                }
                unk3.encode(e, out);
                proof {
                    assert(out@ =~= old(out)@ + (base.spec_bytes(e) + line_index.spec_bytes(e) + line_group.spec_bytes(e) + unk1.spec_bytes(e) + unk2.spec_bytes(e) + unk3.spec_bytes(e)));
                }
                unk4.encode(e, out);
                proof {
                    assert(out@ =~= old(out)@ + (base.spec_bytes(e) + line_index.spec_bytes(e) + line_group.spec_bytes(e) + unk1.spec_bytes(e) + unk2.spec_bytes(e) + unk3.spec_bytes(e) + unk4.spec_bytes(e)));
                }
                unk5.encode(e, out);
                proof {
                    assert(out@ =~= old(out)@ + (base.spec_bytes(e) + line_index.spec_bytes(e) + line_group.spec_bytes(e) + unk1.spec_bytes(e) + unk2.spec_bytes(e) + unk3.spec_bytes(e) + unk4.spec_bytes(e) + unk5.spec_bytes(e)));
                }
                unk6.encode(e, out);
                proof {
                    assert(final(out)@ =~= old(out)@ + (*base, (*line_index, (*line_group, (*unk1, (*unk2, (*unk3, (*unk4, (*unk5, *unk6)))))))).spec_bytes(e));
                }
            },
            _ => {},
        }
    }

    /// Reads the payload of layout 1.
    fn decode_v1(e: Endian, buf: &[u8], pos: usize) -> (r: Result<(Self, usize), DecodeError>)
        requires
            pos <= buf@.len(),
        ensures
            match r {
                Ok((v, end)) => {
                    &&& v.spec_version() == 1
                    &&& end == pos + v.spec_bytes(e).len()
                    &&& end <= buf@.len()
                    &&& v.wf()
                    &&& v.spec_accepts(e, buf@.subrange(pos as int, end as int))
                },
                Err(_) => true,
            },
            forall|x: Self|
                x.spec_version() == 1 && x.wf() && pos + x.spec_bytes(e).len() <= buf@.len()
                    && #[trigger] x.spec_accepts(e, buf@.subrange(pos as int, pos + x.spec_bytes(e).len()))
                    ==> match r {
                    Ok((v, end)) => v.same(&x) && end == pos + x.spec_bytes(e).len(),
                    Err(_) => false,
                },
    {
        match <(Versioned<Base>, (u32, Versioned<FixedString64>))>::decode(e, buf, pos) {
            Ok(((base, (line_index, line_group)), end)) => Ok((CollisionSpiritsFloor::V1 { base, line_index, line_group }, end)),
            Err(err) => Err(err),
        }
    }

    /// Reads the payload of layout 2.
    fn decode_v2(e: Endian, buf: &[u8], pos: usize) -> (r: Result<(Self, usize), DecodeError>)
        requires
            pos <= buf@.len(),
        ensures
            match r {
                Ok((v, end)) => {
                    &&& v.spec_version() == 2
                    &&& end == pos + v.spec_bytes(e).len()
                    &&& end <= buf@.len()
                    &&& v.wf()
                    &&& v.spec_accepts(e, buf@.subrange(pos as int, end as int))
                },
                Err(_) => true,
            },
            forall|x: Self|
                x.spec_version() == 2 && x.wf() && pos + x.spec_bytes(e).len() <= buf@.len()
                    && #[trigger] x.spec_accepts(e, buf@.subrange(pos as int, pos + x.spec_bytes(e).len()))
                    ==> match r {
                    Ok((v, end)) => v.same(&x) && end == pos + x.spec_bytes(e).len(),
                    Err(_) => false,
                },
    {
        match <(Versioned<Base>, (u32, (Versioned<FixedString64>, (u32, (u32, (u32, (u32, (u32, u32))))))))>::decode(e, buf, pos) {
            Ok(((base, (line_index, (line_group, (unk1, (unk2, (unk3, (unk4, (unk5, unk6)))))))), end)) => Ok((CollisionSpiritsFloor::V2 { base, line_index, line_group, unk1, unk2, unk3, unk4, unk5, unk6 }, end)),
            Err(err) => Err(err),
        }
    }

}

} // verus!
