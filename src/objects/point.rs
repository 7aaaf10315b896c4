//! An object representing a two-dimensional point.
use vstd::prelude::*;
use crate::objects::base::{Base, MetaInfo};
use crate::vector::Vector2;
use crate::version::{Version, Versioned};
use crate::wire::{DecodeError, Endian, RecordKind, Wire};

verus! {

/// An object representing a two-dimensional point.
#[derive(Debug)]
pub enum Point {
    /// The first layout.
    V1 {
        /// The metadata of the object.
        meta_info: Versioned<MetaInfo>,
        /// The position of the point.
        pos: Versioned<Vector2>,
    },
    /// Replaces the metadata with the common data.
    V2 {
        /// The common data of the object.
        base: Versioned<Base>,
        /// The position of the point.
        pos: Versioned<Vector2>,
    },
}

impl Version for Point {
    open spec fn spec_version(&self) -> u8 {
        match self {
            Point::V1 { .. } => 1,
            Point::V2 { .. } => 2,
        }
    }

    open spec fn spec_supported(version: u8) -> bool {
        version == 1 || version == 2
    }

    open spec fn spec_kind() -> RecordKind {
        RecordKind::Point
    }

    closed spec fn wf(&self) -> bool {
        match self {
            Point::V1 { meta_info, pos } => (*meta_info, *pos).wf(),
            Point::V2 { base, pos } => (*base, *pos).wf(),
        }
    }

    closed spec fn spec_bytes(&self, e: Endian) -> Seq<u8> {
        match self {
            Point::V1 { meta_info, pos } => (*meta_info, *pos).spec_bytes(e),
            Point::V2 { base, pos } => (*base, *pos).spec_bytes(e),
        }
    }

    closed spec fn spec_accepts(&self, e: Endian, s: Seq<u8>) -> bool {
        match self {
            Point::V1 { meta_info, pos } => (*meta_info, *pos).spec_accepts(e, s),
            Point::V2 { base, pos } => (*base, *pos).spec_accepts(e, s),
        }
    }

    closed spec fn same(&self, other: &Self) -> bool {
        match (self, other) {
            (Point::V1 { meta_info, pos }, Point::V1 { meta_info: o_meta_info, pos: o_pos }) => (*meta_info, *pos).same(&(*o_meta_info, *o_pos)),
            (Point::V2 { base, pos }, Point::V2 { base: o_base, pos: o_pos }) => (*base, *pos).same(&(*o_base, *o_pos)),
            _ => false,
        }
    }

    proof fn lemma_canonical(&self, e: Endian) {
        match self {
            Point::V1 { meta_info, pos } => (*meta_info, *pos).lemma_canonical(e),
            Point::V2 { base, pos } => (*base, *pos).lemma_canonical(e),
        }
    }

    fn version(&self) -> (r: u8) {
        match self {
            Point::V1 { .. } => 1,
            Point::V2 { .. } => 2,
        }
    }

    fn decode_payload(version: u8, e: Endian, buf: &[u8], pos: usize) -> (r: Result<(Self, usize), DecodeError>) {
        match version {
            1 => Self::decode_v1(e, buf, pos),
            2 => Self::decode_v2(e, buf, pos),
            _ => Err(DecodeError::UnsupportedVersion { record: RecordKind::Point, version, pos }),
        }
    }

    fn encode_payload(&self, e: Endian, out: &mut Vec<u8>) {
        match self {
            Point::V1 { .. } => self.encode_v1(e, out),
            Point::V2 { .. } => self.encode_v2(e, out),
        }
    }
}

impl Point {
    /// Writes the payload of the `V1` variant.
    fn encode_v1(&self, e: Endian, out: &mut Vec<u8>)
        requires
            self is V1,
            self.wf(),
        ensures
            final(out)@ == old(out)@ + self.spec_bytes(e),
    {
        match self {
            Point::V1 { meta_info, pos } => {
                meta_info.encode(e, out);
                pos.encode(e, out);
                proof {
                    assert(final(out)@ =~= old(out)@ + (*meta_info, *pos).spec_bytes(e));
                }
            },
            _ => {},
        }
    }

    /// Writes the payload of the `V2` variant.
    fn encode_v2(&self, e: Endian, out: &mut Vec<u8>)
        requires
            self is V2,
            self.wf(),
        ensures
            final(out)@ == old(out)@ + self.spec_bytes(e),
    {
        match self {
            Point::V2 { base, pos } => {
                base.encode(e, out);
                pos.encode(e, out);
                proof {
                    assert(final(out)@ =~= old(out)@ + (*base, *pos).spec_bytes(e));
                }
            },
            _ => {},
        }
    }

    /// Reads the payload of layout 1.
    fn decode_v1(e: Endian, buf: &[u8], pos: usize) -> (r: Result<(Self, usize), DecodeError>)
        requires
            pos <= buf@.len(),
        ensures
            match r {
                Ok((v, end)) => {
                    &&& v.spec_version() == 1
                    &&& end == pos + v.spec_bytes(e).len()
                    &&& end <= buf@.len()
                    &&& v.wf()
                    &&& v.spec_accepts(e, buf@.subrange(pos as int, end as int))
                },
                Err(_) => true,
            },
            forall|x: Self|
                x.spec_version() == 1 && x.wf() && pos + x.spec_bytes(e).len() <= buf@.len()
                    && #[trigger] x.spec_accepts(e, buf@.subrange(pos as int, pos + x.spec_bytes(e).len()))
                    ==> match r {
                    Ok((v, end)) => v.same(&x) && end == pos + x.spec_bytes(e).len(),
                    Err(_) => false,
                },
    {
        match <(Versioned<MetaInfo>, Versioned<Vector2>)>::decode(e, buf, pos) {
            Ok(((meta_info, pos), end)) => Ok((Point::V1 { meta_info, pos }, end)),
            Err(err) => Err(err),
        }
    }

    /// Reads the payload of layout 2.
    fn decode_v2(e: Endian, buf: &[u8], pos: usize) -> (r: Result<(Self, usize), DecodeError>)
        requires
            pos <= buf@.len(),
        ensures
            match r {
                Ok((v, end)) => {
                    &&& v.spec_version() == 2
                    &&& end == pos + v.spec_bytes(e).len()
                    &&& end <= buf@.len()
                    &&& v.wf()
                    &&& v.spec_accepts(e, buf@.subrange(pos as int, end as int))
                },
                Err(_) => true,
            },
            forall|x: Self|
                x.spec_version() == 2 && x.wf() && pos + x.spec_bytes(e).len() <= buf@.len()
                    && #[trigger] x.spec_accepts(e, buf@.subrange(pos as int, pos + x.spec_bytes(e).len()))
                    ==> match r {
                    Ok((v, end)) => v.same(&x) && end == pos + x.spec_bytes(e).len(),
                    Err(_) => false,
                },
    {
        match <(Versioned<Base>, Versioned<Vector2>)>::decode(e, buf, pos) {
            Ok(((base, pos), end)) => Ok((Point::V2 { base, pos }, end)),
            Err(err) => Err(err),
        }
    }

}

} // verus!
