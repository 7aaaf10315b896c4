//! An object representing a two-dimensional rectangle.
use vstd::prelude::*;
use crate::objects::base::{Base, MetaInfo};
use crate::vector::Rect;
use crate::version::{Version, Versioned};
use crate::wire::{DecodeError, Endian, RecordKind, Wire};

verus! {

/// An object representing a two-dimensional rectangle.
#[derive(Debug)]
pub enum Region {
    /// The first layout.
    V1 {
        /// The metadata of the object.
        meta_info: Versioned<MetaInfo>,
        /// The edges of the region.
        rect: Versioned<Rect>,
    },
    /// Replaces the metadata with the common data.
    V2 {
        /// The common data of the object.
        base: Versioned<Base>,
        /// The edges of the region.
        rect: Versioned<Rect>,
    },
}

impl Version for Region {
    open spec fn spec_version(&self) -> u8 {
        match self {
            Region::V1 { .. } => 1,
            Region::V2 { .. } => 2,
        }
    }

    open spec fn spec_supported(version: u8) -> bool {
        version == 1 || version == 2
    }

    open spec fn spec_kind() -> RecordKind {
        RecordKind::Region
    }

    closed spec fn wf(&self) -> bool {
        match self {
            Region::V1 { meta_info, rect } => (*meta_info, *rect).wf(),
            Region::V2 { base, rect } => (*base, *rect).wf(),
        }
    }

    closed spec fn spec_bytes(&self, e: Endian) -> Seq<u8> {
        match self {
            Region::V1 { meta_info, rect } => (*meta_info, *rect).spec_bytes(e),
            Region::V2 { base, rect } => (*base, *rect).spec_bytes(e),
        }
    }

    closed spec fn spec_accepts(&self, e: Endian, s: Seq<u8>) -> bool {
        match self {
            Region::V1 { meta_info, rect } => (*meta_info, *rect).spec_accepts(e, s),
            Region::V2 { base, rect } => (*base, *rect).spec_accepts(e, s),
        }
    }

    closed spec fn same(&self, other: &Self) -> bool {
        match (self, other) {
            (Region::V1 { meta_info, rect }, Region::V1 { meta_info: o_meta_info, rect: o_rect }) => (*meta_info, *rect).same(&(*o_meta_info, *o_rect)),
            (Region::V2 { base, rect }, Region::V2 { base: o_base, rect: o_rect }) => (*base, *rect).same(&(*o_base, *o_rect)),
            _ => false,
        }
    }

    proof fn lemma_canonical(&self, e: Endian) {
        match self {
            Region::V1 { meta_info, rect } => (*meta_info, *rect).lemma_canonical(e),
            Region::V2 { base, rect } => (*base, *rect).lemma_canonical(e),
        }
    }

    fn version(&self) -> (r: u8) {
        match self {
            Region::V1 { .. } => 1,
            Region::V2 { .. } => 2,
        }
    }

    fn decode_payload(version: u8, e: Endian, buf: &[u8], pos: usize) -> (r: Result<(Self, usize), DecodeError>) {
        match version {
            1 => Self::decode_v1(e, buf, pos),
            2 => Self::decode_v2(e, buf, pos),
            _ => Err(DecodeError::UnsupportedVersion { record: RecordKind::Region, version, pos }),
        }
    }

    fn encode_payload(&self, e: Endian, out: &mut Vec<u8>) {
        match self {
            Region::V1 { .. } => self.encode_v1(e, out),
            Region::V2 { .. } => self.encode_v2(e, out),
        }
    }
}

impl Region {
    /// Writes the payload of the `V1` variant.
    fn encode_v1(&self, e: Endian, out: &mut Vec<u8>)
        requires
            self is V1,
            self.wf(),
        ensures
            final(out)@ == old(out)@ + self.spec_bytes(e),
    {
        match self {
            Region::V1 { meta_info, rect } => {
                meta_info.encode(e, out);
                rect.encode(e, out);
                proof {
                    assert(final(out)@ =~= old(out)@ + (*meta_info, *rect).spec_bytes(e));
                }
            },
            _ => {},
        }
    }

    /// Writes the payload of the `V2` variant.
    fn encode_v2(&self, e: Endian, out: &mut Vec<u8>)
        requires
            self is V2,
            self.wf(),
        ensures
            final(out)@ == old(out)@ + self.spec_bytes(e),
    {
        match self {
            Region::V2 { base, rect } => {
                base.encode(e, out);
                rect.encode(e, out);
                proof {
                    assert(final(out)@ =~= old(out)@ + (*base, *rect).spec_bytes(e));
                }
            },
            _ => {},
        }
    }

    /// Reads the payload of layout 1.
    fn decode_v1(e: Endian, buf: &[u8], pos: usize) -> (r: Result<(Self, usize), DecodeError>)
        requires
            pos <= buf@.len(),
        ensures
            match r {
                Ok((v, end)) => {
                    &&& v.spec_version() == 1
                    &&& end == pos + v.spec_bytes(e).len()
                    &&& end <= buf@.len()
                    &&& v.wf()
                    &&& v.spec_accepts(e, buf@.subrange(pos as int, end as int))
                },
                Err(_) => true,
            },
            forall|x: Self|
                x.spec_version() == 1 && x.wf() && pos + x.spec_bytes(e).len() <= buf@.len()
                    && #[trigger] x.spec_accepts(e, buf@.subrange(pos as int, pos + x.spec_bytes(e).len()))
                    ==> match r {
                    Ok((v, end)) => v.same(&x) && end == pos + x.spec_bytes(e).len(),
                    Err(_) => false,
                },
    {
        match <(Versioned<MetaInfo>, Versioned<Rect>)>::decode(e, buf, pos) {
            Ok(((meta_info, rect), end)) => Ok((Region::V1 { meta_info, rect }, end)),
            Err(err) => Err(err),
        }
    }

    /// Reads the payload of layout 2.
    fn decode_v2(e: Endian, buf: &[u8], pos: usize) -> (r: Result<(Self, usize), DecodeError>)
        requires
            pos <= buf@.len(),
        ensures
            match r {
                Ok((v, end)) => {
                    &&& v.spec_version() == 2
                    &&& end == pos + v.spec_bytes(e).len()
                    &&& end <= buf@.len()
                    &&& v.wf()
                    &&& v.spec_accepts(e, buf@.subrange(pos as int, end as int))
                },
                Err(_) => true,
            },
            forall|x: Self|
                x.spec_version() == 2 && x.wf() && pos + x.spec_bytes(e).len() <= buf@.len()
                    && #[trigger] x.spec_accepts(e, buf@.subrange(pos as int, pos + x.spec_bytes(e).len()))
                    ==> match r {
                    Ok((v, end)) => v.same(&x) && end == pos + x.spec_bytes(e).len(),
                    Err(_) => false,
                },
    {
        match <(Versioned<Base>, Versioned<Rect>)>::decode(e, buf, pos) {
            Ok(((base, rect), end)) => Ok((Region::V2 { base, rect }, end)),
            Err(err) => Err(err),
        }
    }

}

} // verus!
