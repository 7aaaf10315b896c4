//! General shapes.
use vstd::prelude::*;
use crate::objects::base::Base;
use crate::objects::shape::{Shape2, Shape3};
use crate::tag::Tag;
use crate::version::{Version, Versioned};
use crate::wire::{DecodeError, Endian, RecordKind, Wire};

verus! {

/// A general two-dimensional shape.
#[derive(Debug)]
pub enum GeneralShape2 {
    /// The first and only layout.
    V1 {
        /// The common data of the object.
        base: Versioned<Base>,
        /// The identifier.
        tag: Versioned<Tag>,
        /// The shape.
        shape: Versioned<Shape2>,
    },
}

impl Version for GeneralShape2 {
    open spec fn spec_version(&self) -> u8 {
        match self {
            GeneralShape2::V1 { .. } => 1,
        }
    }

    open spec fn spec_supported(version: u8) -> bool {
        version == 1
    }

    open spec fn spec_kind() -> RecordKind {
        RecordKind::GeneralShape2
    }

    closed spec fn wf(&self) -> bool {
        match self {
            GeneralShape2::V1 { base, tag, shape } => (*base, (*tag, *shape)).wf(),
        }
    }

    closed spec fn spec_bytes(&self, e: Endian) -> Seq<u8> {
        match self {
            GeneralShape2::V1 { base, tag, shape } => (*base, (*tag, *shape)).spec_bytes(e),
        }
    }

    closed spec fn spec_accepts(&self, e: Endian, s: Seq<u8>) -> bool {
        match self {
            GeneralShape2::V1 { base, tag, shape } => (*base, (*tag, *shape)).spec_accepts(e, s),
        }
    }

    closed spec fn same(&self, other: &Self) -> bool {
        match (self, other) {
            (GeneralShape2::V1 { base, tag, shape }, GeneralShape2::V1 { base: o_base, tag: o_tag, shape: o_shape }) => (*base, (*tag, *shape)).same(&(*o_base, (*o_tag, *o_shape))),
        }
    }

    proof fn lemma_canonical(&self, e: Endian) {
        match self {
            GeneralShape2::V1 { base, tag, shape } => (*base, (*tag, *shape)).lemma_canonical(e),
        }
    }

    fn version(&self) -> (r: u8) {
        match self {
            GeneralShape2::V1 { .. } => 1,
        }
    }

    fn decode_payload(version: u8, e: Endian, buf: &[u8], pos: usize) -> (r: Result<(Self, usize), DecodeError>) {
        match version {
            1 => {
                match <(Versioned<Base>, (Versioned<Tag>, Versioned<Shape2>))>::decode(e, buf, pos) {
                    Ok(((base, (tag, shape)), end)) => Ok((GeneralShape2::V1 { base, tag, shape }, end)),
                    Err(err) => Err(err),
                }
            },
            _ => Err(DecodeError::UnsupportedVersion { record: RecordKind::GeneralShape2, version, pos }),
        }
    }

    fn encode_payload(&self, e: Endian, out: &mut Vec<u8>) {
        match self {
            GeneralShape2::V1 { base, tag, shape } => {
                base.encode(e, out);
                tag.encode(e, out);
                shape.encode(e, out);
                proof {
                    assert(final(out)@ =~= old(out)@ + (*base, (*tag, *shape)).spec_bytes(e));
                }
            },
        }
    }
}

/// A general three-dimensional shape.
#[derive(Debug)]
pub enum GeneralShape3 {
    /// The first and only layout.
    V1 {
        /// The common data of the object.
        base: Versioned<Base>,
        /// The identifier.
        tag: Versioned<Tag>,
        /// The shape.
        shape: Versioned<Shape3>,
    },
}

impl Version for GeneralShape3 {
    open spec fn spec_version(&self) -> u8 {
        match self {
            GeneralShape3::V1 { .. } => 1,
        }
    }

    open spec fn spec_supported(version: u8) -> bool {
        version == 1
    }

    open spec fn spec_kind() -> RecordKind {
        RecordKind::GeneralShape3
    }

    closed spec fn wf(&self) -> bool {
        match self {
            GeneralShape3::V1 { base, tag, shape } => (*base, (*tag, *shape)).wf(),
        }
    }

    closed spec fn spec_bytes(&self, e: Endian) -> Seq<u8> {
        match self {
            GeneralShape3::V1 { base, tag, shape } => (*base, (*tag, *shape)).spec_bytes(e),
        }
    }

    closed spec fn spec_accepts(&self, e: Endian, s: Seq<u8>) -> bool {
        match self {
            GeneralShape3::V1 { base, tag, shape } => (*base, (*tag, *shape)).spec_accepts(e, s),
        }
    }

    closed spec fn same(&self, other: &Self) -> bool {
        match (self, other) {
            (GeneralShape3::V1 { base, tag, shape }, GeneralShape3::V1 { base: o_base, tag: o_tag, shape: o_shape }) => (*base, (*tag, *shape)).same(&(*o_base, (*o_tag, *o_shape))),
        }
    }

    proof fn lemma_canonical(&self, e: Endian) {
        match self {
            GeneralShape3::V1 { base, tag, shape } => (*base, (*tag, *shape)).lemma_canonical(e),
        }
    }

    fn version(&self) -> (r: u8) {
        match self {
            GeneralShape3::V1 { .. } => 1,
        }
    }

    fn decode_payload(version: u8, e: Endian, buf: &[u8], pos: usize) -> (r: Result<(Self, usize), DecodeError>) {
        match version {
            1 => {
                match <(Versioned<Base>, (Versioned<Tag>, Versioned<Shape3>))>::decode(e, buf, pos) {
                    Ok(((base, (tag, shape)), end)) => Ok((GeneralShape3::V1 { base, tag, shape }, end)),
                    Err(err) => Err(err),
                }
            },
            _ => Err(DecodeError::UnsupportedVersion { record: RecordKind::GeneralShape3, version, pos }),
        }
    }

    fn encode_payload(&self, e: Endian, out: &mut Vec<u8>) {
        match self {
            GeneralShape3::V1 { base, tag, shape } => {
                base.encode(e, out);
                tag.encode(e, out);
                shape.encode(e, out);
                proof {
                    assert(final(out)@ =~= old(out)@ + (*base, (*tag, *shape)).spec_bytes(e));
                }
            },
        }
    }
}

} // verus!
