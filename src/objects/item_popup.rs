//! An item popup area.
use vstd::prelude::*;
use crate::objects::base::Base;
use crate::objects::shape::ShapeArray2;
use crate::tag::Tag;
use crate::version::{Version, Versioned};
use crate::wire::{DecodeError, Endian, RecordKind, Wire};

verus! {

/// An item popup area.
#[derive(Debug)]
pub enum ItemPopup {
    /// The first and only layout.
    V1 {
        /// The common data of the object.
        base: Versioned<Base>,
        /// The identifier.
        tag: Versioned<Tag>,
        /// The shapes.
        shapes: Versioned<ShapeArray2>,
    },
}

impl Version for ItemPopup {
    open spec fn spec_version(&self) -> u8 {
        match self {
            ItemPopup::V1 { .. } => 1,
        }
    }

    open spec fn spec_supported(version: u8) -> bool {
        version == 1
    }

    open spec fn spec_kind() -> RecordKind {
        RecordKind::ItemPopup
    }

    closed spec fn wf(&self) -> bool {
        match self {
            ItemPopup::V1 { base, tag, shapes } => (*base, (*tag, *shapes)).wf(),
        }
    }

    closed spec fn spec_bytes(&self, e: Endian) -> Seq<u8> {
        match self {
            ItemPopup::V1 { base, tag, shapes } => (*base, (*tag, *shapes)).spec_bytes(e),
        }
    }

    closed spec fn spec_accepts(&self, e: Endian, s: Seq<u8>) -> bool {
        match self {
            ItemPopup::V1 { base, tag, shapes } => (*base, (*tag, *shapes)).spec_accepts(e, s),
        }
    }

    closed spec fn same(&self, other: &Self) -> bool {
        match (self, other) {
            (ItemPopup::V1 { base, tag, shapes }, ItemPopup::V1 { base: o_base, tag: o_tag, shapes: o_shapes }) => (*base, (*tag, *shapes)).same(&(*o_base, (*o_tag, *o_shapes))),
        }
    }

    proof fn lemma_canonical(&self, e: Endian) {
        match self {
            ItemPopup::V1 { base, tag, shapes } => (*base, (*tag, *shapes)).lemma_canonical(e),
        }
    }

    fn version(&self) -> (r: u8) {
        match self {
            ItemPopup::V1 { .. } => 1,
        }
    }

    fn decode_payload(version: u8, e: Endian, buf: &[u8], pos: usize) -> (r: Result<(Self, usize), DecodeError>) {
        match version {
            1 => {
                match <(Versioned<Base>, (Versioned<Tag>, Versioned<ShapeArray2>))>::decode(e, buf, pos) {
                    Ok(((base, (tag, shapes)), end)) => Ok((ItemPopup::V1 { base, tag, shapes }, end)),
                    Err(err) => Err(err),
                }
            },
            _ => Err(DecodeError::UnsupportedVersion { record: RecordKind::ItemPopup, version, pos }),
        }
    }

    fn encode_payload(&self, e: Endian, out: &mut Vec<u8>) {
        match self {
            ItemPopup::V1 { base, tag, shapes } => {
                base.encode(e, out);
                tag.encode(e, out);
                shapes.encode(e, out);
                proof {
                    assert(final(out)@ =~= old(out)@ + (*base, (*tag, *shapes)).spec_bytes(e));
                }
            },
        }
    }
}

} // verus!
