//! Final smash objects and related areas.
use vstd::prelude::*;
use crate::id::Id;
use crate::objects::base::Base;
use crate::objects::region::Region;
use crate::objects::shape::{LvdPath, Shape2, Shape3};
use crate::string::FixedString32;
use crate::tag::Tag;
use crate::vector::{Rect, Vector2};
use crate::version::{Version, Versioned};
use crate::wire::{DecodeError, Endian, RecordKind, Wire};

verus! {

/// An item location for a final smash.
#[derive(Debug)]
pub enum FsItem {
    /// The first and only layout.
    V1 {
        /// The common data of the object.
        base: Versioned<Base>,
        /// The shape.
        shape: Versioned<Shape2>,
        /// The identifier.
        tag: Versioned<Tag>,
    },
}

impl Version for FsItem {
    open spec fn spec_version(&self) -> u8 {
        match self {
            FsItem::V1 { .. } => 1,
        }
    }

    open spec fn spec_supported(version: u8) -> bool {
        version == 1
    }

    open spec fn spec_kind() -> RecordKind {
        RecordKind::FsItem
    }

    closed spec fn wf(&self) -> bool {
        match self {
            FsItem::V1 { base, shape, tag } => (*base, (*shape, *tag)).wf(),
        }
    }

    closed spec fn spec_bytes(&self, e: Endian) -> Seq<u8> {
        match self {
            FsItem::V1 { base, shape, tag } => (*base, (*shape, *tag)).spec_bytes(e),
        }
    }

    closed spec fn spec_accepts(&self, e: Endian, s: Seq<u8>) -> bool {
        match self {
            FsItem::V1 { base, shape, tag } => (*base, (*shape, *tag)).spec_accepts(e, s),
        }
    }

    closed spec fn same(&self, other: &Self) -> bool {
        match (self, other) {
            (FsItem::V1 { base, shape, tag }, FsItem::V1 { base: o_base, shape: o_shape, tag: o_tag }) => (*base, (*shape, *tag)).same(&(*o_base, (*o_shape, *o_tag))),
        }
    }

    proof fn lemma_canonical(&self, e: Endian) {
        match self {
            FsItem::V1 { base, shape, tag } => (*base, (*shape, *tag)).lemma_canonical(e),
        }
    }

    fn version(&self) -> (r: u8) {
        match self {
            FsItem::V1 { .. } => 1,
        }
    }

    fn decode_payload(version: u8, e: Endian, buf: &[u8], pos: usize) -> (r: Result<(Self, usize), DecodeError>) {
        match version {
            1 => {
                match <(Versioned<Base>, (Versioned<Shape2>, Versioned<Tag>))>::decode(e, buf, pos) {
                    Ok(((base, (shape, tag)), end)) => Ok((FsItem::V1 { base, shape, tag }, end)),
                    Err(err) => Err(err),
                }
            },
            _ => Err(DecodeError::UnsupportedVersion { record: RecordKind::FsItem, version, pos }),
        }
    }

    fn encode_payload(&self, e: Endian, out: &mut Vec<u8>) {
        match self {
            FsItem::V1 { base, shape, tag } => {
                base.encode(e, out);
                shape.encode(e, out);
                tag.encode(e, out);
                proof {
                    assert(final(out)@ =~= old(out)@ + (*base, (*shape, *tag)).spec_bytes(e));
                }
            },
        }
    }
}

/// An unidentified final smash object.
#[derive(Debug)]
pub enum FsUnknown {
    /// The first layout.
    V1 {
        /// The common data of the object.
        base: Versioned<Base>,
        /// An unidentified rectangle.
        unk1: Versioned<Rect>,
        /// An unidentified camera limit.
        unk2: Versioned<FsCamLimit>,
    },
    /// Adds an unidentified value.
    V2 {
        /// The common data of the object.
        base: Versioned<Base>,
        /// An unidentified rectangle.
        unk1: Versioned<Rect>,
        /// An unidentified camera limit.
        unk2: Versioned<FsCamLimit>,
        /// An unidentified value.
        unk3: u32,
    },
}

impl Version for FsUnknown {
    open spec fn spec_version(&self) -> u8 {
        match self {
            FsUnknown::V1 { .. } => 1,
            FsUnknown::V2 { .. } => 2,
        }
    }

    open spec fn spec_supported(version: u8) -> bool {
        version == 1 || version == 2
    }

    open spec fn spec_kind() -> RecordKind {
        RecordKind::FsUnknown
    }

    closed spec fn wf(&self) -> bool {
        match self {
            FsUnknown::V1 { base, unk1, unk2 } => (*base, (*unk1, *unk2)).wf(),
            FsUnknown::V2 { base, unk1, unk2, unk3 } => (*base, (*unk1, (*unk2, *unk3))).wf(),
        }
    }

    closed spec fn spec_bytes(&self, e: Endian) -> Seq<u8> {
        match self {
            FsUnknown::V1 { base, unk1, unk2 } => (*base, (*unk1, *unk2)).spec_bytes(e),
            FsUnknown::V2 { base, unk1, unk2, unk3 } => (*base, (*unk1, (*unk2, *unk3))).spec_bytes(e),
        }
    }

    closed spec fn spec_accepts(&self, e: Endian, s: Seq<u8>) -> bool {
        match self {
            FsUnknown::V1 { base, unk1, unk2 } => (*base, (*unk1, *unk2)).spec_accepts(e, s),
            FsUnknown::V2 { base, unk1, unk2, unk3 } => (*base, (*unk1, (*unk2, *unk3))).spec_accepts(e, s),
        }
    }

    closed spec fn same(&self, other: &Self) -> bool {
        match (self, other) {
            (FsUnknown::V1 { base, unk1, unk2 }, FsUnknown::V1 { base: o_base, unk1: o_unk1, unk2: o_unk2 }) => (*base, (*unk1, *unk2)).same(&(*o_base, (*o_unk1, *o_unk2))),
            (FsUnknown::V2 { base, unk1, unk2, unk3 }, FsUnknown::V2 { base: o_base, unk1: o_unk1, unk2: o_unk2, unk3: o_unk3 }) => (*base, (*unk1, (*unk2, *unk3))).same(&(*o_base, (*o_unk1, (*o_unk2, *o_unk3)))),
            _ => false,
        }
    }

    proof fn lemma_canonical(&self, e: Endian) {
        match self {
            FsUnknown::V1 { base, unk1, unk2 } => (*base, (*unk1, *unk2)).lemma_canonical(e),
            FsUnknown::V2 { base, unk1, unk2, unk3 } => (*base, (*unk1, (*unk2, *unk3))).lemma_canonical(e),
        }
    }

    fn version(&self) -> (r: u8) {
        match self {
            FsUnknown::V1 { .. } => 1,
            FsUnknown::V2 { .. } => 2,
        }
    }

    fn decode_payload(version: u8, e: Endian, buf: &[u8], pos: usize) -> (r: Result<(Self, usize), DecodeError>) {
        match version {
            1 => Self::decode_v1(e, buf, pos),
            2 => Self::decode_v2(e, buf, pos),
            _ => Err(DecodeError::UnsupportedVersion { record: RecordKind::FsUnknown, version, pos }),
        }
    }

    fn encode_payload(&self, e: Endian, out: &mut Vec<u8>) {
        match self {
            FsUnknown::V1 { .. } => self.encode_v1(e, out),
            FsUnknown::V2 { .. } => self.encode_v2(e, out),
        }
    }
}

impl FsUnknown {
    /// Writes the payload of the `V1` variant.
    fn encode_v1(&self, e: Endian, out: &mut Vec<u8>)
        requires
            self is V1,
            self.wf(),
        ensures
            final(out)@ == old(out)@ + self.spec_bytes(e),
    {
        match self {
            FsUnknown::V1 { base, unk1, unk2 } => {
                base.encode(e, out);
                unk1.encode(e, out);
                unk2.encode(e, out);
                proof {
                    assert(final(out)@ =~= old(out)@ + (*base, (*unk1, *unk2)).spec_bytes(e));
                }
            },
            _ => {},
        }
    }

    /// Writes the payload of the `V2` variant.
    fn encode_v2(&self, e: Endian, out: &mut Vec<u8>)
        requires
            self is V2,
            self.wf(),
        ensures
            final(out)@ == old(out)@ + self.spec_bytes(e),
    {
        match self {
            FsUnknown::V2 { base, unk1, unk2, unk3 } => {
                base.encode(e, out);
                unk1.encode(e, out);
                unk2.encode(e, out);
                unk3.encode(e, out);
                proof {
                    assert(final(out)@ =~= old(out)@ + (*base, (*unk1, (*unk2, *unk3))).spec_bytes(e));
                }
            },
            _ => {},
        }
    }

    /// Reads the payload of layout 1.
    fn decode_v1(e: Endian, buf: &[u8], pos: usize) -> (r: Result<(Self, usize), DecodeError>)
        requires
            pos <= buf@.len(),
        ensures
            match r {
                Ok((v, end)) => {
                    &&& v.spec_version() == 1
                    &&& end == pos + v.spec_bytes(e).len()
                    &&& end <= buf@.len()
                    &&& v.wf()
                    &&& v.spec_accepts(e, buf@.subrange(pos as int, end as int))
                },
                Err(_) => true,
            },
            forall|x: Self|
                x.spec_version() == 1 && x.wf() && pos + x.spec_bytes(e).len() <= buf@.len()
                    && #[trigger] x.spec_accepts(e, buf@.subrange(pos as int, pos + x.spec_bytes(e).len()))
                    ==> match r {
                    Ok((v, end)) => v.same(&x) && end == pos + x.spec_bytes(e).len(),
                    Err(_) => false,
                },
    {
        match <(Versioned<Base>, (Versioned<Rect>, Versioned<FsCamLimit>))>::decode(e, buf, pos) {
            Ok(((base, (unk1, unk2)), end)) => Ok((FsUnknown::V1 { base, unk1, unk2 }, end)),
            Err(err) => Err(err),
        }
    }

    /// Reads the payload of layout 2.
    fn decode_v2(e: Endian, buf: &[u8], pos: usize) -> (r: Result<(Self, usize), DecodeError>)
        requires
            pos <= buf@.len(),
        ensures
            match r {
                Ok((v, end)) => {
                    &&& v.spec_version() == 2
                    &&& end == pos + v.spec_bytes(e).len()
                    &&& end <= buf@.len()
                    &&& v.wf()
                    &&& v.spec_accepts(e, buf@.subrange(pos as int, end as int))
                },
                Err(_) => true,
            },
            forall|x: Self|
                x.spec_version() == 2 && x.wf() && pos + x.spec_bytes(e).len() <= buf@.len()
                    && #[trigger] x.spec_accepts(e, buf@.subrange(pos as int, pos + x.spec_bytes(e).len()))
                    ==> match r {
                    Ok((v, end)) => v.same(&x) && end == pos + x.spec_bytes(e).len(),
                    Err(_) => false,
                },
    {
        match <(Versioned<Base>, (Versioned<Rect>, (Versioned<FsCamLimit>, u32)))>::decode(e, buf, pos) {
            Ok(((base, (unk1, (unk2, unk3))), end)) => Ok((FsUnknown::V2 { base, unk1, unk2, unk3 }, end)),
            Err(err) => Err(err),
        }
    }

}

/// A final smash camera area.
#[derive(Debug)]
pub enum FsAreaCam {
    /// The first and only layout.
    V1 {
        /// The region.
        region: Versioned<Region>,
        /// An unidentified value.
        unk: u32,
    },
}

impl Version for FsAreaCam {
    open spec fn spec_version(&self) -> u8 {
        match self {
            FsAreaCam::V1 { .. } => 1,
        }
    }

    open spec fn spec_supported(version: u8) -> bool {
        version == 1
    }

    open spec fn spec_kind() -> RecordKind {
        RecordKind::FsAreaCam
    }

    closed spec fn wf(&self) -> bool {
        match self {
            FsAreaCam::V1 { region, unk } => (*region, *unk).wf(),
        }
    }

    closed spec fn spec_bytes(&self, e: Endian) -> Seq<u8> {
        match self {
            FsAreaCam::V1 { region, unk } => (*region, *unk).spec_bytes(e),
        }
    }

    closed spec fn spec_accepts(&self, e: Endian, s: Seq<u8>) -> bool {
        match self {
            FsAreaCam::V1 { region, unk } => (*region, *unk).spec_accepts(e, s),
        }
    }

    closed spec fn same(&self, other: &Self) -> bool {
        match (self, other) {
            (FsAreaCam::V1 { region, unk }, FsAreaCam::V1 { region: o_region, unk: o_unk }) => (*region, *unk).same(&(*o_region, *o_unk)),
        }
    }

    proof fn lemma_canonical(&self, e: Endian) {
        match self {
            FsAreaCam::V1 { region, unk } => (*region, *unk).lemma_canonical(e),
        }
    }

    fn version(&self) -> (r: u8) {
        match self {
            FsAreaCam::V1 { .. } => 1,
        }
    }

    fn decode_payload(version: u8, e: Endian, buf: &[u8], pos: usize) -> (r: Result<(Self, usize), DecodeError>) {
        match version {
            1 => {
                match <(Versioned<Region>, u32)>::decode(e, buf, pos) {
                    Ok(((region, unk), end)) => Ok((FsAreaCam::V1 { region, unk }, end)),
                    Err(err) => Err(err),
                }
            },
            _ => Err(DecodeError::UnsupportedVersion { record: RecordKind::FsAreaCam, version, pos }),
        }
    }

    fn encode_payload(&self, e: Endian, out: &mut Vec<u8>) {
        match self {
            FsAreaCam::V1 { region, unk } => {
                region.encode(e, out);
                unk.encode(e, out);
                proof {
                    assert(final(out)@ =~= old(out)@ + (*region, *unk).spec_bytes(e));
                }
            },
        }
    }
}

/// A final smash area lock.
#[derive(Debug)]
pub enum FsAreaLock {
    /// The first layout.
    V1 {
        /// The common data of the object.
        base: Versioned<Base>,
        /// The camera region.
        camera_region: Versioned<Rect>,
        /// The trigger region.
        trigger_region: Versioned<Rect>,
        /// An unidentified value.
        unk1: u32,
    },
    /// Adds an unidentified vector.
    V2 {
        /// The common data of the object.
        base: Versioned<Base>,
        /// The camera region.
        camera_region: Versioned<Rect>,
        /// The trigger region.
        trigger_region: Versioned<Rect>,
        /// An unidentified value.
        unk1: u32,
        /// An unidentified vector.
        unk2: Versioned<Vector2>,
    },
}

impl Version for FsAreaLock {
    open spec fn spec_version(&self) -> u8 {
        match self {
            FsAreaLock::V1 { .. } => 1,
            FsAreaLock::V2 { .. } => 2,
        }
    }

    open spec fn spec_supported(version: u8) -> bool {
        version == 1 || version == 2
    }

    open spec fn spec_kind() -> RecordKind {
        RecordKind::FsAreaLock
    }

    closed spec fn wf(&self) -> bool {
        match self {
            FsAreaLock::V1 { base, camera_region, trigger_region, unk1 } => (*base, (*camera_region, (*trigger_region, *unk1))).wf(),
            FsAreaLock::V2 { base, camera_region, trigger_region, unk1, unk2 } => (*base, (*camera_region, (*trigger_region, (*unk1, *unk2)))).wf(),
        }
    }

    closed spec fn spec_bytes(&self, e: Endian) -> Seq<u8> {
        match self {
            FsAreaLock::V1 { base, camera_region, trigger_region, unk1 } => (*base, (*camera_region, (*trigger_region, *unk1))).spec_bytes(e),
            FsAreaLock::V2 { base, camera_region, trigger_region, unk1, unk2 } => (*base, (*camera_region, (*trigger_region, (*unk1, *unk2)))).spec_bytes(e),
        }
    }

    closed spec fn spec_accepts(&self, e: Endian, s: Seq<u8>) -> bool {
        match self {
            FsAreaLock::V1 { base, camera_region, trigger_region, unk1 } => (*base, (*camera_region, (*trigger_region, *unk1))).spec_accepts(e, s),
            FsAreaLock::V2 { base, camera_region, trigger_region, unk1, unk2 } => (*base, (*camera_region, (*trigger_region, (*unk1, *unk2)))).spec_accepts(e, s),
        }
    }

    closed spec fn same(&self, other: &Self) -> bool {
        match (self, other) {
            (FsAreaLock::V1 { base, camera_region, trigger_region, unk1 }, FsAreaLock::V1 { base: o_base, camera_region: o_camera_region, trigger_region: o_trigger_region, unk1: o_unk1 }) => (*base, (*camera_region, (*trigger_region, *unk1))).same(&(*o_base, (*o_camera_region, (*o_trigger_region, *o_unk1)))),
            (FsAreaLock::V2 { base, camera_region, trigger_region, unk1, unk2 }, FsAreaLock::V2 { base: o_base, camera_region: o_camera_region, trigger_region: o_trigger_region, unk1: o_unk1, unk2: o_unk2 }) => (*base, (*camera_region, (*trigger_region, (*unk1, *unk2)))).same(&(*o_base, (*o_camera_region, (*o_trigger_region, (*o_unk1, *o_unk2))))),
            _ => false,
        }
    }

    proof fn lemma_canonical(&self, e: Endian) {
        match self {
            FsAreaLock::V1 { base, camera_region, trigger_region, unk1 } => (*base, (*camera_region, (*trigger_region, *unk1))).lemma_canonical(e),
            FsAreaLock::V2 { base, camera_region, trigger_region, unk1, unk2 } => (*base, (*camera_region, (*trigger_region, (*unk1, *unk2)))).lemma_canonical(e),
        }
    }

    fn version(&self) -> (r: u8) {
        match self {
            FsAreaLock::V1 { .. } => 1,
            FsAreaLock::V2 { .. } => 2,
        }
    }

    fn decode_payload(version: u8, e: Endian, buf: &[u8], pos: usize) -> (r: Result<(Self, usize), DecodeError>) {
        match version {
            1 => Self::decode_v1(e, buf, pos),
            2 => Self::decode_v2(e, buf, pos),
            _ => Err(DecodeError::UnsupportedVersion { record: RecordKind::FsAreaLock, version, pos }),
        }
    }

    fn encode_payload(&self, e: Endian, out: &mut Vec<u8>) {
        match self {
            FsAreaLock::V1 { .. } => self.encode_v1(e, out),
            FsAreaLock::V2 { .. } => self.encode_v2(e, out),
        }
    }
}

impl FsAreaLock {
    /// Writes the payload of the `V1` variant.
    fn encode_v1(&self, e: Endian, out: &mut Vec<u8>)
        requires
            self is V1,
            self.wf(),
        ensures
            final(out)@ == old(out)@ + self.spec_bytes(e),
    {
        match self {
            FsAreaLock::V1 { base, camera_region, trigger_region, unk1 } => {
                base.encode(e, out);
                camera_region.encode(e, out);
                trigger_region.encode(e, out);
                unk1.encode(e, out);
                proof {
                    assert(final(out)@ =~= old(out)@ + (*base, (*camera_region, (*trigger_region, *unk1))).spec_bytes(e));
                }
            },
            _ => {},
        }
    }

    /// Writes the payload of the `V2` variant.
    fn encode_v2(&self, e: Endian, out: &mut Vec<u8>)
        requires
            self is V2,
            self.wf(),
        ensures
            final(out)@ == old(out)@ + self.spec_bytes(e),
    {
        match self {
            FsAreaLock::V2 { base, camera_region, trigger_region, unk1, unk2 } => {
                base.encode(e, out);
                camera_region.encode(e, out);
                proof {
                    assert(out@ =~= old(out)@ + (base.spec_bytes(e) + camera_region.spec_bytes(e)));
                }
                trigger_region.encode(e, out);
                proof {
                    assert(out@ =~= old(out)@ + (base.spec_bytes(e) + camera_region.spec_bytes(e) + trigger_region.spec_bytes(e)));
                }
                unk1.encode(e, out);
                proof {
                    assert(out@ =~= old(out)@ + (base.spec_bytes(e) + camera_region.spec_bytes(e) + trigger_region.spec_bytes(e) + unk1.spec_bytes(e)));
                }
                unk2.encode(e, out);
                proof {
                    assert(final(out)@ =~= old(out)@ + (*base, (*camera_region, (*trigger_region, (*unk1, *unk2)))).spec_bytes(e));
                }
            },
            _ => {},
        }
    }

    /// Reads the payload of layout 1.
    fn decode_v1(e: Endian, buf: &[u8], pos: usize) -> (r: Result<(Self, usize), DecodeError>)
        requires
            pos <= buf@.len(),
        ensures
            match r {
                Ok((v, end)) => {
                    &&& v.spec_version() == 1
                    &&& end == pos + v.spec_bytes(e).len()
                    &&& end <= buf@.len()
                    &&& v.wf()
                    &&& v.spec_accepts(e, buf@.subrange(pos as int, end as int))
                },
                Err(_) => true,
            },
            forall|x: Self|
                x.spec_version() == 1 && x.wf() && pos + x.spec_bytes(e).len() <= buf@.len()
                    && #[trigger] x.spec_accepts(e, buf@.subrange(pos as int, pos + x.spec_bytes(e).len()))
                    ==> match r {
                    Ok((v, end)) => v.same(&x) && end == pos + x.spec_bytes(e).len(),
                    Err(_) => false,
                },
    {
        match <(Versioned<Base>, (Versioned<Rect>, (Versioned<Rect>, u32)))>::decode(e, buf, pos) {
            Ok(((base, (camera_region, (trigger_region, unk1))), end)) => Ok((FsAreaLock::V1 { base, camera_region, trigger_region, unk1 }, end)),
            Err(err) => Err(err),
        }
    }

    /// Reads the payload of layout 2.
    fn decode_v2(e: Endian, buf: &[u8], pos: usize) -> (r: Result<(Self, usize), DecodeError>)
        requires
            pos <= buf@.len(),
        ensures
            match r {
                Ok((v, end)) => {
                    &&& v.spec_version() == 2
                    &&& end == pos + v.spec_bytes(e).len()
                    &&& end <= buf@.len()
                    &&& v.wf()
                    &&& v.spec_accepts(e, buf@.subrange(pos as int, end as int))
                },
                Err(_) => true,
            },
            forall|x: Self|
                x.spec_version() == 2 && x.wf() && pos + x.spec_bytes(e).len() <= buf@.len()
                    && #[trigger] x.spec_accepts(e, buf@.subrange(pos as int, pos + x.spec_bytes(e).len()))
                    ==> match r {
                    Ok((v, end)) => v.same(&x) && end == pos + x.spec_bytes(e).len(),
                    Err(_) => false,
                },
    {
        match <(Versioned<Base>, (Versioned<Rect>, (Versioned<Rect>, (u32, Versioned<Vector2>))))>::decode(e, buf, pos) {
            Ok(((base, (camera_region, (trigger_region, (unk1, unk2)))), end)) => Ok((FsAreaLock::V2 { base, camera_region, trigger_region, unk1, unk2 }, end)),
            Err(err) => Err(err),
        }
    }

}

/// A limit to the panning of the final smash camera.
#[derive(Debug)]
pub enum FsCamLimit {
    /// The first and only layout.
    V1 {
        /// The common data of the object.
        base: Versioned<Base>,
        /// The path of the limit.
        path: Versioned<LvdPath>,
    },
}

impl Version for FsCamLimit {
    open spec fn spec_version(&self) -> u8 {
        match self {
            FsCamLimit::V1 { .. } => 1,
        }
    }

    open spec fn spec_supported(version: u8) -> bool {
        version == 1
    }

    open spec fn spec_kind() -> RecordKind {
        RecordKind::FsCamLimit
    }

    closed spec fn wf(&self) -> bool {
        match self {
            FsCamLimit::V1 { base, path } => (*base, *path).wf(),
        }
    }

    closed spec fn spec_bytes(&self, e: Endian) -> Seq<u8> {
        match self {
            FsCamLimit::V1 { base, path } => (*base, *path).spec_bytes(e),
        }
    }

    closed spec fn spec_accepts(&self, e: Endian, s: Seq<u8>) -> bool {
        match self {
            FsCamLimit::V1 { base, path } => (*base, *path).spec_accepts(e, s),
        }
    }

    closed spec fn same(&self, other: &Self) -> bool {
        match (self, other) {
            (FsCamLimit::V1 { base, path }, FsCamLimit::V1 { base: o_base, path: o_path }) => (*base, *path).same(&(*o_base, *o_path)),
        }
    }

    proof fn lemma_canonical(&self, e: Endian) {
        match self {
            FsCamLimit::V1 { base, path } => (*base, *path).lemma_canonical(e),
        }
    }

    fn version(&self) -> (r: u8) {
        match self {
            FsCamLimit::V1 { .. } => 1,
        }
    }

    fn decode_payload(version: u8, e: Endian, buf: &[u8], pos: usize) -> (r: Result<(Self, usize), DecodeError>) {
        match version {
            1 => {
                match <(Versioned<Base>, Versioned<LvdPath>)>::decode(e, buf, pos) {
                    Ok(((base, path), end)) => Ok((FsCamLimit::V1 { base, path }, end)),
                    Err(err) => Err(err),
                }
            },
            _ => Err(DecodeError::UnsupportedVersion { record: RecordKind::FsCamLimit, version, pos }),
        }
    }

    fn encode_payload(&self, e: Endian, out: &mut Vec<u8>) {
        match self {
            FsCamLimit::V1 { base, path } => {
                base.encode(e, out);
                path.encode(e, out);
                proof {
                    assert(final(out)@ =~= old(out)@ + (*base, *path).spec_bytes(e));
                }
            },
        }
    }
}

/// An area light.
#[derive(Debug)]
pub enum AreaLight {
    /// The first layout.
    V1 {
        /// The common data of the object.
        base: Versioned<Base>,
        /// The shape.
        shape: Versioned<Shape2>,
    },
    /// Adds two unidentified names.
    V2 {
        /// The common data of the object.
        base: Versioned<Base>,
        /// The shape.
        shape: Versioned<Shape2>,
        /// An unidentified name.
        unk1: Versioned<FixedString32>,
        /// An unidentified name.
        unk2: Versioned<FixedString32>,
    },
}

impl Version for AreaLight {
    open spec fn spec_version(&self) -> u8 {
        match self {
            AreaLight::V1 { .. } => 1,
            AreaLight::V2 { .. } => 2,
        }
    }

    open spec fn spec_supported(version: u8) -> bool {
        version == 1 || version == 2
    }

    open spec fn spec_kind() -> RecordKind {
        RecordKind::AreaLight
    }

    closed spec fn wf(&self) -> bool {
        match self {
            AreaLight::V1 { base, shape } => (*base, *shape).wf(),
            AreaLight::V2 { base, shape, unk1, unk2 } => (*base, (*shape, (*unk1, *unk2))).wf(),
        }
    }

    closed spec fn spec_bytes(&self, e: Endian) -> Seq<u8> {
        match self {
            AreaLight::V1 { base, shape } => (*base, *shape).spec_bytes(e),
            AreaLight::V2 { base, shape, unk1, unk2 } => (*base, (*shape, (*unk1, *unk2))).spec_bytes(e),
        }
    }

    closed spec fn spec_accepts(&self, e: Endian, s: Seq<u8>) -> bool {
        match self {
            AreaLight::V1 { base, shape } => (*base, *shape).spec_accepts(e, s),
            AreaLight::V2 { base, shape, unk1, unk2 } => (*base, (*shape, (*unk1, *unk2))).spec_accepts(e, s),
        }
    }

    closed spec fn same(&self, other: &Self) -> bool {
        match (self, other) {
            (AreaLight::V1 { base, shape }, AreaLight::V1 { base: o_base, shape: o_shape }) => (*base, *shape).same(&(*o_base, *o_shape)),
            (AreaLight::V2 { base, shape, unk1, unk2 }, AreaLight::V2 { base: o_base, shape: o_shape, unk1: o_unk1, unk2: o_unk2 }) => (*base, (*shape, (*unk1, *unk2))).same(&(*o_base, (*o_shape, (*o_unk1, *o_unk2)))),
            _ => false,
        }
    }

    proof fn lemma_canonical(&self, e: Endian) {
        match self {
            AreaLight::V1 { base, shape } => (*base, *shape).lemma_canonical(e),
            AreaLight::V2 { base, shape, unk1, unk2 } => (*base, (*shape, (*unk1, *unk2))).lemma_canonical(e),
        }
    }

    fn version(&self) -> (r: u8) {
        match self {
            AreaLight::V1 { .. } => 1,
            AreaLight::V2 { .. } => 2,
        }
    }

    fn decode_payload(version: u8, e: Endian, buf: &[u8], pos: usize) -> (r: Result<(Self, usize), DecodeError>) {
        match version {
            1 => Self::decode_v1(e, buf, pos),
            2 => Self::decode_v2(e, buf, pos),
            _ => Err(DecodeError::UnsupportedVersion { record: RecordKind::AreaLight, version, pos }),
        }
    }

    fn encode_payload(&self, e: Endian, out: &mut Vec<u8>) {
        match self {
            AreaLight::V1 { .. } => self.encode_v1(e, out),
            AreaLight::V2 { .. } => self.encode_v2(e, out),
        }
    }
}

impl AreaLight {
    /// Writes the payload of the `V1` variant.
    fn encode_v1(&self, e: Endian, out: &mut Vec<u8>)
        requires
            self is V1,
            self.wf(),
        ensures
            final(out)@ == old(out)@ + self.spec_bytes(e),
    {
        match self {
            AreaLight::V1 { base, shape } => {
                base.encode(e, out);
                shape.encode(e, out);
                proof {
                    assert(final(out)@ =~= old(out)@ + (*base, *shape).spec_bytes(e));
                }
            },
            _ => {},
        }
    }

    /// Writes the payload of the `V2` variant.
    fn encode_v2(&self, e: Endian, out: &mut Vec<u8>)
        requires
            self is V2,
            self.wf(),
        ensures
            final(out)@ == old(out)@ + self.spec_bytes(e),
    {
        match self {
            AreaLight::V2 { base, shape, unk1, unk2 } => {
                base.encode(e, out);
                shape.encode(e, out);
                unk1.encode(e, out);
                unk2.encode(e, out);
                proof {
                    assert(final(out)@ =~= old(out)@ + (*base, (*shape, (*unk1, *unk2))).spec_bytes(e));
                }
            },
            _ => {},
        }
    }

    /// Reads the payload of layout 1.
    fn decode_v1(e: Endian, buf: &[u8], pos: usize) -> (r: Result<(Self, usize), DecodeError>)
        requires
            pos <= buf@.len(),
        ensures
            match r {
                Ok((v, end)) => {
                    &&& v.spec_version() == 1
                    &&& end == pos + v.spec_bytes(e).len()
                    &&& end <= buf@.len()
                    &&& v.wf()
                    &&& v.spec_accepts(e, buf@.subrange(pos as int, end as int))
                },
                Err(_) => true,
            },
            forall|x: Self|
                x.spec_version() == 1 && x.wf() && pos + x.spec_bytes(e).len() <= buf@.len()
                    && #[trigger] x.spec_accepts(e, buf@.subrange(pos as int, pos + x.spec_bytes(e).len()))
                    ==> match r {
                    Ok((v, end)) => v.same(&x) && end == pos + x.spec_bytes(e).len(),
                    Err(_) => false,
                },
    {
        match <(Versioned<Base>, Versioned<Shape2>)>::decode(e, buf, pos) {
            Ok(((base, shape), end)) => Ok((AreaLight::V1 { base, shape }, end)),
            Err(err) => Err(err),
        }
    }

    /// Reads the payload of layout 2.
    fn decode_v2(e: Endian, buf: &[u8], pos: usize) -> (r: Result<(Self, usize), DecodeError>)
        requires
            pos <= buf@.len(),
        ensures
            match r {
                Ok((v, end)) => {
                    &&& v.spec_version() == 2
                    &&& end == pos + v.spec_bytes(e).len()
                    &&& end <= buf@.len()
                    &&& v.wf()
                    &&& v.spec_accepts(e, buf@.subrange(pos as int, end as int))
                },
                Err(_) => true,
            },
            forall|x: Self|
                x.spec_version() == 2 && x.wf() && pos + x.spec_bytes(e).len() <= buf@.len()
                    && #[trigger] x.spec_accepts(e, buf@.subrange(pos as int, pos + x.spec_bytes(e).len()))
                    ==> match r {
                    Ok((v, end)) => v.same(&x) && end == pos + x.spec_bytes(e).len(),
                    Err(_) => false,
                },
    {
        match <(Versioned<Base>, (Versioned<Shape2>, (Versioned<FixedString32>, Versioned<FixedString32>)))>::decode(e, buf, pos) {
            Ok(((base, (shape, (unk1, unk2))), end)) => Ok((AreaLight::V2 { base, shape, unk1, unk2 }, end)),
            Err(err) => Err(err),
        }
    }

}

/// A final smash start point.
#[derive(Debug)]
pub enum FsStartPoint {
    /// The first and only layout.
    V1 {
        /// The common data of the object.
        base: Versioned<Base>,
        /// The position.
        pos: Versioned<Vector2>,
        /// The identifier.
        id: Versioned<Id>,
    },
}

impl Version for FsStartPoint {
    open spec fn spec_version(&self) -> u8 {
        match self {
            FsStartPoint::V1 { .. } => 1,
        }
    }

    open spec fn spec_supported(version: u8) -> bool {
        version == 1
    }

    open spec fn spec_kind() -> RecordKind {
        RecordKind::FsStartPoint
    }

    closed spec fn wf(&self) -> bool {
        match self {
            FsStartPoint::V1 { base, pos, id } => (*base, (*pos, *id)).wf(),
        }
    }

    closed spec fn spec_bytes(&self, e: Endian) -> Seq<u8> {
        match self {
            FsStartPoint::V1 { base, pos, id } => (*base, (*pos, *id)).spec_bytes(e),
        }
    }

    closed spec fn spec_accepts(&self, e: Endian, s: Seq<u8>) -> bool {
        match self {
            FsStartPoint::V1 { base, pos, id } => (*base, (*pos, *id)).spec_accepts(e, s),
        }
    }

    closed spec fn same(&self, other: &Self) -> bool {
        match (self, other) {
            (FsStartPoint::V1 { base, pos, id }, FsStartPoint::V1 { base: o_base, pos: o_pos, id: o_id }) => (*base, (*pos, *id)).same(&(*o_base, (*o_pos, *o_id))),
        }
    }

    proof fn lemma_canonical(&self, e: Endian) {
        match self {
            FsStartPoint::V1 { base, pos, id } => (*base, (*pos, *id)).lemma_canonical(e),
        }
    }

    fn version(&self) -> (r: u8) {
        match self {
            FsStartPoint::V1 { .. } => 1,
        }
    }

    fn decode_payload(version: u8, e: Endian, buf: &[u8], pos: usize) -> (r: Result<(Self, usize), DecodeError>) {
        match version {
            1 => {
                match <(Versioned<Base>, (Versioned<Vector2>, Versioned<Id>))>::decode(e, buf, pos) {
                    Ok(((base, (pos, id)), end)) => Ok((FsStartPoint::V1 { base, pos, id }, end)),
                    Err(err) => Err(err),
                }
            },
            _ => Err(DecodeError::UnsupportedVersion { record: RecordKind::FsStartPoint, version, pos }),
        }
    }

    fn encode_payload(&self, e: Endian, out: &mut Vec<u8>) {
        match self {
            FsStartPoint::V1 { base, pos, id } => {
                base.encode(e, out);
                pos.encode(e, out);
                id.encode(e, out);
                proof {
                    assert(final(out)@ =~= old(out)@ + (*base, (*pos, *id)).spec_bytes(e));
                }
            },
        }
    }
}

/// An area hint.
#[derive(Debug)]
pub enum AreaHint {
    /// The first layout.
    V1 {
        /// The common data of the object.
        base: Versioned<Base>,
        /// The shape.
        shape: Versioned<Shape3>,
        /// An unidentified value.
        unk1: i32,
        /// An unidentified value.
        unk2: i32,
        /// An unidentified value.
        unk3: i32,
        /// An unidentified value.
        unk4: i32,
    },
    /// Adds an unidentified byte.
    V2 {
        /// The common data of the object.
        base: Versioned<Base>,
        /// The shape.
        shape: Versioned<Shape3>,
        /// An unidentified value.
        unk1: i32,
        /// An unidentified value.
        unk2: i32,
        /// An unidentified value.
        unk3: i32,
        /// An unidentified value.
        unk4: i32,
        /// An unidentified value.
        unk5: u8,
    },
    /// Adds two unidentified values.
    V3 {
        /// The common data of the object.
        base: Versioned<Base>,
        /// The shape.
        shape: Versioned<Shape3>,
        /// An unidentified value.
        unk1: i32,
        /// An unidentified value.
        unk2: i32,
        /// An unidentified value.
        unk3: i32,
        /// An unidentified value.
        unk4: i32,
        /// An unidentified value.
        unk5: u8,
        /// An unidentified value.
        unk6: i32,
        /// An unidentified value.
        unk7: i32,
    },
}

impl Version for AreaHint {
    open spec fn spec_version(&self) -> u8 {
        match self {
            AreaHint::V1 { .. } => 1,
            AreaHint::V2 { .. } => 2,
            AreaHint::V3 { .. } => 3,
        }
    }

    open spec fn spec_supported(version: u8) -> bool {
        version == 1 || version == 2 || version == 3
    }

    open spec fn spec_kind() -> RecordKind {
        RecordKind::AreaHint
    }

    closed spec fn wf(&self) -> bool {
        match self {
            AreaHint::V1 { base, shape, unk1, unk2, unk3, unk4 } => (*base, (*shape, (*unk1, (*unk2, (*unk3, *unk4))))).wf(),
            AreaHint::V2 { base, shape, unk1, unk2, unk3, unk4, unk5 } => (*base, (*shape, (*unk1, (*unk2, (*unk3, (*unk4, *unk5)))))).wf(),
            AreaHint::V3 { base, shape, unk1, unk2, unk3, unk4, unk5, unk6, unk7 } => (*base, (*shape, (*unk1, (*unk2, (*unk3, (*unk4, (*unk5, (*unk6, *unk7)))))))).wf(),
        }
    }

    closed spec fn spec_bytes(&self, e: Endian) -> Seq<u8> {
        match self {
            AreaHint::V1 { base, shape, unk1, unk2, unk3, unk4 } => (*base, (*shape, (*unk1, (*unk2, (*unk3, *unk4))))).spec_bytes(e),
            AreaHint::V2 { base, shape, unk1, unk2, unk3, unk4, unk5 } => (*base, (*shape, (*unk1, (*unk2, (*unk3, (*unk4, *unk5)))))).spec_bytes(e),
            AreaHint::V3 { base, shape, unk1, unk2, unk3, unk4, unk5, unk6, unk7 } => (*base, (*shape, (*unk1, (*unk2, (*unk3, (*unk4, (*unk5, (*unk6, *unk7)))))))).spec_bytes(e),
        }
    }

    closed spec fn spec_accepts(&self, e: Endian, s: Seq<u8>) -> bool {
        match self {
            AreaHint::V1 { base, shape, unk1, unk2, unk3, unk4 } => (*base, (*shape, (*unk1, (*unk2, (*unk3, *unk4))))).spec_accepts(e, s),
            AreaHint::V2 { base, shape, unk1, unk2, unk3, unk4, unk5 } => (*base, (*shape, (*unk1, (*unk2, (*unk3, (*unk4, *unk5)))))).spec_accepts(e, s),
            AreaHint::V3 { base, shape, unk1, unk2, unk3, unk4, unk5, unk6, unk7 } => (*base, (*shape, (*unk1, (*unk2, (*unk3, (*unk4, (*unk5, (*unk6, *unk7)))))))).spec_accepts(e, s),
        }
    }

    closed spec fn same(&self, other: &Self) -> bool {
        match (self, other) {
            (AreaHint::V1 { base, shape, unk1, unk2, unk3, unk4 }, AreaHint::V1 { base: o_base, shape: o_shape, unk1: o_unk1, unk2: o_unk2, unk3: o_unk3, unk4: o_unk4 }) => (*base, (*shape, (*unk1, (*unk2, (*unk3, *unk4))))).same(&(*o_base, (*o_shape, (*o_unk1, (*o_unk2, (*o_unk3, *o_unk4)))))),
            (AreaHint::V2 { base, shape, unk1, unk2, unk3, unk4, unk5 }, AreaHint::V2 { base: o_base, shape: o_shape, unk1: o_unk1, unk2: o_unk2, unk3: o_unk3, unk4: o_unk4, unk5: o_unk5 }) => (*base, (*shape, (*unk1, (*unk2, (*unk3, (*unk4, *unk5)))))).same(&(*o_base, (*o_shape, (*o_unk1, (*o_unk2, (*o_unk3, (*o_unk4, *o_unk5))))))),
            (AreaHint::V3 { base, shape, unk1, unk2, unk3, unk4, unk5, unk6, unk7 }, AreaHint::V3 { base: o_base, shape: o_shape, unk1: o_unk1, unk2: o_unk2, unk3: o_unk3, unk4: o_unk4, unk5: o_unk5, unk6: o_unk6, unk7: o_unk7 }) => (*base, (*shape, (*unk1, (*unk2, (*unk3, (*unk4, (*unk5, (*unk6, *unk7)))))))).same(&(*o_base, (*o_shape, (*o_unk1, (*o_unk2, (*o_unk3, (*o_unk4, (*o_unk5, (*o_unk6, *o_unk7))))))))),
            _ => false,
        }
    }

    proof fn lemma_canonical(&self, e: Endian) {
        match self {
            AreaHint::V1 { base, shape, unk1, unk2, unk3, unk4 } => (*base, (*shape, (*unk1, (*unk2, (*unk3, *unk4))))).lemma_canonical(e),
            AreaHint::V2 { base, shape, unk1, unk2, unk3, unk4, unk5 } => (*base, (*shape, (*unk1, (*unk2, (*unk3, (*unk4, *unk5)))))).lemma_canonical(e),
            AreaHint::V3 { base, shape, unk1, unk2, unk3, unk4, unk5, unk6, unk7 } => (*base, (*shape, (*unk1, (*unk2, (*unk3, (*unk4, (*unk5, (*unk6, *unk7)))))))).lemma_canonical(e),
        }
    }

    fn version(&self) -> (r: u8) {
        match self {
            AreaHint::V1 { .. } => 1,
            AreaHint::V2 { .. } => 2,
            AreaHint::V3 { .. } => 3,
        }
    }

    fn decode_payload(version: u8, e: Endian, buf: &[u8], pos: usize) -> (r: Result<(Self, usize), DecodeError>) {
        match version {
            1 => Self::decode_v1(e, buf, pos),
            2 => Self::decode_v2(e, buf, pos),
            3 => Self::decode_v3(e, buf, pos),
            _ => Err(DecodeError::UnsupportedVersion { record: RecordKind::AreaHint, version, pos }),
        }
    }

    fn encode_payload(&self, e: Endian, out: &mut Vec<u8>) {
        match self {
            AreaHint::V1 { .. } => self.encode_v1(e, out),
            AreaHint::V2 { .. } => self.encode_v2(e, out),
            AreaHint::V3 { .. } => self.encode_v3(e, out),
        }
    }
}

impl AreaHint {
    /// Writes the payload of the `V1` variant.
    #[verifier::spinoff_prover]
    #[verifier::rlimit(100)]
    fn encode_v1(&self, e: Endian, out: &mut Vec<u8>)
        requires
            self is V1,
            self.wf(),
        ensures
            final(out)@ == old(out)@ + self.spec_bytes(e),
    {
        match self {
            AreaHint::V1 { base, shape, unk1, unk2, unk3, unk4 } => {
                base.encode(e, out);
                shape.encode(e, out);
                proof {
                    assert(out@ =~= old(out)@ + (base.spec_bytes(e) + shape.spec_bytes(e)));
                }
                unk1.encode(e, out);
                proof {
                    assert(out@ =~= old(out)@ + (base.spec_bytes(e) + shape.spec_bytes(e) + unk1.spec_bytes(e)));
                }
                unk2.encode(e, out);
                proof {
                    assert(out@ =~= old(out)@ + (base.spec_bytes(e) + shape.spec_bytes(e) + unk1.spec_bytes(e) + unk2.spec_bytes(e)));
                }
                unk3.encode(e, out);
                proof {
                    assert(out@ =~= old(out)@ + (base.spec_bytes(e) + shape.spec_bytes(e) + unk1.spec_bytes(e) + unk2.spec_bytes(e) + unk3.spec_bytes(e)));
                }
                unk4.encode(e, out);
                proof {
                    assert(final(out)@ =~= old(out)@ + (*base, (*shape, (*unk1, (*unk2, (*unk3, *unk4))))).spec_bytes(e));
                }
            },
            _ => {},
        }
    }

    /// Writes the payload of the `V2` variant.
    #[verifier::spinoff_prover]
    #[verifier::rlimit(100)]
    fn encode_v2(&self, e: Endian, out: &mut Vec<u8>)
        requires
            self is V2,
            self.wf(),
        ensures
            final(out)@ == old(out)@ + self.spec_bytes(e),
    {
        match self {
            AreaHint::V2 { base, shape, unk1, unk2, unk3, unk4, unk5 } => {
                base.encode(e, out);
                shape.encode(e, out);
                proof {
                    assert(out@ =~= old(out)@ + (base.spec_bytes(e) + shape.spec_bytes(e)));
                }
                unk1.encode(e, out);
                proof {
                    assert(out@ =~= old(out)@ + (base.spec_bytes(e) + shape.spec_bytes(e) + unk1.spec_bytes(e)));
                }
                unk2.encode(e, out);
                proof {
                    assert(out@ =~= old(out)@ + (base.spec_bytes(e) + shape.spec_bytes(e) + unk1.spec_bytes(e) + unk2.spec_bytes(e)));
                }
                unk3.encode(e, out);
                proof {
                    assert(out@ =~= old(out)@ + (base.spec_bytes(e) + shape.spec_bytes(e) + unk1.spec_bytes(e) + unk2.spec_bytes(e) + unk3.spec_bytes(e)));
                }
                unk4.encode(e, out);
                proof {
                    assert(out@ =~= old(out)@ + (base.spec_bytes(e) + shape.spec_bytes(e) + unk1.spec_bytes(e) + unk2.spec_bytes(e) + unk3.spec_bytes(e) + unk4.spec_bytes(e)));
                }
                unk5.encode(e, out);
                proof {
                    assert(final(out)@ =~= old(out)@ + (*base, (*shape, (*unk1, (*unk2, (*unk3, (*unk4, *unk5)))))).spec_bytes(e));
                }
            },
            _ => {},
        }
    }

    /// Writes the payload of the `V3` variant.
    #[verifier::spinoff_prover]
    #[verifier::rlimit(100)]
    fn encode_v3(&self, e: Endian, out: &mut Vec<u8>)
        requires
            self is V3,
            self.wf(),
        ensures
            final(out)@ == old(out)@ + self.spec_bytes(e),
    {
        match self {
            AreaHint::V3 { base, shape, unk1, unk2, unk3, unk4, unk5, unk6, unk7 } => {
                base.encode(e, out);
                shape.encode(e, out);
                proof {
                    assert(out@ =~= old(out)@ + (base.spec_bytes(e) + shape.spec_bytes(e)));
                }
                unk1.encode(e, out);
                proof {
                    assert(out@ =~= old(out)@ + (base.spec_bytes(e) + shape.spec_bytes(e) + unk1.spec_bytes(e)));
                }
                unk2.encode(e, out);
                proof {
                    assert(out@ =~= old(out)@ + (base.spec_bytes(e) + shape.spec_bytes(e) + unk1.spec_bytes(e) + unk2.spec_bytes(e)));
                }
                unk3.encode(e, out);
                proof {
                    assert(out@ =~= old(out)@ + (base.spec_bytes(e) + shape.spec_bytes(e) + unk1.spec_bytes(e) + unk2.spec_bytes(e) + unk3.spec_bytes(e)));
                }
                unk4.encode(e, out);
                proof {
                    assert(out@ =~= old(out)@ + (base.spec_bytes(e) + shape.spec_bytes(e) + unk1.spec_bytes(e) + unk2.spec_bytes(e) + unk3.spec_bytes(e) + unk4.spec_bytes(e)));
                }
                unk5.encode(e, out);
                proof {
                    assert(out@ =~= old(out)@ + (base.spec_bytes(e) + shape.spec_bytes(e) + unk1.spec_bytes(e) + unk2.spec_bytes(e) + unk3.spec_bytes(e) + unk4.spec_bytes(e) + unk5.spec_bytes(e)));
                }
                unk6.encode(e, out);
                proof {
                    assert(out@ =~= old(out)@ + (base.spec_bytes(e) + shape.spec_bytes(e) + unk1.spec_bytes(e) + unk2.spec_bytes(e) + unk3.spec_bytes(e) + unk4.spec_bytes(e) + unk5.spec_bytes(e) + unk6.spec_bytes(e)));
                }
                unk7.encode(e, out);
                proof {
                    assert(final(out)@ =~= old(out)@ + (*base, (*shape, (*unk1, (*unk2, (*unk3, (*unk4, (*unk5, (*unk6, *unk7)))))))).spec_bytes(e));
                }
            },
            _ => {},
        }
    }

    /// Reads the payload of layout 1.
    fn decode_v1(e: Endian, buf: &[u8], pos: usize) -> (r: Result<(Self, usize), DecodeError>)
        requires
            pos <= buf@.len(),
        ensures
            match r {
                Ok((v, end)) => {
                    &&& v.spec_version() == 1
                    &&& end == pos + v.spec_bytes(e).len()
                    &&& end <= buf@.len()
                    &&& v.wf()
                    &&& v.spec_accepts(e, buf@.subrange(pos as int, end as int))
                },
                Err(_) => true,
            },
            forall|x: Self|
                x.spec_version() == 1 && x.wf() && pos + x.spec_bytes(e).len() <= buf@.len()
                    && #[trigger] x.spec_accepts(e, buf@.subrange(pos as int, pos + x.spec_bytes(e).len()))
                    ==> match r {
                    Ok((v, end)) => v.same(&x) && end == pos + x.spec_bytes(e).len(),
                    Err(_) => false,
                },
    {
        match <(Versioned<Base>, (Versioned<Shape3>, (i32, (i32, (i32, i32)))))>::decode(e, buf, pos) {
            Ok(((base, (shape, (unk1, (unk2, (unk3, unk4))))), end)) => Ok((AreaHint::V1 { base, shape, unk1, unk2, unk3, unk4 }, end)),
            Err(err) => Err(err),
        }
    }

    /// Reads the payload of layout 2.
    fn decode_v2(e: Endian, buf: &[u8], pos: usize) -> (r: Result<(Self, usize), DecodeError>)
        requires
            pos <= buf@.len(),
        ensures
            match r {
                Ok((v, end)) => {
                    &&& v.spec_version() == 2
                    &&& end == pos + v.spec_bytes(e).len()
                    &&& end <= buf@.len()
                    &&& v.wf()
                    &&& v.spec_accepts(e, buf@.subrange(pos as int, end as int))
                },
                Err(_) => true,
            },
            forall|x: Self|
                x.spec_version() == 2 && x.wf() && pos + x.spec_bytes(e).len() <= buf@.len()
                    && #[trigger] x.spec_accepts(e, buf@.subrange(pos as int, pos + x.spec_bytes(e).len()))
                    ==> match r {
                    Ok((v, end)) => v.same(&x) && end == pos + x.spec_bytes(e).len(),
                    Err(_) => false,
                },
    {
        match <(Versioned<Base>, (Versioned<Shape3>, (i32, (i32, (i32, (i32, u8))))))>::decode(e, buf, pos) {
            Ok(((base, (shape, (unk1, (unk2, (unk3, (unk4, unk5)))))), end)) => Ok((AreaHint::V2 { base, shape, unk1, unk2, unk3, unk4, unk5 }, end)),
            Err(err) => Err(err),
        }
    }

    /// Reads the payload of layout 3.
    fn decode_v3(e: Endian, buf: &[u8], pos: usize) -> (r: Result<(Self, usize), DecodeError>)
        requires
            pos <= buf@.len(),
        ensures
            match r {
                Ok((v, end)) => {
                    &&& v.spec_version() == 3
                    &&& end == pos + v.spec_bytes(e).len()
                    &&& end <= buf@.len()
                    &&& v.wf()
                    &&& v.spec_accepts(e, buf@.subrange(pos as int, end as int))
                },
                Err(_) => true,
            },
            forall|x: Self|
                x.spec_version() == 3 && x.wf() && pos + x.spec_bytes(e).len() <= buf@.len()
                    && #[trigger] x.spec_accepts(e, buf@.subrange(pos as int, pos + x.spec_bytes(e).len()))
                    ==> match r {
                    Ok((v, end)) => v.same(&x) && end == pos + x.spec_bytes(e).len(),
                    Err(_) => false,
                },
    {
        match <(Versioned<Base>, (Versioned<Shape3>, (i32, (i32, (i32, (i32, (u8, (i32, i32))))))))>::decode(e, buf, pos) {
            Ok(((base, (shape, (unk1, (unk2, (unk3, (unk4, (unk5, (unk6, unk7)))))))), end)) => Ok((AreaHint::V3 { base, shape, unk1, unk2, unk3, unk4, unk5, unk6, unk7 }, end)),
            Err(err) => Err(err),
        }
    }

}

/// A split area.
#[derive(Debug)]
pub enum SplitArea {
    /// The first and only layout.
    V1 {
        /// The common data of the object.
        base: Versioned<Base>,
        /// The shape.
        shape: Versioned<Shape3>,
    },
}

impl Version for SplitArea {
    open spec fn spec_version(&self) -> u8 {
        match self {
            SplitArea::V1 { .. } => 1,
        }
    }

    open spec fn spec_supported(version: u8) -> bool {
        version == 1
    }

    open spec fn spec_kind() -> RecordKind {
        RecordKind::SplitArea
    }

    closed spec fn wf(&self) -> bool {
        match self {
            SplitArea::V1 { base, shape } => (*base, *shape).wf(),
        }
    }

    closed spec fn spec_bytes(&self, e: Endian) -> Seq<u8> {
        match self {
            SplitArea::V1 { base, shape } => (*base, *shape).spec_bytes(e),
        }
    }

    closed spec fn spec_accepts(&self, e: Endian, s: Seq<u8>) -> bool {
        match self {
            SplitArea::V1 { base, shape } => (*base, *shape).spec_accepts(e, s),
        }
    }

    closed spec fn same(&self, other: &Self) -> bool {
        match (self, other) {
            (SplitArea::V1 { base, shape }, SplitArea::V1 { base: o_base, shape: o_shape }) => (*base, *shape).same(&(*o_base, *o_shape)),
        }
    }

    proof fn lemma_canonical(&self, e: Endian) {
        match self {
            SplitArea::V1 { base, shape } => (*base, *shape).lemma_canonical(e),
        }
    }

    fn version(&self) -> (r: u8) {
        match self {
            SplitArea::V1 { .. } => 1,
        }
    }

    fn decode_payload(version: u8, e: Endian, buf: &[u8], pos: usize) -> (r: Result<(Self, usize), DecodeError>) {
        match version {
            1 => {
                match <(Versioned<Base>, Versioned<Shape3>)>::decode(e, buf, pos) {
                    Ok(((base, shape), end)) => Ok((SplitArea::V1 { base, shape }, end)),
                    Err(err) => Err(err),
                }
            },
            _ => Err(DecodeError::UnsupportedVersion { record: RecordKind::SplitArea, version, pos }),
        }
    }

    fn encode_payload(&self, e: Endian, out: &mut Vec<u8>) {
        match self {
            SplitArea::V1 { base, shape } => {
                base.encode(e, out);
                shape.encode(e, out);
                proof {
                    assert(final(out)@ =~= old(out)@ + (*base, *shape).spec_bytes(e));
                }
            },
        }
    }
}

} // verus!
