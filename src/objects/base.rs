//! Data common to every object: its metadata, name, and placement.
use vstd::prelude::*;
use crate::id::Id;
use crate::string::{FixedString56, FixedString64};
use crate::vector::Vector3;
use crate::version::{Version, Versioned};
use crate::wire::{DecodeError, Endian, RecordKind, Wire};

verus! {

/// The version metadata of an object.
#[derive(Clone, Copy, Debug, PartialEq, Eq, Structural)]
pub enum VersionInfo {
    /// The first and only layout.
    V1 {
        /// The version of the editor that wrote the object.
        editor_version: u32,
        /// The version of the format the object was written in.
        format_version: u32,
    },
}

impl Version for VersionInfo {
    open spec fn spec_version(&self) -> u8 {
        match self {
            VersionInfo::V1 { .. } => 1,
        }
    }

    open spec fn spec_supported(version: u8) -> bool {
        version == 1
    }

    open spec fn spec_kind() -> RecordKind {
        RecordKind::VersionInfo
    }

    closed spec fn wf(&self) -> bool {
        match self {
            VersionInfo::V1 { editor_version, format_version } => (*editor_version, *format_version).wf(),
        }
    }

    closed spec fn spec_bytes(&self, e: Endian) -> Seq<u8> {
        match self {
            VersionInfo::V1 { editor_version, format_version } => (*editor_version, *format_version).spec_bytes(e),
        }
    }

    closed spec fn spec_accepts(&self, e: Endian, s: Seq<u8>) -> bool {
        match self {
            VersionInfo::V1 { editor_version, format_version } => (*editor_version, *format_version).spec_accepts(e, s),
        }
    }

    closed spec fn same(&self, other: &Self) -> bool {
        *self == *other
    }

    proof fn lemma_canonical(&self, e: Endian) {
        match self {
            VersionInfo::V1 { editor_version, format_version } => (*editor_version, *format_version).lemma_canonical(e),
        }
    }

    fn version(&self) -> (r: u8) {
        match self {
            VersionInfo::V1 { .. } => 1,
        }
    }

    fn decode_payload(version: u8, e: Endian, buf: &[u8], pos: usize) -> (r: Result<(Self, usize), DecodeError>) {
        match version {
            1 => {
                match <(u32, u32)>::decode(e, buf, pos) {
                    Ok(((editor_version, format_version), end)) => Ok((VersionInfo::V1 { editor_version, format_version }, end)),
                    Err(err) => Err(err),
                }
            },
            _ => Err(DecodeError::UnsupportedVersion { record: RecordKind::VersionInfo, version, pos }),
        }
    }

    fn encode_payload(&self, e: Endian, out: &mut Vec<u8>) {
        match self {
            VersionInfo::V1 { editor_version, format_version } => {
                editor_version.encode(e, out);
                format_version.encode(e, out);
                proof {
                    assert(final(out)@ =~= old(out)@ + (*editor_version, *format_version).spec_bytes(e));
                }
            },
        }
    }
}

/// The metadata of an object.
#[derive(Debug)]
pub enum MetaInfo {
    /// The first and only layout.
    V1 {
        /// The version metadata of the object.
        version_info: Versioned<VersionInfo>,
        /// The name of the object.
        name: Versioned<FixedString56>,
    },
}

impl Version for MetaInfo {
    open spec fn spec_version(&self) -> u8 {
        match self {
            MetaInfo::V1 { .. } => 1,
        }
    }

    open spec fn spec_supported(version: u8) -> bool {
        version == 1
    }

    open spec fn spec_kind() -> RecordKind {
        RecordKind::MetaInfo
    }

    closed spec fn wf(&self) -> bool {
        match self {
            MetaInfo::V1 { version_info, name } => (*version_info, *name).wf(),
        }
    }

    closed spec fn spec_bytes(&self, e: Endian) -> Seq<u8> {
        match self {
            MetaInfo::V1 { version_info, name } => (*version_info, *name).spec_bytes(e),
        }
    }

    closed spec fn spec_accepts(&self, e: Endian, s: Seq<u8>) -> bool {
        match self {
            MetaInfo::V1 { version_info, name } => (*version_info, *name).spec_accepts(e, s),
        }
    }

    closed spec fn same(&self, other: &Self) -> bool {
        match (self, other) {
            (MetaInfo::V1 { version_info, name }, MetaInfo::V1 { version_info: o_version_info, name: o_name }) => (*version_info, *name).same(&(*o_version_info, *o_name)),
        }
    }

    proof fn lemma_canonical(&self, e: Endian) {
        match self {
            MetaInfo::V1 { version_info, name } => (*version_info, *name).lemma_canonical(e),
        }
    }

    fn version(&self) -> (r: u8) {
        match self {
            MetaInfo::V1 { .. } => 1,
        }
    }

    fn decode_payload(version: u8, e: Endian, buf: &[u8], pos: usize) -> (r: Result<(Self, usize), DecodeError>) {
        match version {
            1 => {
                match <(Versioned<VersionInfo>, Versioned<FixedString56>)>::decode(e, buf, pos) {
                    Ok(((version_info, name), end)) => Ok((MetaInfo::V1 { version_info, name }, end)),
                    Err(err) => Err(err),
                }
            },
            _ => Err(DecodeError::UnsupportedVersion { record: RecordKind::MetaInfo, version, pos }),
        }
    }

    fn encode_payload(&self, e: Endian, out: &mut Vec<u8>) {
        match self {
            MetaInfo::V1 { version_info, name } => {
                version_info.encode(e, out);
                name.encode(e, out);
                proof {
                    assert(final(out)@ =~= old(out)@ + (*version_info, *name).spec_bytes(e));
                }
            },
        }
    }
}

/// The data common to every object.
#[derive(Debug)]
pub enum Base {
    /// The first layout.
    V1 {
        /// The metadata of the object.
        meta_info: Versioned<MetaInfo>,
        /// The name of the object as seen by the game when classed as dynamic.
        dynamic_name: Versioned<FixedString64>,
    },
    /// Adds the dynamic offset.
    V2 {
        /// The metadata of the object.
        meta_info: Versioned<MetaInfo>,
        /// The name of the object as seen by the game when classed as dynamic.
        dynamic_name: Versioned<FixedString64>,
        /// The displacement of the object when classed as dynamic.
        dynamic_offset: Versioned<Vector3>,
    },
    /// Adds the dynamic flag and the instance identifier and offset.
    V3 {
        /// The metadata of the object.
        meta_info: Versioned<MetaInfo>,
        /// The name of the object as seen by the game when classed as dynamic.
        dynamic_name: Versioned<FixedString64>,
        /// The displacement of the object when classed as dynamic.
        dynamic_offset: Versioned<Vector3>,
        /// Whether the object is classed as dynamic.
        is_dynamic: bool,
        /// The identifier of the instanced object; nonzero for an instanced object.
        instance_id: Versioned<Id>,
        /// The displacement of the object when classed as an instanced object.
        instance_offset: Versioned<Vector3>,
    },
    /// Adds the parent joint.
    V4 {
        /// The metadata of the object.
        meta_info: Versioned<MetaInfo>,
        /// The name of the object as seen by the game when classed as dynamic.
        dynamic_name: Versioned<FixedString64>,
        /// The displacement of the object when classed as dynamic.
        dynamic_offset: Versioned<Vector3>,
        /// Whether the object is classed as dynamic.
        is_dynamic: bool,
        /// The identifier of the instanced object; nonzero for an instanced object.
        instance_id: Versioned<Id>,
        /// The displacement of the object when classed as an instanced object.
        instance_offset: Versioned<Vector3>,
        /// The index of the parent joint when classed as dynamic.
        joint_index: i32,
        /// The name of the parent joint when classed as dynamic.
        joint_name: Versioned<FixedString64>,
    },
}

impl Version for Base {
    open spec fn spec_version(&self) -> u8 {
        match self {
            Base::V1 { .. } => 1,
            Base::V2 { .. } => 2,
            Base::V3 { .. } => 3,
            Base::V4 { .. } => 4,
        }
    }

    open spec fn spec_supported(version: u8) -> bool {
        version == 1 || version == 2 || version == 3 || version == 4
    }

    open spec fn spec_kind() -> RecordKind {
        RecordKind::Base
    }

    closed spec fn wf(&self) -> bool {
        match self {
            Base::V1 { meta_info, dynamic_name } => (*meta_info, *dynamic_name).wf(),
            Base::V2 { meta_info, dynamic_name, dynamic_offset } => (*meta_info, (*dynamic_name, *dynamic_offset)).wf(),
            Base::V3 { meta_info, dynamic_name, dynamic_offset, is_dynamic, instance_id, instance_offset } => (*meta_info, (*dynamic_name, (*dynamic_offset, (*is_dynamic, (*instance_id, *instance_offset))))).wf(),
            Base::V4 { meta_info, dynamic_name, dynamic_offset, is_dynamic, instance_id, instance_offset, joint_index, joint_name } => (*meta_info, (*dynamic_name, (*dynamic_offset, (*is_dynamic, (*instance_id, (*instance_offset, (*joint_index, *joint_name))))))).wf(),
        }
    }

    closed spec fn spec_bytes(&self, e: Endian) -> Seq<u8> {
        match self {
            Base::V1 { meta_info, dynamic_name } => (*meta_info, *dynamic_name).spec_bytes(e),
            Base::V2 { meta_info, dynamic_name, dynamic_offset } => (*meta_info, (*dynamic_name, *dynamic_offset)).spec_bytes(e),
            Base::V3 { meta_info, dynamic_name, dynamic_offset, is_dynamic, instance_id, instance_offset } => (*meta_info, (*dynamic_name, (*dynamic_offset, (*is_dynamic, (*instance_id, *instance_offset))))).spec_bytes(e),
            Base::V4 { meta_info, dynamic_name, dynamic_offset, is_dynamic, instance_id, instance_offset, joint_index, joint_name } => (*meta_info, (*dynamic_name, (*dynamic_offset, (*is_dynamic, (*instance_id, (*instance_offset, (*joint_index, *joint_name))))))).spec_bytes(e),
        }
    }

    closed spec fn spec_accepts(&self, e: Endian, s: Seq<u8>) -> bool {
        match self {
            Base::V1 { meta_info, dynamic_name } => (*meta_info, *dynamic_name).spec_accepts(e, s),
            Base::V2 { meta_info, dynamic_name, dynamic_offset } => (*meta_info, (*dynamic_name, *dynamic_offset)).spec_accepts(e, s),
            Base::V3 { meta_info, dynamic_name, dynamic_offset, is_dynamic, instance_id, instance_offset } => (*meta_info, (*dynamic_name, (*dynamic_offset, (*is_dynamic, (*instance_id, *instance_offset))))).spec_accepts(e, s),
            Base::V4 { meta_info, dynamic_name, dynamic_offset, is_dynamic, instance_id, instance_offset, joint_index, joint_name } => (*meta_info, (*dynamic_name, (*dynamic_offset, (*is_dynamic, (*instance_id, (*instance_offset, (*joint_index, *joint_name))))))).spec_accepts(e, s),
        }
    }

    closed spec fn same(&self, other: &Self) -> bool {
        match (self, other) {
            (Base::V1 { meta_info, dynamic_name }, Base::V1 { meta_info: o_meta_info, dynamic_name: o_dynamic_name }) => (*meta_info, *dynamic_name).same(&(*o_meta_info, *o_dynamic_name)),
            (Base::V2 { meta_info, dynamic_name, dynamic_offset }, Base::V2 { meta_info: o_meta_info, dynamic_name: o_dynamic_name, dynamic_offset: o_dynamic_offset }) => (*meta_info, (*dynamic_name, *dynamic_offset)).same(&(*o_meta_info, (*o_dynamic_name, *o_dynamic_offset))),
            (Base::V3 { meta_info, dynamic_name, dynamic_offset, is_dynamic, instance_id, instance_offset }, Base::V3 { meta_info: o_meta_info, dynamic_name: o_dynamic_name, dynamic_offset: o_dynamic_offset, is_dynamic: o_is_dynamic, instance_id: o_instance_id, instance_offset: o_instance_offset }) => (*meta_info, (*dynamic_name, (*dynamic_offset, (*is_dynamic, (*instance_id, *instance_offset))))).same(&(*o_meta_info, (*o_dynamic_name, (*o_dynamic_offset, (*o_is_dynamic, (*o_instance_id, *o_instance_offset)))))),
            (Base::V4 { meta_info, dynamic_name, dynamic_offset, is_dynamic, instance_id, instance_offset, joint_index, joint_name }, Base::V4 { meta_info: o_meta_info, dynamic_name: o_dynamic_name, dynamic_offset: o_dynamic_offset, is_dynamic: o_is_dynamic, instance_id: o_instance_id, instance_offset: o_instance_offset, joint_index: o_joint_index, joint_name: o_joint_name }) => (*meta_info, (*dynamic_name, (*dynamic_offset, (*is_dynamic, (*instance_id, (*instance_offset, (*joint_index, *joint_name))))))).same(&(*o_meta_info, (*o_dynamic_name, (*o_dynamic_offset, (*o_is_dynamic, (*o_instance_id, (*o_instance_offset, (*o_joint_index, *o_joint_name)))))))),
            _ => false,
        }
    }

    proof fn lemma_canonical(&self, e: Endian) {
        match self {
            Base::V1 { meta_info, dynamic_name } => (*meta_info, *dynamic_name).lemma_canonical(e),
            Base::V2 { meta_info, dynamic_name, dynamic_offset } => (*meta_info, (*dynamic_name, *dynamic_offset)).lemma_canonical(e),
            Base::V3 { meta_info, dynamic_name, dynamic_offset, is_dynamic, instance_id, instance_offset } => (*meta_info, (*dynamic_name, (*dynamic_offset, (*is_dynamic, (*instance_id, *instance_offset))))).lemma_canonical(e),
            Base::V4 { meta_info, dynamic_name, dynamic_offset, is_dynamic, instance_id, instance_offset, joint_index, joint_name } => (*meta_info, (*dynamic_name, (*dynamic_offset, (*is_dynamic, (*instance_id, (*instance_offset, (*joint_index, *joint_name))))))).lemma_canonical(e),
        }
    }

    fn version(&self) -> (r: u8) {
        match self {
            Base::V1 { .. } => 1,
            Base::V2 { .. } => 2,
            Base::V3 { .. } => 3,
            Base::V4 { .. } => 4,
        }
    }

    fn decode_payload(version: u8, e: Endian, buf: &[u8], pos: usize) -> (r: Result<(Self, usize), DecodeError>) {
        match version {
            1 => Self::decode_v1(e, buf, pos),
            2 => Self::decode_v2(e, buf, pos),
            3 => Self::decode_v3(e, buf, pos),
            4 => Self::decode_v4(e, buf, pos),
            _ => Err(DecodeError::UnsupportedVersion { record: RecordKind::Base, version, pos }),
        }
    }

    fn encode_payload(&self, e: Endian, out: &mut Vec<u8>) {
        match self {
            Base::V1 { .. } => self.encode_v1(e, out),
            Base::V2 { .. } => self.encode_v2(e, out),
            Base::V3 { .. } => self.encode_v3(e, out),
            Base::V4 { .. } => self.encode_v4(e, out),
        }
    }
}

impl Base {
    /// Writes the payload of the `V1` variant.
    fn encode_v1(&self, e: Endian, out: &mut Vec<u8>)
        requires
            self is V1,
            self.wf(),
        ensures
            final(out)@ == old(out)@ + self.spec_bytes(e),
    {
        match self {
            Base::V1 { meta_info, dynamic_name } => {
                meta_info.encode(e, out);
                dynamic_name.encode(e, out);
                proof {
                    assert(final(out)@ =~= old(out)@ + (*meta_info, *dynamic_name).spec_bytes(e));
                }
            },
            _ => {},
        }
    }

    /// Writes the payload of the `V2` variant.
    fn encode_v2(&self, e: Endian, out: &mut Vec<u8>)
        requires
            self is V2,
            self.wf(),
        ensures
            final(out)@ == old(out)@ + self.spec_bytes(e),
    {
        match self {
            Base::V2 { meta_info, dynamic_name, dynamic_offset } => {
                meta_info.encode(e, out);
                dynamic_name.encode(e, out);
                dynamic_offset.encode(e, out);
                proof {
                    assert(final(out)@ =~= old(out)@ + (*meta_info, (*dynamic_name, *dynamic_offset)).spec_bytes(e));
                }
            },
            _ => {},
        }
    }

    /// Writes the payload of the `V3` variant.
    #[verifier::spinoff_prover]
    #[verifier::rlimit(100)]
    fn encode_v3(&self, e: Endian, out: &mut Vec<u8>)
        requires
            self is V3,
            self.wf(),
        ensures
            final(out)@ == old(out)@ + self.spec_bytes(e),
    {
        match self {
            Base::V3 { meta_info, dynamic_name, dynamic_offset, is_dynamic, instance_id, instance_offset } => {
                meta_info.encode(e, out);
                dynamic_name.encode(e, out);
                proof {
                    assert(out@ =~= old(out)@ + (meta_info.spec_bytes(e) + dynamic_name.spec_bytes(e)));
                }
                dynamic_offset.encode(e, out);
                proof {
                    assert(out@ =~= old(out)@ + (meta_info.spec_bytes(e) + dynamic_name.spec_bytes(e) + dynamic_offset.spec_bytes(e)));
                }
                is_dynamic.encode(e, out);
                proof {
                    assert(out@ =~= old(out)@ + (meta_info.spec_bytes(e) + dynamic_name.spec_bytes(e) + dynamic_offset.spec_bytes(e) + is_dynamic.spec_bytes(e)));
                }
                instance_id.encode(e, out);
                proof {
                    assert(out@ =~= old(out)@ + (meta_info.spec_bytes(e) + dynamic_name.spec_bytes(e) + dynamic_offset.spec_bytes(e) + is_dynamic.spec_bytes(e) + instance_id.spec_bytes(e)));
                }
                instance_offset.encode(e, out);
                proof {
                    assert(final(out)@ =~= old(out)@ + (*meta_info, (*dynamic_name, (*dynamic_offset, (*is_dynamic, (*instance_id, *instance_offset))))).spec_bytes(e));
                }
            },
            _ => {},
        }
    }

    /// Writes the payload of the `V4` variant.
    #[verifier::spinoff_prover]
    #[verifier::rlimit(100)]
    fn encode_v4(&self, e: Endian, out: &mut Vec<u8>)
        requires
            self is V4,
            self.wf(),
        ensures
            final(out)@ == old(out)@ + self.spec_bytes(e),
    {
        match self {
            Base::V4 { meta_info, dynamic_name, dynamic_offset, is_dynamic, instance_id, instance_offset, joint_index, joint_name } => {
                meta_info.encode(e, out);
                dynamic_name.encode(e, out);
                proof {
                    assert(out@ =~= old(out)@ + (meta_info.spec_bytes(e) + dynamic_name.spec_bytes(e)));
                }
                dynamic_offset.encode(e, out);
                proof {
                    assert(out@ =~= old(out)@ + (meta_info.spec_bytes(e) + dynamic_name.spec_bytes(e) + dynamic_offset.spec_bytes(e)));
                }
                is_dynamic.encode(e, out);
                proof {
                    assert(out@ =~= old(out)@ + (meta_info.spec_bytes(e) + dynamic_name.spec_bytes(e) + dynamic_offset.spec_bytes(e) + is_dynamic.spec_bytes(e)));
                }
                instance_id.encode(e, out);
                proof {
                    assert(out@ =~= old(out)@ + (meta_info.spec_bytes(e) + dynamic_name.spec_bytes(e) + dynamic_offset.spec_bytes(e) + is_dynamic.spec_bytes(e) + instance_id.spec_bytes(e)));
                }
                instance_offset.encode(e, out);
                proof {
                    assert(out@ =~= old(out)@ + (meta_info.spec_bytes(e) + dynamic_name.spec_bytes(e) + dynamic_offset.spec_bytes(e) + is_dynamic.spec_bytes(e) + instance_id.spec_bytes(e) + instance_offset.spec_bytes(e)));
                }
                joint_index.encode(e, out);
                proof {
                    assert(out@ =~= old(out)@ + (meta_info.spec_bytes(e) + dynamic_name.spec_bytes(e) + dynamic_offset.spec_bytes(e) + is_dynamic.spec_bytes(e) + instance_id.spec_bytes(e) + instance_offset.spec_bytes(e) + joint_index.spec_bytes(e)));
                }
                joint_name.encode(e, out);
                proof {
                    assert(final(out)@ =~= old(out)@ + (*meta_info, (*dynamic_name, (*dynamic_offset, (*is_dynamic, (*instance_id, (*instance_offset, (*joint_index, *joint_name))))))).spec_bytes(e));
                }
            },
            _ => {},
        }
    }

    /// Reads the payload of layout 1.
    fn decode_v1(e: Endian, buf: &[u8], pos: usize) -> (r: Result<(Self, usize), DecodeError>)
        requires
            pos <= buf@.len(),
        ensures
            match r {
                Ok((v, end)) => {
                    &&& v.spec_version() == 1
                    &&& end == pos + v.spec_bytes(e).len()
                    &&& end <= buf@.len()
                    &&& v.wf()
                    &&& v.spec_accepts(e, buf@.subrange(pos as int, end as int))
                },
                Err(_) => true,
            },
            forall|x: Self|
                x.spec_version() == 1 && x.wf() && pos + x.spec_bytes(e).len() <= buf@.len()
                    && #[trigger] x.spec_accepts(e, buf@.subrange(pos as int, pos + x.spec_bytes(e).len()))
                    ==> match r {
                    Ok((v, end)) => v.same(&x) && end == pos + x.spec_bytes(e).len(),
                    Err(_) => false,
                },
    {
        match <(Versioned<MetaInfo>, Versioned<FixedString64>)>::decode(e, buf, pos) {
            Ok(((meta_info, dynamic_name), end)) => Ok((Base::V1 { meta_info, dynamic_name }, end)),
            Err(err) => Err(err),
        }
    }

    /// Reads the payload of layout 2.
    fn decode_v2(e: Endian, buf: &[u8], pos: usize) -> (r: Result<(Self, usize), DecodeError>)
        requires
            pos <= buf@.len(),
        ensures
            match r {
                Ok((v, end)) => {
                    &&& v.spec_version() == 2
                    &&& end == pos + v.spec_bytes(e).len()
                    &&& end <= buf@.len()
                    &&& v.wf()
                    &&& v.spec_accepts(e, buf@.subrange(pos as int, end as int))
                },
                Err(_) => true,
            },
            forall|x: Self|
                x.spec_version() == 2 && x.wf() && pos + x.spec_bytes(e).len() <= buf@.len()
                    && #[trigger] x.spec_accepts(e, buf@.subrange(pos as int, pos + x.spec_bytes(e).len()))
                    ==> match r {
                    Ok((v, end)) => v.same(&x) && end == pos + x.spec_bytes(e).len(),
                    Err(_) => false,
                },
    {
        match <(Versioned<MetaInfo>, (Versioned<FixedString64>, Versioned<Vector3>))>::decode(e, buf, pos) {
            Ok(((meta_info, (dynamic_name, dynamic_offset)), end)) => Ok((Base::V2 { meta_info, dynamic_name, dynamic_offset }, end)),
            Err(err) => Err(err),
        }
    }

    /// Reads the payload of layout 3.
    fn decode_v3(e: Endian, buf: &[u8], pos: usize) -> (r: Result<(Self, usize), DecodeError>)
        requires
            pos <= buf@.len(),
        ensures
            match r {
                Ok((v, end)) => {
                    &&& v.spec_version() == 3
                    &&& end == pos + v.spec_bytes(e).len()
                    &&& end <= buf@.len()
                    &&& v.wf()
                    &&& v.spec_accepts(e, buf@.subrange(pos as int, end as int))
                },
                Err(_) => true,
            },
            forall|x: Self|
                x.spec_version() == 3 && x.wf() && pos + x.spec_bytes(e).len() <= buf@.len()
                    && #[trigger] x.spec_accepts(e, buf@.subrange(pos as int, pos + x.spec_bytes(e).len()))
                    ==> match r {
                    Ok((v, end)) => v.same(&x) && end == pos + x.spec_bytes(e).len(),
                    Err(_) => false,
                },
    {
        match <(Versioned<MetaInfo>, (Versioned<FixedString64>, (Versioned<Vector3>, (bool, (Versioned<Id>, Versioned<Vector3>)))))>::decode(e, buf, pos) {
            Ok(((meta_info, (dynamic_name, (dynamic_offset, (is_dynamic, (instance_id, instance_offset))))), end)) => Ok((Base::V3 { meta_info, dynamic_name, dynamic_offset, is_dynamic, instance_id, instance_offset }, end)),
            Err(err) => Err(err),
        }
    }

    /// Reads the payload of layout 4.
    fn decode_v4(e: Endian, buf: &[u8], pos: usize) -> (r: Result<(Self, usize), DecodeError>)
        requires
            pos <= buf@.len(),
        ensures
            match r {
                Ok((v, end)) => {
                    &&& v.spec_version() == 4
                    &&& end == pos + v.spec_bytes(e).len()
                    &&& end <= buf@.len()
                    &&& v.wf()
                    &&& v.spec_accepts(e, buf@.subrange(pos as int, end as int))
                },
                Err(_) => true,
            },
            forall|x: Self|
                x.spec_version() == 4 && x.wf() && pos + x.spec_bytes(e).len() <= buf@.len()
                    && #[trigger] x.spec_accepts(e, buf@.subrange(pos as int, pos + x.spec_bytes(e).len()))
                    ==> match r {
                    Ok((v, end)) => v.same(&x) && end == pos + x.spec_bytes(e).len(),
                    Err(_) => false,
                },
    {
        match <(Versioned<MetaInfo>, (Versioned<FixedString64>, (Versioned<Vector3>, (bool, (Versioned<Id>, (Versioned<Vector3>, (i32, Versioned<FixedString64>)))))))>::decode(e, buf, pos) {
            Ok(((meta_info, (dynamic_name, (dynamic_offset, (is_dynamic, (instance_id, (instance_offset, (joint_index, joint_name))))))), end)) => Ok((Base::V4 { meta_info, dynamic_name, dynamic_offset, is_dynamic, instance_id, instance_offset, joint_index, joint_name }, end)),
            Err(err) => Err(err),
        }
    }

}

} // verus!
