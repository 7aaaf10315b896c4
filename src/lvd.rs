//! The file envelope: a legacy word, then the versioned top-level record that holds one array
//! per object type.
use vstd::prelude::*;
use crate::array::Array;
use crate::objects::collision::Collision;
use crate::objects::damage_shape::DamageShape;
use crate::objects::enemy_generator::EnemyGenerator;
use crate::objects::field_smash::{AreaHint, AreaLight, FsAreaCam, FsAreaLock, FsCamLimit, FsItem, FsStartPoint, FsUnknown, SplitArea};
use crate::objects::general_shape::{GeneralShape2, GeneralShape3};
use crate::objects::item_popup::ItemPopup;
use crate::objects::point::Point;
use crate::objects::ptrainer::{PTrainerFloatingFloor, PTrainerRange};
use crate::objects::region::Region;
use crate::run::{lemma_run, Run};
use crate::version::{Version, Versioned};
use crate::wire::{lemma_append_assoc, lemma_window_split, DecodeError, Endian, RecordKind, Wire};

verus! {

/// The signature every top-level record starts with: version 1 of the signature record, then
/// the bytes `LVD1`.
pub open spec fn signature_bytes() -> Seq<u8> {
    seq![1u8, 0x4cu8, 0x56u8, 0x44u8, 0x31u8]
}

/// Checks the signature at `pos` and returns the position just past it.
pub fn check_signature(buf: &[u8], pos: usize) -> (r: Result<usize, DecodeError>)
    requires
        pos <= buf@.len(),
    ensures
        pos + 5 > buf@.len() ==> r == Err::<usize, DecodeError>(DecodeError::Truncated { pos }),
        pos + 5 <= buf@.len() && buf@.subrange(pos as int, pos + 5) == signature_bytes() ==> r == Ok::<usize, DecodeError>((pos + 5) as usize),
        pos + 5 <= buf@.len() && buf@.subrange(pos as int, pos + 5) != signature_bytes() ==> r == Err::<usize, DecodeError>(DecodeError::BadMagic { pos }),
        r matches Ok(p) ==> p == pos + 5 && p <= buf@.len() && buf@.subrange(pos as int, pos + 5) == signature_bytes(),
{
    if buf.len() - pos < 5 {
        return Err(DecodeError::Truncated { pos });
    }
    if buf[pos] != 1 || buf[pos + 1] != 0x4c || buf[pos + 2] != 0x56 || buf[pos + 3] != 0x44 || buf[pos + 4] != 0x31 {
        proof {
            let w = buf@.subrange(pos as int, pos + 5);
            if w == signature_bytes() {
                assert(w[0] == buf@[pos as int] && w[1] == buf@[pos + 1] && w[2] == buf@[pos + 2]);
                assert(w[3] == buf@[pos + 3] && w[4] == buf@[pos + 4]);
            }
        }
        return Err(DecodeError::BadMagic { pos });
    }
    proof {
        assert(buf@.subrange(pos as int, pos + 5) =~= signature_bytes());
    }
    Ok(pos + 5)
}

/// The signature at the start of the top-level record.
#[derive(Clone, Copy, Debug)]
pub struct Signature {}

impl Wire for Signature {
    open spec fn wf(&self) -> bool {
        true
    }

    open spec fn spec_bytes(&self, e: Endian) -> Seq<u8> {
        signature_bytes()
    }

    open spec fn spec_accepts(&self, e: Endian, s: Seq<u8>) -> bool {
        s == signature_bytes()
    }

    open spec fn same(&self, other: &Self) -> bool {
        true
    }

    proof fn lemma_canonical(&self, e: Endian) {
    }

    fn decode(e: Endian, buf: &[u8], pos: usize) -> (r: Result<(Self, usize), DecodeError>) {
        let r = check_signature(buf, pos);
        proof {
            assert(signature_bytes().len() == 5);
            if pos + 5 <= buf@.len() && buf@.subrange(pos as int, pos + 5) == signature_bytes() {
                assert(r is Ok);
            }
        }
        match r {
            Ok(end) => Ok((Signature {}, end)),
            Err(err) => Err(err),
        }
    }

    fn encode(&self, e: Endian, out: &mut Vec<u8>) {
        out.push(1);
        out.push(0x4c);
        out.push(0x56);
        out.push(0x44);
        out.push(0x31);
        proof {
            assert(final(out)@ =~= old(out)@ + signature_bytes());
        }
    }
}

/// The object arrays of a level, one layout per format version.
///
/// Every layout starts with the signature, then holds one versioned array per object type, in
/// the order the variant lists them.
#[derive(Debug)]
pub enum Lvd {
    /// The first layout.
    V1 {
        /// The collisions.
        collisions: Versioned<Array<Collision>>,
        /// The initial spawn points.
        start_positions: Versioned<Array<Point>>,
        /// The respawn points.
        restart_positions: Versioned<Array<Point>>,
        /// The regions the camera may pan to.
        camera_regions: Versioned<Array<Region>>,
        /// The blast zones.
        death_regions: Versioned<Array<Region>>,
        /// The enemy generators.
        enemy_generators: Versioned<Array<EnemyGenerator>>,
    },
    /// Adds the final smash items.
    V2 {
        /// The collisions.
        collisions: Versioned<Array<Collision>>,
        /// The initial spawn points.
        start_positions: Versioned<Array<Point>>,
        /// The respawn points.
        restart_positions: Versioned<Array<Point>>,
        /// The regions the camera may pan to.
        camera_regions: Versioned<Array<Region>>,
        /// The blast zones.
        death_regions: Versioned<Array<Region>>,
        /// The enemy generators.
        enemy_generators: Versioned<Array<EnemyGenerator>>,
        /// The final smash items.
        fs_items: Versioned<Array<FsItem>>,
    },
    /// Adds the final smash camera and lock objects.
    V3 {
        /// The collisions.
        collisions: Versioned<Array<Collision>>,
        /// The initial spawn points.
        start_positions: Versioned<Array<Point>>,
        /// The respawn points.
        restart_positions: Versioned<Array<Point>>,
        /// The regions the camera may pan to.
        camera_regions: Versioned<Array<Region>>,
        /// The blast zones.
        death_regions: Versioned<Array<Region>>,
        /// The enemy generators.
        enemy_generators: Versioned<Array<EnemyGenerator>>,
        /// The final smash items.
        fs_items: Versioned<Array<FsItem>>,
        /// Unidentified final smash objects.
        fs_unknown: Versioned<Array<FsUnknown>>,
        /// The final smash camera areas.
        fs_area_cams: Versioned<Array<FsAreaCam>>,
        /// The final smash area locks.
        fs_area_locks: Versioned<Array<FsAreaLock>>,
        /// The final smash camera limits.
        fs_cam_limits: Versioned<Array<FsCamLimit>>,
    },
    /// Adds the damage shapes.
    V4 {
        /// The collisions.
        collisions: Versioned<Array<Collision>>,
        /// The initial spawn points.
        start_positions: Versioned<Array<Point>>,
        /// The respawn points.
        restart_positions: Versioned<Array<Point>>,
        /// The regions the camera may pan to.
        camera_regions: Versioned<Array<Region>>,
        /// The blast zones.
        death_regions: Versioned<Array<Region>>,
        /// The enemy generators.
        enemy_generators: Versioned<Array<EnemyGenerator>>,
        /// The final smash items.
        fs_items: Versioned<Array<FsItem>>,
        /// Unidentified final smash objects.
        fs_unknown: Versioned<Array<FsUnknown>>,
        /// The final smash camera areas.
        fs_area_cams: Versioned<Array<FsAreaCam>>,
        /// The final smash area locks.
        fs_area_locks: Versioned<Array<FsAreaLock>>,
        /// The final smash camera limits.
        fs_cam_limits: Versioned<Array<FsCamLimit>>,
        /// The damage shapes.
        damage_shapes: Versioned<Array<DamageShape>>,
    },
    /// Adds the item popups.
    V5 {
        /// The collisions.
        collisions: Versioned<Array<Collision>>,
        /// The initial spawn points.
        start_positions: Versioned<Array<Point>>,
        /// The respawn points.
        restart_positions: Versioned<Array<Point>>,
        /// The regions the camera may pan to.
        camera_regions: Versioned<Array<Region>>,
        /// The blast zones.
        death_regions: Versioned<Array<Region>>,
        /// The enemy generators.
        enemy_generators: Versioned<Array<EnemyGenerator>>,
        /// The final smash items.
        fs_items: Versioned<Array<FsItem>>,
        /// Unidentified final smash objects.
        fs_unknown: Versioned<Array<FsUnknown>>,
        /// The final smash camera areas.
        fs_area_cams: Versioned<Array<FsAreaCam>>,
        /// The final smash area locks.
        fs_area_locks: Versioned<Array<FsAreaLock>>,
        /// The final smash camera limits.
        fs_cam_limits: Versioned<Array<FsCamLimit>>,
        /// The damage shapes.
        damage_shapes: Versioned<Array<DamageShape>>,
        /// The item popup areas.
        item_popups: Versioned<Array<ItemPopup>>,
    },
    /// Adds the general shapes.
    V6 {
        /// The collisions.
        collisions: Versioned<Array<Collision>>,
        /// The initial spawn points.
        start_positions: Versioned<Array<Point>>,
        /// The respawn points.
        restart_positions: Versioned<Array<Point>>,
        /// The regions the camera may pan to.
        camera_regions: Versioned<Array<Region>>,
        /// The blast zones.
        death_regions: Versioned<Array<Region>>,
        /// The enemy generators.
        enemy_generators: Versioned<Array<EnemyGenerator>>,
        /// The final smash items.
        fs_items: Versioned<Array<FsItem>>,
        /// Unidentified final smash objects.
        fs_unknown: Versioned<Array<FsUnknown>>,
        /// The final smash camera areas.
        fs_area_cams: Versioned<Array<FsAreaCam>>,
        /// The final smash area locks.
        fs_area_locks: Versioned<Array<FsAreaLock>>,
        /// The final smash camera limits.
        fs_cam_limits: Versioned<Array<FsCamLimit>>,
        /// The damage shapes.
        damage_shapes: Versioned<Array<DamageShape>>,
        /// The item popup areas.
        item_popups: Versioned<Array<ItemPopup>>,
        /// The general two-dimensional shapes.
        general_shapes2: Versioned<Array<GeneralShape2>>,
        /// The general three-dimensional shapes.
        general_shapes3: Versioned<Array<GeneralShape3>>,
    },
    /// Adds the area lights.
    V7 {
        /// The collisions.
        collisions: Versioned<Array<Collision>>,
        /// The initial spawn points.
        start_positions: Versioned<Array<Point>>,
        /// The respawn points.
        restart_positions: Versioned<Array<Point>>,
        /// The regions the camera may pan to.
        camera_regions: Versioned<Array<Region>>,
        /// The blast zones.
        death_regions: Versioned<Array<Region>>,
        /// The enemy generators.
        enemy_generators: Versioned<Array<EnemyGenerator>>,
        /// The final smash items.
        fs_items: Versioned<Array<FsItem>>,
        /// Unidentified final smash objects.
        fs_unknown: Versioned<Array<FsUnknown>>,
        /// The final smash camera areas.
        fs_area_cams: Versioned<Array<FsAreaCam>>,
        /// The final smash area locks.
        fs_area_locks: Versioned<Array<FsAreaLock>>,
        /// The final smash camera limits.
        fs_cam_limits: Versioned<Array<FsCamLimit>>,
        /// The damage shapes.
        damage_shapes: Versioned<Array<DamageShape>>,
        /// The item popup areas.
        item_popups: Versioned<Array<ItemPopup>>,
        /// The general two-dimensional shapes.
        general_shapes2: Versioned<Array<GeneralShape2>>,
        /// The general three-dimensional shapes.
        general_shapes3: Versioned<Array<GeneralShape3>>,
        /// The area lights.
        area_lights: Versioned<Array<AreaLight>>,
    },
    /// Adds the final smash start points.
    V8 {
        /// The collisions.
        collisions: Versioned<Array<Collision>>,
        /// The initial spawn points.
        start_positions: Versioned<Array<Point>>,
        /// The respawn points.
        restart_positions: Versioned<Array<Point>>,
        /// The regions the camera may pan to.
        camera_regions: Versioned<Array<Region>>,
        /// The blast zones.
        death_regions: Versioned<Array<Region>>,
        /// The enemy generators.
        enemy_generators: Versioned<Array<EnemyGenerator>>,
        /// The final smash items.
        fs_items: Versioned<Array<FsItem>>,
        /// Unidentified final smash objects.
        fs_unknown: Versioned<Array<FsUnknown>>,
        /// The final smash camera areas.
        fs_area_cams: Versioned<Array<FsAreaCam>>,
        /// The final smash area locks.
        fs_area_locks: Versioned<Array<FsAreaLock>>,
        /// The final smash camera limits.
        fs_cam_limits: Versioned<Array<FsCamLimit>>,
        /// The damage shapes.
        damage_shapes: Versioned<Array<DamageShape>>,
        /// The item popup areas.
        item_popups: Versioned<Array<ItemPopup>>,
        /// The general two-dimensional shapes.
        general_shapes2: Versioned<Array<GeneralShape2>>,
        /// The general three-dimensional shapes.
        general_shapes3: Versioned<Array<GeneralShape3>>,
        /// The area lights.
        area_lights: Versioned<Array<AreaLight>>,
        /// The final smash start points.
        fs_start_points: Versioned<Array<FsStartPoint>>,
    },
    /// Adds the area hints.
    V9 {
        /// The collisions.
        collisions: Versioned<Array<Collision>>,
        /// The initial spawn points.
        start_positions: Versioned<Array<Point>>,
        /// The respawn points.
        restart_positions: Versioned<Array<Point>>,
        /// The regions the camera may pan to.
        camera_regions: Versioned<Array<Region>>,
        /// The blast zones.
        death_regions: Versioned<Array<Region>>,
        /// The enemy generators.
        enemy_generators: Versioned<Array<EnemyGenerator>>,
        /// The final smash items.
        fs_items: Versioned<Array<FsItem>>,
        /// Unidentified final smash objects.
        fs_unknown: Versioned<Array<FsUnknown>>,
        /// The final smash camera areas.
        fs_area_cams: Versioned<Array<FsAreaCam>>,
        /// The final smash area locks.
        fs_area_locks: Versioned<Array<FsAreaLock>>,
        /// The final smash camera limits.
        fs_cam_limits: Versioned<Array<FsCamLimit>>,
        /// The damage shapes.
        damage_shapes: Versioned<Array<DamageShape>>,
        /// The item popup areas.
        item_popups: Versioned<Array<ItemPopup>>,
        /// The general two-dimensional shapes.
        general_shapes2: Versioned<Array<GeneralShape2>>,
        /// The general three-dimensional shapes.
        general_shapes3: Versioned<Array<GeneralShape3>>,
        /// The area lights.
        area_lights: Versioned<Array<AreaLight>>,
        /// The final smash start points.
        fs_start_points: Versioned<Array<FsStartPoint>>,
        /// The area hints.
        area_hints: Versioned<Array<AreaHint>>,
    },
    /// Adds the split areas.
    V10 {
        /// The collisions.
        collisions: Versioned<Array<Collision>>,
        /// The initial spawn points.
        start_positions: Versioned<Array<Point>>,
        /// The respawn points.
        restart_positions: Versioned<Array<Point>>,
        /// The regions the camera may pan to.
        camera_regions: Versioned<Array<Region>>,
        /// The blast zones.
        death_regions: Versioned<Array<Region>>,
        /// The enemy generators.
        enemy_generators: Versioned<Array<EnemyGenerator>>,
        /// The final smash items.
        fs_items: Versioned<Array<FsItem>>,
        /// Unidentified final smash objects.
        fs_unknown: Versioned<Array<FsUnknown>>,
        /// The final smash camera areas.
        fs_area_cams: Versioned<Array<FsAreaCam>>,
        /// The final smash area locks.
        fs_area_locks: Versioned<Array<FsAreaLock>>,
        /// The final smash camera limits.
        fs_cam_limits: Versioned<Array<FsCamLimit>>,
        /// The damage shapes.
        damage_shapes: Versioned<Array<DamageShape>>,
        /// The item popup areas.
        item_popups: Versioned<Array<ItemPopup>>,
        /// The general two-dimensional shapes.
        general_shapes2: Versioned<Array<GeneralShape2>>,
        /// The general three-dimensional shapes.
        general_shapes3: Versioned<Array<GeneralShape3>>,
        /// The area lights.
        area_lights: Versioned<Array<AreaLight>>,
        /// The final smash start points.
        fs_start_points: Versioned<Array<FsStartPoint>>,
        /// The area hints.
        area_hints: Versioned<Array<AreaHint>>,
        /// The split areas.
        split_areas: Versioned<Array<SplitArea>>,
    },
    /// Adds the shrunken regions.
    V11 {
        /// The collisions.
        collisions: Versioned<Array<Collision>>,
        /// The initial spawn points.
        start_positions: Versioned<Array<Point>>,
        /// The respawn points.
        restart_positions: Versioned<Array<Point>>,
        /// The regions the camera may pan to.
        camera_regions: Versioned<Array<Region>>,
        /// The blast zones.
        death_regions: Versioned<Array<Region>>,
        /// The enemy generators.
        enemy_generators: Versioned<Array<EnemyGenerator>>,
        /// The final smash items.
        fs_items: Versioned<Array<FsItem>>,
        /// Unidentified final smash objects.
        fs_unknown: Versioned<Array<FsUnknown>>,
        /// The final smash camera areas.
        fs_area_cams: Versioned<Array<FsAreaCam>>,
        /// The final smash area locks.
        fs_area_locks: Versioned<Array<FsAreaLock>>,
        /// The final smash camera limits.
        fs_cam_limits: Versioned<Array<FsCamLimit>>,
        /// The damage shapes.
        damage_shapes: Versioned<Array<DamageShape>>,
        /// The item popup areas.
        item_popups: Versioned<Array<ItemPopup>>,
        /// The general two-dimensional shapes.
        general_shapes2: Versioned<Array<GeneralShape2>>,
        /// The general three-dimensional shapes.
        general_shapes3: Versioned<Array<GeneralShape3>>,
        /// The area lights.
        area_lights: Versioned<Array<AreaLight>>,
        /// The final smash start points.
        fs_start_points: Versioned<Array<FsStartPoint>>,
        /// The area hints.
        area_hints: Versioned<Array<AreaHint>>,
        /// The split areas.
        split_areas: Versioned<Array<SplitArea>>,
        /// The camera regions after shrinking for sudden death.
        shrinked_camera_regions: Versioned<Array<Region>>,
        /// The blast zones after shrinking for sudden death.
        shrinked_death_regions: Versioned<Array<Region>>,
    },
    /// Adds the Pokemon Trainer ranges.
    V12 {
        /// The collisions.
        collisions: Versioned<Array<Collision>>,
        /// The initial spawn points.
        start_positions: Versioned<Array<Point>>,
        /// The respawn points.
        restart_positions: Versioned<Array<Point>>,
        /// The regions the camera may pan to.
        camera_regions: Versioned<Array<Region>>,
        /// The blast zones.
        death_regions: Versioned<Array<Region>>,
        /// The enemy generators.
        enemy_generators: Versioned<Array<EnemyGenerator>>,
        /// The final smash items.
        fs_items: Versioned<Array<FsItem>>,
        /// Unidentified final smash objects.
        fs_unknown: Versioned<Array<FsUnknown>>,
        /// The final smash camera areas.
        fs_area_cams: Versioned<Array<FsAreaCam>>,
        /// The final smash area locks.
        fs_area_locks: Versioned<Array<FsAreaLock>>,
        /// The final smash camera limits.
        fs_cam_limits: Versioned<Array<FsCamLimit>>,
        /// The damage shapes.
        damage_shapes: Versioned<Array<DamageShape>>,
        /// The item popup areas.
        item_popups: Versioned<Array<ItemPopup>>,
        /// The Pokemon Trainer ranges.
        ptrainer_ranges: Versioned<Array<PTrainerRange>>,
        /// The general two-dimensional shapes.
        general_shapes2: Versioned<Array<GeneralShape2>>,
        /// The general three-dimensional shapes.
        general_shapes3: Versioned<Array<GeneralShape3>>,
        /// The area lights.
        area_lights: Versioned<Array<AreaLight>>,
        /// The final smash start points.
        fs_start_points: Versioned<Array<FsStartPoint>>,
        /// The area hints.
        area_hints: Versioned<Array<AreaHint>>,
        /// The split areas.
        split_areas: Versioned<Array<SplitArea>>,
        /// The camera regions after shrinking for sudden death.
        shrinked_camera_regions: Versioned<Array<Region>>,
        /// The blast zones after shrinking for sudden death.
        shrinked_death_regions: Versioned<Array<Region>>,
    },
    /// Adds the Pokemon Trainer floating floors.
    V13 {
        /// The collisions.
        collisions: Versioned<Array<Collision>>,
        /// The initial spawn points.
        start_positions: Versioned<Array<Point>>,
        /// The respawn points.
        restart_positions: Versioned<Array<Point>>,
        /// The regions the camera may pan to.
        camera_regions: Versioned<Array<Region>>,
        /// The blast zones.
        death_regions: Versioned<Array<Region>>,
        /// The enemy generators.
        enemy_generators: Versioned<Array<EnemyGenerator>>,
        /// The final smash items.
        fs_items: Versioned<Array<FsItem>>,
        /// Unidentified final smash objects.
        fs_unknown: Versioned<Array<FsUnknown>>,
        /// The final smash camera areas.
        fs_area_cams: Versioned<Array<FsAreaCam>>,
        /// The final smash area locks.
        fs_area_locks: Versioned<Array<FsAreaLock>>,
        /// The final smash camera limits.
        fs_cam_limits: Versioned<Array<FsCamLimit>>,
        /// The damage shapes.
        damage_shapes: Versioned<Array<DamageShape>>,
        /// The item popup areas.
        item_popups: Versioned<Array<ItemPopup>>,
        /// The Pokemon Trainer ranges.
        ptrainer_ranges: Versioned<Array<PTrainerRange>>,
        /// The Pokemon Trainer floating floors.
        ptrainer_floating_floors: Versioned<Array<PTrainerFloatingFloor>>,
        /// The general two-dimensional shapes.
        general_shapes2: Versioned<Array<GeneralShape2>>,
        /// The general three-dimensional shapes.
        general_shapes3: Versioned<Array<GeneralShape3>>,
        /// The area lights.
        area_lights: Versioned<Array<AreaLight>>,
        /// The final smash start points.
        fs_start_points: Versioned<Array<FsStartPoint>>,
        /// The area hints.
        area_hints: Versioned<Array<AreaHint>>,
        /// The split areas.
        split_areas: Versioned<Array<SplitArea>>,
        /// The camera regions after shrinking for sudden death.
        shrinked_camera_regions: Versioned<Array<Region>>,
        /// The blast zones after shrinking for sudden death.
        shrinked_death_regions: Versioned<Array<Region>>,
    },
}

impl Version for Lvd {
    open spec fn spec_version(&self) -> u8 {
        match self {
            Lvd::V1 { .. } => 1,
            Lvd::V2 { .. } => 2,
            Lvd::V3 { .. } => 3,
            Lvd::V4 { .. } => 4,
            Lvd::V5 { .. } => 5,
            Lvd::V6 { .. } => 6,
            Lvd::V7 { .. } => 7,
            Lvd::V8 { .. } => 8,
            Lvd::V9 { .. } => 9,
            Lvd::V10 { .. } => 10,
            Lvd::V11 { .. } => 11,
            Lvd::V12 { .. } => 12,
            Lvd::V13 { .. } => 13,
        }
    }

    open spec fn spec_supported(version: u8) -> bool {
        1 <= version && version <= 13
    }

    open spec fn spec_kind() -> RecordKind {
        RecordKind::Lvd
    }

    closed spec fn wf(&self) -> bool {
        match self {
            Lvd::V1 { collisions, start_positions, restart_positions, camera_regions, death_regions, enemy_generators } => (Signature {}, Run((*collisions, (*start_positions, (*restart_positions, (*camera_regions, (*death_regions, *enemy_generators))))))).wf(),
            Lvd::V2 { collisions, start_positions, restart_positions, camera_regions, death_regions, enemy_generators, fs_items } => (Signature {}, (Run((*collisions, (*start_positions, (*restart_positions, (*camera_regions, (*death_regions, *enemy_generators)))))), Run(*fs_items))).wf(),
            Lvd::V3 { collisions, start_positions, restart_positions, camera_regions, death_regions, enemy_generators, fs_items, fs_unknown, fs_area_cams, fs_area_locks, fs_cam_limits } => (Signature {}, (Run((*collisions, (*start_positions, (*restart_positions, (*camera_regions, (*death_regions, *enemy_generators)))))), Run((*fs_items, (*fs_unknown, (*fs_area_cams, (*fs_area_locks, *fs_cam_limits))))))).wf(),
            Lvd::V4 { collisions, start_positions, restart_positions, camera_regions, death_regions, enemy_generators, fs_items, fs_unknown, fs_area_cams, fs_area_locks, fs_cam_limits, damage_shapes } => (Signature {}, (Run((*collisions, (*start_positions, (*restart_positions, (*camera_regions, (*death_regions, *enemy_generators)))))), Run((*fs_items, (*fs_unknown, (*fs_area_cams, (*fs_area_locks, (*fs_cam_limits, *damage_shapes)))))))).wf(),
            Lvd::V5 { collisions, start_positions, restart_positions, camera_regions, death_regions, enemy_generators, fs_items, fs_unknown, fs_area_cams, fs_area_locks, fs_cam_limits, damage_shapes, item_popups } => (Signature {}, (Run((*collisions, (*start_positions, (*restart_positions, (*camera_regions, (*death_regions, *enemy_generators)))))), (Run((*fs_items, (*fs_unknown, (*fs_area_cams, (*fs_area_locks, (*fs_cam_limits, *damage_shapes)))))), Run(*item_popups)))).wf(),
            Lvd::V6 { collisions, start_positions, restart_positions, camera_regions, death_regions, enemy_generators, fs_items, fs_unknown, fs_area_cams, fs_area_locks, fs_cam_limits, damage_shapes, item_popups, general_shapes2, general_shapes3 } => (Signature {}, (Run((*collisions, (*start_positions, (*restart_positions, (*camera_regions, (*death_regions, *enemy_generators)))))), (Run((*fs_items, (*fs_unknown, (*fs_area_cams, (*fs_area_locks, (*fs_cam_limits, *damage_shapes)))))), Run((*item_popups, (*general_shapes2, *general_shapes3)))))).wf(),
            Lvd::V7 { collisions, start_positions, restart_positions, camera_regions, death_regions, enemy_generators, fs_items, fs_unknown, fs_area_cams, fs_area_locks, fs_cam_limits, damage_shapes, item_popups, general_shapes2, general_shapes3, area_lights } => (Signature {}, (Run((*collisions, (*start_positions, (*restart_positions, (*camera_regions, (*death_regions, *enemy_generators)))))), (Run((*fs_items, (*fs_unknown, (*fs_area_cams, (*fs_area_locks, (*fs_cam_limits, *damage_shapes)))))), Run((*item_popups, (*general_shapes2, (*general_shapes3, *area_lights))))))).wf(),
            Lvd::V8 { collisions, start_positions, restart_positions, camera_regions, death_regions, enemy_generators, fs_items, fs_unknown, fs_area_cams, fs_area_locks, fs_cam_limits, damage_shapes, item_popups, general_shapes2, general_shapes3, area_lights, fs_start_points } => (Signature {}, (Run((*collisions, (*start_positions, (*restart_positions, (*camera_regions, (*death_regions, *enemy_generators)))))), (Run((*fs_items, (*fs_unknown, (*fs_area_cams, (*fs_area_locks, (*fs_cam_limits, *damage_shapes)))))), Run((*item_popups, (*general_shapes2, (*general_shapes3, (*area_lights, *fs_start_points)))))))).wf(),
            Lvd::V9 { collisions, start_positions, restart_positions, camera_regions, death_regions, enemy_generators, fs_items, fs_unknown, fs_area_cams, fs_area_locks, fs_cam_limits, damage_shapes, item_popups, general_shapes2, general_shapes3, area_lights, fs_start_points, area_hints } => (Signature {}, (Run((*collisions, (*start_positions, (*restart_positions, (*camera_regions, (*death_regions, *enemy_generators)))))), (Run((*fs_items, (*fs_unknown, (*fs_area_cams, (*fs_area_locks, (*fs_cam_limits, *damage_shapes)))))), Run((*item_popups, (*general_shapes2, (*general_shapes3, (*area_lights, (*fs_start_points, *area_hints))))))))).wf(),
            Lvd::V10 { collisions, start_positions, restart_positions, camera_regions, death_regions, enemy_generators, fs_items, fs_unknown, fs_area_cams, fs_area_locks, fs_cam_limits, damage_shapes, item_popups, general_shapes2, general_shapes3, area_lights, fs_start_points, area_hints, split_areas } => (Signature {}, (Run((*collisions, (*start_positions, (*restart_positions, (*camera_regions, (*death_regions, *enemy_generators)))))), (Run((*fs_items, (*fs_unknown, (*fs_area_cams, (*fs_area_locks, (*fs_cam_limits, *damage_shapes)))))), (Run((*item_popups, (*general_shapes2, (*general_shapes3, (*area_lights, (*fs_start_points, *area_hints)))))), Run(*split_areas))))).wf(),
            Lvd::V11 { collisions, start_positions, restart_positions, camera_regions, death_regions, enemy_generators, fs_items, fs_unknown, fs_area_cams, fs_area_locks, fs_cam_limits, damage_shapes, item_popups, general_shapes2, general_shapes3, area_lights, fs_start_points, area_hints, split_areas, shrinked_camera_regions, shrinked_death_regions } => (Signature {}, (Run((*collisions, (*start_positions, (*restart_positions, (*camera_regions, (*death_regions, *enemy_generators)))))), (Run((*fs_items, (*fs_unknown, (*fs_area_cams, (*fs_area_locks, (*fs_cam_limits, *damage_shapes)))))), (Run((*item_popups, (*general_shapes2, (*general_shapes3, (*area_lights, (*fs_start_points, *area_hints)))))), Run((*split_areas, (*shrinked_camera_regions, *shrinked_death_regions))))))).wf(),
            Lvd::V12 { collisions, start_positions, restart_positions, camera_regions, death_regions, enemy_generators, fs_items, fs_unknown, fs_area_cams, fs_area_locks, fs_cam_limits, damage_shapes, item_popups, ptrainer_ranges, general_shapes2, general_shapes3, area_lights, fs_start_points, area_hints, split_areas, shrinked_camera_regions, shrinked_death_regions } => (Signature {}, (Run((*collisions, (*start_positions, (*restart_positions, (*camera_regions, (*death_regions, *enemy_generators)))))), (Run((*fs_items, (*fs_unknown, (*fs_area_cams, (*fs_area_locks, (*fs_cam_limits, *damage_shapes)))))), (Run((*item_popups, (*ptrainer_ranges, (*general_shapes2, (*general_shapes3, (*area_lights, *fs_start_points)))))), Run((*area_hints, (*split_areas, (*shrinked_camera_regions, *shrinked_death_regions)))))))).wf(),
            Lvd::V13 { collisions, start_positions, restart_positions, camera_regions, death_regions, enemy_generators, fs_items, fs_unknown, fs_area_cams, fs_area_locks, fs_cam_limits, damage_shapes, item_popups, ptrainer_ranges, ptrainer_floating_floors, general_shapes2, general_shapes3, area_lights, fs_start_points, area_hints, split_areas, shrinked_camera_regions, shrinked_death_regions } => (Signature {}, (Run((*collisions, (*start_positions, (*restart_positions, (*camera_regions, (*death_regions, *enemy_generators)))))), (Run((*fs_items, (*fs_unknown, (*fs_area_cams, (*fs_area_locks, (*fs_cam_limits, *damage_shapes)))))), (Run((*item_popups, (*ptrainer_ranges, (*ptrainer_floating_floors, (*general_shapes2, (*general_shapes3, *area_lights)))))), Run((*fs_start_points, (*area_hints, (*split_areas, (*shrinked_camera_regions, *shrinked_death_regions))))))))).wf(),
        }
    }

    closed spec fn spec_bytes(&self, e: Endian) -> Seq<u8> {
        match self {
            Lvd::V1 { collisions, start_positions, restart_positions, camera_regions, death_regions, enemy_generators } => (Signature {}, Run((*collisions, (*start_positions, (*restart_positions, (*camera_regions, (*death_regions, *enemy_generators))))))).spec_bytes(e),
            Lvd::V2 { collisions, start_positions, restart_positions, camera_regions, death_regions, enemy_generators, fs_items } => (Signature {}, (Run((*collisions, (*start_positions, (*restart_positions, (*camera_regions, (*death_regions, *enemy_generators)))))), Run(*fs_items))).spec_bytes(e),
            Lvd::V3 { collisions, start_positions, restart_positions, camera_regions, death_regions, enemy_generators, fs_items, fs_unknown, fs_area_cams, fs_area_locks, fs_cam_limits } => (Signature {}, (Run((*collisions, (*start_positions, (*restart_positions, (*camera_regions, (*death_regions, *enemy_generators)))))), Run((*fs_items, (*fs_unknown, (*fs_area_cams, (*fs_area_locks, *fs_cam_limits))))))).spec_bytes(e),
            Lvd::V4 { collisions, start_positions, restart_positions, camera_regions, death_regions, enemy_generators, fs_items, fs_unknown, fs_area_cams, fs_area_locks, fs_cam_limits, damage_shapes } => (Signature {}, (Run((*collisions, (*start_positions, (*restart_positions, (*camera_regions, (*death_regions, *enemy_generators)))))), Run((*fs_items, (*fs_unknown, (*fs_area_cams, (*fs_area_locks, (*fs_cam_limits, *damage_shapes)))))))).spec_bytes(e),
            Lvd::V5 { collisions, start_positions, restart_positions, camera_regions, death_regions, enemy_generators, fs_items, fs_unknown, fs_area_cams, fs_area_locks, fs_cam_limits, damage_shapes, item_popups } => (Signature {}, (Run((*collisions, (*start_positions, (*restart_positions, (*camera_regions, (*death_regions, *enemy_generators)))))), (Run((*fs_items, (*fs_unknown, (*fs_area_cams, (*fs_area_locks, (*fs_cam_limits, *damage_shapes)))))), Run(*item_popups)))).spec_bytes(e),
            Lvd::V6 { collisions, start_positions, restart_positions, camera_regions, death_regions, enemy_generators, fs_items, fs_unknown, fs_area_cams, fs_area_locks, fs_cam_limits, damage_shapes, item_popups, general_shapes2, general_shapes3 } => (Signature {}, (Run((*collisions, (*start_positions, (*restart_positions, (*camera_regions, (*death_regions, *enemy_generators)))))), (Run((*fs_items, (*fs_unknown, (*fs_area_cams, (*fs_area_locks, (*fs_cam_limits, *damage_shapes)))))), Run((*item_popups, (*general_shapes2, *general_shapes3)))))).spec_bytes(e),
            Lvd::V7 { collisions, start_positions, restart_positions, camera_regions, death_regions, enemy_generators, fs_items, fs_unknown, fs_area_cams, fs_area_locks, fs_cam_limits, damage_shapes, item_popups, general_shapes2, general_shapes3, area_lights } => (Signature {}, (Run((*collisions, (*start_positions, (*restart_positions, (*camera_regions, (*death_regions, *enemy_generators)))))), (Run((*fs_items, (*fs_unknown, (*fs_area_cams, (*fs_area_locks, (*fs_cam_limits, *damage_shapes)))))), Run((*item_popups, (*general_shapes2, (*general_shapes3, *area_lights))))))).spec_bytes(e),
            Lvd::V8 { collisions, start_positions, restart_positions, camera_regions, death_regions, enemy_generators, fs_items, fs_unknown, fs_area_cams, fs_area_locks, fs_cam_limits, damage_shapes, item_popups, general_shapes2, general_shapes3, area_lights, fs_start_points } => (Signature {}, (Run((*collisions, (*start_positions, (*restart_positions, (*camera_regions, (*death_regions, *enemy_generators)))))), (Run((*fs_items, (*fs_unknown, (*fs_area_cams, (*fs_area_locks, (*fs_cam_limits, *damage_shapes)))))), Run((*item_popups, (*general_shapes2, (*general_shapes3, (*area_lights, *fs_start_points)))))))).spec_bytes(e),
            Lvd::V9 { collisions, start_positions, restart_positions, camera_regions, death_regions, enemy_generators, fs_items, fs_unknown, fs_area_cams, fs_area_locks, fs_cam_limits, damage_shapes, item_popups, general_shapes2, general_shapes3, area_lights, fs_start_points, area_hints } => (Signature {}, (Run((*collisions, (*start_positions, (*restart_positions, (*camera_regions, (*death_regions, *enemy_generators)))))), (Run((*fs_items, (*fs_unknown, (*fs_area_cams, (*fs_area_locks, (*fs_cam_limits, *damage_shapes)))))), Run((*item_popups, (*general_shapes2, (*general_shapes3, (*area_lights, (*fs_start_points, *area_hints))))))))).spec_bytes(e),
            Lvd::V10 { collisions, start_positions, restart_positions, camera_regions, death_regions, enemy_generators, fs_items, fs_unknown, fs_area_cams, fs_area_locks, fs_cam_limits, damage_shapes, item_popups, general_shapes2, general_shapes3, area_lights, fs_start_points, area_hints, split_areas } => (Signature {}, (Run((*collisions, (*start_positions, (*restart_positions, (*camera_regions, (*death_regions, *enemy_generators)))))), (Run((*fs_items, (*fs_unknown, (*fs_area_cams, (*fs_area_locks, (*fs_cam_limits, *damage_shapes)))))), (Run((*item_popups, (*general_shapes2, (*general_shapes3, (*area_lights, (*fs_start_points, *area_hints)))))), Run(*split_areas))))).spec_bytes(e),
            Lvd::V11 { collisions, start_positions, restart_positions, camera_regions, death_regions, enemy_generators, fs_items, fs_unknown, fs_area_cams, fs_area_locks, fs_cam_limits, damage_shapes, item_popups, general_shapes2, general_shapes3, area_lights, fs_start_points, area_hints, split_areas, shrinked_camera_regions, shrinked_death_regions } => (Signature {}, (Run((*collisions, (*start_positions, (*restart_positions, (*camera_regions, (*death_regions, *enemy_generators)))))), (Run((*fs_items, (*fs_unknown, (*fs_area_cams, (*fs_area_locks, (*fs_cam_limits, *damage_shapes)))))), (Run((*item_popups, (*general_shapes2, (*general_shapes3, (*area_lights, (*fs_start_points, *area_hints)))))), Run((*split_areas, (*shrinked_camera_regions, *shrinked_death_regions))))))).spec_bytes(e),
            Lvd::V12 { collisions, start_positions, restart_positions, camera_regions, death_regions, enemy_generators, fs_items, fs_unknown, fs_area_cams, fs_area_locks, fs_cam_limits, damage_shapes, item_popups, ptrainer_ranges, general_shapes2, general_shapes3, area_lights, fs_start_points, area_hints, split_areas, shrinked_camera_regions, shrinked_death_regions } => (Signature {}, (Run((*collisions, (*start_positions, (*restart_positions, (*camera_regions, (*death_regions, *enemy_generators)))))), (Run((*fs_items, (*fs_unknown, (*fs_area_cams, (*fs_area_locks, (*fs_cam_limits, *damage_shapes)))))), (Run((*item_popups, (*ptrainer_ranges, (*general_shapes2, (*general_shapes3, (*area_lights, *fs_start_points)))))), Run((*area_hints, (*split_areas, (*shrinked_camera_regions, *shrinked_death_regions)))))))).spec_bytes(e),
            Lvd::V13 { collisions, start_positions, restart_positions, camera_regions, death_regions, enemy_generators, fs_items, fs_unknown, fs_area_cams, fs_area_locks, fs_cam_limits, damage_shapes, item_popups, ptrainer_ranges, ptrainer_floating_floors, general_shapes2, general_shapes3, area_lights, fs_start_points, area_hints, split_areas, shrinked_camera_regions, shrinked_death_regions } => (Signature {}, (Run((*collisions, (*start_positions, (*restart_positions, (*camera_regions, (*death_regions, *enemy_generators)))))), (Run((*fs_items, (*fs_unknown, (*fs_area_cams, (*fs_area_locks, (*fs_cam_limits, *damage_shapes)))))), (Run((*item_popups, (*ptrainer_ranges, (*ptrainer_floating_floors, (*general_shapes2, (*general_shapes3, *area_lights)))))), Run((*fs_start_points, (*area_hints, (*split_areas, (*shrinked_camera_regions, *shrinked_death_regions))))))))).spec_bytes(e),
        }
    }

    closed spec fn spec_accepts(&self, e: Endian, s: Seq<u8>) -> bool {
        match self {
            Lvd::V1 { collisions, start_positions, restart_positions, camera_regions, death_regions, enemy_generators } => (Signature {}, Run((*collisions, (*start_positions, (*restart_positions, (*camera_regions, (*death_regions, *enemy_generators))))))).spec_accepts(e, s),
            Lvd::V2 { collisions, start_positions, restart_positions, camera_regions, death_regions, enemy_generators, fs_items } => (Signature {}, (Run((*collisions, (*start_positions, (*restart_positions, (*camera_regions, (*death_regions, *enemy_generators)))))), Run(*fs_items))).spec_accepts(e, s),
            Lvd::V3 { collisions, start_positions, restart_positions, camera_regions, death_regions, enemy_generators, fs_items, fs_unknown, fs_area_cams, fs_area_locks, fs_cam_limits } => (Signature {}, (Run((*collisions, (*start_positions, (*restart_positions, (*camera_regions, (*death_regions, *enemy_generators)))))), Run((*fs_items, (*fs_unknown, (*fs_area_cams, (*fs_area_locks, *fs_cam_limits))))))).spec_accepts(e, s),
            Lvd::V4 { collisions, start_positions, restart_positions, camera_regions, death_regions, enemy_generators, fs_items, fs_unknown, fs_area_cams, fs_area_locks, fs_cam_limits, damage_shapes } => (Signature {}, (Run((*collisions, (*start_positions, (*restart_positions, (*camera_regions, (*death_regions, *enemy_generators)))))), Run((*fs_items, (*fs_unknown, (*fs_area_cams, (*fs_area_locks, (*fs_cam_limits, *damage_shapes)))))))).spec_accepts(e, s),
            Lvd::V5 { collisions, start_positions, restart_positions, camera_regions, death_regions, enemy_generators, fs_items, fs_unknown, fs_area_cams, fs_area_locks, fs_cam_limits, damage_shapes, item_popups } => (Signature {}, (Run((*collisions, (*start_positions, (*restart_positions, (*camera_regions, (*death_regions, *enemy_generators)))))), (Run((*fs_items, (*fs_unknown, (*fs_area_cams, (*fs_area_locks, (*fs_cam_limits, *damage_shapes)))))), Run(*item_popups)))).spec_accepts(e, s),
            Lvd::V6 { collisions, start_positions, restart_positions, camera_regions, death_regions, enemy_generators, fs_items, fs_unknown, fs_area_cams, fs_area_locks, fs_cam_limits, damage_shapes, item_popups, general_shapes2, general_shapes3 } => (Signature {}, (Run((*collisions, (*start_positions, (*restart_positions, (*camera_regions, (*death_regions, *enemy_generators)))))), (Run((*fs_items, (*fs_unknown, (*fs_area_cams, (*fs_area_locks, (*fs_cam_limits, *damage_shapes)))))), Run((*item_popups, (*general_shapes2, *general_shapes3)))))).spec_accepts(e, s),
            Lvd::V7 { collisions, start_positions, restart_positions, camera_regions, death_regions, enemy_generators, fs_items, fs_unknown, fs_area_cams, fs_area_locks, fs_cam_limits, damage_shapes, item_popups, general_shapes2, general_shapes3, area_lights } => (Signature {}, (Run((*collisions, (*start_positions, (*restart_positions, (*camera_regions, (*death_regions, *enemy_generators)))))), (Run((*fs_items, (*fs_unknown, (*fs_area_cams, (*fs_area_locks, (*fs_cam_limits, *damage_shapes)))))), Run((*item_popups, (*general_shapes2, (*general_shapes3, *area_lights))))))).spec_accepts(e, s),
            Lvd::V8 { collisions, start_positions, restart_positions, camera_regions, death_regions, enemy_generators, fs_items, fs_unknown, fs_area_cams, fs_area_locks, fs_cam_limits, damage_shapes, item_popups, general_shapes2, general_shapes3, area_lights, fs_start_points } => (Signature {}, (Run((*collisions, (*start_positions, (*restart_positions, (*camera_regions, (*death_regions, *enemy_generators)))))), (Run((*fs_items, (*fs_unknown, (*fs_area_cams, (*fs_area_locks, (*fs_cam_limits, *damage_shapes)))))), Run((*item_popups, (*general_shapes2, (*general_shapes3, (*area_lights, *fs_start_points)))))))).spec_accepts(e, s),
            Lvd::V9 { collisions, start_positions, restart_positions, camera_regions, death_regions, enemy_generators, fs_items, fs_unknown, fs_area_cams, fs_area_locks, fs_cam_limits, damage_shapes, item_popups, general_shapes2, general_shapes3, area_lights, fs_start_points, area_hints } => (Signature {}, (Run((*collisions, (*start_positions, (*restart_positions, (*camera_regions, (*death_regions, *enemy_generators)))))), (Run((*fs_items, (*fs_unknown, (*fs_area_cams, (*fs_area_locks, (*fs_cam_limits, *damage_shapes)))))), Run((*item_popups, (*general_shapes2, (*general_shapes3, (*area_lights, (*fs_start_points, *area_hints))))))))).spec_accepts(e, s),
            Lvd::V10 { collisions, start_positions, restart_positions, camera_regions, death_regions, enemy_generators, fs_items, fs_unknown, fs_area_cams, fs_area_locks, fs_cam_limits, damage_shapes, item_popups, general_shapes2, general_shapes3, area_lights, fs_start_points, area_hints, split_areas } => (Signature {}, (Run((*collisions, (*start_positions, (*restart_positions, (*camera_regions, (*death_regions, *enemy_generators)))))), (Run((*fs_items, (*fs_unknown, (*fs_area_cams, (*fs_area_locks, (*fs_cam_limits, *damage_shapes)))))), (Run((*item_popups, (*general_shapes2, (*general_shapes3, (*area_lights, (*fs_start_points, *area_hints)))))), Run(*split_areas))))).spec_accepts(e, s),
            Lvd::V11 { collisions, start_positions, restart_positions, camera_regions, death_regions, enemy_generators, fs_items, fs_unknown, fs_area_cams, fs_area_locks, fs_cam_limits, damage_shapes, item_popups, general_shapes2, general_shapes3, area_lights, fs_start_points, area_hints, split_areas, shrinked_camera_regions, shrinked_death_regions } => (Signature {}, (Run((*collisions, (*start_positions, (*restart_positions, (*camera_regions, (*death_regions, *enemy_generators)))))), (Run((*fs_items, (*fs_unknown, (*fs_area_cams, (*fs_area_locks, (*fs_cam_limits, *damage_shapes)))))), (Run((*item_popups, (*general_shapes2, (*general_shapes3, (*area_lights, (*fs_start_points, *area_hints)))))), Run((*split_areas, (*shrinked_camera_regions, *shrinked_death_regions))))))).spec_accepts(e, s),
            Lvd::V12 { collisions, start_positions, restart_positions, camera_regions, death_regions, enemy_generators, fs_items, fs_unknown, fs_area_cams, fs_area_locks, fs_cam_limits, damage_shapes, item_popups, ptrainer_ranges, general_shapes2, general_shapes3, area_lights, fs_start_points, area_hints, split_areas, shrinked_camera_regions, shrinked_death_regions } => (Signature {}, (Run((*collisions, (*start_positions, (*restart_positions, (*camera_regions, (*death_regions, *enemy_generators)))))), (Run((*fs_items, (*fs_unknown, (*fs_area_cams, (*fs_area_locks, (*fs_cam_limits, *damage_shapes)))))), (Run((*item_popups, (*ptrainer_ranges, (*general_shapes2, (*general_shapes3, (*area_lights, *fs_start_points)))))), Run((*area_hints, (*split_areas, (*shrinked_camera_regions, *shrinked_death_regions)))))))).spec_accepts(e, s),
            Lvd::V13 { collisions, start_positions, restart_positions, camera_regions, death_regions, enemy_generators, fs_items, fs_unknown, fs_area_cams, fs_area_locks, fs_cam_limits, damage_shapes, item_popups, ptrainer_ranges, ptrainer_floating_floors, general_shapes2, general_shapes3, area_lights, fs_start_points, area_hints, split_areas, shrinked_camera_regions, shrinked_death_regions } => (Signature {}, (Run((*collisions, (*start_positions, (*restart_positions, (*camera_regions, (*death_regions, *enemy_generators)))))), (Run((*fs_items, (*fs_unknown, (*fs_area_cams, (*fs_area_locks, (*fs_cam_limits, *damage_shapes)))))), (Run((*item_popups, (*ptrainer_ranges, (*ptrainer_floating_floors, (*general_shapes2, (*general_shapes3, *area_lights)))))), Run((*fs_start_points, (*area_hints, (*split_areas, (*shrinked_camera_regions, *shrinked_death_regions))))))))).spec_accepts(e, s),
        }
    }

    closed spec fn same(&self, other: &Self) -> bool {
        match (self, other) {
            (Lvd::V1 { collisions, start_positions, restart_positions, camera_regions, death_regions, enemy_generators }, Lvd::V1 { collisions: o_collisions, start_positions: o_start_positions, restart_positions: o_restart_positions, camera_regions: o_camera_regions, death_regions: o_death_regions, enemy_generators: o_enemy_generators }) => (Signature {}, Run((*collisions, (*start_positions, (*restart_positions, (*camera_regions, (*death_regions, *enemy_generators))))))).same(&(Signature {}, Run((*o_collisions, (*o_start_positions, (*o_restart_positions, (*o_camera_regions, (*o_death_regions, *o_enemy_generators)))))))),
            (Lvd::V2 { collisions, start_positions, restart_positions, camera_regions, death_regions, enemy_generators, fs_items }, Lvd::V2 { collisions: o_collisions, start_positions: o_start_positions, restart_positions: o_restart_positions, camera_regions: o_camera_regions, death_regions: o_death_regions, enemy_generators: o_enemy_generators, fs_items: o_fs_items }) => (Signature {}, (Run((*collisions, (*start_positions, (*restart_positions, (*camera_regions, (*death_regions, *enemy_generators)))))), Run(*fs_items))).same(&(Signature {}, (Run((*o_collisions, (*o_start_positions, (*o_restart_positions, (*o_camera_regions, (*o_death_regions, *o_enemy_generators)))))), Run(*o_fs_items)))),
            (Lvd::V3 { collisions, start_positions, restart_positions, camera_regions, death_regions, enemy_generators, fs_items, fs_unknown, fs_area_cams, fs_area_locks, fs_cam_limits }, Lvd::V3 { collisions: o_collisions, start_positions: o_start_positions, restart_positions: o_restart_positions, camera_regions: o_camera_regions, death_regions: o_death_regions, enemy_generators: o_enemy_generators, fs_items: o_fs_items, fs_unknown: o_fs_unknown, fs_area_cams: o_fs_area_cams, fs_area_locks: o_fs_area_locks, fs_cam_limits: o_fs_cam_limits }) => (Signature {}, (Run((*collisions, (*start_positions, (*restart_positions, (*camera_regions, (*death_regions, *enemy_generators)))))), Run((*fs_items, (*fs_unknown, (*fs_area_cams, (*fs_area_locks, *fs_cam_limits))))))).same(&(Signature {}, (Run((*o_collisions, (*o_start_positions, (*o_restart_positions, (*o_camera_regions, (*o_death_regions, *o_enemy_generators)))))), Run((*o_fs_items, (*o_fs_unknown, (*o_fs_area_cams, (*o_fs_area_locks, *o_fs_cam_limits)))))))),
            (Lvd::V4 { collisions, start_positions, restart_positions, camera_regions, death_regions, enemy_generators, fs_items, fs_unknown, fs_area_cams, fs_area_locks, fs_cam_limits, damage_shapes }, Lvd::V4 { collisions: o_collisions, start_positions: o_start_positions, restart_positions: o_restart_positions, camera_regions: o_camera_regions, death_regions: o_death_regions, enemy_generators: o_enemy_generators, fs_items: o_fs_items, fs_unknown: o_fs_unknown, fs_area_cams: o_fs_area_cams, fs_area_locks: o_fs_area_locks, fs_cam_limits: o_fs_cam_limits, damage_shapes: o_damage_shapes }) => (Signature {}, (Run((*collisions, (*start_positions, (*restart_positions, (*camera_regions, (*death_regions, *enemy_generators)))))), Run((*fs_items, (*fs_unknown, (*fs_area_cams, (*fs_area_locks, (*fs_cam_limits, *damage_shapes)))))))).same(&(Signature {}, (Run((*o_collisions, (*o_start_positions, (*o_restart_positions, (*o_camera_regions, (*o_death_regions, *o_enemy_generators)))))), Run((*o_fs_items, (*o_fs_unknown, (*o_fs_area_cams, (*o_fs_area_locks, (*o_fs_cam_limits, *o_damage_shapes))))))))),
            (Lvd::V5 { collisions, start_positions, restart_positions, camera_regions, death_regions, enemy_generators, fs_items, fs_unknown, fs_area_cams, fs_area_locks, fs_cam_limits, damage_shapes, item_popups }, Lvd::V5 { collisions: o_collisions, start_positions: o_start_positions, restart_positions: o_restart_positions, camera_regions: o_camera_regions, death_regions: o_death_regions, enemy_generators: o_enemy_generators, fs_items: o_fs_items, fs_unknown: o_fs_unknown, fs_area_cams: o_fs_area_cams, fs_area_locks: o_fs_area_locks, fs_cam_limits: o_fs_cam_limits, damage_shapes: o_damage_shapes, item_popups: o_item_popups }) => (Signature {}, (Run((*collisions, (*start_positions, (*restart_positions, (*camera_regions, (*death_regions, *enemy_generators)))))), (Run((*fs_items, (*fs_unknown, (*fs_area_cams, (*fs_area_locks, (*fs_cam_limits, *damage_shapes)))))), Run(*item_popups)))).same(&(Signature {}, (Run((*o_collisions, (*o_start_positions, (*o_restart_positions, (*o_camera_regions, (*o_death_regions, *o_enemy_generators)))))), (Run((*o_fs_items, (*o_fs_unknown, (*o_fs_area_cams, (*o_fs_area_locks, (*o_fs_cam_limits, *o_damage_shapes)))))), Run(*o_item_popups))))),
            (Lvd::V6 { collisions, start_positions, restart_positions, camera_regions, death_regions, enemy_generators, fs_items, fs_unknown, fs_area_cams, fs_area_locks, fs_cam_limits, damage_shapes, item_popups, general_shapes2, general_shapes3 }, Lvd::V6 { collisions: o_collisions, start_positions: o_start_positions, restart_positions: o_restart_positions, camera_regions: o_camera_regions, death_regions: o_death_regions, enemy_generators: o_enemy_generators, fs_items: o_fs_items, fs_unknown: o_fs_unknown, fs_area_cams: o_fs_area_cams, fs_area_locks: o_fs_area_locks, fs_cam_limits: o_fs_cam_limits, damage_shapes: o_damage_shapes, item_popups: o_item_popups, general_shapes2: o_general_shapes2, general_shapes3: o_general_shapes3 }) => (Signature {}, (Run((*collisions, (*start_positions, (*restart_positions, (*camera_regions, (*death_regions, *enemy_generators)))))), (Run((*fs_items, (*fs_unknown, (*fs_area_cams, (*fs_area_locks, (*fs_cam_limits, *damage_shapes)))))), Run((*item_popups, (*general_shapes2, *general_shapes3)))))).same(&(Signature {}, (Run((*o_collisions, (*o_start_positions, (*o_restart_positions, (*o_camera_regions, (*o_death_regions, *o_enemy_generators)))))), (Run((*o_fs_items, (*o_fs_unknown, (*o_fs_area_cams, (*o_fs_area_locks, (*o_fs_cam_limits, *o_damage_shapes)))))), Run((*o_item_popups, (*o_general_shapes2, *o_general_shapes3))))))),
            (Lvd::V7 { collisions, start_positions, restart_positions, camera_regions, death_regions, enemy_generators, fs_items, fs_unknown, fs_area_cams, fs_area_locks, fs_cam_limits, damage_shapes, item_popups, general_shapes2, general_shapes3, area_lights }, Lvd::V7 { collisions: o_collisions, start_positions: o_start_positions, restart_positions: o_restart_positions, camera_regions: o_camera_regions, death_regions: o_death_regions, enemy_generators: o_enemy_generators, fs_items: o_fs_items, fs_unknown: o_fs_unknown, fs_area_cams: o_fs_area_cams, fs_area_locks: o_fs_area_locks, fs_cam_limits: o_fs_cam_limits, damage_shapes: o_damage_shapes, item_popups: o_item_popups, general_shapes2: o_general_shapes2, general_shapes3: o_general_shapes3, area_lights: o_area_lights }) => (Signature {}, (Run((*collisions, (*start_positions, (*restart_positions, (*camera_regions, (*death_regions, *enemy_generators)))))), (Run((*fs_items, (*fs_unknown, (*fs_area_cams, (*fs_area_locks, (*fs_cam_limits, *damage_shapes)))))), Run((*item_popups, (*general_shapes2, (*general_shapes3, *area_lights))))))).same(&(Signature {}, (Run((*o_collisions, (*o_start_positions, (*o_restart_positions, (*o_camera_regions, (*o_death_regions, *o_enemy_generators)))))), (Run((*o_fs_items, (*o_fs_unknown, (*o_fs_area_cams, (*o_fs_area_locks, (*o_fs_cam_limits, *o_damage_shapes)))))), Run((*o_item_popups, (*o_general_shapes2, (*o_general_shapes3, *o_area_lights)))))))),
            (Lvd::V8 { collisions, start_positions, restart_positions, camera_regions, death_regions, enemy_generators, fs_items, fs_unknown, fs_area_cams, fs_area_locks, fs_cam_limits, damage_shapes, item_popups, general_shapes2, general_shapes3, area_lights, fs_start_points }, Lvd::V8 { collisions: o_collisions, start_positions: o_start_positions, restart_positions: o_restart_positions, camera_regions: o_camera_regions, death_regions: o_death_regions, enemy_generators: o_enemy_generators, fs_items: o_fs_items, fs_unknown: o_fs_unknown, fs_area_cams: o_fs_area_cams, fs_area_locks: o_fs_area_locks, fs_cam_limits: o_fs_cam_limits, damage_shapes: o_damage_shapes, item_popups: o_item_popups, general_shapes2: o_general_shapes2, general_shapes3: o_general_shapes3, area_lights: o_area_lights, fs_start_points: o_fs_start_points }) => (Signature {}, (Run((*collisions, (*start_positions, (*restart_positions, (*camera_regions, (*death_regions, *enemy_generators)))))), (Run((*fs_items, (*fs_unknown, (*fs_area_cams, (*fs_area_locks, (*fs_cam_limits, *damage_shapes)))))), Run((*item_popups, (*general_shapes2, (*general_shapes3, (*area_lights, *fs_start_points)))))))).same(&(Signature {}, (Run((*o_collisions, (*o_start_positions, (*o_restart_positions, (*o_camera_regions, (*o_death_regions, *o_enemy_generators)))))), (Run((*o_fs_items, (*o_fs_unknown, (*o_fs_area_cams, (*o_fs_area_locks, (*o_fs_cam_limits, *o_damage_shapes)))))), Run((*o_item_popups, (*o_general_shapes2, (*o_general_shapes3, (*o_area_lights, *o_fs_start_points))))))))),
            (Lvd::V9 { collisions, start_positions, restart_positions, camera_regions, death_regions, enemy_generators, fs_items, fs_unknown, fs_area_cams, fs_area_locks, fs_cam_limits, damage_shapes, item_popups, general_shapes2, general_shapes3, area_lights, fs_start_points, area_hints }, Lvd::V9 { collisions: o_collisions, start_positions: o_start_positions, restart_positions: o_restart_positions, camera_regions: o_camera_regions, death_regions: o_death_regions, enemy_generators: o_enemy_generators, fs_items: o_fs_items, fs_unknown: o_fs_unknown, fs_area_cams: o_fs_area_cams, fs_area_locks: o_fs_area_locks, fs_cam_limits: o_fs_cam_limits, damage_shapes: o_damage_shapes, item_popups: o_item_popups, general_shapes2: o_general_shapes2, general_shapes3: o_general_shapes3, area_lights: o_area_lights, fs_start_points: o_fs_start_points, area_hints: o_area_hints }) => (Signature {}, (Run((*collisions, (*start_positions, (*restart_positions, (*camera_regions, (*death_regions, *enemy_generators)))))), (Run((*fs_items, (*fs_unknown, (*fs_area_cams, (*fs_area_locks, (*fs_cam_limits, *damage_shapes)))))), Run((*item_popups, (*general_shapes2, (*general_shapes3, (*area_lights, (*fs_start_points, *area_hints))))))))).same(&(Signature {}, (Run((*o_collisions, (*o_start_positions, (*o_restart_positions, (*o_camera_regions, (*o_death_regions, *o_enemy_generators)))))), (Run((*o_fs_items, (*o_fs_unknown, (*o_fs_area_cams, (*o_fs_area_locks, (*o_fs_cam_limits, *o_damage_shapes)))))), Run((*o_item_popups, (*o_general_shapes2, (*o_general_shapes3, (*o_area_lights, (*o_fs_start_points, *o_area_hints)))))))))),
            (Lvd::V10 { collisions, start_positions, restart_positions, camera_regions, death_regions, enemy_generators, fs_items, fs_unknown, fs_area_cams, fs_area_locks, fs_cam_limits, damage_shapes, item_popups, general_shapes2, general_shapes3, area_lights, fs_start_points, area_hints, split_areas }, Lvd::V10 { collisions: o_collisions, start_positions: o_start_positions, restart_positions: o_restart_positions, camera_regions: o_camera_regions, death_regions: o_death_regions, enemy_generators: o_enemy_generators, fs_items: o_fs_items, fs_unknown: o_fs_unknown, fs_area_cams: o_fs_area_cams, fs_area_locks: o_fs_area_locks, fs_cam_limits: o_fs_cam_limits, damage_shapes: o_damage_shapes, item_popups: o_item_popups, general_shapes2: o_general_shapes2, general_shapes3: o_general_shapes3, area_lights: o_area_lights, fs_start_points: o_fs_start_points, area_hints: o_area_hints, split_areas: o_split_areas }) => (Signature {}, (Run((*collisions, (*start_positions, (*restart_positions, (*camera_regions, (*death_regions, *enemy_generators)))))), (Run((*fs_items, (*fs_unknown, (*fs_area_cams, (*fs_area_locks, (*fs_cam_limits, *damage_shapes)))))), (Run((*item_popups, (*general_shapes2, (*general_shapes3, (*area_lights, (*fs_start_points, *area_hints)))))), Run(*split_areas))))).same(&(Signature {}, (Run((*o_collisions, (*o_start_positions, (*o_restart_positions, (*o_camera_regions, (*o_death_regions, *o_enemy_generators)))))), (Run((*o_fs_items, (*o_fs_unknown, (*o_fs_area_cams, (*o_fs_area_locks, (*o_fs_cam_limits, *o_damage_shapes)))))), (Run((*o_item_popups, (*o_general_shapes2, (*o_general_shapes3, (*o_area_lights, (*o_fs_start_points, *o_area_hints)))))), Run(*o_split_areas)))))),
            (Lvd::V11 { collisions, start_positions, restart_positions, camera_regions, death_regions, enemy_generators, fs_items, fs_unknown, fs_area_cams, fs_area_locks, fs_cam_limits, damage_shapes, item_popups, general_shapes2, general_shapes3, area_lights, fs_start_points, area_hints, split_areas, shrinked_camera_regions, shrinked_death_regions }, Lvd::V11 { collisions: o_collisions, start_positions: o_start_positions, restart_positions: o_restart_positions, camera_regions: o_camera_regions, death_regions: o_death_regions, enemy_generators: o_enemy_generators, fs_items: o_fs_items, fs_unknown: o_fs_unknown, fs_area_cams: o_fs_area_cams, fs_area_locks: o_fs_area_locks, fs_cam_limits: o_fs_cam_limits, damage_shapes: o_damage_shapes, item_popups: o_item_popups, general_shapes2: o_general_shapes2, general_shapes3: o_general_shapes3, area_lights: o_area_lights, fs_start_points: o_fs_start_points, area_hints: o_area_hints, split_areas: o_split_areas, shrinked_camera_regions: o_shrinked_camera_regions, shrinked_death_regions: o_shrinked_death_regions }) => (Signature {}, (Run((*collisions, (*start_positions, (*restart_positions, (*camera_regions, (*death_regions, *enemy_generators)))))), (Run((*fs_items, (*fs_unknown, (*fs_area_cams, (*fs_area_locks, (*fs_cam_limits, *damage_shapes)))))), (Run((*item_popups, (*general_shapes2, (*general_shapes3, (*area_lights, (*fs_start_points, *area_hints)))))), Run((*split_areas, (*shrinked_camera_regions, *shrinked_death_regions))))))).same(&(Signature {}, (Run((*o_collisions, (*o_start_positions, (*o_restart_positions, (*o_camera_regions, (*o_death_regions, *o_enemy_generators)))))), (Run((*o_fs_items, (*o_fs_unknown, (*o_fs_area_cams, (*o_fs_area_locks, (*o_fs_cam_limits, *o_damage_shapes)))))), (Run((*o_item_popups, (*o_general_shapes2, (*o_general_shapes3, (*o_area_lights, (*o_fs_start_points, *o_area_hints)))))), Run((*o_split_areas, (*o_shrinked_camera_regions, *o_shrinked_death_regions)))))))),
            (Lvd::V12 { collisions, start_positions, restart_positions, camera_regions, death_regions, enemy_generators, fs_items, fs_unknown, fs_area_cams, fs_area_locks, fs_cam_limits, damage_shapes, item_popups, ptrainer_ranges, general_shapes2, general_shapes3, area_lights, fs_start_points, area_hints, split_areas, shrinked_camera_regions, shrinked_death_regions }, Lvd::V12 { collisions: o_collisions, start_positions: o_start_positions, restart_positions: o_restart_positions, camera_regions: o_camera_regions, death_regions: o_death_regions, enemy_generators: o_enemy_generators, fs_items: o_fs_items, fs_unknown: o_fs_unknown, fs_area_cams: o_fs_area_cams, fs_area_locks: o_fs_area_locks, fs_cam_limits: o_fs_cam_limits, damage_shapes: o_damage_shapes, item_popups: o_item_popups, ptrainer_ranges: o_ptrainer_ranges, general_shapes2: o_general_shapes2, general_shapes3: o_general_shapes3, area_lights: o_area_lights, fs_start_points: o_fs_start_points, area_hints: o_area_hints, split_areas: o_split_areas, shrinked_camera_regions: o_shrinked_camera_regions, shrinked_death_regions: o_shrinked_death_regions }) => (Signature {}, (Run((*collisions, (*start_positions, (*restart_positions, (*camera_regions, (*death_regions, *enemy_generators)))))), (Run((*fs_items, (*fs_unknown, (*fs_area_cams, (*fs_area_locks, (*fs_cam_limits, *damage_shapes)))))), (Run((*item_popups, (*ptrainer_ranges, (*general_shapes2, (*general_shapes3, (*area_lights, *fs_start_points)))))), Run((*area_hints, (*split_areas, (*shrinked_camera_regions, *shrinked_death_regions)))))))).same(&(Signature {}, (Run((*o_collisions, (*o_start_positions, (*o_restart_positions, (*o_camera_regions, (*o_death_regions, *o_enemy_generators)))))), (Run((*o_fs_items, (*o_fs_unknown, (*o_fs_area_cams, (*o_fs_area_locks, (*o_fs_cam_limits, *o_damage_shapes)))))), (Run((*o_item_popups, (*o_ptrainer_ranges, (*o_general_shapes2, (*o_general_shapes3, (*o_area_lights, *o_fs_start_points)))))), Run((*o_area_hints, (*o_split_areas, (*o_shrinked_camera_regions, *o_shrinked_death_regions))))))))),
            (Lvd::V13 { collisions, start_positions, restart_positions, camera_regions, death_regions, enemy_generators, fs_items, fs_unknown, fs_area_cams, fs_area_locks, fs_cam_limits, damage_shapes, item_popups, ptrainer_ranges, ptrainer_floating_floors, general_shapes2, general_shapes3, area_lights, fs_start_points, area_hints, split_areas, shrinked_camera_regions, shrinked_death_regions }, Lvd::V13 { collisions: o_collisions, start_positions: o_start_positions, restart_positions: o_restart_positions, camera_regions: o_camera_regions, death_regions: o_death_regions, enemy_generators: o_enemy_generators, fs_items: o_fs_items, fs_unknown: o_fs_unknown, fs_area_cams: o_fs_area_cams, fs_area_locks: o_fs_area_locks, fs_cam_limits: o_fs_cam_limits, damage_shapes: o_damage_shapes, item_popups: o_item_popups, ptrainer_ranges: o_ptrainer_ranges, ptrainer_floating_floors: o_ptrainer_floating_floors, general_shapes2: o_general_shapes2, general_shapes3: o_general_shapes3, area_lights: o_area_lights, fs_start_points: o_fs_start_points, area_hints: o_area_hints, split_areas: o_split_areas, shrinked_camera_regions: o_shrinked_camera_regions, shrinked_death_regions: o_shrinked_death_regions }) => (Signature {}, (Run((*collisions, (*start_positions, (*restart_positions, (*camera_regions, (*death_regions, *enemy_generators)))))), (Run((*fs_items, (*fs_unknown, (*fs_area_cams, (*fs_area_locks, (*fs_cam_limits, *damage_shapes)))))), (Run((*item_popups, (*ptrainer_ranges, (*ptrainer_floating_floors, (*general_shapes2, (*general_shapes3, *area_lights)))))), Run((*fs_start_points, (*area_hints, (*split_areas, (*shrinked_camera_regions, *shrinked_death_regions))))))))).same(&(Signature {}, (Run((*o_collisions, (*o_start_positions, (*o_restart_positions, (*o_camera_regions, (*o_death_regions, *o_enemy_generators)))))), (Run((*o_fs_items, (*o_fs_unknown, (*o_fs_area_cams, (*o_fs_area_locks, (*o_fs_cam_limits, *o_damage_shapes)))))), (Run((*o_item_popups, (*o_ptrainer_ranges, (*o_ptrainer_floating_floors, (*o_general_shapes2, (*o_general_shapes3, *o_area_lights)))))), Run((*o_fs_start_points, (*o_area_hints, (*o_split_areas, (*o_shrinked_camera_regions, *o_shrinked_death_regions)))))))))),
            _ => false,
        }
    }

    proof fn lemma_canonical(&self, e: Endian) {
        match self {
            Lvd::V1 { collisions, start_positions, restart_positions, camera_regions, death_regions, enemy_generators } => (Signature {}, Run((*collisions, (*start_positions, (*restart_positions, (*camera_regions, (*death_regions, *enemy_generators))))))).lemma_canonical(e),
            Lvd::V2 { collisions, start_positions, restart_positions, camera_regions, death_regions, enemy_generators, fs_items } => (Signature {}, (Run((*collisions, (*start_positions, (*restart_positions, (*camera_regions, (*death_regions, *enemy_generators)))))), Run(*fs_items))).lemma_canonical(e),
            Lvd::V3 { collisions, start_positions, restart_positions, camera_regions, death_regions, enemy_generators, fs_items, fs_unknown, fs_area_cams, fs_area_locks, fs_cam_limits } => (Signature {}, (Run((*collisions, (*start_positions, (*restart_positions, (*camera_regions, (*death_regions, *enemy_generators)))))), Run((*fs_items, (*fs_unknown, (*fs_area_cams, (*fs_area_locks, *fs_cam_limits))))))).lemma_canonical(e),
            Lvd::V4 { collisions, start_positions, restart_positions, camera_regions, death_regions, enemy_generators, fs_items, fs_unknown, fs_area_cams, fs_area_locks, fs_cam_limits, damage_shapes } => (Signature {}, (Run((*collisions, (*start_positions, (*restart_positions, (*camera_regions, (*death_regions, *enemy_generators)))))), Run((*fs_items, (*fs_unknown, (*fs_area_cams, (*fs_area_locks, (*fs_cam_limits, *damage_shapes)))))))).lemma_canonical(e),
            Lvd::V5 { collisions, start_positions, restart_positions, camera_regions, death_regions, enemy_generators, fs_items, fs_unknown, fs_area_cams, fs_area_locks, fs_cam_limits, damage_shapes, item_popups } => (Signature {}, (Run((*collisions, (*start_positions, (*restart_positions, (*camera_regions, (*death_regions, *enemy_generators)))))), (Run((*fs_items, (*fs_unknown, (*fs_area_cams, (*fs_area_locks, (*fs_cam_limits, *damage_shapes)))))), Run(*item_popups)))).lemma_canonical(e),
            Lvd::V6 { collisions, start_positions, restart_positions, camera_regions, death_regions, enemy_generators, fs_items, fs_unknown, fs_area_cams, fs_area_locks, fs_cam_limits, damage_shapes, item_popups, general_shapes2, general_shapes3 } => (Signature {}, (Run((*collisions, (*start_positions, (*restart_positions, (*camera_regions, (*death_regions, *enemy_generators)))))), (Run((*fs_items, (*fs_unknown, (*fs_area_cams, (*fs_area_locks, (*fs_cam_limits, *damage_shapes)))))), Run((*item_popups, (*general_shapes2, *general_shapes3)))))).lemma_canonical(e),
            Lvd::V7 { collisions, start_positions, restart_positions, camera_regions, death_regions, enemy_generators, fs_items, fs_unknown, fs_area_cams, fs_area_locks, fs_cam_limits, damage_shapes, item_popups, general_shapes2, general_shapes3, area_lights } => (Signature {}, (Run((*collisions, (*start_positions, (*restart_positions, (*camera_regions, (*death_regions, *enemy_generators)))))), (Run((*fs_items, (*fs_unknown, (*fs_area_cams, (*fs_area_locks, (*fs_cam_limits, *damage_shapes)))))), Run((*item_popups, (*general_shapes2, (*general_shapes3, *area_lights))))))).lemma_canonical(e),
            Lvd::V8 { collisions, start_positions, restart_positions, camera_regions, death_regions, enemy_generators, fs_items, fs_unknown, fs_area_cams, fs_area_locks, fs_cam_limits, damage_shapes, item_popups, general_shapes2, general_shapes3, area_lights, fs_start_points } => (Signature {}, (Run((*collisions, (*start_positions, (*restart_positions, (*camera_regions, (*death_regions, *enemy_generators)))))), (Run((*fs_items, (*fs_unknown, (*fs_area_cams, (*fs_area_locks, (*fs_cam_limits, *damage_shapes)))))), Run((*item_popups, (*general_shapes2, (*general_shapes3, (*area_lights, *fs_start_points)))))))).lemma_canonical(e),
            Lvd::V9 { collisions, start_positions, restart_positions, camera_regions, death_regions, enemy_generators, fs_items, fs_unknown, fs_area_cams, fs_area_locks, fs_cam_limits, damage_shapes, item_popups, general_shapes2, general_shapes3, area_lights, fs_start_points, area_hints } => (Signature {}, (Run((*collisions, (*start_positions, (*restart_positions, (*camera_regions, (*death_regions, *enemy_generators)))))), (Run((*fs_items, (*fs_unknown, (*fs_area_cams, (*fs_area_locks, (*fs_cam_limits, *damage_shapes)))))), Run((*item_popups, (*general_shapes2, (*general_shapes3, (*area_lights, (*fs_start_points, *area_hints))))))))).lemma_canonical(e),
            Lvd::V10 { collisions, start_positions, restart_positions, camera_regions, death_regions, enemy_generators, fs_items, fs_unknown, fs_area_cams, fs_area_locks, fs_cam_limits, damage_shapes, item_popups, general_shapes2, general_shapes3, area_lights, fs_start_points, area_hints, split_areas } => (Signature {}, (Run((*collisions, (*start_positions, (*restart_positions, (*camera_regions, (*death_regions, *enemy_generators)))))), (Run((*fs_items, (*fs_unknown, (*fs_area_cams, (*fs_area_locks, (*fs_cam_limits, *damage_shapes)))))), (Run((*item_popups, (*general_shapes2, (*general_shapes3, (*area_lights, (*fs_start_points, *area_hints)))))), Run(*split_areas))))).lemma_canonical(e),
            Lvd::V11 { collisions, start_positions, restart_positions, camera_regions, death_regions, enemy_generators, fs_items, fs_unknown, fs_area_cams, fs_area_locks, fs_cam_limits, damage_shapes, item_popups, general_shapes2, general_shapes3, area_lights, fs_start_points, area_hints, split_areas, shrinked_camera_regions, shrinked_death_regions } => (Signature {}, (Run((*collisions, (*start_positions, (*restart_positions, (*camera_regions, (*death_regions, *enemy_generators)))))), (Run((*fs_items, (*fs_unknown, (*fs_area_cams, (*fs_area_locks, (*fs_cam_limits, *damage_shapes)))))), (Run((*item_popups, (*general_shapes2, (*general_shapes3, (*area_lights, (*fs_start_points, *area_hints)))))), Run((*split_areas, (*shrinked_camera_regions, *shrinked_death_regions))))))).lemma_canonical(e),
            Lvd::V12 { collisions, start_positions, restart_positions, camera_regions, death_regions, enemy_generators, fs_items, fs_unknown, fs_area_cams, fs_area_locks, fs_cam_limits, damage_shapes, item_popups, ptrainer_ranges, general_shapes2, general_shapes3, area_lights, fs_start_points, area_hints, split_areas, shrinked_camera_regions, shrinked_death_regions } => (Signature {}, (Run((*collisions, (*start_positions, (*restart_positions, (*camera_regions, (*death_regions, *enemy_generators)))))), (Run((*fs_items, (*fs_unknown, (*fs_area_cams, (*fs_area_locks, (*fs_cam_limits, *damage_shapes)))))), (Run((*item_popups, (*ptrainer_ranges, (*general_shapes2, (*general_shapes3, (*area_lights, *fs_start_points)))))), Run((*area_hints, (*split_areas, (*shrinked_camera_regions, *shrinked_death_regions)))))))).lemma_canonical(e),
            Lvd::V13 { collisions, start_positions, restart_positions, camera_regions, death_regions, enemy_generators, fs_items, fs_unknown, fs_area_cams, fs_area_locks, fs_cam_limits, damage_shapes, item_popups, ptrainer_ranges, ptrainer_floating_floors, general_shapes2, general_shapes3, area_lights, fs_start_points, area_hints, split_areas, shrinked_camera_regions, shrinked_death_regions } => (Signature {}, (Run((*collisions, (*start_positions, (*restart_positions, (*camera_regions, (*death_regions, *enemy_generators)))))), (Run((*fs_items, (*fs_unknown, (*fs_area_cams, (*fs_area_locks, (*fs_cam_limits, *damage_shapes)))))), (Run((*item_popups, (*ptrainer_ranges, (*ptrainer_floating_floors, (*general_shapes2, (*general_shapes3, *area_lights)))))), Run((*fs_start_points, (*area_hints, (*split_areas, (*shrinked_camera_regions, *shrinked_death_regions))))))))).lemma_canonical(e),
        }
    }

    fn version(&self) -> (r: u8) {
        match self {
            Lvd::V1 { .. } => 1,
            Lvd::V2 { .. } => 2,
            Lvd::V3 { .. } => 3,
            Lvd::V4 { .. } => 4,
            Lvd::V5 { .. } => 5,
            Lvd::V6 { .. } => 6,
            Lvd::V7 { .. } => 7,
            Lvd::V8 { .. } => 8,
            Lvd::V9 { .. } => 9,
            Lvd::V10 { .. } => 10,
            Lvd::V11 { .. } => 11,
            Lvd::V12 { .. } => 12,
            Lvd::V13 { .. } => 13,
        }
    }

    fn decode_payload(version: u8, e: Endian, buf: &[u8], pos: usize) -> (r: Result<(Self, usize), DecodeError>) {
        Self::read_payload(version, e, buf, pos)
    }

    #[verifier::spinoff_prover]
    #[verifier::rlimit(100)]
    fn encode_payload(&self, e: Endian, out: &mut Vec<u8>) {
        match self {
            Lvd::V1 { .. } => self.encode_v1(e, out),
            Lvd::V2 { .. } => self.encode_v2(e, out),
            Lvd::V3 { .. } => self.encode_v3(e, out),
            Lvd::V4 { .. } => self.encode_v4(e, out),
            Lvd::V5 { .. } => self.encode_v5(e, out),
            Lvd::V6 { .. } => self.encode_v6(e, out),
            Lvd::V7 { .. } => self.encode_v7(e, out),
            Lvd::V8 { .. } => self.encode_v8(e, out),
            Lvd::V9 { .. } => self.encode_v9(e, out),
            Lvd::V10 { .. } => self.encode_v10(e, out),
            Lvd::V11 { .. } => self.encode_v11(e, out),
            Lvd::V12 { .. } => self.encode_v12(e, out),
            Lvd::V13 { .. } => self.encode_v13(e, out),
        }
    }
}

impl Lvd {
    /// Reads the payload of the layout that `version` selects, at `pos`. A payload that does not
    /// start with the signature fails with a bad signature at `pos`.
    pub fn read_payload(version: u8, e: Endian, buf: &[u8], pos: usize) -> (r: Result<(Self, usize), DecodeError>)
        requires
            pos <= buf@.len(),
        ensures
            match r {
                Ok((v, end)) => {
                    &&& v.spec_version() == version
                    &&& end == pos + v.spec_bytes(e).len()
                    &&& end <= buf@.len()
                    &&& v.wf()
                    &&& v.spec_accepts(e, buf@.subrange(pos as int, end as int))
                },
                Err(_) => true,
            },
            forall|x: Self|
                x.spec_version() == version && x.wf() && pos + x.spec_bytes(e).len() <= buf@.len()
                    && #[trigger] x.spec_accepts(e, buf@.subrange(pos as int, pos + x.spec_bytes(e).len()))
                    ==> match r {
                    Ok((v, end)) => v.same(&x) && end == pos + x.spec_bytes(e).len(),
                    Err(_) => false,
                },
            !Self::spec_supported(version) ==> r == Err::<(Self, usize), DecodeError>(
                DecodeError::UnsupportedVersion { record: RecordKind::Lvd, version, pos },
            ),
            Self::spec_supported(version) && pos + 5 <= buf@.len() && buf@.subrange(pos as int, pos + 5)
                != signature_bytes() ==> r == Err::<(Self, usize), DecodeError>(DecodeError::BadMagic { pos }),
    {
        match version {
            1 => Self::decode_v1(e, buf, pos),
            2 => Self::decode_v2(e, buf, pos),
            3 => Self::decode_v3(e, buf, pos),
            4 => Self::decode_v4(e, buf, pos),
            5 => Self::decode_v5(e, buf, pos),
            6 => Self::decode_v6(e, buf, pos),
            7 => Self::decode_v7(e, buf, pos),
            8 => Self::decode_v8(e, buf, pos),
            9 => Self::decode_v9(e, buf, pos),
            10 => Self::decode_v10(e, buf, pos),
            11 => Self::decode_v11(e, buf, pos),
            12 => Self::decode_v12(e, buf, pos),
            13 => Self::decode_v13(e, buf, pos),
            _ => Err(DecodeError::UnsupportedVersion { record: RecordKind::Lvd, version, pos }),
        }
    }

    /// Reads the payload of layout 1.
    #[verifier::spinoff_prover]
    #[verifier::rlimit(100)]
    fn decode_v1(e: Endian, buf: &[u8], pos: usize) -> (r: Result<(Self, usize), DecodeError>)
        requires
            pos <= buf@.len(),
        ensures
            match r {
                Ok((v, end)) => {
                    &&& v.spec_version() == 1
                    &&& end == pos + v.spec_bytes(e).len()
                    &&& end <= buf@.len()
                    &&& v.wf()
                    &&& v.spec_accepts(e, buf@.subrange(pos as int, end as int))
                },
                Err(_) => true,
            },
            forall|x: Self|
                x.spec_version() == 1 && x.wf() && pos + x.spec_bytes(e).len() <= buf@.len()
                    && #[trigger] x.spec_accepts(e, buf@.subrange(pos as int, pos + x.spec_bytes(e).len()))
                    ==> match r {
                    Ok((v, end)) => v.same(&x) && end == pos + x.spec_bytes(e).len(),
                    Err(_) => false,
                },
            pos + 5 <= buf@.len() && buf@.subrange(pos as int, pos + 5) != signature_bytes() ==> r == Err::<
                (Self, usize),
                DecodeError,
            >(DecodeError::BadMagic { pos }),
    {
        let p1 = match check_signature(buf, pos) {
            Ok(p1) => p1,
            Err(err) => {
                proof {
                    assert forall|x: Self|
                        x.spec_version() == 1 && x.wf() && pos + x.spec_bytes(e).len() <= buf@.len()
                            && #[trigger] x.spec_accepts(e, buf@.subrange(pos as int, pos + x.spec_bytes(e).len()))
                            implies false by {
                        if let Lvd::V1 { collisions, start_positions, restart_positions, camera_regions, death_regions, enemy_generators } = x {
                            lemma_window_split(buf@, pos as int, 5, Run((collisions, (start_positions, (restart_positions, (camera_regions, (death_regions, enemy_generators)))))).spec_bytes(e).len() as int);
                        }
                    }
                }
                return Err(err);
            },
        };
        match <Run<(Versioned<Array<Collision>>, (Versioned<Array<Point>>, (Versioned<Array<Point>>, (Versioned<Array<Region>>, (Versioned<Array<Region>>, Versioned<Array<EnemyGenerator>>)))))>>::decode(e, buf, p1) {
            Ok((Run((collisions, (start_positions, (restart_positions, (camera_regions, (death_regions, enemy_generators)))))), end)) => {
                proof {
                    assert(p1 == pos + 5);
                    assert(end <= buf@.len());
                    assert(end == p1 + Run((collisions, (start_positions, (restart_positions, (camera_regions, (death_regions, enemy_generators)))))).spec_bytes(e).len());
                    lemma_window_split(buf@, pos as int, 5, Run((collisions, (start_positions, (restart_positions, (camera_regions, (death_regions, enemy_generators)))))).spec_bytes(e).len() as int);
                    assert forall|x: Self|
                        x.spec_version() == 1 && x.wf() && pos + x.spec_bytes(e).len() <= buf@.len()
                            && #[trigger] x.spec_accepts(e, buf@.subrange(pos as int, pos + x.spec_bytes(e).len()))
                            implies Lvd::V1 { collisions, start_positions, restart_positions, camera_regions, death_regions, enemy_generators }.same(&x) && end == pos + x.spec_bytes(e).len() by {
                        if let Lvd::V1 { collisions, start_positions, restart_positions, camera_regions, death_regions, enemy_generators } = x {
                            let b = Run((collisions, (start_positions, (restart_positions, (camera_regions, (death_regions, enemy_generators)))))).spec_bytes(e).len() as int;
                            lemma_window_split(buf@, pos as int, 5, b);
                            assert(Run((collisions, (start_positions, (restart_positions, (camera_regions, (death_regions, enemy_generators)))))).spec_accepts(e, buf@.subrange(p1 as int, p1 + b)));
                        }
                    }
                }
                Ok((Lvd::V1 { collisions, start_positions, restart_positions, camera_regions, death_regions, enemy_generators }, end))
            },
            Err(err) => {
                proof {
                    assert forall|x: Self|
                        x.spec_version() == 1 && x.wf() && pos + x.spec_bytes(e).len() <= buf@.len()
                            && #[trigger] x.spec_accepts(e, buf@.subrange(pos as int, pos + x.spec_bytes(e).len()))
                            implies false by {
                        if let Lvd::V1 { collisions, start_positions, restart_positions, camera_regions, death_regions, enemy_generators } = x {
                            let b = Run((collisions, (start_positions, (restart_positions, (camera_regions, (death_regions, enemy_generators)))))).spec_bytes(e).len() as int;
                            lemma_window_split(buf@, pos as int, 5, b);
                            assert(Run((collisions, (start_positions, (restart_positions, (camera_regions, (death_regions, enemy_generators)))))).spec_accepts(e, buf@.subrange(p1 as int, p1 + b)));
                        }
                    }
                }
                Err(err)
            },
        }
    }

    /// Writes the payload of layout 1.
    #[verifier::spinoff_prover]
    #[verifier::rlimit(100)]
    fn encode_v1(&self, e: Endian, out: &mut Vec<u8>)
        requires
            self is V1,
            self.wf(),
        ensures
            final(out)@ == old(out)@ + self.spec_bytes(e),
    {
        match self {
            Lvd::V1 { collisions, start_positions, restart_positions, camera_regions, death_regions, enemy_generators } => {
                proof {
                    lemma_run(Run((*collisions, (*start_positions, (*restart_positions, (*camera_regions, (*death_regions, *enemy_generators)))))), e);
                }
                let ghost u0 = out@;
                Signature {}.encode(e, out);
                let ghost u1 = out@;
                let ghost c0_0 = out@;
                collisions.encode(e, out);
                let ghost c0_1 = out@;
                start_positions.encode(e, out);
                let ghost c0_2 = out@;
                restart_positions.encode(e, out);
                let ghost c0_3 = out@;
                camera_regions.encode(e, out);
                let ghost c0_4 = out@;
                death_regions.encode(e, out);
                let ghost c0_5 = out@;
                enemy_generators.encode(e, out);
                let ghost c0_6 = out@;
                proof {
                    lemma_append_assoc(c0_4, (*death_regions).spec_bytes(e), (*enemy_generators).spec_bytes(e));
                    assert(c0_6 == c0_4 + ((*death_regions), (*enemy_generators)).spec_bytes(e));
                    lemma_append_assoc(c0_3, (*camera_regions).spec_bytes(e), ((*death_regions), (*enemy_generators)).spec_bytes(e));
                    assert(c0_6 == c0_3 + ((*camera_regions), ((*death_regions), (*enemy_generators))).spec_bytes(e));
                    lemma_append_assoc(c0_2, (*restart_positions).spec_bytes(e), ((*camera_regions), ((*death_regions), (*enemy_generators))).spec_bytes(e));
                    assert(c0_6 == c0_2 + ((*restart_positions), ((*camera_regions), ((*death_regions), (*enemy_generators)))).spec_bytes(e));
                    lemma_append_assoc(c0_1, (*start_positions).spec_bytes(e), ((*restart_positions), ((*camera_regions), ((*death_regions), (*enemy_generators)))).spec_bytes(e));
                    assert(c0_6 == c0_1 + ((*start_positions), ((*restart_positions), ((*camera_regions), ((*death_regions), (*enemy_generators))))).spec_bytes(e));
                    lemma_append_assoc(c0_0, (*collisions).spec_bytes(e), ((*start_positions), ((*restart_positions), ((*camera_regions), ((*death_regions), (*enemy_generators))))).spec_bytes(e));
                    assert(c0_6 == c0_0 + ((*collisions), ((*start_positions), ((*restart_positions), ((*camera_regions), ((*death_regions), (*enemy_generators)))))).spec_bytes(e));
                }
                let ghost u2 = out@;
                proof {
                    lemma_append_assoc(u0, Signature {}.spec_bytes(e), Run((*collisions, (*start_positions, (*restart_positions, (*camera_regions, (*death_regions, *enemy_generators)))))).spec_bytes(e));
                    assert(u2 == u0 + (Signature {}, Run((*collisions, (*start_positions, (*restart_positions, (*camera_regions, (*death_regions, *enemy_generators))))))).spec_bytes(e));
                }
            },
            _ => {},
        }
    }

    /// Reads the payload of layout 2.
    #[verifier::spinoff_prover]
    #[verifier::rlimit(100)]
    fn decode_v2(e: Endian, buf: &[u8], pos: usize) -> (r: Result<(Self, usize), DecodeError>)
        requires
            pos <= buf@.len(),
        ensures
            match r {
                Ok((v, end)) => {
                    &&& v.spec_version() == 2
                    &&& end == pos + v.spec_bytes(e).len()
                    &&& end <= buf@.len()
                    &&& v.wf()
                    &&& v.spec_accepts(e, buf@.subrange(pos as int, end as int))
                },
                Err(_) => true,
            },
            forall|x: Self|
                x.spec_version() == 2 && x.wf() && pos + x.spec_bytes(e).len() <= buf@.len()
                    && #[trigger] x.spec_accepts(e, buf@.subrange(pos as int, pos + x.spec_bytes(e).len()))
                    ==> match r {
                    Ok((v, end)) => v.same(&x) && end == pos + x.spec_bytes(e).len(),
                    Err(_) => false,
                },
            pos + 5 <= buf@.len() && buf@.subrange(pos as int, pos + 5) != signature_bytes() ==> r == Err::<
                (Self, usize),
                DecodeError,
            >(DecodeError::BadMagic { pos }),
    {
        let p1 = match check_signature(buf, pos) {
            Ok(p1) => p1,
            Err(err) => {
                proof {
                    assert forall|x: Self|
                        x.spec_version() == 2 && x.wf() && pos + x.spec_bytes(e).len() <= buf@.len()
                            && #[trigger] x.spec_accepts(e, buf@.subrange(pos as int, pos + x.spec_bytes(e).len()))
                            implies false by {
                        if let Lvd::V2 { collisions, start_positions, restart_positions, camera_regions, death_regions, enemy_generators, fs_items } = x {
                            lemma_window_split(buf@, pos as int, 5, (Run((collisions, (start_positions, (restart_positions, (camera_regions, (death_regions, enemy_generators)))))), Run(fs_items)).spec_bytes(e).len() as int);
                        }
                    }
                }
                return Err(err);
            },
        };
        match <(Run<(Versioned<Array<Collision>>, (Versioned<Array<Point>>, (Versioned<Array<Point>>, (Versioned<Array<Region>>, (Versioned<Array<Region>>, Versioned<Array<EnemyGenerator>>)))))>, Run<Versioned<Array<FsItem>>>)>::decode(e, buf, p1) {
            Ok(((Run((collisions, (start_positions, (restart_positions, (camera_regions, (death_regions, enemy_generators)))))), Run(fs_items)), end)) => {
                proof {
                    assert(p1 == pos + 5);
                    assert(end <= buf@.len());
                    assert(end == p1 + (Run((collisions, (start_positions, (restart_positions, (camera_regions, (death_regions, enemy_generators)))))), Run(fs_items)).spec_bytes(e).len());
                    lemma_window_split(buf@, pos as int, 5, (Run((collisions, (start_positions, (restart_positions, (camera_regions, (death_regions, enemy_generators)))))), Run(fs_items)).spec_bytes(e).len() as int);
                    assert forall|x: Self|
                        x.spec_version() == 2 && x.wf() && pos + x.spec_bytes(e).len() <= buf@.len()
                            && #[trigger] x.spec_accepts(e, buf@.subrange(pos as int, pos + x.spec_bytes(e).len()))
                            implies Lvd::V2 { collisions, start_positions, restart_positions, camera_regions, death_regions, enemy_generators, fs_items }.same(&x) && end == pos + x.spec_bytes(e).len() by {
                        if let Lvd::V2 { collisions, start_positions, restart_positions, camera_regions, death_regions, enemy_generators, fs_items } = x {
                            let b = (Run((collisions, (start_positions, (restart_positions, (camera_regions, (death_regions, enemy_generators)))))), Run(fs_items)).spec_bytes(e).len() as int;
                            lemma_window_split(buf@, pos as int, 5, b);
                            assert((Run((collisions, (start_positions, (restart_positions, (camera_regions, (death_regions, enemy_generators)))))), Run(fs_items)).spec_accepts(e, buf@.subrange(p1 as int, p1 + b)));
                        }
                    }
                }
                Ok((Lvd::V2 { collisions, start_positions, restart_positions, camera_regions, death_regions, enemy_generators, fs_items }, end))
            },
            Err(err) => {
                proof {
                    assert forall|x: Self|
                        x.spec_version() == 2 && x.wf() && pos + x.spec_bytes(e).len() <= buf@.len()
                            && #[trigger] x.spec_accepts(e, buf@.subrange(pos as int, pos + x.spec_bytes(e).len()))
                            implies false by {
                        if let Lvd::V2 { collisions, start_positions, restart_positions, camera_regions, death_regions, enemy_generators, fs_items } = x {
                            let b = (Run((collisions, (start_positions, (restart_positions, (camera_regions, (death_regions, enemy_generators)))))), Run(fs_items)).spec_bytes(e).len() as int;
                            lemma_window_split(buf@, pos as int, 5, b);
                            assert((Run((collisions, (start_positions, (restart_positions, (camera_regions, (death_regions, enemy_generators)))))), Run(fs_items)).spec_accepts(e, buf@.subrange(p1 as int, p1 + b)));
                        }
                    }
                }
                Err(err)
            },
        }
    }

    /// Writes the payload of layout 2.
    #[verifier::spinoff_prover]
    #[verifier::rlimit(100)]
    fn encode_v2(&self, e: Endian, out: &mut Vec<u8>)
        requires
            self is V2,
            self.wf(),
        ensures
            final(out)@ == old(out)@ + self.spec_bytes(e),
    {
        match self {
            Lvd::V2 { collisions, start_positions, restart_positions, camera_regions, death_regions, enemy_generators, fs_items } => {
                proof {
                    lemma_run(Run((*collisions, (*start_positions, (*restart_positions, (*camera_regions, (*death_regions, *enemy_generators)))))), e);
                    lemma_run(Run(*fs_items), e);
                }
                let ghost u0 = out@;
                Signature {}.encode(e, out);
                let ghost u1 = out@;
                let ghost c0_0 = out@;
                collisions.encode(e, out);
                let ghost c0_1 = out@;
                start_positions.encode(e, out);
                let ghost c0_2 = out@;
                restart_positions.encode(e, out);
                let ghost c0_3 = out@;
                camera_regions.encode(e, out);
                let ghost c0_4 = out@;
                death_regions.encode(e, out);
                let ghost c0_5 = out@;
                enemy_generators.encode(e, out);
                let ghost c0_6 = out@;
                proof {
                    lemma_append_assoc(c0_4, (*death_regions).spec_bytes(e), (*enemy_generators).spec_bytes(e));
                    assert(c0_6 == c0_4 + ((*death_regions), (*enemy_generators)).spec_bytes(e));
                    lemma_append_assoc(c0_3, (*camera_regions).spec_bytes(e), ((*death_regions), (*enemy_generators)).spec_bytes(e));
                    assert(c0_6 == c0_3 + ((*camera_regions), ((*death_regions), (*enemy_generators))).spec_bytes(e));
                    lemma_append_assoc(c0_2, (*restart_positions).spec_bytes(e), ((*camera_regions), ((*death_regions), (*enemy_generators))).spec_bytes(e));
                    assert(c0_6 == c0_2 + ((*restart_positions), ((*camera_regions), ((*death_regions), (*enemy_generators)))).spec_bytes(e));
                    lemma_append_assoc(c0_1, (*start_positions).spec_bytes(e), ((*restart_positions), ((*camera_regions), ((*death_regions), (*enemy_generators)))).spec_bytes(e));
                    assert(c0_6 == c0_1 + ((*start_positions), ((*restart_positions), ((*camera_regions), ((*death_regions), (*enemy_generators))))).spec_bytes(e));
                    lemma_append_assoc(c0_0, (*collisions).spec_bytes(e), ((*start_positions), ((*restart_positions), ((*camera_regions), ((*death_regions), (*enemy_generators))))).spec_bytes(e));
                    assert(c0_6 == c0_0 + ((*collisions), ((*start_positions), ((*restart_positions), ((*camera_regions), ((*death_regions), (*enemy_generators)))))).spec_bytes(e));
                }
                let ghost u2 = out@;
                let ghost c1_0 = out@;
                fs_items.encode(e, out);
                let ghost c1_1 = out@;
                proof {
                }
                let ghost u3 = out@;
                proof {
                    lemma_append_assoc(u1, Run((*collisions, (*start_positions, (*restart_positions, (*camera_regions, (*death_regions, *enemy_generators)))))).spec_bytes(e), Run(*fs_items).spec_bytes(e));
                    assert(u3 == u1 + (Run((*collisions, (*start_positions, (*restart_positions, (*camera_regions, (*death_regions, *enemy_generators)))))), Run(*fs_items)).spec_bytes(e));
                    lemma_append_assoc(u0, Signature {}.spec_bytes(e), (Run((*collisions, (*start_positions, (*restart_positions, (*camera_regions, (*death_regions, *enemy_generators)))))), Run(*fs_items)).spec_bytes(e));
                    assert(u3 == u0 + (Signature {}, (Run((*collisions, (*start_positions, (*restart_positions, (*camera_regions, (*death_regions, *enemy_generators)))))), Run(*fs_items))).spec_bytes(e));
                }
            },
            _ => {},
        }
    }

    /// Reads the payload of layout 3.
    #[verifier::spinoff_prover]
    #[verifier::rlimit(100)]
    fn decode_v3(e: Endian, buf: &[u8], pos: usize) -> (r: Result<(Self, usize), DecodeError>)
        requires
            pos <= buf@.len(),
        ensures
            match r {
                Ok((v, end)) => {
                    &&& v.spec_version() == 3
                    &&& end == pos + v.spec_bytes(e).len()
                    &&& end <= buf@.len()
                    &&& v.wf()
                    &&& v.spec_accepts(e, buf@.subrange(pos as int, end as int))
                },
                Err(_) => true,
            },
            forall|x: Self|
                x.spec_version() == 3 && x.wf() && pos + x.spec_bytes(e).len() <= buf@.len()
                    && #[trigger] x.spec_accepts(e, buf@.subrange(pos as int, pos + x.spec_bytes(e).len()))
                    ==> match r {
                    Ok((v, end)) => v.same(&x) && end == pos + x.spec_bytes(e).len(),
                    Err(_) => false,
                },
            pos + 5 <= buf@.len() && buf@.subrange(pos as int, pos + 5) != signature_bytes() ==> r == Err::<
                (Self, usize),
                DecodeError,
            >(DecodeError::BadMagic { pos }),
    {
        let p1 = match check_signature(buf, pos) {
            Ok(p1) => p1,
            Err(err) => {
                proof {
                    assert forall|x: Self|
                        x.spec_version() == 3 && x.wf() && pos + x.spec_bytes(e).len() <= buf@.len()
                            && #[trigger] x.spec_accepts(e, buf@.subrange(pos as int, pos + x.spec_bytes(e).len()))
                            implies false by {
                        if let Lvd::V3 { collisions, start_positions, restart_positions, camera_regions, death_regions, enemy_generators, fs_items, fs_unknown, fs_area_cams, fs_area_locks, fs_cam_limits } = x {
                            lemma_window_split(buf@, pos as int, 5, (Run((collisions, (start_positions, (restart_positions, (camera_regions, (death_regions, enemy_generators)))))), Run((fs_items, (fs_unknown, (fs_area_cams, (fs_area_locks, fs_cam_limits)))))).spec_bytes(e).len() as int);
                        }
                    }
                }
                return Err(err);
            },
        };
        match <(Run<(Versioned<Array<Collision>>, (Versioned<Array<Point>>, (Versioned<Array<Point>>, (Versioned<Array<Region>>, (Versioned<Array<Region>>, Versioned<Array<EnemyGenerator>>)))))>, Run<(Versioned<Array<FsItem>>, (Versioned<Array<FsUnknown>>, (Versioned<Array<FsAreaCam>>, (Versioned<Array<FsAreaLock>>, Versioned<Array<FsCamLimit>>))))>)>::decode(e, buf, p1) {
            Ok(((Run((collisions, (start_positions, (restart_positions, (camera_regions, (death_regions, enemy_generators)))))), Run((fs_items, (fs_unknown, (fs_area_cams, (fs_area_locks, fs_cam_limits)))))), end)) => {
                proof {
                    assert(p1 == pos + 5);
                    assert(end <= buf@.len());
                    assert(end == p1 + (Run((collisions, (start_positions, (restart_positions, (camera_regions, (death_regions, enemy_generators)))))), Run((fs_items, (fs_unknown, (fs_area_cams, (fs_area_locks, fs_cam_limits)))))).spec_bytes(e).len());
                    lemma_window_split(buf@, pos as int, 5, (Run((collisions, (start_positions, (restart_positions, (camera_regions, (death_regions, enemy_generators)))))), Run((fs_items, (fs_unknown, (fs_area_cams, (fs_area_locks, fs_cam_limits)))))).spec_bytes(e).len() as int);
                    assert forall|x: Self|
                        x.spec_version() == 3 && x.wf() && pos + x.spec_bytes(e).len() <= buf@.len()
                            && #[trigger] x.spec_accepts(e, buf@.subrange(pos as int, pos + x.spec_bytes(e).len()))
                            implies Lvd::V3 { collisions, start_positions, restart_positions, camera_regions, death_regions, enemy_generators, fs_items, fs_unknown, fs_area_cams, fs_area_locks, fs_cam_limits }.same(&x) && end == pos + x.spec_bytes(e).len() by {
                        if let Lvd::V3 { collisions, start_positions, restart_positions, camera_regions, death_regions, enemy_generators, fs_items, fs_unknown, fs_area_cams, fs_area_locks, fs_cam_limits } = x {
                            let b = (Run((collisions, (start_positions, (restart_positions, (camera_regions, (death_regions, enemy_generators)))))), Run((fs_items, (fs_unknown, (fs_area_cams, (fs_area_locks, fs_cam_limits)))))).spec_bytes(e).len() as int;
                            lemma_window_split(buf@, pos as int, 5, b);
                            assert((Run((collisions, (start_positions, (restart_positions, (camera_regions, (death_regions, enemy_generators)))))), Run((fs_items, (fs_unknown, (fs_area_cams, (fs_area_locks, fs_cam_limits)))))).spec_accepts(e, buf@.subrange(p1 as int, p1 + b)));
                        }
                    }
                }
                Ok((Lvd::V3 { collisions, start_positions, restart_positions, camera_regions, death_regions, enemy_generators, fs_items, fs_unknown, fs_area_cams, fs_area_locks, fs_cam_limits }, end))
            },
            Err(err) => {
                proof {
                    assert forall|x: Self|
                        x.spec_version() == 3 && x.wf() && pos + x.spec_bytes(e).len() <= buf@.len()
                            && #[trigger] x.spec_accepts(e, buf@.subrange(pos as int, pos + x.spec_bytes(e).len()))
                            implies false by {
                        if let Lvd::V3 { collisions, start_positions, restart_positions, camera_regions, death_regions, enemy_generators, fs_items, fs_unknown, fs_area_cams, fs_area_locks, fs_cam_limits } = x {
                            let b = (Run((collisions, (start_positions, (restart_positions, (camera_regions, (death_regions, enemy_generators)))))), Run((fs_items, (fs_unknown, (fs_area_cams, (fs_area_locks, fs_cam_limits)))))).spec_bytes(e).len() as int;
                            lemma_window_split(buf@, pos as int, 5, b);
                            assert((Run((collisions, (start_positions, (restart_positions, (camera_regions, (death_regions, enemy_generators)))))), Run((fs_items, (fs_unknown, (fs_area_cams, (fs_area_locks, fs_cam_limits)))))).spec_accepts(e, buf@.subrange(p1 as int, p1 + b)));
                        }
                    }
                }
                Err(err)
            },
        }
    }

    /// Writes the payload of layout 3.
    #[verifier::spinoff_prover]
    #[verifier::rlimit(100)]
    fn encode_v3(&self, e: Endian, out: &mut Vec<u8>)
        requires
            self is V3,
            self.wf(),
        ensures
            final(out)@ == old(out)@ + self.spec_bytes(e),
    {
        match self {
            Lvd::V3 { collisions, start_positions, restart_positions, camera_regions, death_regions, enemy_generators, fs_items, fs_unknown, fs_area_cams, fs_area_locks, fs_cam_limits } => {
                proof {
                    lemma_run(Run((*collisions, (*start_positions, (*restart_positions, (*camera_regions, (*death_regions, *enemy_generators)))))), e);
                    lemma_run(Run((*fs_items, (*fs_unknown, (*fs_area_cams, (*fs_area_locks, *fs_cam_limits))))), e);
                }
                let ghost u0 = out@;
                Signature {}.encode(e, out);
                let ghost u1 = out@;
                let ghost c0_0 = out@;
                collisions.encode(e, out);
                let ghost c0_1 = out@;
                start_positions.encode(e, out);
                let ghost c0_2 = out@;
                restart_positions.encode(e, out);
                let ghost c0_3 = out@;
                camera_regions.encode(e, out);
                let ghost c0_4 = out@;
                death_regions.encode(e, out);
                let ghost c0_5 = out@;
                enemy_generators.encode(e, out);
                let ghost c0_6 = out@;
                proof {
                    lemma_append_assoc(c0_4, (*death_regions).spec_bytes(e), (*enemy_generators).spec_bytes(e));
                    assert(c0_6 == c0_4 + ((*death_regions), (*enemy_generators)).spec_bytes(e));
                    lemma_append_assoc(c0_3, (*camera_regions).spec_bytes(e), ((*death_regions), (*enemy_generators)).spec_bytes(e));
                    assert(c0_6 == c0_3 + ((*camera_regions), ((*death_regions), (*enemy_generators))).spec_bytes(e));
                    lemma_append_assoc(c0_2, (*restart_positions).spec_bytes(e), ((*camera_regions), ((*death_regions), (*enemy_generators))).spec_bytes(e));
                    assert(c0_6 == c0_2 + ((*restart_positions), ((*camera_regions), ((*death_regions), (*enemy_generators)))).spec_bytes(e));
                    lemma_append_assoc(c0_1, (*start_positions).spec_bytes(e), ((*restart_positions), ((*camera_regions), ((*death_regions), (*enemy_generators)))).spec_bytes(e));
                    assert(c0_6 == c0_1 + ((*start_positions), ((*restart_positions), ((*camera_regions), ((*death_regions), (*enemy_generators))))).spec_bytes(e));
                    lemma_append_assoc(c0_0, (*collisions).spec_bytes(e), ((*start_positions), ((*restart_positions), ((*camera_regions), ((*death_regions), (*enemy_generators))))).spec_bytes(e));
                    assert(c0_6 == c0_0 + ((*collisions), ((*start_positions), ((*restart_positions), ((*camera_regions), ((*death_regions), (*enemy_generators)))))).spec_bytes(e));
                }
                let ghost u2 = out@;
                let ghost c1_0 = out@;
                fs_items.encode(e, out);
                let ghost c1_1 = out@;
                fs_unknown.encode(e, out);
                let ghost c1_2 = out@;
                fs_area_cams.encode(e, out);
                let ghost c1_3 = out@;
                fs_area_locks.encode(e, out);
                let ghost c1_4 = out@;
                fs_cam_limits.encode(e, out);
                let ghost c1_5 = out@;
                proof {
                    lemma_append_assoc(c1_3, (*fs_area_locks).spec_bytes(e), (*fs_cam_limits).spec_bytes(e));
                    assert(c1_5 == c1_3 + ((*fs_area_locks), (*fs_cam_limits)).spec_bytes(e));
                    lemma_append_assoc(c1_2, (*fs_area_cams).spec_bytes(e), ((*fs_area_locks), (*fs_cam_limits)).spec_bytes(e));
                    assert(c1_5 == c1_2 + ((*fs_area_cams), ((*fs_area_locks), (*fs_cam_limits))).spec_bytes(e));
                    lemma_append_assoc(c1_1, (*fs_unknown).spec_bytes(e), ((*fs_area_cams), ((*fs_area_locks), (*fs_cam_limits))).spec_bytes(e));
                    assert(c1_5 == c1_1 + ((*fs_unknown), ((*fs_area_cams), ((*fs_area_locks), (*fs_cam_limits)))).spec_bytes(e));
                    lemma_append_assoc(c1_0, (*fs_items).spec_bytes(e), ((*fs_unknown), ((*fs_area_cams), ((*fs_area_locks), (*fs_cam_limits)))).spec_bytes(e));
                    assert(c1_5 == c1_0 + ((*fs_items), ((*fs_unknown), ((*fs_area_cams), ((*fs_area_locks), (*fs_cam_limits))))).spec_bytes(e));
                }
                let ghost u3 = out@;
                proof {
                    lemma_append_assoc(u1, Run((*collisions, (*start_positions, (*restart_positions, (*camera_regions, (*death_regions, *enemy_generators)))))).spec_bytes(e), Run((*fs_items, (*fs_unknown, (*fs_area_cams, (*fs_area_locks, *fs_cam_limits))))).spec_bytes(e));
                    assert(u3 == u1 + (Run((*collisions, (*start_positions, (*restart_positions, (*camera_regions, (*death_regions, *enemy_generators)))))), Run((*fs_items, (*fs_unknown, (*fs_area_cams, (*fs_area_locks, *fs_cam_limits)))))).spec_bytes(e));
                    lemma_append_assoc(u0, Signature {}.spec_bytes(e), (Run((*collisions, (*start_positions, (*restart_positions, (*camera_regions, (*death_regions, *enemy_generators)))))), Run((*fs_items, (*fs_unknown, (*fs_area_cams, (*fs_area_locks, *fs_cam_limits)))))).spec_bytes(e));
                    assert(u3 == u0 + (Signature {}, (Run((*collisions, (*start_positions, (*restart_positions, (*camera_regions, (*death_regions, *enemy_generators)))))), Run((*fs_items, (*fs_unknown, (*fs_area_cams, (*fs_area_locks, *fs_cam_limits))))))).spec_bytes(e));
                }
            },
            _ => {},
        }
    }

    /// Reads the payload of layout 4.
    #[verifier::spinoff_prover]
    #[verifier::rlimit(100)]
    fn decode_v4(e: Endian, buf: &[u8], pos: usize) -> (r: Result<(Self, usize), DecodeError>)
        requires
            pos <= buf@.len(),
        ensures
            match r {
                Ok((v, end)) => {
                    &&& v.spec_version() == 4
                    &&& end == pos + v.spec_bytes(e).len()
                    &&& end <= buf@.len()
                    &&& v.wf()
                    &&& v.spec_accepts(e, buf@.subrange(pos as int, end as int))
                },
                Err(_) => true,
            },
            forall|x: Self|
                x.spec_version() == 4 && x.wf() && pos + x.spec_bytes(e).len() <= buf@.len()
                    && #[trigger] x.spec_accepts(e, buf@.subrange(pos as int, pos + x.spec_bytes(e).len()))
                    ==> match r {
                    Ok((v, end)) => v.same(&x) && end == pos + x.spec_bytes(e).len(),
                    Err(_) => false,
                },
            pos + 5 <= buf@.len() && buf@.subrange(pos as int, pos + 5) != signature_bytes() ==> r == Err::<
                (Self, usize),
                DecodeError,
            >(DecodeError::BadMagic { pos }),
    {
        let p1 = match check_signature(buf, pos) {
            Ok(p1) => p1,
            Err(err) => {
                proof {
                    assert forall|x: Self|
                        x.spec_version() == 4 && x.wf() && pos + x.spec_bytes(e).len() <= buf@.len()
                            && #[trigger] x.spec_accepts(e, buf@.subrange(pos as int, pos + x.spec_bytes(e).len()))
                            implies false by {
                        if let Lvd::V4 { collisions, start_positions, restart_positions, camera_regions, death_regions, enemy_generators, fs_items, fs_unknown, fs_area_cams, fs_area_locks, fs_cam_limits, damage_shapes } = x {
                            lemma_window_split(buf@, pos as int, 5, (Run((collisions, (start_positions, (restart_positions, (camera_regions, (death_regions, enemy_generators)))))), Run((fs_items, (fs_unknown, (fs_area_cams, (fs_area_locks, (fs_cam_limits, damage_shapes))))))).spec_bytes(e).len() as int);
                        }
                    }
                }
                return Err(err);
            },
        };
        match <(Run<(Versioned<Array<Collision>>, (Versioned<Array<Point>>, (Versioned<Array<Point>>, (Versioned<Array<Region>>, (Versioned<Array<Region>>, Versioned<Array<EnemyGenerator>>)))))>, Run<(Versioned<Array<FsItem>>, (Versioned<Array<FsUnknown>>, (Versioned<Array<FsAreaCam>>, (Versioned<Array<FsAreaLock>>, (Versioned<Array<FsCamLimit>>, Versioned<Array<DamageShape>>)))))>)>::decode(e, buf, p1) {
            Ok(((Run((collisions, (start_positions, (restart_positions, (camera_regions, (death_regions, enemy_generators)))))), Run((fs_items, (fs_unknown, (fs_area_cams, (fs_area_locks, (fs_cam_limits, damage_shapes))))))), end)) => {
                proof {
                    assert(p1 == pos + 5);
                    assert(end <= buf@.len());
                    assert(end == p1 + (Run((collisions, (start_positions, (restart_positions, (camera_regions, (death_regions, enemy_generators)))))), Run((fs_items, (fs_unknown, (fs_area_cams, (fs_area_locks, (fs_cam_limits, damage_shapes))))))).spec_bytes(e).len());
                    lemma_window_split(buf@, pos as int, 5, (Run((collisions, (start_positions, (restart_positions, (camera_regions, (death_regions, enemy_generators)))))), Run((fs_items, (fs_unknown, (fs_area_cams, (fs_area_locks, (fs_cam_limits, damage_shapes))))))).spec_bytes(e).len() as int);
                    assert forall|x: Self|
                        x.spec_version() == 4 && x.wf() && pos + x.spec_bytes(e).len() <= buf@.len()
                            && #[trigger] x.spec_accepts(e, buf@.subrange(pos as int, pos + x.spec_bytes(e).len()))
                            implies Lvd::V4 { collisions, start_positions, restart_positions, camera_regions, death_regions, enemy_generators, fs_items, fs_unknown, fs_area_cams, fs_area_locks, fs_cam_limits, damage_shapes }.same(&x) && end == pos + x.spec_bytes(e).len() by {
                        if let Lvd::V4 { collisions, start_positions, restart_positions, camera_regions, death_regions, enemy_generators, fs_items, fs_unknown, fs_area_cams, fs_area_locks, fs_cam_limits, damage_shapes } = x {
                            let b = (Run((collisions, (start_positions, (restart_positions, (camera_regions, (death_regions, enemy_generators)))))), Run((fs_items, (fs_unknown, (fs_area_cams, (fs_area_locks, (fs_cam_limits, damage_shapes))))))).spec_bytes(e).len() as int;
                            lemma_window_split(buf@, pos as int, 5, b);
                            assert((Run((collisions, (start_positions, (restart_positions, (camera_regions, (death_regions, enemy_generators)))))), Run((fs_items, (fs_unknown, (fs_area_cams, (fs_area_locks, (fs_cam_limits, damage_shapes))))))).spec_accepts(e, buf@.subrange(p1 as int, p1 + b)));
                        }
                    }
                }
                Ok((Lvd::V4 { collisions, start_positions, restart_positions, camera_regions, death_regions, enemy_generators, fs_items, fs_unknown, fs_area_cams, fs_area_locks, fs_cam_limits, damage_shapes }, end))
            },
            Err(err) => {
                proof {
                    assert forall|x: Self|
                        x.spec_version() == 4 && x.wf() && pos + x.spec_bytes(e).len() <= buf@.len()
                            && #[trigger] x.spec_accepts(e, buf@.subrange(pos as int, pos + x.spec_bytes(e).len()))
                            implies false by {
                        if let Lvd::V4 { collisions, start_positions, restart_positions, camera_regions, death_regions, enemy_generators, fs_items, fs_unknown, fs_area_cams, fs_area_locks, fs_cam_limits, damage_shapes } = x {
                            let b = (Run((collisions, (start_positions, (restart_positions, (camera_regions, (death_regions, enemy_generators)))))), Run((fs_items, (fs_unknown, (fs_area_cams, (fs_area_locks, (fs_cam_limits, damage_shapes))))))).spec_bytes(e).len() as int;
                            lemma_window_split(buf@, pos as int, 5, b);
                            assert((Run((collisions, (start_positions, (restart_positions, (camera_regions, (death_regions, enemy_generators)))))), Run((fs_items, (fs_unknown, (fs_area_cams, (fs_area_locks, (fs_cam_limits, damage_shapes))))))).spec_accepts(e, buf@.subrange(p1 as int, p1 + b)));
                        }
                    }
                }
                Err(err)
            },
        }
    }

    /// Writes the payload of layout 4.
    #[verifier::spinoff_prover]
    #[verifier::rlimit(100)]
    fn encode_v4(&self, e: Endian, out: &mut Vec<u8>)
        requires
            self is V4,
            self.wf(),
        ensures
            final(out)@ == old(out)@ + self.spec_bytes(e),
    {
        match self {
            Lvd::V4 { collisions, start_positions, restart_positions, camera_regions, death_regions, enemy_generators, fs_items, fs_unknown, fs_area_cams, fs_area_locks, fs_cam_limits, damage_shapes } => {
                proof {
                    lemma_run(Run((*collisions, (*start_positions, (*restart_positions, (*camera_regions, (*death_regions, *enemy_generators)))))), e);
                    lemma_run(Run((*fs_items, (*fs_unknown, (*fs_area_cams, (*fs_area_locks, (*fs_cam_limits, *damage_shapes)))))), e);
                }
                let ghost u0 = out@;
                Signature {}.encode(e, out);
                let ghost u1 = out@;
                let ghost c0_0 = out@;
                collisions.encode(e, out);
                let ghost c0_1 = out@;
                start_positions.encode(e, out);
                let ghost c0_2 = out@;
                restart_positions.encode(e, out);
                let ghost c0_3 = out@;
                camera_regions.encode(e, out);
                let ghost c0_4 = out@;
                death_regions.encode(e, out);
                let ghost c0_5 = out@;
                enemy_generators.encode(e, out);
                let ghost c0_6 = out@;
                proof {
                    lemma_append_assoc(c0_4, (*death_regions).spec_bytes(e), (*enemy_generators).spec_bytes(e));
                    assert(c0_6 == c0_4 + ((*death_regions), (*enemy_generators)).spec_bytes(e));
                    lemma_append_assoc(c0_3, (*camera_regions).spec_bytes(e), ((*death_regions), (*enemy_generators)).spec_bytes(e));
                    assert(c0_6 == c0_3 + ((*camera_regions), ((*death_regions), (*enemy_generators))).spec_bytes(e));
                    lemma_append_assoc(c0_2, (*restart_positions).spec_bytes(e), ((*camera_regions), ((*death_regions), (*enemy_generators))).spec_bytes(e));
                    assert(c0_6 == c0_2 + ((*restart_positions), ((*camera_regions), ((*death_regions), (*enemy_generators)))).spec_bytes(e));
                    lemma_append_assoc(c0_1, (*start_positions).spec_bytes(e), ((*restart_positions), ((*camera_regions), ((*death_regions), (*enemy_generators)))).spec_bytes(e));
                    assert(c0_6 == c0_1 + ((*start_positions), ((*restart_positions), ((*camera_regions), ((*death_regions), (*enemy_generators))))).spec_bytes(e));
                    lemma_append_assoc(c0_0, (*collisions).spec_bytes(e), ((*start_positions), ((*restart_positions), ((*camera_regions), ((*death_regions), (*enemy_generators))))).spec_bytes(e));
                    assert(c0_6 == c0_0 + ((*collisions), ((*start_positions), ((*restart_positions), ((*camera_regions), ((*death_regions), (*enemy_generators)))))).spec_bytes(e));
                }
                let ghost u2 = out@;
                let ghost c1_0 = out@;
                fs_items.encode(e, out);
                let ghost c1_1 = out@;
                fs_unknown.encode(e, out);
                let ghost c1_2 = out@;
                fs_area_cams.encode(e, out);
                let ghost c1_3 = out@;
                fs_area_locks.encode(e, out);
                let ghost c1_4 = out@;
                fs_cam_limits.encode(e, out);
                let ghost c1_5 = out@;
                damage_shapes.encode(e, out);
                let ghost c1_6 = out@;
                proof {
                    lemma_append_assoc(c1_4, (*fs_cam_limits).spec_bytes(e), (*damage_shapes).spec_bytes(e));
                    assert(c1_6 == c1_4 + ((*fs_cam_limits), (*damage_shapes)).spec_bytes(e));
                    lemma_append_assoc(c1_3, (*fs_area_locks).spec_bytes(e), ((*fs_cam_limits), (*damage_shapes)).spec_bytes(e));
                    assert(c1_6 == c1_3 + ((*fs_area_locks), ((*fs_cam_limits), (*damage_shapes))).spec_bytes(e));
                    lemma_append_assoc(c1_2, (*fs_area_cams).spec_bytes(e), ((*fs_area_locks), ((*fs_cam_limits), (*damage_shapes))).spec_bytes(e));
                    assert(c1_6 == c1_2 + ((*fs_area_cams), ((*fs_area_locks), ((*fs_cam_limits), (*damage_shapes)))).spec_bytes(e));
                    lemma_append_assoc(c1_1, (*fs_unknown).spec_bytes(e), ((*fs_area_cams), ((*fs_area_locks), ((*fs_cam_limits), (*damage_shapes)))).spec_bytes(e));
                    assert(c1_6 == c1_1 + ((*fs_unknown), ((*fs_area_cams), ((*fs_area_locks), ((*fs_cam_limits), (*damage_shapes))))).spec_bytes(e));
                    lemma_append_assoc(c1_0, (*fs_items).spec_bytes(e), ((*fs_unknown), ((*fs_area_cams), ((*fs_area_locks), ((*fs_cam_limits), (*damage_shapes))))).spec_bytes(e));
                    assert(c1_6 == c1_0 + ((*fs_items), ((*fs_unknown), ((*fs_area_cams), ((*fs_area_locks), ((*fs_cam_limits), (*damage_shapes)))))).spec_bytes(e));
                }
                let ghost u3 = out@;
                proof {
                    lemma_append_assoc(u1, Run((*collisions, (*start_positions, (*restart_positions, (*camera_regions, (*death_regions, *enemy_generators)))))).spec_bytes(e), Run((*fs_items, (*fs_unknown, (*fs_area_cams, (*fs_area_locks, (*fs_cam_limits, *damage_shapes)))))).spec_bytes(e));
                    assert(u3 == u1 + (Run((*collisions, (*start_positions, (*restart_positions, (*camera_regions, (*death_regions, *enemy_generators)))))), Run((*fs_items, (*fs_unknown, (*fs_area_cams, (*fs_area_locks, (*fs_cam_limits, *damage_shapes))))))).spec_bytes(e));
                    lemma_append_assoc(u0, Signature {}.spec_bytes(e), (Run((*collisions, (*start_positions, (*restart_positions, (*camera_regions, (*death_regions, *enemy_generators)))))), Run((*fs_items, (*fs_unknown, (*fs_area_cams, (*fs_area_locks, (*fs_cam_limits, *damage_shapes))))))).spec_bytes(e));
                    assert(u3 == u0 + (Signature {}, (Run((*collisions, (*start_positions, (*restart_positions, (*camera_regions, (*death_regions, *enemy_generators)))))), Run((*fs_items, (*fs_unknown, (*fs_area_cams, (*fs_area_locks, (*fs_cam_limits, *damage_shapes)))))))).spec_bytes(e));
                }
            },
            _ => {},
        }
    }

    /// Reads the payload of layout 5.
    #[verifier::spinoff_prover]
    #[verifier::rlimit(100)]
    fn decode_v5(e: Endian, buf: &[u8], pos: usize) -> (r: Result<(Self, usize), DecodeError>)
        requires
            pos <= buf@.len(),
        ensures
            match r {
                Ok((v, end)) => {
                    &&& v.spec_version() == 5
                    &&& end == pos + v.spec_bytes(e).len()
                    &&& end <= buf@.len()
                    &&& v.wf()
                    &&& v.spec_accepts(e, buf@.subrange(pos as int, end as int))
                },
                Err(_) => true,
            },
            forall|x: Self|
                x.spec_version() == 5 && x.wf() && pos + x.spec_bytes(e).len() <= buf@.len()
                    && #[trigger] x.spec_accepts(e, buf@.subrange(pos as int, pos + x.spec_bytes(e).len()))
                    ==> match r {
                    Ok((v, end)) => v.same(&x) && end == pos + x.spec_bytes(e).len(),
                    Err(_) => false,
                },
            pos + 5 <= buf@.len() && buf@.subrange(pos as int, pos + 5) != signature_bytes() ==> r == Err::<
                (Self, usize),
                DecodeError,
            >(DecodeError::BadMagic { pos }),
    {
        let p1 = match check_signature(buf, pos) {
            Ok(p1) => p1,
            Err(err) => {
                proof {
                    assert forall|x: Self|
                        x.spec_version() == 5 && x.wf() && pos + x.spec_bytes(e).len() <= buf@.len()
                            && #[trigger] x.spec_accepts(e, buf@.subrange(pos as int, pos + x.spec_bytes(e).len()))
                            implies false by {
                        if let Lvd::V5 { collisions, start_positions, restart_positions, camera_regions, death_regions, enemy_generators, fs_items, fs_unknown, fs_area_cams, fs_area_locks, fs_cam_limits, damage_shapes, item_popups } = x {
                            lemma_window_split(buf@, pos as int, 5, (Run((collisions, (start_positions, (restart_positions, (camera_regions, (death_regions, enemy_generators)))))), (Run((fs_items, (fs_unknown, (fs_area_cams, (fs_area_locks, (fs_cam_limits, damage_shapes)))))), Run(item_popups))).spec_bytes(e).len() as int);
                        }
                    }
                }
                return Err(err);
            },
        };
        match <(Run<(Versioned<Array<Collision>>, (Versioned<Array<Point>>, (Versioned<Array<Point>>, (Versioned<Array<Region>>, (Versioned<Array<Region>>, Versioned<Array<EnemyGenerator>>)))))>, (Run<(Versioned<Array<FsItem>>, (Versioned<Array<FsUnknown>>, (Versioned<Array<FsAreaCam>>, (Versioned<Array<FsAreaLock>>, (Versioned<Array<FsCamLimit>>, Versioned<Array<DamageShape>>)))))>, Run<Versioned<Array<ItemPopup>>>))>::decode(e, buf, p1) {
            Ok(((Run((collisions, (start_positions, (restart_positions, (camera_regions, (death_regions, enemy_generators)))))), (Run((fs_items, (fs_unknown, (fs_area_cams, (fs_area_locks, (fs_cam_limits, damage_shapes)))))), Run(item_popups))), end)) => {
                proof {
                    assert(p1 == pos + 5);
                    assert(end <= buf@.len());
                    assert(end == p1 + (Run((collisions, (start_positions, (restart_positions, (camera_regions, (death_regions, enemy_generators)))))), (Run((fs_items, (fs_unknown, (fs_area_cams, (fs_area_locks, (fs_cam_limits, damage_shapes)))))), Run(item_popups))).spec_bytes(e).len());
                    lemma_window_split(buf@, pos as int, 5, (Run((collisions, (start_positions, (restart_positions, (camera_regions, (death_regions, enemy_generators)))))), (Run((fs_items, (fs_unknown, (fs_area_cams, (fs_area_locks, (fs_cam_limits, damage_shapes)))))), Run(item_popups))).spec_bytes(e).len() as int);
                    assert forall|x: Self|
                        x.spec_version() == 5 && x.wf() && pos + x.spec_bytes(e).len() <= buf@.len()
                            && #[trigger] x.spec_accepts(e, buf@.subrange(pos as int, pos + x.spec_bytes(e).len()))
                            implies Lvd::V5 { collisions, start_positions, restart_positions, camera_regions, death_regions, enemy_generators, fs_items, fs_unknown, fs_area_cams, fs_area_locks, fs_cam_limits, damage_shapes, item_popups }.same(&x) && end == pos + x.spec_bytes(e).len() by {
                        if let Lvd::V5 { collisions, start_positions, restart_positions, camera_regions, death_regions, enemy_generators, fs_items, fs_unknown, fs_area_cams, fs_area_locks, fs_cam_limits, damage_shapes, item_popups } = x {
                            let b = (Run((collisions, (start_positions, (restart_positions, (camera_regions, (death_regions, enemy_generators)))))), (Run((fs_items, (fs_unknown, (fs_area_cams, (fs_area_locks, (fs_cam_limits, damage_shapes)))))), Run(item_popups))).spec_bytes(e).len() as int;
                            lemma_window_split(buf@, pos as int, 5, b);
                            assert((Run((collisions, (start_positions, (restart_positions, (camera_regions, (death_regions, enemy_generators)))))), (Run((fs_items, (fs_unknown, (fs_area_cams, (fs_area_locks, (fs_cam_limits, damage_shapes)))))), Run(item_popups))).spec_accepts(e, buf@.subrange(p1 as int, p1 + b)));
                        }
                    }
                }
                Ok((Lvd::V5 { collisions, start_positions, restart_positions, camera_regions, death_regions, enemy_generators, fs_items, fs_unknown, fs_area_cams, fs_area_locks, fs_cam_limits, damage_shapes, item_popups }, end))
            },
            Err(err) => {
                proof {
                    assert forall|x: Self|
                        x.spec_version() == 5 && x.wf() && pos + x.spec_bytes(e).len() <= buf@.len()
                            && #[trigger] x.spec_accepts(e, buf@.subrange(pos as int, pos + x.spec_bytes(e).len()))
                            implies false by {
                        if let Lvd::V5 { collisions, start_positions, restart_positions, camera_regions, death_regions, enemy_generators, fs_items, fs_unknown, fs_area_cams, fs_area_locks, fs_cam_limits, damage_shapes, item_popups } = x {
                            let b = (Run((collisions, (start_positions, (restart_positions, (camera_regions, (death_regions, enemy_generators)))))), (Run((fs_items, (fs_unknown, (fs_area_cams, (fs_area_locks, (fs_cam_limits, damage_shapes)))))), Run(item_popups))).spec_bytes(e).len() as int;
                            lemma_window_split(buf@, pos as int, 5, b);
                            assert((Run((collisions, (start_positions, (restart_positions, (camera_regions, (death_regions, enemy_generators)))))), (Run((fs_items, (fs_unknown, (fs_area_cams, (fs_area_locks, (fs_cam_limits, damage_shapes)))))), Run(item_popups))).spec_accepts(e, buf@.subrange(p1 as int, p1 + b)));
                        }
                    }
                }
                Err(err)
            },
        }
    }

    /// Writes the payload of layout 5.
    #[verifier::spinoff_prover]
    #[verifier::rlimit(100)]
    fn encode_v5(&self, e: Endian, out: &mut Vec<u8>)
        requires
            self is V5,
            self.wf(),
        ensures
            final(out)@ == old(out)@ + self.spec_bytes(e),
    {
        match self {
            Lvd::V5 { collisions, start_positions, restart_positions, camera_regions, death_regions, enemy_generators, fs_items, fs_unknown, fs_area_cams, fs_area_locks, fs_cam_limits, damage_shapes, item_popups } => {
                proof {
                    lemma_run(Run((*collisions, (*start_positions, (*restart_positions, (*camera_regions, (*death_regions, *enemy_generators)))))), e);
                    lemma_run(Run((*fs_items, (*fs_unknown, (*fs_area_cams, (*fs_area_locks, (*fs_cam_limits, *damage_shapes)))))), e);
                    lemma_run(Run(*item_popups), e);
                }
                let ghost u0 = out@;
                Signature {}.encode(e, out);
                let ghost u1 = out@;
                let ghost c0_0 = out@;
                collisions.encode(e, out);
                let ghost c0_1 = out@;
                start_positions.encode(e, out);
                let ghost c0_2 = out@;
                restart_positions.encode(e, out);
                let ghost c0_3 = out@;
                camera_regions.encode(e, out);
                let ghost c0_4 = out@;
                death_regions.encode(e, out);
                let ghost c0_5 = out@;
                enemy_generators.encode(e, out);
                let ghost c0_6 = out@;
                proof {
                    lemma_append_assoc(c0_4, (*death_regions).spec_bytes(e), (*enemy_generators).spec_bytes(e));
                    assert(c0_6 == c0_4 + ((*death_regions), (*enemy_generators)).spec_bytes(e));
                    lemma_append_assoc(c0_3, (*camera_regions).spec_bytes(e), ((*death_regions), (*enemy_generators)).spec_bytes(e));
                    assert(c0_6 == c0_3 + ((*camera_regions), ((*death_regions), (*enemy_generators))).spec_bytes(e));
                    lemma_append_assoc(c0_2, (*restart_positions).spec_bytes(e), ((*camera_regions), ((*death_regions), (*enemy_generators))).spec_bytes(e));
                    assert(c0_6 == c0_2 + ((*restart_positions), ((*camera_regions), ((*death_regions), (*enemy_generators)))).spec_bytes(e));
                    lemma_append_assoc(c0_1, (*start_positions).spec_bytes(e), ((*restart_positions), ((*camera_regions), ((*death_regions), (*enemy_generators)))).spec_bytes(e));
                    assert(c0_6 == c0_1 + ((*start_positions), ((*restart_positions), ((*camera_regions), ((*death_regions), (*enemy_generators))))).spec_bytes(e));
                    lemma_append_assoc(c0_0, (*collisions).spec_bytes(e), ((*start_positions), ((*restart_positions), ((*camera_regions), ((*death_regions), (*enemy_generators))))).spec_bytes(e));
                    assert(c0_6 == c0_0 + ((*collisions), ((*start_positions), ((*restart_positions), ((*camera_regions), ((*death_regions), (*enemy_generators)))))).spec_bytes(e));
                }
                let ghost u2 = out@;
                let ghost c1_0 = out@;
                fs_items.encode(e, out);
                let ghost c1_1 = out@;
                fs_unknown.encode(e, out);
                let ghost c1_2 = out@;
                fs_area_cams.encode(e, out);
                let ghost c1_3 = out@;
                fs_area_locks.encode(e, out);
                let ghost c1_4 = out@;
                fs_cam_limits.encode(e, out);
                let ghost c1_5 = out@;
                damage_shapes.encode(e, out);
                let ghost c1_6 = out@;
                proof {
                    lemma_append_assoc(c1_4, (*fs_cam_limits).spec_bytes(e), (*damage_shapes).spec_bytes(e));
                    assert(c1_6 == c1_4 + ((*fs_cam_limits), (*damage_shapes)).spec_bytes(e));
                    lemma_append_assoc(c1_3, (*fs_area_locks).spec_bytes(e), ((*fs_cam_limits), (*damage_shapes)).spec_bytes(e));
                    assert(c1_6 == c1_3 + ((*fs_area_locks), ((*fs_cam_limits), (*damage_shapes))).spec_bytes(e));
                    lemma_append_assoc(c1_2, (*fs_area_cams).spec_bytes(e), ((*fs_area_locks), ((*fs_cam_limits), (*damage_shapes))).spec_bytes(e));
                    assert(c1_6 == c1_2 + ((*fs_area_cams), ((*fs_area_locks), ((*fs_cam_limits), (*damage_shapes)))).spec_bytes(e));
                    lemma_append_assoc(c1_1, (*fs_unknown).spec_bytes(e), ((*fs_area_cams), ((*fs_area_locks), ((*fs_cam_limits), (*damage_shapes)))).spec_bytes(e));
                    assert(c1_6 == c1_1 + ((*fs_unknown), ((*fs_area_cams), ((*fs_area_locks), ((*fs_cam_limits), (*damage_shapes))))).spec_bytes(e));
                    lemma_append_assoc(c1_0, (*fs_items).spec_bytes(e), ((*fs_unknown), ((*fs_area_cams), ((*fs_area_locks), ((*fs_cam_limits), (*damage_shapes))))).spec_bytes(e));
                    assert(c1_6 == c1_0 + ((*fs_items), ((*fs_unknown), ((*fs_area_cams), ((*fs_area_locks), ((*fs_cam_limits), (*damage_shapes)))))).spec_bytes(e));
                }
                let ghost u3 = out@;
                let ghost c2_0 = out@;
                item_popups.encode(e, out);
                let ghost c2_1 = out@;
                proof {
                }
                let ghost u4 = out@;
                proof {
                    lemma_append_assoc(u2, Run((*fs_items, (*fs_unknown, (*fs_area_cams, (*fs_area_locks, (*fs_cam_limits, *damage_shapes)))))).spec_bytes(e), Run(*item_popups).spec_bytes(e));
                    assert(u4 == u2 + (Run((*fs_items, (*fs_unknown, (*fs_area_cams, (*fs_area_locks, (*fs_cam_limits, *damage_shapes)))))), Run(*item_popups)).spec_bytes(e));
                    lemma_append_assoc(u1, Run((*collisions, (*start_positions, (*restart_positions, (*camera_regions, (*death_regions, *enemy_generators)))))).spec_bytes(e), (Run((*fs_items, (*fs_unknown, (*fs_area_cams, (*fs_area_locks, (*fs_cam_limits, *damage_shapes)))))), Run(*item_popups)).spec_bytes(e));
                    assert(u4 == u1 + (Run((*collisions, (*start_positions, (*restart_positions, (*camera_regions, (*death_regions, *enemy_generators)))))), (Run((*fs_items, (*fs_unknown, (*fs_area_cams, (*fs_area_locks, (*fs_cam_limits, *damage_shapes)))))), Run(*item_popups))).spec_bytes(e));
                    lemma_append_assoc(u0, Signature {}.spec_bytes(e), (Run((*collisions, (*start_positions, (*restart_positions, (*camera_regions, (*death_regions, *enemy_generators)))))), (Run((*fs_items, (*fs_unknown, (*fs_area_cams, (*fs_area_locks, (*fs_cam_limits, *damage_shapes)))))), Run(*item_popups))).spec_bytes(e));
                    assert(u4 == u0 + (Signature {}, (Run((*collisions, (*start_positions, (*restart_positions, (*camera_regions, (*death_regions, *enemy_generators)))))), (Run((*fs_items, (*fs_unknown, (*fs_area_cams, (*fs_area_locks, (*fs_cam_limits, *damage_shapes)))))), Run(*item_popups)))).spec_bytes(e));
                }
            },
            _ => {},
        }
    }

    /// Reads the payload of layout 6.
    #[verifier::spinoff_prover]
    #[verifier::rlimit(100)]
    fn decode_v6(e: Endian, buf: &[u8], pos: usize) -> (r: Result<(Self, usize), DecodeError>)
        requires
            pos <= buf@.len(),
        ensures
            match r {
                Ok((v, end)) => {
                    &&& v.spec_version() == 6
                    &&& end == pos + v.spec_bytes(e).len()
                    &&& end <= buf@.len()
                    &&& v.wf()
                    &&& v.spec_accepts(e, buf@.subrange(pos as int, end as int))
                },
                Err(_) => true,
            },
            forall|x: Self|
                x.spec_version() == 6 && x.wf() && pos + x.spec_bytes(e).len() <= buf@.len()
                    && #[trigger] x.spec_accepts(e, buf@.subrange(pos as int, pos + x.spec_bytes(e).len()))
                    ==> match r {
                    Ok((v, end)) => v.same(&x) && end == pos + x.spec_bytes(e).len(),
                    Err(_) => false,
                },
            pos + 5 <= buf@.len() && buf@.subrange(pos as int, pos + 5) != signature_bytes() ==> r == Err::<
                (Self, usize),
                DecodeError,
            >(DecodeError::BadMagic { pos }),
    {
        let p1 = match check_signature(buf, pos) {
            Ok(p1) => p1,
            Err(err) => {
                proof {
                    assert forall|x: Self|
                        x.spec_version() == 6 && x.wf() && pos + x.spec_bytes(e).len() <= buf@.len()
                            && #[trigger] x.spec_accepts(e, buf@.subrange(pos as int, pos + x.spec_bytes(e).len()))
                            implies false by {
                        if let Lvd::V6 { collisions, start_positions, restart_positions, camera_regions, death_regions, enemy_generators, fs_items, fs_unknown, fs_area_cams, fs_area_locks, fs_cam_limits, damage_shapes, item_popups, general_shapes2, general_shapes3 } = x {
                            lemma_window_split(buf@, pos as int, 5, (Run((collisions, (start_positions, (restart_positions, (camera_regions, (death_regions, enemy_generators)))))), (Run((fs_items, (fs_unknown, (fs_area_cams, (fs_area_locks, (fs_cam_limits, damage_shapes)))))), Run((item_popups, (general_shapes2, general_shapes3))))).spec_bytes(e).len() as int);
                        }
                    }
                }
                return Err(err);
            },
        };
        match <(Run<(Versioned<Array<Collision>>, (Versioned<Array<Point>>, (Versioned<Array<Point>>, (Versioned<Array<Region>>, (Versioned<Array<Region>>, Versioned<Array<EnemyGenerator>>)))))>, (Run<(Versioned<Array<FsItem>>, (Versioned<Array<FsUnknown>>, (Versioned<Array<FsAreaCam>>, (Versioned<Array<FsAreaLock>>, (Versioned<Array<FsCamLimit>>, Versioned<Array<DamageShape>>)))))>, Run<(Versioned<Array<ItemPopup>>, (Versioned<Array<GeneralShape2>>, Versioned<Array<GeneralShape3>>))>))>::decode(e, buf, p1) {
            Ok(((Run((collisions, (start_positions, (restart_positions, (camera_regions, (death_regions, enemy_generators)))))), (Run((fs_items, (fs_unknown, (fs_area_cams, (fs_area_locks, (fs_cam_limits, damage_shapes)))))), Run((item_popups, (general_shapes2, general_shapes3))))), end)) => {
                proof {
                    assert(p1 == pos + 5);
                    assert(end <= buf@.len());
                    assert(end == p1 + (Run((collisions, (start_positions, (restart_positions, (camera_regions, (death_regions, enemy_generators)))))), (Run((fs_items, (fs_unknown, (fs_area_cams, (fs_area_locks, (fs_cam_limits, damage_shapes)))))), Run((item_popups, (general_shapes2, general_shapes3))))).spec_bytes(e).len());
                    lemma_window_split(buf@, pos as int, 5, (Run((collisions, (start_positions, (restart_positions, (camera_regions, (death_regions, enemy_generators)))))), (Run((fs_items, (fs_unknown, (fs_area_cams, (fs_area_locks, (fs_cam_limits, damage_shapes)))))), Run((item_popups, (general_shapes2, general_shapes3))))).spec_bytes(e).len() as int);
                    assert forall|x: Self|
                        x.spec_version() == 6 && x.wf() && pos + x.spec_bytes(e).len() <= buf@.len()
                            && #[trigger] x.spec_accepts(e, buf@.subrange(pos as int, pos + x.spec_bytes(e).len()))
                            implies Lvd::V6 { collisions, start_positions, restart_positions, camera_regions, death_regions, enemy_generators, fs_items, fs_unknown, fs_area_cams, fs_area_locks, fs_cam_limits, damage_shapes, item_popups, general_shapes2, general_shapes3 }.same(&x) && end == pos + x.spec_bytes(e).len() by {
                        if let Lvd::V6 { collisions, start_positions, restart_positions, camera_regions, death_regions, enemy_generators, fs_items, fs_unknown, fs_area_cams, fs_area_locks, fs_cam_limits, damage_shapes, item_popups, general_shapes2, general_shapes3 } = x {
                            let b = (Run((collisions, (start_positions, (restart_positions, (camera_regions, (death_regions, enemy_generators)))))), (Run((fs_items, (fs_unknown, (fs_area_cams, (fs_area_locks, (fs_cam_limits, damage_shapes)))))), Run((item_popups, (general_shapes2, general_shapes3))))).spec_bytes(e).len() as int;
                            lemma_window_split(buf@, pos as int, 5, b);
                            assert((Run((collisions, (start_positions, (restart_positions, (camera_regions, (death_regions, enemy_generators)))))), (Run((fs_items, (fs_unknown, (fs_area_cams, (fs_area_locks, (fs_cam_limits, damage_shapes)))))), Run((item_popups, (general_shapes2, general_shapes3))))).spec_accepts(e, buf@.subrange(p1 as int, p1 + b)));
                        }
                    }
                }
                Ok((Lvd::V6 { collisions, start_positions, restart_positions, camera_regions, death_regions, enemy_generators, fs_items, fs_unknown, fs_area_cams, fs_area_locks, fs_cam_limits, damage_shapes, item_popups, general_shapes2, general_shapes3 }, end))
            },
            Err(err) => {
                proof {
                    assert forall|x: Self|
                        x.spec_version() == 6 && x.wf() && pos + x.spec_bytes(e).len() <= buf@.len()
                            && #[trigger] x.spec_accepts(e, buf@.subrange(pos as int, pos + x.spec_bytes(e).len()))
                            implies false by {
                        if let Lvd::V6 { collisions, start_positions, restart_positions, camera_regions, death_regions, enemy_generators, fs_items, fs_unknown, fs_area_cams, fs_area_locks, fs_cam_limits, damage_shapes, item_popups, general_shapes2, general_shapes3 } = x {
                            let b = (Run((collisions, (start_positions, (restart_positions, (camera_regions, (death_regions, enemy_generators)))))), (Run((fs_items, (fs_unknown, (fs_area_cams, (fs_area_locks, (fs_cam_limits, damage_shapes)))))), Run((item_popups, (general_shapes2, general_shapes3))))).spec_bytes(e).len() as int;
                            lemma_window_split(buf@, pos as int, 5, b);
                            assert((Run((collisions, (start_positions, (restart_positions, (camera_regions, (death_regions, enemy_generators)))))), (Run((fs_items, (fs_unknown, (fs_area_cams, (fs_area_locks, (fs_cam_limits, damage_shapes)))))), Run((item_popups, (general_shapes2, general_shapes3))))).spec_accepts(e, buf@.subrange(p1 as int, p1 + b)));
                        }
                    }
                }
                Err(err)
            },
        }
    }

    /// Writes the payload of layout 6.
    #[verifier::spinoff_prover]
    #[verifier::rlimit(100)]
    fn encode_v6(&self, e: Endian, out: &mut Vec<u8>)
        requires
            self is V6,
            self.wf(),
        ensures
            final(out)@ == old(out)@ + self.spec_bytes(e),
    {
        match self {
            Lvd::V6 { collisions, start_positions, restart_positions, camera_regions, death_regions, enemy_generators, fs_items, fs_unknown, fs_area_cams, fs_area_locks, fs_cam_limits, damage_shapes, item_popups, general_shapes2, general_shapes3 } => {
                proof {
                    lemma_run(Run((*collisions, (*start_positions, (*restart_positions, (*camera_regions, (*death_regions, *enemy_generators)))))), e);
                    lemma_run(Run((*fs_items, (*fs_unknown, (*fs_area_cams, (*fs_area_locks, (*fs_cam_limits, *damage_shapes)))))), e);
                    lemma_run(Run((*item_popups, (*general_shapes2, *general_shapes3))), e);
                }
                let ghost u0 = out@;
                Signature {}.encode(e, out);
                let ghost u1 = out@;
                let ghost c0_0 = out@;
                collisions.encode(e, out);
                let ghost c0_1 = out@;
                start_positions.encode(e, out);
                let ghost c0_2 = out@;
                restart_positions.encode(e, out);
                let ghost c0_3 = out@;
                camera_regions.encode(e, out);
                let ghost c0_4 = out@;
                death_regions.encode(e, out);
                let ghost c0_5 = out@;
                enemy_generators.encode(e, out);
                let ghost c0_6 = out@;
                proof {
                    lemma_append_assoc(c0_4, (*death_regions).spec_bytes(e), (*enemy_generators).spec_bytes(e));
                    assert(c0_6 == c0_4 + ((*death_regions), (*enemy_generators)).spec_bytes(e));
                    lemma_append_assoc(c0_3, (*camera_regions).spec_bytes(e), ((*death_regions), (*enemy_generators)).spec_bytes(e));
                    assert(c0_6 == c0_3 + ((*camera_regions), ((*death_regions), (*enemy_generators))).spec_bytes(e));
                    lemma_append_assoc(c0_2, (*restart_positions).spec_bytes(e), ((*camera_regions), ((*death_regions), (*enemy_generators))).spec_bytes(e));
                    assert(c0_6 == c0_2 + ((*restart_positions), ((*camera_regions), ((*death_regions), (*enemy_generators)))).spec_bytes(e));
                    lemma_append_assoc(c0_1, (*start_positions).spec_bytes(e), ((*restart_positions), ((*camera_regions), ((*death_regions), (*enemy_generators)))).spec_bytes(e));
                    assert(c0_6 == c0_1 + ((*start_positions), ((*restart_positions), ((*camera_regions), ((*death_regions), (*enemy_generators))))).spec_bytes(e));
                    lemma_append_assoc(c0_0, (*collisions).spec_bytes(e), ((*start_positions), ((*restart_positions), ((*camera_regions), ((*death_regions), (*enemy_generators))))).spec_bytes(e));
                    assert(c0_6 == c0_0 + ((*collisions), ((*start_positions), ((*restart_positions), ((*camera_regions), ((*death_regions), (*enemy_generators)))))).spec_bytes(e));
                }
                let ghost u2 = out@;
                let ghost c1_0 = out@;
                fs_items.encode(e, out);
                let ghost c1_1 = out@;
                fs_unknown.encode(e, out);
                let ghost c1_2 = out@;
                fs_area_cams.encode(e, out);
                let ghost c1_3 = out@;
                fs_area_locks.encode(e, out);
                let ghost c1_4 = out@;
                fs_cam_limits.encode(e, out);
                let ghost c1_5 = out@;
                damage_shapes.encode(e, out);
                let ghost c1_6 = out@;
                proof {
                    lemma_append_assoc(c1_4, (*fs_cam_limits).spec_bytes(e), (*damage_shapes).spec_bytes(e));
                    assert(c1_6 == c1_4 + ((*fs_cam_limits), (*damage_shapes)).spec_bytes(e));
                    lemma_append_assoc(c1_3, (*fs_area_locks).spec_bytes(e), ((*fs_cam_limits), (*damage_shapes)).spec_bytes(e));
                    assert(c1_6 == c1_3 + ((*fs_area_locks), ((*fs_cam_limits), (*damage_shapes))).spec_bytes(e));
                    lemma_append_assoc(c1_2, (*fs_area_cams).spec_bytes(e), ((*fs_area_locks), ((*fs_cam_limits), (*damage_shapes))).spec_bytes(e));
                    assert(c1_6 == c1_2 + ((*fs_area_cams), ((*fs_area_locks), ((*fs_cam_limits), (*damage_shapes)))).spec_bytes(e));
                    lemma_append_assoc(c1_1, (*fs_unknown).spec_bytes(e), ((*fs_area_cams), ((*fs_area_locks), ((*fs_cam_limits), (*damage_shapes)))).spec_bytes(e));
                    assert(c1_6 == c1_1 + ((*fs_unknown), ((*fs_area_cams), ((*fs_area_locks), ((*fs_cam_limits), (*damage_shapes))))).spec_bytes(e));
                    lemma_append_assoc(c1_0, (*fs_items).spec_bytes(e), ((*fs_unknown), ((*fs_area_cams), ((*fs_area_locks), ((*fs_cam_limits), (*damage_shapes))))).spec_bytes(e));
                    assert(c1_6 == c1_0 + ((*fs_items), ((*fs_unknown), ((*fs_area_cams), ((*fs_area_locks), ((*fs_cam_limits), (*damage_shapes)))))).spec_bytes(e));
                }
                let ghost u3 = out@;
                let ghost c2_0 = out@;
                item_popups.encode(e, out);
                let ghost c2_1 = out@;
                general_shapes2.encode(e, out);
                let ghost c2_2 = out@;
                general_shapes3.encode(e, out);
                let ghost c2_3 = out@;
                proof {
                    lemma_append_assoc(c2_1, (*general_shapes2).spec_bytes(e), (*general_shapes3).spec_bytes(e));
                    assert(c2_3 == c2_1 + ((*general_shapes2), (*general_shapes3)).spec_bytes(e));
                    lemma_append_assoc(c2_0, (*item_popups).spec_bytes(e), ((*general_shapes2), (*general_shapes3)).spec_bytes(e));
                    assert(c2_3 == c2_0 + ((*item_popups), ((*general_shapes2), (*general_shapes3))).spec_bytes(e));
                }
                let ghost u4 = out@;
                proof {
                    lemma_append_assoc(u2, Run((*fs_items, (*fs_unknown, (*fs_area_cams, (*fs_area_locks, (*fs_cam_limits, *damage_shapes)))))).spec_bytes(e), Run((*item_popups, (*general_shapes2, *general_shapes3))).spec_bytes(e));
                    assert(u4 == u2 + (Run((*fs_items, (*fs_unknown, (*fs_area_cams, (*fs_area_locks, (*fs_cam_limits, *damage_shapes)))))), Run((*item_popups, (*general_shapes2, *general_shapes3)))).spec_bytes(e));
                    lemma_append_assoc(u1, Run((*collisions, (*start_positions, (*restart_positions, (*camera_regions, (*death_regions, *enemy_generators)))))).spec_bytes(e), (Run((*fs_items, (*fs_unknown, (*fs_area_cams, (*fs_area_locks, (*fs_cam_limits, *damage_shapes)))))), Run((*item_popups, (*general_shapes2, *general_shapes3)))).spec_bytes(e));
                    assert(u4 == u1 + (Run((*collisions, (*start_positions, (*restart_positions, (*camera_regions, (*death_regions, *enemy_generators)))))), (Run((*fs_items, (*fs_unknown, (*fs_area_cams, (*fs_area_locks, (*fs_cam_limits, *damage_shapes)))))), Run((*item_popups, (*general_shapes2, *general_shapes3))))).spec_bytes(e));
                    lemma_append_assoc(u0, Signature {}.spec_bytes(e), (Run((*collisions, (*start_positions, (*restart_positions, (*camera_regions, (*death_regions, *enemy_generators)))))), (Run((*fs_items, (*fs_unknown, (*fs_area_cams, (*fs_area_locks, (*fs_cam_limits, *damage_shapes)))))), Run((*item_popups, (*general_shapes2, *general_shapes3))))).spec_bytes(e));
                    assert(u4 == u0 + (Signature {}, (Run((*collisions, (*start_positions, (*restart_positions, (*camera_regions, (*death_regions, *enemy_generators)))))), (Run((*fs_items, (*fs_unknown, (*fs_area_cams, (*fs_area_locks, (*fs_cam_limits, *damage_shapes)))))), Run((*item_popups, (*general_shapes2, *general_shapes3)))))).spec_bytes(e));
                }
            },
            _ => {},
        }
    }

    /// Reads the payload of layout 7.
    #[verifier::spinoff_prover]
    #[verifier::rlimit(100)]
    fn decode_v7(e: Endian, buf: &[u8], pos: usize) -> (r: Result<(Self, usize), DecodeError>)
        requires
            pos <= buf@.len(),
        ensures
            match r {
                Ok((v, end)) => {
                    &&& v.spec_version() == 7
                    &&& end == pos + v.spec_bytes(e).len()
                    &&& end <= buf@.len()
                    &&& v.wf()
                    &&& v.spec_accepts(e, buf@.subrange(pos as int, end as int))
                },
                Err(_) => true,
            },
            forall|x: Self|
                x.spec_version() == 7 && x.wf() && pos + x.spec_bytes(e).len() <= buf@.len()
                    && #[trigger] x.spec_accepts(e, buf@.subrange(pos as int, pos + x.spec_bytes(e).len()))
                    ==> match r {
                    Ok((v, end)) => v.same(&x) && end == pos + x.spec_bytes(e).len(),
                    Err(_) => false,
                },
            pos + 5 <= buf@.len() && buf@.subrange(pos as int, pos + 5) != signature_bytes() ==> r == Err::<
                (Self, usize),
                DecodeError,
            >(DecodeError::BadMagic { pos }),
    {
        let p1 = match check_signature(buf, pos) {
            Ok(p1) => p1,
            Err(err) => {
                proof {
                    assert forall|x: Self|
                        x.spec_version() == 7 && x.wf() && pos + x.spec_bytes(e).len() <= buf@.len()
                            && #[trigger] x.spec_accepts(e, buf@.subrange(pos as int, pos + x.spec_bytes(e).len()))
                            implies false by {
                        if let Lvd::V7 { collisions, start_positions, restart_positions, camera_regions, death_regions, enemy_generators, fs_items, fs_unknown, fs_area_cams, fs_area_locks, fs_cam_limits, damage_shapes, item_popups, general_shapes2, general_shapes3, area_lights } = x {
                            lemma_window_split(buf@, pos as int, 5, (Run((collisions, (start_positions, (restart_positions, (camera_regions, (death_regions, enemy_generators)))))), (Run((fs_items, (fs_unknown, (fs_area_cams, (fs_area_locks, (fs_cam_limits, damage_shapes)))))), Run((item_popups, (general_shapes2, (general_shapes3, area_lights)))))).spec_bytes(e).len() as int);
                        }
                    }
                }
                return Err(err);
            },
        };
        match <(Run<(Versioned<Array<Collision>>, (Versioned<Array<Point>>, (Versioned<Array<Point>>, (Versioned<Array<Region>>, (Versioned<Array<Region>>, Versioned<Array<EnemyGenerator>>)))))>, (Run<(Versioned<Array<FsItem>>, (Versioned<Array<FsUnknown>>, (Versioned<Array<FsAreaCam>>, (Versioned<Array<FsAreaLock>>, (Versioned<Array<FsCamLimit>>, Versioned<Array<DamageShape>>)))))>, Run<(Versioned<Array<ItemPopup>>, (Versioned<Array<GeneralShape2>>, (Versioned<Array<GeneralShape3>>, Versioned<Array<AreaLight>>)))>))>::decode(e, buf, p1) {
            Ok(((Run((collisions, (start_positions, (restart_positions, (camera_regions, (death_regions, enemy_generators)))))), (Run((fs_items, (fs_unknown, (fs_area_cams, (fs_area_locks, (fs_cam_limits, damage_shapes)))))), Run((item_popups, (general_shapes2, (general_shapes3, area_lights)))))), end)) => {
                proof {
                    assert(p1 == pos + 5);
                    assert(end <= buf@.len());
                    assert(end == p1 + (Run((collisions, (start_positions, (restart_positions, (camera_regions, (death_regions, enemy_generators)))))), (Run((fs_items, (fs_unknown, (fs_area_cams, (fs_area_locks, (fs_cam_limits, damage_shapes)))))), Run((item_popups, (general_shapes2, (general_shapes3, area_lights)))))).spec_bytes(e).len());
                    lemma_window_split(buf@, pos as int, 5, (Run((collisions, (start_positions, (restart_positions, (camera_regions, (death_regions, enemy_generators)))))), (Run((fs_items, (fs_unknown, (fs_area_cams, (fs_area_locks, (fs_cam_limits, damage_shapes)))))), Run((item_popups, (general_shapes2, (general_shapes3, area_lights)))))).spec_bytes(e).len() as int);
                    assert forall|x: Self|
                        x.spec_version() == 7 && x.wf() && pos + x.spec_bytes(e).len() <= buf@.len()
                            && #[trigger] x.spec_accepts(e, buf@.subrange(pos as int, pos + x.spec_bytes(e).len()))
                            implies Lvd::V7 { collisions, start_positions, restart_positions, camera_regions, death_regions, enemy_generators, fs_items, fs_unknown, fs_area_cams, fs_area_locks, fs_cam_limits, damage_shapes, item_popups, general_shapes2, general_shapes3, area_lights }.same(&x) && end == pos + x.spec_bytes(e).len() by {
                        if let Lvd::V7 { collisions, start_positions, restart_positions, camera_regions, death_regions, enemy_generators, fs_items, fs_unknown, fs_area_cams, fs_area_locks, fs_cam_limits, damage_shapes, item_popups, general_shapes2, general_shapes3, area_lights } = x {
                            let b = (Run((collisions, (start_positions, (restart_positions, (camera_regions, (death_regions, enemy_generators)))))), (Run((fs_items, (fs_unknown, (fs_area_cams, (fs_area_locks, (fs_cam_limits, damage_shapes)))))), Run((item_popups, (general_shapes2, (general_shapes3, area_lights)))))).spec_bytes(e).len() as int;
                            lemma_window_split(buf@, pos as int, 5, b);
                            assert((Run((collisions, (start_positions, (restart_positions, (camera_regions, (death_regions, enemy_generators)))))), (Run((fs_items, (fs_unknown, (fs_area_cams, (fs_area_locks, (fs_cam_limits, damage_shapes)))))), Run((item_popups, (general_shapes2, (general_shapes3, area_lights)))))).spec_accepts(e, buf@.subrange(p1 as int, p1 + b)));
                        }
                    }
                }
                Ok((Lvd::V7 { collisions, start_positions, restart_positions, camera_regions, death_regions, enemy_generators, fs_items, fs_unknown, fs_area_cams, fs_area_locks, fs_cam_limits, damage_shapes, item_popups, general_shapes2, general_shapes3, area_lights }, end))
            },
            Err(err) => {
                proof {
                    assert forall|x: Self|
                        x.spec_version() == 7 && x.wf() && pos + x.spec_bytes(e).len() <= buf@.len()
                            && #[trigger] x.spec_accepts(e, buf@.subrange(pos as int, pos + x.spec_bytes(e).len()))
                            implies false by {
                        if let Lvd::V7 { collisions, start_positions, restart_positions, camera_regions, death_regions, enemy_generators, fs_items, fs_unknown, fs_area_cams, fs_area_locks, fs_cam_limits, damage_shapes, item_popups, general_shapes2, general_shapes3, area_lights } = x {
                            let b = (Run((collisions, (start_positions, (restart_positions, (camera_regions, (death_regions, enemy_generators)))))), (Run((fs_items, (fs_unknown, (fs_area_cams, (fs_area_locks, (fs_cam_limits, damage_shapes)))))), Run((item_popups, (general_shapes2, (general_shapes3, area_lights)))))).spec_bytes(e).len() as int;
                            lemma_window_split(buf@, pos as int, 5, b);
                            assert((Run((collisions, (start_positions, (restart_positions, (camera_regions, (death_regions, enemy_generators)))))), (Run((fs_items, (fs_unknown, (fs_area_cams, (fs_area_locks, (fs_cam_limits, damage_shapes)))))), Run((item_popups, (general_shapes2, (general_shapes3, area_lights)))))).spec_accepts(e, buf@.subrange(p1 as int, p1 + b)));
                        }
                    }
                }
                Err(err)
            },
        }
    }

    /// Writes the payload of layout 7.
    #[verifier::spinoff_prover]
    #[verifier::rlimit(100)]
    fn encode_v7(&self, e: Endian, out: &mut Vec<u8>)
        requires
            self is V7,
            self.wf(),
        ensures
            final(out)@ == old(out)@ + self.spec_bytes(e),
    {
        match self {
            Lvd::V7 { collisions, start_positions, restart_positions, camera_regions, death_regions, enemy_generators, fs_items, fs_unknown, fs_area_cams, fs_area_locks, fs_cam_limits, damage_shapes, item_popups, general_shapes2, general_shapes3, area_lights } => {
                proof {
                    lemma_run(Run((*collisions, (*start_positions, (*restart_positions, (*camera_regions, (*death_regions, *enemy_generators)))))), e);
                    lemma_run(Run((*fs_items, (*fs_unknown, (*fs_area_cams, (*fs_area_locks, (*fs_cam_limits, *damage_shapes)))))), e);
                    lemma_run(Run((*item_popups, (*general_shapes2, (*general_shapes3, *area_lights)))), e);
                }
                let ghost u0 = out@;
                Signature {}.encode(e, out);
                let ghost u1 = out@;
                let ghost c0_0 = out@;
                collisions.encode(e, out);
                let ghost c0_1 = out@;
                start_positions.encode(e, out);
                let ghost c0_2 = out@;
                restart_positions.encode(e, out);
                let ghost c0_3 = out@;
                camera_regions.encode(e, out);
                let ghost c0_4 = out@;
                death_regions.encode(e, out);
                let ghost c0_5 = out@;
                enemy_generators.encode(e, out);
                let ghost c0_6 = out@;
                proof {
                    lemma_append_assoc(c0_4, (*death_regions).spec_bytes(e), (*enemy_generators).spec_bytes(e));
                    assert(c0_6 == c0_4 + ((*death_regions), (*enemy_generators)).spec_bytes(e));
                    lemma_append_assoc(c0_3, (*camera_regions).spec_bytes(e), ((*death_regions), (*enemy_generators)).spec_bytes(e));
                    assert(c0_6 == c0_3 + ((*camera_regions), ((*death_regions), (*enemy_generators))).spec_bytes(e));
                    lemma_append_assoc(c0_2, (*restart_positions).spec_bytes(e), ((*camera_regions), ((*death_regions), (*enemy_generators))).spec_bytes(e));
                    assert(c0_6 == c0_2 + ((*restart_positions), ((*camera_regions), ((*death_regions), (*enemy_generators)))).spec_bytes(e));
                    lemma_append_assoc(c0_1, (*start_positions).spec_bytes(e), ((*restart_positions), ((*camera_regions), ((*death_regions), (*enemy_generators)))).spec_bytes(e));
                    assert(c0_6 == c0_1 + ((*start_positions), ((*restart_positions), ((*camera_regions), ((*death_regions), (*enemy_generators))))).spec_bytes(e));
                    lemma_append_assoc(c0_0, (*collisions).spec_bytes(e), ((*start_positions), ((*restart_positions), ((*camera_regions), ((*death_regions), (*enemy_generators))))).spec_bytes(e));
                    assert(c0_6 == c0_0 + ((*collisions), ((*start_positions), ((*restart_positions), ((*camera_regions), ((*death_regions), (*enemy_generators)))))).spec_bytes(e));
                }
                let ghost u2 = out@;
                let ghost c1_0 = out@;
                fs_items.encode(e, out);
                let ghost c1_1 = out@;
                fs_unknown.encode(e, out);
                let ghost c1_2 = out@;
                fs_area_cams.encode(e, out);
                let ghost c1_3 = out@;
                fs_area_locks.encode(e, out);
                let ghost c1_4 = out@;
                fs_cam_limits.encode(e, out);
                let ghost c1_5 = out@;
                damage_shapes.encode(e, out);
                let ghost c1_6 = out@;
                proof {
                    lemma_append_assoc(c1_4, (*fs_cam_limits).spec_bytes(e), (*damage_shapes).spec_bytes(e));
                    assert(c1_6 == c1_4 + ((*fs_cam_limits), (*damage_shapes)).spec_bytes(e));
                    lemma_append_assoc(c1_3, (*fs_area_locks).spec_bytes(e), ((*fs_cam_limits), (*damage_shapes)).spec_bytes(e));
                    assert(c1_6 == c1_3 + ((*fs_area_locks), ((*fs_cam_limits), (*damage_shapes))).spec_bytes(e));
                    lemma_append_assoc(c1_2, (*fs_area_cams).spec_bytes(e), ((*fs_area_locks), ((*fs_cam_limits), (*damage_shapes))).spec_bytes(e));
                    assert(c1_6 == c1_2 + ((*fs_area_cams), ((*fs_area_locks), ((*fs_cam_limits), (*damage_shapes)))).spec_bytes(e));
                    lemma_append_assoc(c1_1, (*fs_unknown).spec_bytes(e), ((*fs_area_cams), ((*fs_area_locks), ((*fs_cam_limits), (*damage_shapes)))).spec_bytes(e));
                    assert(c1_6 == c1_1 + ((*fs_unknown), ((*fs_area_cams), ((*fs_area_locks), ((*fs_cam_limits), (*damage_shapes))))).spec_bytes(e));
                    lemma_append_assoc(c1_0, (*fs_items).spec_bytes(e), ((*fs_unknown), ((*fs_area_cams), ((*fs_area_locks), ((*fs_cam_limits), (*damage_shapes))))).spec_bytes(e));
                    assert(c1_6 == c1_0 + ((*fs_items), ((*fs_unknown), ((*fs_area_cams), ((*fs_area_locks), ((*fs_cam_limits), (*damage_shapes)))))).spec_bytes(e));
                }
                let ghost u3 = out@;
                let ghost c2_0 = out@;
                item_popups.encode(e, out);
                let ghost c2_1 = out@;
                general_shapes2.encode(e, out);
                let ghost c2_2 = out@;
                general_shapes3.encode(e, out);
                let ghost c2_3 = out@;
                area_lights.encode(e, out);
                let ghost c2_4 = out@;
                proof {
                    lemma_append_assoc(c2_2, (*general_shapes3).spec_bytes(e), (*area_lights).spec_bytes(e));
                    assert(c2_4 == c2_2 + ((*general_shapes3), (*area_lights)).spec_bytes(e));
                    lemma_append_assoc(c2_1, (*general_shapes2).spec_bytes(e), ((*general_shapes3), (*area_lights)).spec_bytes(e));
                    assert(c2_4 == c2_1 + ((*general_shapes2), ((*general_shapes3), (*area_lights))).spec_bytes(e));
                    lemma_append_assoc(c2_0, (*item_popups).spec_bytes(e), ((*general_shapes2), ((*general_shapes3), (*area_lights))).spec_bytes(e));
                    assert(c2_4 == c2_0 + ((*item_popups), ((*general_shapes2), ((*general_shapes3), (*area_lights)))).spec_bytes(e));
                }
                let ghost u4 = out@;
                proof {
                    lemma_append_assoc(u2, Run((*fs_items, (*fs_unknown, (*fs_area_cams, (*fs_area_locks, (*fs_cam_limits, *damage_shapes)))))).spec_bytes(e), Run((*item_popups, (*general_shapes2, (*general_shapes3, *area_lights)))).spec_bytes(e));
                    assert(u4 == u2 + (Run((*fs_items, (*fs_unknown, (*fs_area_cams, (*fs_area_locks, (*fs_cam_limits, *damage_shapes)))))), Run((*item_popups, (*general_shapes2, (*general_shapes3, *area_lights))))).spec_bytes(e));
                    lemma_append_assoc(u1, Run((*collisions, (*start_positions, (*restart_positions, (*camera_regions, (*death_regions, *enemy_generators)))))).spec_bytes(e), (Run((*fs_items, (*fs_unknown, (*fs_area_cams, (*fs_area_locks, (*fs_cam_limits, *damage_shapes)))))), Run((*item_popups, (*general_shapes2, (*general_shapes3, *area_lights))))).spec_bytes(e));
                    assert(u4 == u1 + (Run((*collisions, (*start_positions, (*restart_positions, (*camera_regions, (*death_regions, *enemy_generators)))))), (Run((*fs_items, (*fs_unknown, (*fs_area_cams, (*fs_area_locks, (*fs_cam_limits, *damage_shapes)))))), Run((*item_popups, (*general_shapes2, (*general_shapes3, *area_lights)))))).spec_bytes(e));
                    lemma_append_assoc(u0, Signature {}.spec_bytes(e), (Run((*collisions, (*start_positions, (*restart_positions, (*camera_regions, (*death_regions, *enemy_generators)))))), (Run((*fs_items, (*fs_unknown, (*fs_area_cams, (*fs_area_locks, (*fs_cam_limits, *damage_shapes)))))), Run((*item_popups, (*general_shapes2, (*general_shapes3, *area_lights)))))).spec_bytes(e));
                    assert(u4 == u0 + (Signature {}, (Run((*collisions, (*start_positions, (*restart_positions, (*camera_regions, (*death_regions, *enemy_generators)))))), (Run((*fs_items, (*fs_unknown, (*fs_area_cams, (*fs_area_locks, (*fs_cam_limits, *damage_shapes)))))), Run((*item_popups, (*general_shapes2, (*general_shapes3, *area_lights))))))).spec_bytes(e));
                }
            },
            _ => {},
        }
    }

    /// Reads the payload of layout 8.
    #[verifier::spinoff_prover]
    #[verifier::rlimit(100)]
    fn decode_v8(e: Endian, buf: &[u8], pos: usize) -> (r: Result<(Self, usize), DecodeError>)
        requires
            pos <= buf@.len(),
        ensures
            match r {
                Ok((v, end)) => {
                    &&& v.spec_version() == 8
                    &&& end == pos + v.spec_bytes(e).len()
                    &&& end <= buf@.len()
                    &&& v.wf()
                    &&& v.spec_accepts(e, buf@.subrange(pos as int, end as int))
                },
                Err(_) => true,
            },
            forall|x: Self|
                x.spec_version() == 8 && x.wf() && pos + x.spec_bytes(e).len() <= buf@.len()
                    && #[trigger] x.spec_accepts(e, buf@.subrange(pos as int, pos + x.spec_bytes(e).len()))
                    ==> match r {
                    Ok((v, end)) => v.same(&x) && end == pos + x.spec_bytes(e).len(),
                    Err(_) => false,
                },
            pos + 5 <= buf@.len() && buf@.subrange(pos as int, pos + 5) != signature_bytes() ==> r == Err::<
                (Self, usize),
                DecodeError,
            >(DecodeError::BadMagic { pos }),
    {
        let p1 = match check_signature(buf, pos) {
            Ok(p1) => p1,
            Err(err) => {
                proof {
                    assert forall|x: Self|
                        x.spec_version() == 8 && x.wf() && pos + x.spec_bytes(e).len() <= buf@.len()
                            && #[trigger] x.spec_accepts(e, buf@.subrange(pos as int, pos + x.spec_bytes(e).len()))
                            implies false by {
                        if let Lvd::V8 { collisions, start_positions, restart_positions, camera_regions, death_regions, enemy_generators, fs_items, fs_unknown, fs_area_cams, fs_area_locks, fs_cam_limits, damage_shapes, item_popups, general_shapes2, general_shapes3, area_lights, fs_start_points } = x {
                            lemma_window_split(buf@, pos as int, 5, (Run((collisions, (start_positions, (restart_positions, (camera_regions, (death_regions, enemy_generators)))))), (Run((fs_items, (fs_unknown, (fs_area_cams, (fs_area_locks, (fs_cam_limits, damage_shapes)))))), Run((item_popups, (general_shapes2, (general_shapes3, (area_lights, fs_start_points))))))).spec_bytes(e).len() as int);
                        }
                    }
                }
                return Err(err);
            },
        };
        match <(Run<(Versioned<Array<Collision>>, (Versioned<Array<Point>>, (Versioned<Array<Point>>, (Versioned<Array<Region>>, (Versioned<Array<Region>>, Versioned<Array<EnemyGenerator>>)))))>, (Run<(Versioned<Array<FsItem>>, (Versioned<Array<FsUnknown>>, (Versioned<Array<FsAreaCam>>, (Versioned<Array<FsAreaLock>>, (Versioned<Array<FsCamLimit>>, Versioned<Array<DamageShape>>)))))>, Run<(Versioned<Array<ItemPopup>>, (Versioned<Array<GeneralShape2>>, (Versioned<Array<GeneralShape3>>, (Versioned<Array<AreaLight>>, Versioned<Array<FsStartPoint>>))))>))>::decode(e, buf, p1) {
            Ok(((Run((collisions, (start_positions, (restart_positions, (camera_regions, (death_regions, enemy_generators)))))), (Run((fs_items, (fs_unknown, (fs_area_cams, (fs_area_locks, (fs_cam_limits, damage_shapes)))))), Run((item_popups, (general_shapes2, (general_shapes3, (area_lights, fs_start_points))))))), end)) => {
                proof {
                    assert(p1 == pos + 5);
                    assert(end <= buf@.len());
                    assert(end == p1 + (Run((collisions, (start_positions, (restart_positions, (camera_regions, (death_regions, enemy_generators)))))), (Run((fs_items, (fs_unknown, (fs_area_cams, (fs_area_locks, (fs_cam_limits, damage_shapes)))))), Run((item_popups, (general_shapes2, (general_shapes3, (area_lights, fs_start_points))))))).spec_bytes(e).len());
                    lemma_window_split(buf@, pos as int, 5, (Run((collisions, (start_positions, (restart_positions, (camera_regions, (death_regions, enemy_generators)))))), (Run((fs_items, (fs_unknown, (fs_area_cams, (fs_area_locks, (fs_cam_limits, damage_shapes)))))), Run((item_popups, (general_shapes2, (general_shapes3, (area_lights, fs_start_points))))))).spec_bytes(e).len() as int);
                    assert forall|x: Self|
                        x.spec_version() == 8 && x.wf() && pos + x.spec_bytes(e).len() <= buf@.len()
                            && #[trigger] x.spec_accepts(e, buf@.subrange(pos as int, pos + x.spec_bytes(e).len()))
                            implies Lvd::V8 { collisions, start_positions, restart_positions, camera_regions, death_regions, enemy_generators, fs_items, fs_unknown, fs_area_cams, fs_area_locks, fs_cam_limits, damage_shapes, item_popups, general_shapes2, general_shapes3, area_lights, fs_start_points }.same(&x) && end == pos + x.spec_bytes(e).len() by {
                        if let Lvd::V8 { collisions, start_positions, restart_positions, camera_regions, death_regions, enemy_generators, fs_items, fs_unknown, fs_area_cams, fs_area_locks, fs_cam_limits, damage_shapes, item_popups, general_shapes2, general_shapes3, area_lights, fs_start_points } = x {
                            let b = (Run((collisions, (start_positions, (restart_positions, (camera_regions, (death_regions, enemy_generators)))))), (Run((fs_items, (fs_unknown, (fs_area_cams, (fs_area_locks, (fs_cam_limits, damage_shapes)))))), Run((item_popups, (general_shapes2, (general_shapes3, (area_lights, fs_start_points))))))).spec_bytes(e).len() as int;
                            lemma_window_split(buf@, pos as int, 5, b);
                            assert((Run((collisions, (start_positions, (restart_positions, (camera_regions, (death_regions, enemy_generators)))))), (Run((fs_items, (fs_unknown, (fs_area_cams, (fs_area_locks, (fs_cam_limits, damage_shapes)))))), Run((item_popups, (general_shapes2, (general_shapes3, (area_lights, fs_start_points))))))).spec_accepts(e, buf@.subrange(p1 as int, p1 + b)));
                        }
                    }
                }
                Ok((Lvd::V8 { collisions, start_positions, restart_positions, camera_regions, death_regions, enemy_generators, fs_items, fs_unknown, fs_area_cams, fs_area_locks, fs_cam_limits, damage_shapes, item_popups, general_shapes2, general_shapes3, area_lights, fs_start_points }, end))
            },
            Err(err) => {
                proof {
                    assert forall|x: Self|
                        x.spec_version() == 8 && x.wf() && pos + x.spec_bytes(e).len() <= buf@.len()
                            && #[trigger] x.spec_accepts(e, buf@.subrange(pos as int, pos + x.spec_bytes(e).len()))
                            implies false by {
                        if let Lvd::V8 { collisions, start_positions, restart_positions, camera_regions, death_regions, enemy_generators, fs_items, fs_unknown, fs_area_cams, fs_area_locks, fs_cam_limits, damage_shapes, item_popups, general_shapes2, general_shapes3, area_lights, fs_start_points } = x {
                            let b = (Run((collisions, (start_positions, (restart_positions, (camera_regions, (death_regions, enemy_generators)))))), (Run((fs_items, (fs_unknown, (fs_area_cams, (fs_area_locks, (fs_cam_limits, damage_shapes)))))), Run((item_popups, (general_shapes2, (general_shapes3, (area_lights, fs_start_points))))))).spec_bytes(e).len() as int;
                            lemma_window_split(buf@, pos as int, 5, b);
                            assert((Run((collisions, (start_positions, (restart_positions, (camera_regions, (death_regions, enemy_generators)))))), (Run((fs_items, (fs_unknown, (fs_area_cams, (fs_area_locks, (fs_cam_limits, damage_shapes)))))), Run((item_popups, (general_shapes2, (general_shapes3, (area_lights, fs_start_points))))))).spec_accepts(e, buf@.subrange(p1 as int, p1 + b)));
                        }
                    }
                }
                Err(err)
            },
        }
    }

    /// Writes the payload of layout 8.
    #[verifier::spinoff_prover]
    #[verifier::rlimit(100)]
    fn encode_v8(&self, e: Endian, out: &mut Vec<u8>)
        requires
            self is V8,
            self.wf(),
        ensures
            final(out)@ == old(out)@ + self.spec_bytes(e),
    {
        match self {
            Lvd::V8 { collisions, start_positions, restart_positions, camera_regions, death_regions, enemy_generators, fs_items, fs_unknown, fs_area_cams, fs_area_locks, fs_cam_limits, damage_shapes, item_popups, general_shapes2, general_shapes3, area_lights, fs_start_points } => {
                proof {
                    lemma_run(Run((*collisions, (*start_positions, (*restart_positions, (*camera_regions, (*death_regions, *enemy_generators)))))), e);
                    lemma_run(Run((*fs_items, (*fs_unknown, (*fs_area_cams, (*fs_area_locks, (*fs_cam_limits, *damage_shapes)))))), e);
                    lemma_run(Run((*item_popups, (*general_shapes2, (*general_shapes3, (*area_lights, *fs_start_points))))), e);
                }
                let ghost u0 = out@;
                Signature {}.encode(e, out);
                let ghost u1 = out@;
                let ghost c0_0 = out@;
                collisions.encode(e, out);
                let ghost c0_1 = out@;
                start_positions.encode(e, out);
                let ghost c0_2 = out@;
                restart_positions.encode(e, out);
                let ghost c0_3 = out@;
                camera_regions.encode(e, out);
                let ghost c0_4 = out@;
                death_regions.encode(e, out);
                let ghost c0_5 = out@;
                enemy_generators.encode(e, out);
                let ghost c0_6 = out@;
                proof {
                    lemma_append_assoc(c0_4, (*death_regions).spec_bytes(e), (*enemy_generators).spec_bytes(e));
                    assert(c0_6 == c0_4 + ((*death_regions), (*enemy_generators)).spec_bytes(e));
                    lemma_append_assoc(c0_3, (*camera_regions).spec_bytes(e), ((*death_regions), (*enemy_generators)).spec_bytes(e));
                    assert(c0_6 == c0_3 + ((*camera_regions), ((*death_regions), (*enemy_generators))).spec_bytes(e));
                    lemma_append_assoc(c0_2, (*restart_positions).spec_bytes(e), ((*camera_regions), ((*death_regions), (*enemy_generators))).spec_bytes(e));
                    assert(c0_6 == c0_2 + ((*restart_positions), ((*camera_regions), ((*death_regions), (*enemy_generators)))).spec_bytes(e));
                    lemma_append_assoc(c0_1, (*start_positions).spec_bytes(e), ((*restart_positions), ((*camera_regions), ((*death_regions), (*enemy_generators)))).spec_bytes(e));
                    assert(c0_6 == c0_1 + ((*start_positions), ((*restart_positions), ((*camera_regions), ((*death_regions), (*enemy_generators))))).spec_bytes(e));
                    lemma_append_assoc(c0_0, (*collisions).spec_bytes(e), ((*start_positions), ((*restart_positions), ((*camera_regions), ((*death_regions), (*enemy_generators))))).spec_bytes(e));
                    assert(c0_6 == c0_0 + ((*collisions), ((*start_positions), ((*restart_positions), ((*camera_regions), ((*death_regions), (*enemy_generators)))))).spec_bytes(e));
                }
                let ghost u2 = out@;
                let ghost c1_0 = out@;
                fs_items.encode(e, out);
                let ghost c1_1 = out@;
                fs_unknown.encode(e, out);
                let ghost c1_2 = out@;
                fs_area_cams.encode(e, out);
                let ghost c1_3 = out@;
                fs_area_locks.encode(e, out);
                let ghost c1_4 = out@;
                fs_cam_limits.encode(e, out);
                let ghost c1_5 = out@;
                damage_shapes.encode(e, out);
                let ghost c1_6 = out@;
                proof {
                    lemma_append_assoc(c1_4, (*fs_cam_limits).spec_bytes(e), (*damage_shapes).spec_bytes(e));
                    assert(c1_6 == c1_4 + ((*fs_cam_limits), (*damage_shapes)).spec_bytes(e));
                    lemma_append_assoc(c1_3, (*fs_area_locks).spec_bytes(e), ((*fs_cam_limits), (*damage_shapes)).spec_bytes(e));
                    assert(c1_6 == c1_3 + ((*fs_area_locks), ((*fs_cam_limits), (*damage_shapes))).spec_bytes(e));
                    lemma_append_assoc(c1_2, (*fs_area_cams).spec_bytes(e), ((*fs_area_locks), ((*fs_cam_limits), (*damage_shapes))).spec_bytes(e));
                    assert(c1_6 == c1_2 + ((*fs_area_cams), ((*fs_area_locks), ((*fs_cam_limits), (*damage_shapes)))).spec_bytes(e));
                    lemma_append_assoc(c1_1, (*fs_unknown).spec_bytes(e), ((*fs_area_cams), ((*fs_area_locks), ((*fs_cam_limits), (*damage_shapes)))).spec_bytes(e));
                    assert(c1_6 == c1_1 + ((*fs_unknown), ((*fs_area_cams), ((*fs_area_locks), ((*fs_cam_limits), (*damage_shapes))))).spec_bytes(e));
                    lemma_append_assoc(c1_0, (*fs_items).spec_bytes(e), ((*fs_unknown), ((*fs_area_cams), ((*fs_area_locks), ((*fs_cam_limits), (*damage_shapes))))).spec_bytes(e));
                    assert(c1_6 == c1_0 + ((*fs_items), ((*fs_unknown), ((*fs_area_cams), ((*fs_area_locks), ((*fs_cam_limits), (*damage_shapes)))))).spec_bytes(e));
                }
                let ghost u3 = out@;
                let ghost c2_0 = out@;
                item_popups.encode(e, out);
                let ghost c2_1 = out@;
                general_shapes2.encode(e, out);
                let ghost c2_2 = out@;
                general_shapes3.encode(e, out);
                let ghost c2_3 = out@;
                area_lights.encode(e, out);
                let ghost c2_4 = out@;
                fs_start_points.encode(e, out);
                let ghost c2_5 = out@;
                proof {
                    lemma_append_assoc(c2_3, (*area_lights).spec_bytes(e), (*fs_start_points).spec_bytes(e));
                    assert(c2_5 == c2_3 + ((*area_lights), (*fs_start_points)).spec_bytes(e));
                    lemma_append_assoc(c2_2, (*general_shapes3).spec_bytes(e), ((*area_lights), (*fs_start_points)).spec_bytes(e));
                    assert(c2_5 == c2_2 + ((*general_shapes3), ((*area_lights), (*fs_start_points))).spec_bytes(e));
                    lemma_append_assoc(c2_1, (*general_shapes2).spec_bytes(e), ((*general_shapes3), ((*area_lights), (*fs_start_points))).spec_bytes(e));
                    assert(c2_5 == c2_1 + ((*general_shapes2), ((*general_shapes3), ((*area_lights), (*fs_start_points)))).spec_bytes(e));
                    lemma_append_assoc(c2_0, (*item_popups).spec_bytes(e), ((*general_shapes2), ((*general_shapes3), ((*area_lights), (*fs_start_points)))).spec_bytes(e));
                    assert(c2_5 == c2_0 + ((*item_popups), ((*general_shapes2), ((*general_shapes3), ((*area_lights), (*fs_start_points))))).spec_bytes(e));
                }
                let ghost u4 = out@;
                proof {
                    lemma_append_assoc(u2, Run((*fs_items, (*fs_unknown, (*fs_area_cams, (*fs_area_locks, (*fs_cam_limits, *damage_shapes)))))).spec_bytes(e), Run((*item_popups, (*general_shapes2, (*general_shapes3, (*area_lights, *fs_start_points))))).spec_bytes(e));
                    assert(u4 == u2 + (Run((*fs_items, (*fs_unknown, (*fs_area_cams, (*fs_area_locks, (*fs_cam_limits, *damage_shapes)))))), Run((*item_popups, (*general_shapes2, (*general_shapes3, (*area_lights, *fs_start_points)))))).spec_bytes(e));
                    lemma_append_assoc(u1, Run((*collisions, (*start_positions, (*restart_positions, (*camera_regions, (*death_regions, *enemy_generators)))))).spec_bytes(e), (Run((*fs_items, (*fs_unknown, (*fs_area_cams, (*fs_area_locks, (*fs_cam_limits, *damage_shapes)))))), Run((*item_popups, (*general_shapes2, (*general_shapes3, (*area_lights, *fs_start_points)))))).spec_bytes(e));
                    assert(u4 == u1 + (Run((*collisions, (*start_positions, (*restart_positions, (*camera_regions, (*death_regions, *enemy_generators)))))), (Run((*fs_items, (*fs_unknown, (*fs_area_cams, (*fs_area_locks, (*fs_cam_limits, *damage_shapes)))))), Run((*item_popups, (*general_shapes2, (*general_shapes3, (*area_lights, *fs_start_points))))))).spec_bytes(e));
                    lemma_append_assoc(u0, Signature {}.spec_bytes(e), (Run((*collisions, (*start_positions, (*restart_positions, (*camera_regions, (*death_regions, *enemy_generators)))))), (Run((*fs_items, (*fs_unknown, (*fs_area_cams, (*fs_area_locks, (*fs_cam_limits, *damage_shapes)))))), Run((*item_popups, (*general_shapes2, (*general_shapes3, (*area_lights, *fs_start_points))))))).spec_bytes(e));
                    assert(u4 == u0 + (Signature {}, (Run((*collisions, (*start_positions, (*restart_positions, (*camera_regions, (*death_regions, *enemy_generators)))))), (Run((*fs_items, (*fs_unknown, (*fs_area_cams, (*fs_area_locks, (*fs_cam_limits, *damage_shapes)))))), Run((*item_popups, (*general_shapes2, (*general_shapes3, (*area_lights, *fs_start_points)))))))).spec_bytes(e));
                }
            },
            _ => {},
        }
    }

    /// Reads the payload of layout 9.
    #[verifier::spinoff_prover]
    #[verifier::rlimit(100)]
    fn decode_v9(e: Endian, buf: &[u8], pos: usize) -> (r: Result<(Self, usize), DecodeError>)
        requires
            pos <= buf@.len(),
        ensures
            match r {
                Ok((v, end)) => {
                    &&& v.spec_version() == 9
                    &&& end == pos + v.spec_bytes(e).len()
                    &&& end <= buf@.len()
                    &&& v.wf()
                    &&& v.spec_accepts(e, buf@.subrange(pos as int, end as int))
                },
                Err(_) => true,
            },
            forall|x: Self|
                x.spec_version() == 9 && x.wf() && pos + x.spec_bytes(e).len() <= buf@.len()
                    && #[trigger] x.spec_accepts(e, buf@.subrange(pos as int, pos + x.spec_bytes(e).len()))
                    ==> match r {
                    Ok((v, end)) => v.same(&x) && end == pos + x.spec_bytes(e).len(),
                    Err(_) => false,
                },
            pos + 5 <= buf@.len() && buf@.subrange(pos as int, pos + 5) != signature_bytes() ==> r == Err::<
                (Self, usize),
                DecodeError,
            >(DecodeError::BadMagic { pos }),
    {
        let p1 = match check_signature(buf, pos) {
            Ok(p1) => p1,
            Err(err) => {
                proof {
                    assert forall|x: Self|
                        x.spec_version() == 9 && x.wf() && pos + x.spec_bytes(e).len() <= buf@.len()
                            && #[trigger] x.spec_accepts(e, buf@.subrange(pos as int, pos + x.spec_bytes(e).len()))
                            implies false by {
                        if let Lvd::V9 { collisions, start_positions, restart_positions, camera_regions, death_regions, enemy_generators, fs_items, fs_unknown, fs_area_cams, fs_area_locks, fs_cam_limits, damage_shapes, item_popups, general_shapes2, general_shapes3, area_lights, fs_start_points, area_hints } = x {
                            lemma_window_split(buf@, pos as int, 5, (Run((collisions, (start_positions, (restart_positions, (camera_regions, (death_regions, enemy_generators)))))), (Run((fs_items, (fs_unknown, (fs_area_cams, (fs_area_locks, (fs_cam_limits, damage_shapes)))))), Run((item_popups, (general_shapes2, (general_shapes3, (area_lights, (fs_start_points, area_hints)))))))).spec_bytes(e).len() as int);
                        }
                    }
                }
                return Err(err);
            },
        };
        match <(Run<(Versioned<Array<Collision>>, (Versioned<Array<Point>>, (Versioned<Array<Point>>, (Versioned<Array<Region>>, (Versioned<Array<Region>>, Versioned<Array<EnemyGenerator>>)))))>, (Run<(Versioned<Array<FsItem>>, (Versioned<Array<FsUnknown>>, (Versioned<Array<FsAreaCam>>, (Versioned<Array<FsAreaLock>>, (Versioned<Array<FsCamLimit>>, Versioned<Array<DamageShape>>)))))>, Run<(Versioned<Array<ItemPopup>>, (Versioned<Array<GeneralShape2>>, (Versioned<Array<GeneralShape3>>, (Versioned<Array<AreaLight>>, (Versioned<Array<FsStartPoint>>, Versioned<Array<AreaHint>>)))))>))>::decode(e, buf, p1) {
            Ok(((Run((collisions, (start_positions, (restart_positions, (camera_regions, (death_regions, enemy_generators)))))), (Run((fs_items, (fs_unknown, (fs_area_cams, (fs_area_locks, (fs_cam_limits, damage_shapes)))))), Run((item_popups, (general_shapes2, (general_shapes3, (area_lights, (fs_start_points, area_hints)))))))), end)) => {
                proof {
                    assert(p1 == pos + 5);
                    assert(end <= buf@.len());
                    assert(end == p1 + (Run((collisions, (start_positions, (restart_positions, (camera_regions, (death_regions, enemy_generators)))))), (Run((fs_items, (fs_unknown, (fs_area_cams, (fs_area_locks, (fs_cam_limits, damage_shapes)))))), Run((item_popups, (general_shapes2, (general_shapes3, (area_lights, (fs_start_points, area_hints)))))))).spec_bytes(e).len());
                    lemma_window_split(buf@, pos as int, 5, (Run((collisions, (start_positions, (restart_positions, (camera_regions, (death_regions, enemy_generators)))))), (Run((fs_items, (fs_unknown, (fs_area_cams, (fs_area_locks, (fs_cam_limits, damage_shapes)))))), Run((item_popups, (general_shapes2, (general_shapes3, (area_lights, (fs_start_points, area_hints)))))))).spec_bytes(e).len() as int);
                    assert forall|x: Self|
                        x.spec_version() == 9 && x.wf() && pos + x.spec_bytes(e).len() <= buf@.len()
                            && #[trigger] x.spec_accepts(e, buf@.subrange(pos as int, pos + x.spec_bytes(e).len()))
                            implies Lvd::V9 { collisions, start_positions, restart_positions, camera_regions, death_regions, enemy_generators, fs_items, fs_unknown, fs_area_cams, fs_area_locks, fs_cam_limits, damage_shapes, item_popups, general_shapes2, general_shapes3, area_lights, fs_start_points, area_hints }.same(&x) && end == pos + x.spec_bytes(e).len() by {
                        if let Lvd::V9 { collisions, start_positions, restart_positions, camera_regions, death_regions, enemy_generators, fs_items, fs_unknown, fs_area_cams, fs_area_locks, fs_cam_limits, damage_shapes, item_popups, general_shapes2, general_shapes3, area_lights, fs_start_points, area_hints } = x {
                            let b = (Run((collisions, (start_positions, (restart_positions, (camera_regions, (death_regions, enemy_generators)))))), (Run((fs_items, (fs_unknown, (fs_area_cams, (fs_area_locks, (fs_cam_limits, damage_shapes)))))), Run((item_popups, (general_shapes2, (general_shapes3, (area_lights, (fs_start_points, area_hints)))))))).spec_bytes(e).len() as int;
                            lemma_window_split(buf@, pos as int, 5, b);
                            assert((Run((collisions, (start_positions, (restart_positions, (camera_regions, (death_regions, enemy_generators)))))), (Run((fs_items, (fs_unknown, (fs_area_cams, (fs_area_locks, (fs_cam_limits, damage_shapes)))))), Run((item_popups, (general_shapes2, (general_shapes3, (area_lights, (fs_start_points, area_hints)))))))).spec_accepts(e, buf@.subrange(p1 as int, p1 + b)));
                        }
                    }
                }
                Ok((Lvd::V9 { collisions, start_positions, restart_positions, camera_regions, death_regions, enemy_generators, fs_items, fs_unknown, fs_area_cams, fs_area_locks, fs_cam_limits, damage_shapes, item_popups, general_shapes2, general_shapes3, area_lights, fs_start_points, area_hints }, end))
            },
            Err(err) => {
                proof {
                    assert forall|x: Self|
                        x.spec_version() == 9 && x.wf() && pos + x.spec_bytes(e).len() <= buf@.len()
                            && #[trigger] x.spec_accepts(e, buf@.subrange(pos as int, pos + x.spec_bytes(e).len()))
                            implies false by {
                        if let Lvd::V9 { collisions, start_positions, restart_positions, camera_regions, death_regions, enemy_generators, fs_items, fs_unknown, fs_area_cams, fs_area_locks, fs_cam_limits, damage_shapes, item_popups, general_shapes2, general_shapes3, area_lights, fs_start_points, area_hints } = x {
                            let b = (Run((collisions, (start_positions, (restart_positions, (camera_regions, (death_regions, enemy_generators)))))), (Run((fs_items, (fs_unknown, (fs_area_cams, (fs_area_locks, (fs_cam_limits, damage_shapes)))))), Run((item_popups, (general_shapes2, (general_shapes3, (area_lights, (fs_start_points, area_hints)))))))).spec_bytes(e).len() as int;
                            lemma_window_split(buf@, pos as int, 5, b);
                            assert((Run((collisions, (start_positions, (restart_positions, (camera_regions, (death_regions, enemy_generators)))))), (Run((fs_items, (fs_unknown, (fs_area_cams, (fs_area_locks, (fs_cam_limits, damage_shapes)))))), Run((item_popups, (general_shapes2, (general_shapes3, (area_lights, (fs_start_points, area_hints)))))))).spec_accepts(e, buf@.subrange(p1 as int, p1 + b)));
                        }
                    }
                }
                Err(err)
            },
        }
    }

    /// Writes the payload of layout 9.
    #[verifier::spinoff_prover]
    #[verifier::rlimit(100)]
    fn encode_v9(&self, e: Endian, out: &mut Vec<u8>)
        requires
            self is V9,
            self.wf(),
        ensures
            final(out)@ == old(out)@ + self.spec_bytes(e),
    {
        match self {
            Lvd::V9 { collisions, start_positions, restart_positions, camera_regions, death_regions, enemy_generators, fs_items, fs_unknown, fs_area_cams, fs_area_locks, fs_cam_limits, damage_shapes, item_popups, general_shapes2, general_shapes3, area_lights, fs_start_points, area_hints } => {
                proof {
                    lemma_run(Run((*collisions, (*start_positions, (*restart_positions, (*camera_regions, (*death_regions, *enemy_generators)))))), e);
                    lemma_run(Run((*fs_items, (*fs_unknown, (*fs_area_cams, (*fs_area_locks, (*fs_cam_limits, *damage_shapes)))))), e);
                    lemma_run(Run((*item_popups, (*general_shapes2, (*general_shapes3, (*area_lights, (*fs_start_points, *area_hints)))))), e);
                }
                let ghost u0 = out@;
                Signature {}.encode(e, out);
                let ghost u1 = out@;
                let ghost c0_0 = out@;
                collisions.encode(e, out);
                let ghost c0_1 = out@;
                start_positions.encode(e, out);
                let ghost c0_2 = out@;
                restart_positions.encode(e, out);
                let ghost c0_3 = out@;
                camera_regions.encode(e, out);
                let ghost c0_4 = out@;
                death_regions.encode(e, out);
                let ghost c0_5 = out@;
                enemy_generators.encode(e, out);
                let ghost c0_6 = out@;
                proof {
                    lemma_append_assoc(c0_4, (*death_regions).spec_bytes(e), (*enemy_generators).spec_bytes(e));
                    assert(c0_6 == c0_4 + ((*death_regions), (*enemy_generators)).spec_bytes(e));
                    lemma_append_assoc(c0_3, (*camera_regions).spec_bytes(e), ((*death_regions), (*enemy_generators)).spec_bytes(e));
                    assert(c0_6 == c0_3 + ((*camera_regions), ((*death_regions), (*enemy_generators))).spec_bytes(e));
                    lemma_append_assoc(c0_2, (*restart_positions).spec_bytes(e), ((*camera_regions), ((*death_regions), (*enemy_generators))).spec_bytes(e));
                    assert(c0_6 == c0_2 + ((*restart_positions), ((*camera_regions), ((*death_regions), (*enemy_generators)))).spec_bytes(e));
                    lemma_append_assoc(c0_1, (*start_positions).spec_bytes(e), ((*restart_positions), ((*camera_regions), ((*death_regions), (*enemy_generators)))).spec_bytes(e));
                    assert(c0_6 == c0_1 + ((*start_positions), ((*restart_positions), ((*camera_regions), ((*death_regions), (*enemy_generators))))).spec_bytes(e));
                    lemma_append_assoc(c0_0, (*collisions).spec_bytes(e), ((*start_positions), ((*restart_positions), ((*camera_regions), ((*death_regions), (*enemy_generators))))).spec_bytes(e));
                    assert(c0_6 == c0_0 + ((*collisions), ((*start_positions), ((*restart_positions), ((*camera_regions), ((*death_regions), (*enemy_generators)))))).spec_bytes(e));
                }
                let ghost u2 = out@;
                let ghost c1_0 = out@;
                fs_items.encode(e, out);
                let ghost c1_1 = out@;
                fs_unknown.encode(e, out);
                let ghost c1_2 = out@;
                fs_area_cams.encode(e, out);
                let ghost c1_3 = out@;
                fs_area_locks.encode(e, out);
                let ghost c1_4 = out@;
                fs_cam_limits.encode(e, out);
                let ghost c1_5 = out@;
                damage_shapes.encode(e, out);
                let ghost c1_6 = out@;
                proof {
                    lemma_append_assoc(c1_4, (*fs_cam_limits).spec_bytes(e), (*damage_shapes).spec_bytes(e));
                    assert(c1_6 == c1_4 + ((*fs_cam_limits), (*damage_shapes)).spec_bytes(e));
                    lemma_append_assoc(c1_3, (*fs_area_locks).spec_bytes(e), ((*fs_cam_limits), (*damage_shapes)).spec_bytes(e));
                    assert(c1_6 == c1_3 + ((*fs_area_locks), ((*fs_cam_limits), (*damage_shapes))).spec_bytes(e));
                    lemma_append_assoc(c1_2, (*fs_area_cams).spec_bytes(e), ((*fs_area_locks), ((*fs_cam_limits), (*damage_shapes))).spec_bytes(e));
                    assert(c1_6 == c1_2 + ((*fs_area_cams), ((*fs_area_locks), ((*fs_cam_limits), (*damage_shapes)))).spec_bytes(e));
                    lemma_append_assoc(c1_1, (*fs_unknown).spec_bytes(e), ((*fs_area_cams), ((*fs_area_locks), ((*fs_cam_limits), (*damage_shapes)))).spec_bytes(e));
                    assert(c1_6 == c1_1 + ((*fs_unknown), ((*fs_area_cams), ((*fs_area_locks), ((*fs_cam_limits), (*damage_shapes))))).spec_bytes(e));
                    lemma_append_assoc(c1_0, (*fs_items).spec_bytes(e), ((*fs_unknown), ((*fs_area_cams), ((*fs_area_locks), ((*fs_cam_limits), (*damage_shapes))))).spec_bytes(e));
                    assert(c1_6 == c1_0 + ((*fs_items), ((*fs_unknown), ((*fs_area_cams), ((*fs_area_locks), ((*fs_cam_limits), (*damage_shapes)))))).spec_bytes(e));
                }
                let ghost u3 = out@;
                let ghost c2_0 = out@;
                item_popups.encode(e, out);
                let ghost c2_1 = out@;
                general_shapes2.encode(e, out);
                let ghost c2_2 = out@;
                general_shapes3.encode(e, out);
                let ghost c2_3 = out@;
                area_lights.encode(e, out);
                let ghost c2_4 = out@;
                fs_start_points.encode(e, out);
                let ghost c2_5 = out@;
                area_hints.encode(e, out);
                let ghost c2_6 = out@;
                proof {
                    lemma_append_assoc(c2_4, (*fs_start_points).spec_bytes(e), (*area_hints).spec_bytes(e));
                    assert(c2_6 == c2_4 + ((*fs_start_points), (*area_hints)).spec_bytes(e));
                    lemma_append_assoc(c2_3, (*area_lights).spec_bytes(e), ((*fs_start_points), (*area_hints)).spec_bytes(e));
                    assert(c2_6 == c2_3 + ((*area_lights), ((*fs_start_points), (*area_hints))).spec_bytes(e));
                    lemma_append_assoc(c2_2, (*general_shapes3).spec_bytes(e), ((*area_lights), ((*fs_start_points), (*area_hints))).spec_bytes(e));
                    assert(c2_6 == c2_2 + ((*general_shapes3), ((*area_lights), ((*fs_start_points), (*area_hints)))).spec_bytes(e));
                    lemma_append_assoc(c2_1, (*general_shapes2).spec_bytes(e), ((*general_shapes3), ((*area_lights), ((*fs_start_points), (*area_hints)))).spec_bytes(e));
                    assert(c2_6 == c2_1 + ((*general_shapes2), ((*general_shapes3), ((*area_lights), ((*fs_start_points), (*area_hints))))).spec_bytes(e));
                    lemma_append_assoc(c2_0, (*item_popups).spec_bytes(e), ((*general_shapes2), ((*general_shapes3), ((*area_lights), ((*fs_start_points), (*area_hints))))).spec_bytes(e));
                    assert(c2_6 == c2_0 + ((*item_popups), ((*general_shapes2), ((*general_shapes3), ((*area_lights), ((*fs_start_points), (*area_hints)))))).spec_bytes(e));
                }
                let ghost u4 = out@;
                proof {
                    lemma_append_assoc(u2, Run((*fs_items, (*fs_unknown, (*fs_area_cams, (*fs_area_locks, (*fs_cam_limits, *damage_shapes)))))).spec_bytes(e), Run((*item_popups, (*general_shapes2, (*general_shapes3, (*area_lights, (*fs_start_points, *area_hints)))))).spec_bytes(e));
                    assert(u4 == u2 + (Run((*fs_items, (*fs_unknown, (*fs_area_cams, (*fs_area_locks, (*fs_cam_limits, *damage_shapes)))))), Run((*item_popups, (*general_shapes2, (*general_shapes3, (*area_lights, (*fs_start_points, *area_hints))))))).spec_bytes(e));
                    lemma_append_assoc(u1, Run((*collisions, (*start_positions, (*restart_positions, (*camera_regions, (*death_regions, *enemy_generators)))))).spec_bytes(e), (Run((*fs_items, (*fs_unknown, (*fs_area_cams, (*fs_area_locks, (*fs_cam_limits, *damage_shapes)))))), Run((*item_popups, (*general_shapes2, (*general_shapes3, (*area_lights, (*fs_start_points, *area_hints))))))).spec_bytes(e));
                    assert(u4 == u1 + (Run((*collisions, (*start_positions, (*restart_positions, (*camera_regions, (*death_regions, *enemy_generators)))))), (Run((*fs_items, (*fs_unknown, (*fs_area_cams, (*fs_area_locks, (*fs_cam_limits, *damage_shapes)))))), Run((*item_popups, (*general_shapes2, (*general_shapes3, (*area_lights, (*fs_start_points, *area_hints)))))))).spec_bytes(e));
                    lemma_append_assoc(u0, Signature {}.spec_bytes(e), (Run((*collisions, (*start_positions, (*restart_positions, (*camera_regions, (*death_regions, *enemy_generators)))))), (Run((*fs_items, (*fs_unknown, (*fs_area_cams, (*fs_area_locks, (*fs_cam_limits, *damage_shapes)))))), Run((*item_popups, (*general_shapes2, (*general_shapes3, (*area_lights, (*fs_start_points, *area_hints)))))))).spec_bytes(e));
                    assert(u4 == u0 + (Signature {}, (Run((*collisions, (*start_positions, (*restart_positions, (*camera_regions, (*death_regions, *enemy_generators)))))), (Run((*fs_items, (*fs_unknown, (*fs_area_cams, (*fs_area_locks, (*fs_cam_limits, *damage_shapes)))))), Run((*item_popups, (*general_shapes2, (*general_shapes3, (*area_lights, (*fs_start_points, *area_hints))))))))).spec_bytes(e));
                }
            },
            _ => {},
        }
    }

    /// Reads the payload of layout 10.
    #[verifier::spinoff_prover]
    #[verifier::rlimit(100)]
    fn decode_v10(e: Endian, buf: &[u8], pos: usize) -> (r: Result<(Self, usize), DecodeError>)
        requires
            pos <= buf@.len(),
        ensures
            match r {
                Ok((v, end)) => {
                    &&& v.spec_version() == 10
                    &&& end == pos + v.spec_bytes(e).len()
                    &&& end <= buf@.len()
                    &&& v.wf()
                    &&& v.spec_accepts(e, buf@.subrange(pos as int, end as int))
                },
                Err(_) => true,
            },
            forall|x: Self|
                x.spec_version() == 10 && x.wf() && pos + x.spec_bytes(e).len() <= buf@.len()
                    && #[trigger] x.spec_accepts(e, buf@.subrange(pos as int, pos + x.spec_bytes(e).len()))
                    ==> match r {
                    Ok((v, end)) => v.same(&x) && end == pos + x.spec_bytes(e).len(),
                    Err(_) => false,
                },
            pos + 5 <= buf@.len() && buf@.subrange(pos as int, pos + 5) != signature_bytes() ==> r == Err::<
                (Self, usize),
                DecodeError,
            >(DecodeError::BadMagic { pos }),
    {
        let p1 = match check_signature(buf, pos) {
            Ok(p1) => p1,
            Err(err) => {
                proof {
                    assert forall|x: Self|
                        x.spec_version() == 10 && x.wf() && pos + x.spec_bytes(e).len() <= buf@.len()
                            && #[trigger] x.spec_accepts(e, buf@.subrange(pos as int, pos + x.spec_bytes(e).len()))
                            implies false by {
                        if let Lvd::V10 { collisions, start_positions, restart_positions, camera_regions, death_regions, enemy_generators, fs_items, fs_unknown, fs_area_cams, fs_area_locks, fs_cam_limits, damage_shapes, item_popups, general_shapes2, general_shapes3, area_lights, fs_start_points, area_hints, split_areas } = x {
                            lemma_window_split(buf@, pos as int, 5, (Run((collisions, (start_positions, (restart_positions, (camera_regions, (death_regions, enemy_generators)))))), (Run((fs_items, (fs_unknown, (fs_area_cams, (fs_area_locks, (fs_cam_limits, damage_shapes)))))), (Run((item_popups, (general_shapes2, (general_shapes3, (area_lights, (fs_start_points, area_hints)))))), Run(split_areas)))).spec_bytes(e).len() as int);
                        }
                    }
                }
                return Err(err);
            },
        };
        match <(Run<(Versioned<Array<Collision>>, (Versioned<Array<Point>>, (Versioned<Array<Point>>, (Versioned<Array<Region>>, (Versioned<Array<Region>>, Versioned<Array<EnemyGenerator>>)))))>, (Run<(Versioned<Array<FsItem>>, (Versioned<Array<FsUnknown>>, (Versioned<Array<FsAreaCam>>, (Versioned<Array<FsAreaLock>>, (Versioned<Array<FsCamLimit>>, Versioned<Array<DamageShape>>)))))>, (Run<(Versioned<Array<ItemPopup>>, (Versioned<Array<GeneralShape2>>, (Versioned<Array<GeneralShape3>>, (Versioned<Array<AreaLight>>, (Versioned<Array<FsStartPoint>>, Versioned<Array<AreaHint>>)))))>, Run<Versioned<Array<SplitArea>>>)))>::decode(e, buf, p1) {
            Ok(((Run((collisions, (start_positions, (restart_positions, (camera_regions, (death_regions, enemy_generators)))))), (Run((fs_items, (fs_unknown, (fs_area_cams, (fs_area_locks, (fs_cam_limits, damage_shapes)))))), (Run((item_popups, (general_shapes2, (general_shapes3, (area_lights, (fs_start_points, area_hints)))))), Run(split_areas)))), end)) => {
                proof {
                    assert(p1 == pos + 5);
                    assert(end <= buf@.len());
                    assert(end == p1 + (Run((collisions, (start_positions, (restart_positions, (camera_regions, (death_regions, enemy_generators)))))), (Run((fs_items, (fs_unknown, (fs_area_cams, (fs_area_locks, (fs_cam_limits, damage_shapes)))))), (Run((item_popups, (general_shapes2, (general_shapes3, (area_lights, (fs_start_points, area_hints)))))), Run(split_areas)))).spec_bytes(e).len());
                    lemma_window_split(buf@, pos as int, 5, (Run((collisions, (start_positions, (restart_positions, (camera_regions, (death_regions, enemy_generators)))))), (Run((fs_items, (fs_unknown, (fs_area_cams, (fs_area_locks, (fs_cam_limits, damage_shapes)))))), (Run((item_popups, (general_shapes2, (general_shapes3, (area_lights, (fs_start_points, area_hints)))))), Run(split_areas)))).spec_bytes(e).len() as int);
                    assert forall|x: Self|
                        x.spec_version() == 10 && x.wf() && pos + x.spec_bytes(e).len() <= buf@.len()
                            && #[trigger] x.spec_accepts(e, buf@.subrange(pos as int, pos + x.spec_bytes(e).len()))
                            implies Lvd::V10 { collisions, start_positions, restart_positions, camera_regions, death_regions, enemy_generators, fs_items, fs_unknown, fs_area_cams, fs_area_locks, fs_cam_limits, damage_shapes, item_popups, general_shapes2, general_shapes3, area_lights, fs_start_points, area_hints, split_areas }.same(&x) && end == pos + x.spec_bytes(e).len() by {
                        if let Lvd::V10 { collisions, start_positions, restart_positions, camera_regions, death_regions, enemy_generators, fs_items, fs_unknown, fs_area_cams, fs_area_locks, fs_cam_limits, damage_shapes, item_popups, general_shapes2, general_shapes3, area_lights, fs_start_points, area_hints, split_areas } = x {
                            let b = (Run((collisions, (start_positions, (restart_positions, (camera_regions, (death_regions, enemy_generators)))))), (Run((fs_items, (fs_unknown, (fs_area_cams, (fs_area_locks, (fs_cam_limits, damage_shapes)))))), (Run((item_popups, (general_shapes2, (general_shapes3, (area_lights, (fs_start_points, area_hints)))))), Run(split_areas)))).spec_bytes(e).len() as int;
                            lemma_window_split(buf@, pos as int, 5, b);
                            assert((Run((collisions, (start_positions, (restart_positions, (camera_regions, (death_regions, enemy_generators)))))), (Run((fs_items, (fs_unknown, (fs_area_cams, (fs_area_locks, (fs_cam_limits, damage_shapes)))))), (Run((item_popups, (general_shapes2, (general_shapes3, (area_lights, (fs_start_points, area_hints)))))), Run(split_areas)))).spec_accepts(e, buf@.subrange(p1 as int, p1 + b)));
                        }
                    }
                }
                Ok((Lvd::V10 { collisions, start_positions, restart_positions, camera_regions, death_regions, enemy_generators, fs_items, fs_unknown, fs_area_cams, fs_area_locks, fs_cam_limits, damage_shapes, item_popups, general_shapes2, general_shapes3, area_lights, fs_start_points, area_hints, split_areas }, end))
            },
            Err(err) => {
                proof {
                    assert forall|x: Self|
                        x.spec_version() == 10 && x.wf() && pos + x.spec_bytes(e).len() <= buf@.len()
                            && #[trigger] x.spec_accepts(e, buf@.subrange(pos as int, pos + x.spec_bytes(e).len()))
                            implies false by {
                        if let Lvd::V10 { collisions, start_positions, restart_positions, camera_regions, death_regions, enemy_generators, fs_items, fs_unknown, fs_area_cams, fs_area_locks, fs_cam_limits, damage_shapes, item_popups, general_shapes2, general_shapes3, area_lights, fs_start_points, area_hints, split_areas } = x {
                            let b = (Run((collisions, (start_positions, (restart_positions, (camera_regions, (death_regions, enemy_generators)))))), (Run((fs_items, (fs_unknown, (fs_area_cams, (fs_area_locks, (fs_cam_limits, damage_shapes)))))), (Run((item_popups, (general_shapes2, (general_shapes3, (area_lights, (fs_start_points, area_hints)))))), Run(split_areas)))).spec_bytes(e).len() as int;
                            lemma_window_split(buf@, pos as int, 5, b);
                            assert((Run((collisions, (start_positions, (restart_positions, (camera_regions, (death_regions, enemy_generators)))))), (Run((fs_items, (fs_unknown, (fs_area_cams, (fs_area_locks, (fs_cam_limits, damage_shapes)))))), (Run((item_popups, (general_shapes2, (general_shapes3, (area_lights, (fs_start_points, area_hints)))))), Run(split_areas)))).spec_accepts(e, buf@.subrange(p1 as int, p1 + b)));
                        }
                    }
                }
                Err(err)
            },
        }
    }

    /// Writes the payload of layout 10.
    #[verifier::spinoff_prover]
    #[verifier::rlimit(100)]
    fn encode_v10(&self, e: Endian, out: &mut Vec<u8>)
        requires
            self is V10,
            self.wf(),
        ensures
            final(out)@ == old(out)@ + self.spec_bytes(e),
    {
        match self {
            Lvd::V10 { collisions, start_positions, restart_positions, camera_regions, death_regions, enemy_generators, fs_items, fs_unknown, fs_area_cams, fs_area_locks, fs_cam_limits, damage_shapes, item_popups, general_shapes2, general_shapes3, area_lights, fs_start_points, area_hints, split_areas } => {
                proof {
                    lemma_run(Run((*collisions, (*start_positions, (*restart_positions, (*camera_regions, (*death_regions, *enemy_generators)))))), e);
                    lemma_run(Run((*fs_items, (*fs_unknown, (*fs_area_cams, (*fs_area_locks, (*fs_cam_limits, *damage_shapes)))))), e);
                    lemma_run(Run((*item_popups, (*general_shapes2, (*general_shapes3, (*area_lights, (*fs_start_points, *area_hints)))))), e);
                    lemma_run(Run(*split_areas), e);
                }
                let ghost u0 = out@;
                Signature {}.encode(e, out);
                let ghost u1 = out@;
                let ghost c0_0 = out@;
                collisions.encode(e, out);
                let ghost c0_1 = out@;
                start_positions.encode(e, out);
                let ghost c0_2 = out@;
                restart_positions.encode(e, out);
                let ghost c0_3 = out@;
                camera_regions.encode(e, out);
                let ghost c0_4 = out@;
                death_regions.encode(e, out);
                let ghost c0_5 = out@;
                enemy_generators.encode(e, out);
                let ghost c0_6 = out@;
                proof {
                    lemma_append_assoc(c0_4, (*death_regions).spec_bytes(e), (*enemy_generators).spec_bytes(e));
                    assert(c0_6 == c0_4 + ((*death_regions), (*enemy_generators)).spec_bytes(e));
                    lemma_append_assoc(c0_3, (*camera_regions).spec_bytes(e), ((*death_regions), (*enemy_generators)).spec_bytes(e));
                    assert(c0_6 == c0_3 + ((*camera_regions), ((*death_regions), (*enemy_generators))).spec_bytes(e));
                    lemma_append_assoc(c0_2, (*restart_positions).spec_bytes(e), ((*camera_regions), ((*death_regions), (*enemy_generators))).spec_bytes(e));
                    assert(c0_6 == c0_2 + ((*restart_positions), ((*camera_regions), ((*death_regions), (*enemy_generators)))).spec_bytes(e));
                    lemma_append_assoc(c0_1, (*start_positions).spec_bytes(e), ((*restart_positions), ((*camera_regions), ((*death_regions), (*enemy_generators)))).spec_bytes(e));
                    assert(c0_6 == c0_1 + ((*start_positions), ((*restart_positions), ((*camera_regions), ((*death_regions), (*enemy_generators))))).spec_bytes(e));
                    lemma_append_assoc(c0_0, (*collisions).spec_bytes(e), ((*start_positions), ((*restart_positions), ((*camera_regions), ((*death_regions), (*enemy_generators))))).spec_bytes(e));
                    assert(c0_6 == c0_0 + ((*collisions), ((*start_positions), ((*restart_positions), ((*camera_regions), ((*death_regions), (*enemy_generators)))))).spec_bytes(e));
                }
                let ghost u2 = out@;
                let ghost c1_0 = out@;
                fs_items.encode(e, out);
                let ghost c1_1 = out@;
                fs_unknown.encode(e, out);
                let ghost c1_2 = out@;
                fs_area_cams.encode(e, out);
                let ghost c1_3 = out@;
                fs_area_locks.encode(e, out);
                let ghost c1_4 = out@;
                fs_cam_limits.encode(e, out);
                let ghost c1_5 = out@;
                damage_shapes.encode(e, out);
                let ghost c1_6 = out@;
                proof {
                    lemma_append_assoc(c1_4, (*fs_cam_limits).spec_bytes(e), (*damage_shapes).spec_bytes(e));
                    assert(c1_6 == c1_4 + ((*fs_cam_limits), (*damage_shapes)).spec_bytes(e));
                    lemma_append_assoc(c1_3, (*fs_area_locks).spec_bytes(e), ((*fs_cam_limits), (*damage_shapes)).spec_bytes(e));
                    assert(c1_6 == c1_3 + ((*fs_area_locks), ((*fs_cam_limits), (*damage_shapes))).spec_bytes(e));
                    lemma_append_assoc(c1_2, (*fs_area_cams).spec_bytes(e), ((*fs_area_locks), ((*fs_cam_limits), (*damage_shapes))).spec_bytes(e));
                    assert(c1_6 == c1_2 + ((*fs_area_cams), ((*fs_area_locks), ((*fs_cam_limits), (*damage_shapes)))).spec_bytes(e));
                    lemma_append_assoc(c1_1, (*fs_unknown).spec_bytes(e), ((*fs_area_cams), ((*fs_area_locks), ((*fs_cam_limits), (*damage_shapes)))).spec_bytes(e));
                    assert(c1_6 == c1_1 + ((*fs_unknown), ((*fs_area_cams), ((*fs_area_locks), ((*fs_cam_limits), (*damage_shapes))))).spec_bytes(e));
                    lemma_append_assoc(c1_0, (*fs_items).spec_bytes(e), ((*fs_unknown), ((*fs_area_cams), ((*fs_area_locks), ((*fs_cam_limits), (*damage_shapes))))).spec_bytes(e));
                    assert(c1_6 == c1_0 + ((*fs_items), ((*fs_unknown), ((*fs_area_cams), ((*fs_area_locks), ((*fs_cam_limits), (*damage_shapes)))))).spec_bytes(e));
                }
                let ghost u3 = out@;
                let ghost c2_0 = out@;
                item_popups.encode(e, out);
                let ghost c2_1 = out@;
                general_shapes2.encode(e, out);
                let ghost c2_2 = out@;
                general_shapes3.encode(e, out);
                let ghost c2_3 = out@;
                area_lights.encode(e, out);
                let ghost c2_4 = out@;
                fs_start_points.encode(e, out);
                let ghost c2_5 = out@;
                area_hints.encode(e, out);
                let ghost c2_6 = out@;
                proof {
                    lemma_append_assoc(c2_4, (*fs_start_points).spec_bytes(e), (*area_hints).spec_bytes(e));
                    assert(c2_6 == c2_4 + ((*fs_start_points), (*area_hints)).spec_bytes(e));
                    lemma_append_assoc(c2_3, (*area_lights).spec_bytes(e), ((*fs_start_points), (*area_hints)).spec_bytes(e));
                    assert(c2_6 == c2_3 + ((*area_lights), ((*fs_start_points), (*area_hints))).spec_bytes(e));
                    lemma_append_assoc(c2_2, (*general_shapes3).spec_bytes(e), ((*area_lights), ((*fs_start_points), (*area_hints))).spec_bytes(e));
                    assert(c2_6 == c2_2 + ((*general_shapes3), ((*area_lights), ((*fs_start_points), (*area_hints)))).spec_bytes(e));
                    lemma_append_assoc(c2_1, (*general_shapes2).spec_bytes(e), ((*general_shapes3), ((*area_lights), ((*fs_start_points), (*area_hints)))).spec_bytes(e));
                    assert(c2_6 == c2_1 + ((*general_shapes2), ((*general_shapes3), ((*area_lights), ((*fs_start_points), (*area_hints))))).spec_bytes(e));
                    lemma_append_assoc(c2_0, (*item_popups).spec_bytes(e), ((*general_shapes2), ((*general_shapes3), ((*area_lights), ((*fs_start_points), (*area_hints))))).spec_bytes(e));
                    assert(c2_6 == c2_0 + ((*item_popups), ((*general_shapes2), ((*general_shapes3), ((*area_lights), ((*fs_start_points), (*area_hints)))))).spec_bytes(e));
                }
                let ghost u4 = out@;
                let ghost c3_0 = out@;
                split_areas.encode(e, out);
                let ghost c3_1 = out@;
                proof {
                }
                let ghost u5 = out@;
                proof {
                    lemma_append_assoc(u3, Run((*item_popups, (*general_shapes2, (*general_shapes3, (*area_lights, (*fs_start_points, *area_hints)))))).spec_bytes(e), Run(*split_areas).spec_bytes(e));
                    assert(u5 == u3 + (Run((*item_popups, (*general_shapes2, (*general_shapes3, (*area_lights, (*fs_start_points, *area_hints)))))), Run(*split_areas)).spec_bytes(e));
                    lemma_append_assoc(u2, Run((*fs_items, (*fs_unknown, (*fs_area_cams, (*fs_area_locks, (*fs_cam_limits, *damage_shapes)))))).spec_bytes(e), (Run((*item_popups, (*general_shapes2, (*general_shapes3, (*area_lights, (*fs_start_points, *area_hints)))))), Run(*split_areas)).spec_bytes(e));
                    assert(u5 == u2 + (Run((*fs_items, (*fs_unknown, (*fs_area_cams, (*fs_area_locks, (*fs_cam_limits, *damage_shapes)))))), (Run((*item_popups, (*general_shapes2, (*general_shapes3, (*area_lights, (*fs_start_points, *area_hints)))))), Run(*split_areas))).spec_bytes(e));
                    lemma_append_assoc(u1, Run((*collisions, (*start_positions, (*restart_positions, (*camera_regions, (*death_regions, *enemy_generators)))))).spec_bytes(e), (Run((*fs_items, (*fs_unknown, (*fs_area_cams, (*fs_area_locks, (*fs_cam_limits, *damage_shapes)))))), (Run((*item_popups, (*general_shapes2, (*general_shapes3, (*area_lights, (*fs_start_points, *area_hints)))))), Run(*split_areas))).spec_bytes(e));
                    assert(u5 == u1 + (Run((*collisions, (*start_positions, (*restart_positions, (*camera_regions, (*death_regions, *enemy_generators)))))), (Run((*fs_items, (*fs_unknown, (*fs_area_cams, (*fs_area_locks, (*fs_cam_limits, *damage_shapes)))))), (Run((*item_popups, (*general_shapes2, (*general_shapes3, (*area_lights, (*fs_start_points, *area_hints)))))), Run(*split_areas)))).spec_bytes(e));
                    lemma_append_assoc(u0, Signature {}.spec_bytes(e), (Run((*collisions, (*start_positions, (*restart_positions, (*camera_regions, (*death_regions, *enemy_generators)))))), (Run((*fs_items, (*fs_unknown, (*fs_area_cams, (*fs_area_locks, (*fs_cam_limits, *damage_shapes)))))), (Run((*item_popups, (*general_shapes2, (*general_shapes3, (*area_lights, (*fs_start_points, *area_hints)))))), Run(*split_areas)))).spec_bytes(e));
                    assert(u5 == u0 + (Signature {}, (Run((*collisions, (*start_positions, (*restart_positions, (*camera_regions, (*death_regions, *enemy_generators)))))), (Run((*fs_items, (*fs_unknown, (*fs_area_cams, (*fs_area_locks, (*fs_cam_limits, *damage_shapes)))))), (Run((*item_popups, (*general_shapes2, (*general_shapes3, (*area_lights, (*fs_start_points, *area_hints)))))), Run(*split_areas))))).spec_bytes(e));
                }
            },
            _ => {},
        }
    }

    /// Reads the payload of layout 11.
    #[verifier::spinoff_prover]
    #[verifier::rlimit(100)]
    fn decode_v11(e: Endian, buf: &[u8], pos: usize) -> (r: Result<(Self, usize), DecodeError>)
        requires
            pos <= buf@.len(),
        ensures
            match r {
                Ok((v, end)) => {
                    &&& v.spec_version() == 11
                    &&& end == pos + v.spec_bytes(e).len()
                    &&& end <= buf@.len()
                    &&& v.wf()
                    &&& v.spec_accepts(e, buf@.subrange(pos as int, end as int))
                },
                Err(_) => true,
            },
            forall|x: Self|
                x.spec_version() == 11 && x.wf() && pos + x.spec_bytes(e).len() <= buf@.len()
                    && #[trigger] x.spec_accepts(e, buf@.subrange(pos as int, pos + x.spec_bytes(e).len()))
                    ==> match r {
                    Ok((v, end)) => v.same(&x) && end == pos + x.spec_bytes(e).len(),
                    Err(_) => false,
                },
            pos + 5 <= buf@.len() && buf@.subrange(pos as int, pos + 5) != signature_bytes() ==> r == Err::<
                (Self, usize),
                DecodeError,
            >(DecodeError::BadMagic { pos }),
    {
        let p1 = match check_signature(buf, pos) {
            Ok(p1) => p1,
            Err(err) => {
                proof {
                    assert forall|x: Self|
                        x.spec_version() == 11 && x.wf() && pos + x.spec_bytes(e).len() <= buf@.len()
                            && #[trigger] x.spec_accepts(e, buf@.subrange(pos as int, pos + x.spec_bytes(e).len()))
                            implies false by {
                        if let Lvd::V11 { collisions, start_positions, restart_positions, camera_regions, death_regions, enemy_generators, fs_items, fs_unknown, fs_area_cams, fs_area_locks, fs_cam_limits, damage_shapes, item_popups, general_shapes2, general_shapes3, area_lights, fs_start_points, area_hints, split_areas, shrinked_camera_regions, shrinked_death_regions } = x {
                            lemma_window_split(buf@, pos as int, 5, (Run((collisions, (start_positions, (restart_positions, (camera_regions, (death_regions, enemy_generators)))))), (Run((fs_items, (fs_unknown, (fs_area_cams, (fs_area_locks, (fs_cam_limits, damage_shapes)))))), (Run((item_popups, (general_shapes2, (general_shapes3, (area_lights, (fs_start_points, area_hints)))))), Run((split_areas, (shrinked_camera_regions, shrinked_death_regions)))))).spec_bytes(e).len() as int);
                        }
                    }
                }
                return Err(err);
            },
        };
        match <(Run<(Versioned<Array<Collision>>, (Versioned<Array<Point>>, (Versioned<Array<Point>>, (Versioned<Array<Region>>, (Versioned<Array<Region>>, Versioned<Array<EnemyGenerator>>)))))>, (Run<(Versioned<Array<FsItem>>, (Versioned<Array<FsUnknown>>, (Versioned<Array<FsAreaCam>>, (Versioned<Array<FsAreaLock>>, (Versioned<Array<FsCamLimit>>, Versioned<Array<DamageShape>>)))))>, (Run<(Versioned<Array<ItemPopup>>, (Versioned<Array<GeneralShape2>>, (Versioned<Array<GeneralShape3>>, (Versioned<Array<AreaLight>>, (Versioned<Array<FsStartPoint>>, Versioned<Array<AreaHint>>)))))>, Run<(Versioned<Array<SplitArea>>, (Versioned<Array<Region>>, Versioned<Array<Region>>))>)))>::decode(e, buf, p1) {
            Ok(((Run((collisions, (start_positions, (restart_positions, (camera_regions, (death_regions, enemy_generators)))))), (Run((fs_items, (fs_unknown, (fs_area_cams, (fs_area_locks, (fs_cam_limits, damage_shapes)))))), (Run((item_popups, (general_shapes2, (general_shapes3, (area_lights, (fs_start_points, area_hints)))))), Run((split_areas, (shrinked_camera_regions, shrinked_death_regions)))))), end)) => {
                proof {
                    assert(p1 == pos + 5);
                    assert(end <= buf@.len());
                    assert(end == p1 + (Run((collisions, (start_positions, (restart_positions, (camera_regions, (death_regions, enemy_generators)))))), (Run((fs_items, (fs_unknown, (fs_area_cams, (fs_area_locks, (fs_cam_limits, damage_shapes)))))), (Run((item_popups, (general_shapes2, (general_shapes3, (area_lights, (fs_start_points, area_hints)))))), Run((split_areas, (shrinked_camera_regions, shrinked_death_regions)))))).spec_bytes(e).len());
                    lemma_window_split(buf@, pos as int, 5, (Run((collisions, (start_positions, (restart_positions, (camera_regions, (death_regions, enemy_generators)))))), (Run((fs_items, (fs_unknown, (fs_area_cams, (fs_area_locks, (fs_cam_limits, damage_shapes)))))), (Run((item_popups, (general_shapes2, (general_shapes3, (area_lights, (fs_start_points, area_hints)))))), Run((split_areas, (shrinked_camera_regions, shrinked_death_regions)))))).spec_bytes(e).len() as int);
                    assert forall|x: Self|
                        x.spec_version() == 11 && x.wf() && pos + x.spec_bytes(e).len() <= buf@.len()
                            && #[trigger] x.spec_accepts(e, buf@.subrange(pos as int, pos + x.spec_bytes(e).len()))
                            implies Lvd::V11 { collisions, start_positions, restart_positions, camera_regions, death_regions, enemy_generators, fs_items, fs_unknown, fs_area_cams, fs_area_locks, fs_cam_limits, damage_shapes, item_popups, general_shapes2, general_shapes3, area_lights, fs_start_points, area_hints, split_areas, shrinked_camera_regions, shrinked_death_regions }.same(&x) && end == pos + x.spec_bytes(e).len() by {
                        if let Lvd::V11 { collisions, start_positions, restart_positions, camera_regions, death_regions, enemy_generators, fs_items, fs_unknown, fs_area_cams, fs_area_locks, fs_cam_limits, damage_shapes, item_popups, general_shapes2, general_shapes3, area_lights, fs_start_points, area_hints, split_areas, shrinked_camera_regions, shrinked_death_regions } = x {
                            let b = (Run((collisions, (start_positions, (restart_positions, (camera_regions, (death_regions, enemy_generators)))))), (Run((fs_items, (fs_unknown, (fs_area_cams, (fs_area_locks, (fs_cam_limits, damage_shapes)))))), (Run((item_popups, (general_shapes2, (general_shapes3, (area_lights, (fs_start_points, area_hints)))))), Run((split_areas, (shrinked_camera_regions, shrinked_death_regions)))))).spec_bytes(e).len() as int;
                            lemma_window_split(buf@, pos as int, 5, b);
                            assert((Run((collisions, (start_positions, (restart_positions, (camera_regions, (death_regions, enemy_generators)))))), (Run((fs_items, (fs_unknown, (fs_area_cams, (fs_area_locks, (fs_cam_limits, damage_shapes)))))), (Run((item_popups, (general_shapes2, (general_shapes3, (area_lights, (fs_start_points, area_hints)))))), Run((split_areas, (shrinked_camera_regions, shrinked_death_regions)))))).spec_accepts(e, buf@.subrange(p1 as int, p1 + b)));
                        }
                    }
                }
                Ok((Lvd::V11 { collisions, start_positions, restart_positions, camera_regions, death_regions, enemy_generators, fs_items, fs_unknown, fs_area_cams, fs_area_locks, fs_cam_limits, damage_shapes, item_popups, general_shapes2, general_shapes3, area_lights, fs_start_points, area_hints, split_areas, shrinked_camera_regions, shrinked_death_regions }, end))
            },
            Err(err) => {
                proof {
                    assert forall|x: Self|
                        x.spec_version() == 11 && x.wf() && pos + x.spec_bytes(e).len() <= buf@.len()
                            && #[trigger] x.spec_accepts(e, buf@.subrange(pos as int, pos + x.spec_bytes(e).len()))
                            implies false by {
                        if let Lvd::V11 { collisions, start_positions, restart_positions, camera_regions, death_regions, enemy_generators, fs_items, fs_unknown, fs_area_cams, fs_area_locks, fs_cam_limits, damage_shapes, item_popups, general_shapes2, general_shapes3, area_lights, fs_start_points, area_hints, split_areas, shrinked_camera_regions, shrinked_death_regions } = x {
                            let b = (Run((collisions, (start_positions, (restart_positions, (camera_regions, (death_regions, enemy_generators)))))), (Run((fs_items, (fs_unknown, (fs_area_cams, (fs_area_locks, (fs_cam_limits, damage_shapes)))))), (Run((item_popups, (general_shapes2, (general_shapes3, (area_lights, (fs_start_points, area_hints)))))), Run((split_areas, (shrinked_camera_regions, shrinked_death_regions)))))).spec_bytes(e).len() as int;
                            lemma_window_split(buf@, pos as int, 5, b);
                            assert((Run((collisions, (start_positions, (restart_positions, (camera_regions, (death_regions, enemy_generators)))))), (Run((fs_items, (fs_unknown, (fs_area_cams, (fs_area_locks, (fs_cam_limits, damage_shapes)))))), (Run((item_popups, (general_shapes2, (general_shapes3, (area_lights, (fs_start_points, area_hints)))))), Run((split_areas, (shrinked_camera_regions, shrinked_death_regions)))))).spec_accepts(e, buf@.subrange(p1 as int, p1 + b)));
                        }
                    }
                }
                Err(err)
            },
        }
    }

    /// Writes the payload of layout 11.
    #[verifier::spinoff_prover]
    #[verifier::rlimit(100)]
    fn encode_v11(&self, e: Endian, out: &mut Vec<u8>)
        requires
            self is V11,
            self.wf(),
        ensures
            final(out)@ == old(out)@ + self.spec_bytes(e),
    {
        match self {
            Lvd::V11 { collisions, start_positions, restart_positions, camera_regions, death_regions, enemy_generators, fs_items, fs_unknown, fs_area_cams, fs_area_locks, fs_cam_limits, damage_shapes, item_popups, general_shapes2, general_shapes3, area_lights, fs_start_points, area_hints, split_areas, shrinked_camera_regions, shrinked_death_regions } => {
                proof {
                    lemma_run(Run((*collisions, (*start_positions, (*restart_positions, (*camera_regions, (*death_regions, *enemy_generators)))))), e);
                    lemma_run(Run((*fs_items, (*fs_unknown, (*fs_area_cams, (*fs_area_locks, (*fs_cam_limits, *damage_shapes)))))), e);
                    lemma_run(Run((*item_popups, (*general_shapes2, (*general_shapes3, (*area_lights, (*fs_start_points, *area_hints)))))), e);
                    lemma_run(Run((*split_areas, (*shrinked_camera_regions, *shrinked_death_regions))), e);
                }
                let ghost u0 = out@;
                Signature {}.encode(e, out);
                let ghost u1 = out@;
                let ghost c0_0 = out@;
                collisions.encode(e, out);
                let ghost c0_1 = out@;
                start_positions.encode(e, out);
                let ghost c0_2 = out@;
                restart_positions.encode(e, out);
                let ghost c0_3 = out@;
                camera_regions.encode(e, out);
                let ghost c0_4 = out@;
                death_regions.encode(e, out);
                let ghost c0_5 = out@;
                enemy_generators.encode(e, out);
                let ghost c0_6 = out@;
                proof {
                    lemma_append_assoc(c0_4, (*death_regions).spec_bytes(e), (*enemy_generators).spec_bytes(e));
                    assert(c0_6 == c0_4 + ((*death_regions), (*enemy_generators)).spec_bytes(e));
                    lemma_append_assoc(c0_3, (*camera_regions).spec_bytes(e), ((*death_regions), (*enemy_generators)).spec_bytes(e));
                    assert(c0_6 == c0_3 + ((*camera_regions), ((*death_regions), (*enemy_generators))).spec_bytes(e));
                    lemma_append_assoc(c0_2, (*restart_positions).spec_bytes(e), ((*camera_regions), ((*death_regions), (*enemy_generators))).spec_bytes(e));
                    assert(c0_6 == c0_2 + ((*restart_positions), ((*camera_regions), ((*death_regions), (*enemy_generators)))).spec_bytes(e));
                    lemma_append_assoc(c0_1, (*start_positions).spec_bytes(e), ((*restart_positions), ((*camera_regions), ((*death_regions), (*enemy_generators)))).spec_bytes(e));
                    assert(c0_6 == c0_1 + ((*start_positions), ((*restart_positions), ((*camera_regions), ((*death_regions), (*enemy_generators))))).spec_bytes(e));
                    lemma_append_assoc(c0_0, (*collisions).spec_bytes(e), ((*start_positions), ((*restart_positions), ((*camera_regions), ((*death_regions), (*enemy_generators))))).spec_bytes(e));
                    assert(c0_6 == c0_0 + ((*collisions), ((*start_positions), ((*restart_positions), ((*camera_regions), ((*death_regions), (*enemy_generators)))))).spec_bytes(e));
                }
                let ghost u2 = out@;
                let ghost c1_0 = out@;
                fs_items.encode(e, out);
                let ghost c1_1 = out@;
                fs_unknown.encode(e, out);
                let ghost c1_2 = out@;
                fs_area_cams.encode(e, out);
                let ghost c1_3 = out@;
                fs_area_locks.encode(e, out);
                let ghost c1_4 = out@;
                fs_cam_limits.encode(e, out);
                let ghost c1_5 = out@;
                damage_shapes.encode(e, out);
                let ghost c1_6 = out@;
                proof {
                    lemma_append_assoc(c1_4, (*fs_cam_limits).spec_bytes(e), (*damage_shapes).spec_bytes(e));
                    assert(c1_6 == c1_4 + ((*fs_cam_limits), (*damage_shapes)).spec_bytes(e));
                    lemma_append_assoc(c1_3, (*fs_area_locks).spec_bytes(e), ((*fs_cam_limits), (*damage_shapes)).spec_bytes(e));
                    assert(c1_6 == c1_3 + ((*fs_area_locks), ((*fs_cam_limits), (*damage_shapes))).spec_bytes(e));
                    lemma_append_assoc(c1_2, (*fs_area_cams).spec_bytes(e), ((*fs_area_locks), ((*fs_cam_limits), (*damage_shapes))).spec_bytes(e));
                    assert(c1_6 == c1_2 + ((*fs_area_cams), ((*fs_area_locks), ((*fs_cam_limits), (*damage_shapes)))).spec_bytes(e));
                    lemma_append_assoc(c1_1, (*fs_unknown).spec_bytes(e), ((*fs_area_cams), ((*fs_area_locks), ((*fs_cam_limits), (*damage_shapes)))).spec_bytes(e));
                    assert(c1_6 == c1_1 + ((*fs_unknown), ((*fs_area_cams), ((*fs_area_locks), ((*fs_cam_limits), (*damage_shapes))))).spec_bytes(e));
                    lemma_append_assoc(c1_0, (*fs_items).spec_bytes(e), ((*fs_unknown), ((*fs_area_cams), ((*fs_area_locks), ((*fs_cam_limits), (*damage_shapes))))).spec_bytes(e));
                    assert(c1_6 == c1_0 + ((*fs_items), ((*fs_unknown), ((*fs_area_cams), ((*fs_area_locks), ((*fs_cam_limits), (*damage_shapes)))))).spec_bytes(e));
                }
                let ghost u3 = out@;
                let ghost c2_0 = out@;
                item_popups.encode(e, out);
                let ghost c2_1 = out@;
                general_shapes2.encode(e, out);
                let ghost c2_2 = out@;
                general_shapes3.encode(e, out);
                let ghost c2_3 = out@;
                area_lights.encode(e, out);
                let ghost c2_4 = out@;
                fs_start_points.encode(e, out);
                let ghost c2_5 = out@;
                area_hints.encode(e, out);
                let ghost c2_6 = out@;
                proof {
                    lemma_append_assoc(c2_4, (*fs_start_points).spec_bytes(e), (*area_hints).spec_bytes(e));
                    assert(c2_6 == c2_4 + ((*fs_start_points), (*area_hints)).spec_bytes(e));
                    lemma_append_assoc(c2_3, (*area_lights).spec_bytes(e), ((*fs_start_points), (*area_hints)).spec_bytes(e));
                    assert(c2_6 == c2_3 + ((*area_lights), ((*fs_start_points), (*area_hints))).spec_bytes(e));
                    lemma_append_assoc(c2_2, (*general_shapes3).spec_bytes(e), ((*area_lights), ((*fs_start_points), (*area_hints))).spec_bytes(e));
                    assert(c2_6 == c2_2 + ((*general_shapes3), ((*area_lights), ((*fs_start_points), (*area_hints)))).spec_bytes(e));
                    lemma_append_assoc(c2_1, (*general_shapes2).spec_bytes(e), ((*general_shapes3), ((*area_lights), ((*fs_start_points), (*area_hints)))).spec_bytes(e));
                    assert(c2_6 == c2_1 + ((*general_shapes2), ((*general_shapes3), ((*area_lights), ((*fs_start_points), (*area_hints))))).spec_bytes(e));
                    lemma_append_assoc(c2_0, (*item_popups).spec_bytes(e), ((*general_shapes2), ((*general_shapes3), ((*area_lights), ((*fs_start_points), (*area_hints))))).spec_bytes(e));
                    assert(c2_6 == c2_0 + ((*item_popups), ((*general_shapes2), ((*general_shapes3), ((*area_lights), ((*fs_start_points), (*area_hints)))))).spec_bytes(e));
                }
                let ghost u4 = out@;
                let ghost c3_0 = out@;
                split_areas.encode(e, out);
                let ghost c3_1 = out@;
                shrinked_camera_regions.encode(e, out);
                let ghost c3_2 = out@;
                shrinked_death_regions.encode(e, out);
                let ghost c3_3 = out@;
                proof {
                    lemma_append_assoc(c3_1, (*shrinked_camera_regions).spec_bytes(e), (*shrinked_death_regions).spec_bytes(e));
                    assert(c3_3 == c3_1 + ((*shrinked_camera_regions), (*shrinked_death_regions)).spec_bytes(e));
                    lemma_append_assoc(c3_0, (*split_areas).spec_bytes(e), ((*shrinked_camera_regions), (*shrinked_death_regions)).spec_bytes(e));
                    assert(c3_3 == c3_0 + ((*split_areas), ((*shrinked_camera_regions), (*shrinked_death_regions))).spec_bytes(e));
                }
                let ghost u5 = out@;
                proof {
                    lemma_append_assoc(u3, Run((*item_popups, (*general_shapes2, (*general_shapes3, (*area_lights, (*fs_start_points, *area_hints)))))).spec_bytes(e), Run((*split_areas, (*shrinked_camera_regions, *shrinked_death_regions))).spec_bytes(e));
                    assert(u5 == u3 + (Run((*item_popups, (*general_shapes2, (*general_shapes3, (*area_lights, (*fs_start_points, *area_hints)))))), Run((*split_areas, (*shrinked_camera_regions, *shrinked_death_regions)))).spec_bytes(e));
                    lemma_append_assoc(u2, Run((*fs_items, (*fs_unknown, (*fs_area_cams, (*fs_area_locks, (*fs_cam_limits, *damage_shapes)))))).spec_bytes(e), (Run((*item_popups, (*general_shapes2, (*general_shapes3, (*area_lights, (*fs_start_points, *area_hints)))))), Run((*split_areas, (*shrinked_camera_regions, *shrinked_death_regions)))).spec_bytes(e));
                    assert(u5 == u2 + (Run((*fs_items, (*fs_unknown, (*fs_area_cams, (*fs_area_locks, (*fs_cam_limits, *damage_shapes)))))), (Run((*item_popups, (*general_shapes2, (*general_shapes3, (*area_lights, (*fs_start_points, *area_hints)))))), Run((*split_areas, (*shrinked_camera_regions, *shrinked_death_regions))))).spec_bytes(e));
                    lemma_append_assoc(u1, Run((*collisions, (*start_positions, (*restart_positions, (*camera_regions, (*death_regions, *enemy_generators)))))).spec_bytes(e), (Run((*fs_items, (*fs_unknown, (*fs_area_cams, (*fs_area_locks, (*fs_cam_limits, *damage_shapes)))))), (Run((*item_popups, (*general_shapes2, (*general_shapes3, (*area_lights, (*fs_start_points, *area_hints)))))), Run((*split_areas, (*shrinked_camera_regions, *shrinked_death_regions))))).spec_bytes(e));
                    assert(u5 == u1 + (Run((*collisions, (*start_positions, (*restart_positions, (*camera_regions, (*death_regions, *enemy_generators)))))), (Run((*fs_items, (*fs_unknown, (*fs_area_cams, (*fs_area_locks, (*fs_cam_limits, *damage_shapes)))))), (Run((*item_popups, (*general_shapes2, (*general_shapes3, (*area_lights, (*fs_start_points, *area_hints)))))), Run((*split_areas, (*shrinked_camera_regions, *shrinked_death_regions)))))).spec_bytes(e));
                    lemma_append_assoc(u0, Signature {}.spec_bytes(e), (Run((*collisions, (*start_positions, (*restart_positions, (*camera_regions, (*death_regions, *enemy_generators)))))), (Run((*fs_items, (*fs_unknown, (*fs_area_cams, (*fs_area_locks, (*fs_cam_limits, *damage_shapes)))))), (Run((*item_popups, (*general_shapes2, (*general_shapes3, (*area_lights, (*fs_start_points, *area_hints)))))), Run((*split_areas, (*shrinked_camera_regions, *shrinked_death_regions)))))).spec_bytes(e));
                    assert(u5 == u0 + (Signature {}, (Run((*collisions, (*start_positions, (*restart_positions, (*camera_regions, (*death_regions, *enemy_generators)))))), (Run((*fs_items, (*fs_unknown, (*fs_area_cams, (*fs_area_locks, (*fs_cam_limits, *damage_shapes)))))), (Run((*item_popups, (*general_shapes2, (*general_shapes3, (*area_lights, (*fs_start_points, *area_hints)))))), Run((*split_areas, (*shrinked_camera_regions, *shrinked_death_regions))))))).spec_bytes(e));
                }
            },
            _ => {},
        }
    }

    /// Reads the payload of layout 12.
    #[verifier::spinoff_prover]
    #[verifier::rlimit(100)]
    fn decode_v12(e: Endian, buf: &[u8], pos: usize) -> (r: Result<(Self, usize), DecodeError>)
        requires
            pos <= buf@.len(),
        ensures
            match r {
                Ok((v, end)) => {
                    &&& v.spec_version() == 12
                    &&& end == pos + v.spec_bytes(e).len()
                    &&& end <= buf@.len()
                    &&& v.wf()
                    &&& v.spec_accepts(e, buf@.subrange(pos as int, end as int))
                },
                Err(_) => true,
            },
            forall|x: Self|
                x.spec_version() == 12 && x.wf() && pos + x.spec_bytes(e).len() <= buf@.len()
                    && #[trigger] x.spec_accepts(e, buf@.subrange(pos as int, pos + x.spec_bytes(e).len()))
                    ==> match r {
                    Ok((v, end)) => v.same(&x) && end == pos + x.spec_bytes(e).len(),
                    Err(_) => false,
                },
            pos + 5 <= buf@.len() && buf@.subrange(pos as int, pos + 5) != signature_bytes() ==> r == Err::<
                (Self, usize),
                DecodeError,
            >(DecodeError::BadMagic { pos }),
    {
        let p1 = match check_signature(buf, pos) {
            Ok(p1) => p1,
            Err(err) => {
                proof {
                    assert forall|x: Self|
                        x.spec_version() == 12 && x.wf() && pos + x.spec_bytes(e).len() <= buf@.len()
                            && #[trigger] x.spec_accepts(e, buf@.subrange(pos as int, pos + x.spec_bytes(e).len()))
                            implies false by {
                        if let Lvd::V12 { collisions, start_positions, restart_positions, camera_regions, death_regions, enemy_generators, fs_items, fs_unknown, fs_area_cams, fs_area_locks, fs_cam_limits, damage_shapes, item_popups, ptrainer_ranges, general_shapes2, general_shapes3, area_lights, fs_start_points, area_hints, split_areas, shrinked_camera_regions, shrinked_death_regions } = x {
                            lemma_window_split(buf@, pos as int, 5, (Run((collisions, (start_positions, (restart_positions, (camera_regions, (death_regions, enemy_generators)))))), (Run((fs_items, (fs_unknown, (fs_area_cams, (fs_area_locks, (fs_cam_limits, damage_shapes)))))), (Run((item_popups, (ptrainer_ranges, (general_shapes2, (general_shapes3, (area_lights, fs_start_points)))))), Run((area_hints, (split_areas, (shrinked_camera_regions, shrinked_death_regions))))))).spec_bytes(e).len() as int);
                        }
                    }
                }
                return Err(err);
            },
        };
        match <(Run<(Versioned<Array<Collision>>, (Versioned<Array<Point>>, (Versioned<Array<Point>>, (Versioned<Array<Region>>, (Versioned<Array<Region>>, Versioned<Array<EnemyGenerator>>)))))>, (Run<(Versioned<Array<FsItem>>, (Versioned<Array<FsUnknown>>, (Versioned<Array<FsAreaCam>>, (Versioned<Array<FsAreaLock>>, (Versioned<Array<FsCamLimit>>, Versioned<Array<DamageShape>>)))))>, (Run<(Versioned<Array<ItemPopup>>, (Versioned<Array<PTrainerRange>>, (Versioned<Array<GeneralShape2>>, (Versioned<Array<GeneralShape3>>, (Versioned<Array<AreaLight>>, Versioned<Array<FsStartPoint>>)))))>, Run<(Versioned<Array<AreaHint>>, (Versioned<Array<SplitArea>>, (Versioned<Array<Region>>, Versioned<Array<Region>>)))>)))>::decode(e, buf, p1) {
            Ok(((Run((collisions, (start_positions, (restart_positions, (camera_regions, (death_regions, enemy_generators)))))), (Run((fs_items, (fs_unknown, (fs_area_cams, (fs_area_locks, (fs_cam_limits, damage_shapes)))))), (Run((item_popups, (ptrainer_ranges, (general_shapes2, (general_shapes3, (area_lights, fs_start_points)))))), Run((area_hints, (split_areas, (shrinked_camera_regions, shrinked_death_regions))))))), end)) => {
                proof {
                    assert(p1 == pos + 5);
                    assert(end <= buf@.len());
                    assert(end == p1 + (Run((collisions, (start_positions, (restart_positions, (camera_regions, (death_regions, enemy_generators)))))), (Run((fs_items, (fs_unknown, (fs_area_cams, (fs_area_locks, (fs_cam_limits, damage_shapes)))))), (Run((item_popups, (ptrainer_ranges, (general_shapes2, (general_shapes3, (area_lights, fs_start_points)))))), Run((area_hints, (split_areas, (shrinked_camera_regions, shrinked_death_regions))))))).spec_bytes(e).len());
                    lemma_window_split(buf@, pos as int, 5, (Run((collisions, (start_positions, (restart_positions, (camera_regions, (death_regions, enemy_generators)))))), (Run((fs_items, (fs_unknown, (fs_area_cams, (fs_area_locks, (fs_cam_limits, damage_shapes)))))), (Run((item_popups, (ptrainer_ranges, (general_shapes2, (general_shapes3, (area_lights, fs_start_points)))))), Run((area_hints, (split_areas, (shrinked_camera_regions, shrinked_death_regions))))))).spec_bytes(e).len() as int);
                    assert forall|x: Self|
                        x.spec_version() == 12 && x.wf() && pos + x.spec_bytes(e).len() <= buf@.len()
                            && #[trigger] x.spec_accepts(e, buf@.subrange(pos as int, pos + x.spec_bytes(e).len()))
                            implies Lvd::V12 { collisions, start_positions, restart_positions, camera_regions, death_regions, enemy_generators, fs_items, fs_unknown, fs_area_cams, fs_area_locks, fs_cam_limits, damage_shapes, item_popups, ptrainer_ranges, general_shapes2, general_shapes3, area_lights, fs_start_points, area_hints, split_areas, shrinked_camera_regions, shrinked_death_regions }.same(&x) && end == pos + x.spec_bytes(e).len() by {
                        if let Lvd::V12 { collisions, start_positions, restart_positions, camera_regions, death_regions, enemy_generators, fs_items, fs_unknown, fs_area_cams, fs_area_locks, fs_cam_limits, damage_shapes, item_popups, ptrainer_ranges, general_shapes2, general_shapes3, area_lights, fs_start_points, area_hints, split_areas, shrinked_camera_regions, shrinked_death_regions } = x {
                            let b = (Run((collisions, (start_positions, (restart_positions, (camera_regions, (death_regions, enemy_generators)))))), (Run((fs_items, (fs_unknown, (fs_area_cams, (fs_area_locks, (fs_cam_limits, damage_shapes)))))), (Run((item_popups, (ptrainer_ranges, (general_shapes2, (general_shapes3, (area_lights, fs_start_points)))))), Run((area_hints, (split_areas, (shrinked_camera_regions, shrinked_death_regions))))))).spec_bytes(e).len() as int;
                            lemma_window_split(buf@, pos as int, 5, b);
                            assert((Run((collisions, (start_positions, (restart_positions, (camera_regions, (death_regions, enemy_generators)))))), (Run((fs_items, (fs_unknown, (fs_area_cams, (fs_area_locks, (fs_cam_limits, damage_shapes)))))), (Run((item_popups, (ptrainer_ranges, (general_shapes2, (general_shapes3, (area_lights, fs_start_points)))))), Run((area_hints, (split_areas, (shrinked_camera_regions, shrinked_death_regions))))))).spec_accepts(e, buf@.subrange(p1 as int, p1 + b)));
                        }
                    }
                }
                Ok((Lvd::V12 { collisions, start_positions, restart_positions, camera_regions, death_regions, enemy_generators, fs_items, fs_unknown, fs_area_cams, fs_area_locks, fs_cam_limits, damage_shapes, item_popups, ptrainer_ranges, general_shapes2, general_shapes3, area_lights, fs_start_points, area_hints, split_areas, shrinked_camera_regions, shrinked_death_regions }, end))
            },
            Err(err) => {
                proof {
                    assert forall|x: Self|
                        x.spec_version() == 12 && x.wf() && pos + x.spec_bytes(e).len() <= buf@.len()
                            && #[trigger] x.spec_accepts(e, buf@.subrange(pos as int, pos + x.spec_bytes(e).len()))
                            implies false by {
                        if let Lvd::V12 { collisions, start_positions, restart_positions, camera_regions, death_regions, enemy_generators, fs_items, fs_unknown, fs_area_cams, fs_area_locks, fs_cam_limits, damage_shapes, item_popups, ptrainer_ranges, general_shapes2, general_shapes3, area_lights, fs_start_points, area_hints, split_areas, shrinked_camera_regions, shrinked_death_regions } = x {
                            let b = (Run((collisions, (start_positions, (restart_positions, (camera_regions, (death_regions, enemy_generators)))))), (Run((fs_items, (fs_unknown, (fs_area_cams, (fs_area_locks, (fs_cam_limits, damage_shapes)))))), (Run((item_popups, (ptrainer_ranges, (general_shapes2, (general_shapes3, (area_lights, fs_start_points)))))), Run((area_hints, (split_areas, (shrinked_camera_regions, shrinked_death_regions))))))).spec_bytes(e).len() as int;
                            lemma_window_split(buf@, pos as int, 5, b);
                            assert((Run((collisions, (start_positions, (restart_positions, (camera_regions, (death_regions, enemy_generators)))))), (Run((fs_items, (fs_unknown, (fs_area_cams, (fs_area_locks, (fs_cam_limits, damage_shapes)))))), (Run((item_popups, (ptrainer_ranges, (general_shapes2, (general_shapes3, (area_lights, fs_start_points)))))), Run((area_hints, (split_areas, (shrinked_camera_regions, shrinked_death_regions))))))).spec_accepts(e, buf@.subrange(p1 as int, p1 + b)));
                        }
                    }
                }
                Err(err)
            },
        }
    }

    /// Writes the payload of layout 12.
    #[verifier::spinoff_prover]
    #[verifier::rlimit(100)]
    fn encode_v12(&self, e: Endian, out: &mut Vec<u8>)
        requires
            self is V12,
            self.wf(),
        ensures
            final(out)@ == old(out)@ + self.spec_bytes(e),
    {
        match self {
            Lvd::V12 { collisions, start_positions, restart_positions, camera_regions, death_regions, enemy_generators, fs_items, fs_unknown, fs_area_cams, fs_area_locks, fs_cam_limits, damage_shapes, item_popups, ptrainer_ranges, general_shapes2, general_shapes3, area_lights, fs_start_points, area_hints, split_areas, shrinked_camera_regions, shrinked_death_regions } => {
                proof {
                    lemma_run(Run((*collisions, (*start_positions, (*restart_positions, (*camera_regions, (*death_regions, *enemy_generators)))))), e);
                    lemma_run(Run((*fs_items, (*fs_unknown, (*fs_area_cams, (*fs_area_locks, (*fs_cam_limits, *damage_shapes)))))), e);
                    lemma_run(Run((*item_popups, (*ptrainer_ranges, (*general_shapes2, (*general_shapes3, (*area_lights, *fs_start_points)))))), e);
                    lemma_run(Run((*area_hints, (*split_areas, (*shrinked_camera_regions, *shrinked_death_regions)))), e);
                }
                let ghost u0 = out@;
                Signature {}.encode(e, out);
                let ghost u1 = out@;
                let ghost c0_0 = out@;
                collisions.encode(e, out);
                let ghost c0_1 = out@;
                start_positions.encode(e, out);
                let ghost c0_2 = out@;
                restart_positions.encode(e, out);
                let ghost c0_3 = out@;
                camera_regions.encode(e, out);
                let ghost c0_4 = out@;
                death_regions.encode(e, out);
                let ghost c0_5 = out@;
                enemy_generators.encode(e, out);
                let ghost c0_6 = out@;
                proof {
                    lemma_append_assoc(c0_4, (*death_regions).spec_bytes(e), (*enemy_generators).spec_bytes(e));
                    assert(c0_6 == c0_4 + ((*death_regions), (*enemy_generators)).spec_bytes(e));
                    lemma_append_assoc(c0_3, (*camera_regions).spec_bytes(e), ((*death_regions), (*enemy_generators)).spec_bytes(e));
                    assert(c0_6 == c0_3 + ((*camera_regions), ((*death_regions), (*enemy_generators))).spec_bytes(e));
                    lemma_append_assoc(c0_2, (*restart_positions).spec_bytes(e), ((*camera_regions), ((*death_regions), (*enemy_generators))).spec_bytes(e));
                    assert(c0_6 == c0_2 + ((*restart_positions), ((*camera_regions), ((*death_regions), (*enemy_generators)))).spec_bytes(e));
                    lemma_append_assoc(c0_1, (*start_positions).spec_bytes(e), ((*restart_positions), ((*camera_regions), ((*death_regions), (*enemy_generators)))).spec_bytes(e));
                    assert(c0_6 == c0_1 + ((*start_positions), ((*restart_positions), ((*camera_regions), ((*death_regions), (*enemy_generators))))).spec_bytes(e));
                    lemma_append_assoc(c0_0, (*collisions).spec_bytes(e), ((*start_positions), ((*restart_positions), ((*camera_regions), ((*death_regions), (*enemy_generators))))).spec_bytes(e));
                    assert(c0_6 == c0_0 + ((*collisions), ((*start_positions), ((*restart_positions), ((*camera_regions), ((*death_regions), (*enemy_generators)))))).spec_bytes(e));
                }
                let ghost u2 = out@;
                let ghost c1_0 = out@;
                fs_items.encode(e, out);
                let ghost c1_1 = out@;
                fs_unknown.encode(e, out);
                let ghost c1_2 = out@;
                fs_area_cams.encode(e, out);
                let ghost c1_3 = out@;
                fs_area_locks.encode(e, out);
                let ghost c1_4 = out@;
                fs_cam_limits.encode(e, out);
                let ghost c1_5 = out@;
                damage_shapes.encode(e, out);
                let ghost c1_6 = out@;
                proof {
                    lemma_append_assoc(c1_4, (*fs_cam_limits).spec_bytes(e), (*damage_shapes).spec_bytes(e));
                    assert(c1_6 == c1_4 + ((*fs_cam_limits), (*damage_shapes)).spec_bytes(e));
                    lemma_append_assoc(c1_3, (*fs_area_locks).spec_bytes(e), ((*fs_cam_limits), (*damage_shapes)).spec_bytes(e));
                    assert(c1_6 == c1_3 + ((*fs_area_locks), ((*fs_cam_limits), (*damage_shapes))).spec_bytes(e));
                    lemma_append_assoc(c1_2, (*fs_area_cams).spec_bytes(e), ((*fs_area_locks), ((*fs_cam_limits), (*damage_shapes))).spec_bytes(e));
                    assert(c1_6 == c1_2 + ((*fs_area_cams), ((*fs_area_locks), ((*fs_cam_limits), (*damage_shapes)))).spec_bytes(e));
                    lemma_append_assoc(c1_1, (*fs_unknown).spec_bytes(e), ((*fs_area_cams), ((*fs_area_locks), ((*fs_cam_limits), (*damage_shapes)))).spec_bytes(e));
                    assert(c1_6 == c1_1 + ((*fs_unknown), ((*fs_area_cams), ((*fs_area_locks), ((*fs_cam_limits), (*damage_shapes))))).spec_bytes(e));
                    lemma_append_assoc(c1_0, (*fs_items).spec_bytes(e), ((*fs_unknown), ((*fs_area_cams), ((*fs_area_locks), ((*fs_cam_limits), (*damage_shapes))))).spec_bytes(e));
                    assert(c1_6 == c1_0 + ((*fs_items), ((*fs_unknown), ((*fs_area_cams), ((*fs_area_locks), ((*fs_cam_limits), (*damage_shapes)))))).spec_bytes(e));
                }
                let ghost u3 = out@;
                let ghost c2_0 = out@;
                item_popups.encode(e, out);
                let ghost c2_1 = out@;
                ptrainer_ranges.encode(e, out);
                let ghost c2_2 = out@;
                general_shapes2.encode(e, out);
                let ghost c2_3 = out@;
                general_shapes3.encode(e, out);
                let ghost c2_4 = out@;
                area_lights.encode(e, out);
                let ghost c2_5 = out@;
                fs_start_points.encode(e, out);
                let ghost c2_6 = out@;
                proof {
                    lemma_append_assoc(c2_4, (*area_lights).spec_bytes(e), (*fs_start_points).spec_bytes(e));
                    assert(c2_6 == c2_4 + ((*area_lights), (*fs_start_points)).spec_bytes(e));
                    lemma_append_assoc(c2_3, (*general_shapes3).spec_bytes(e), ((*area_lights), (*fs_start_points)).spec_bytes(e));
                    assert(c2_6 == c2_3 + ((*general_shapes3), ((*area_lights), (*fs_start_points))).spec_bytes(e));
                    lemma_append_assoc(c2_2, (*general_shapes2).spec_bytes(e), ((*general_shapes3), ((*area_lights), (*fs_start_points))).spec_bytes(e));
                    assert(c2_6 == c2_2 + ((*general_shapes2), ((*general_shapes3), ((*area_lights), (*fs_start_points)))).spec_bytes(e));
                    lemma_append_assoc(c2_1, (*ptrainer_ranges).spec_bytes(e), ((*general_shapes2), ((*general_shapes3), ((*area_lights), (*fs_start_points)))).spec_bytes(e));
                    assert(c2_6 == c2_1 + ((*ptrainer_ranges), ((*general_shapes2), ((*general_shapes3), ((*area_lights), (*fs_start_points))))).spec_bytes(e));
                    lemma_append_assoc(c2_0, (*item_popups).spec_bytes(e), ((*ptrainer_ranges), ((*general_shapes2), ((*general_shapes3), ((*area_lights), (*fs_start_points))))).spec_bytes(e));
                    assert(c2_6 == c2_0 + ((*item_popups), ((*ptrainer_ranges), ((*general_shapes2), ((*general_shapes3), ((*area_lights), (*fs_start_points)))))).spec_bytes(e));
                }
                let ghost u4 = out@;
                let ghost c3_0 = out@;
                area_hints.encode(e, out);
                let ghost c3_1 = out@;
                split_areas.encode(e, out);
                let ghost c3_2 = out@;
                shrinked_camera_regions.encode(e, out);
                let ghost c3_3 = out@;
                shrinked_death_regions.encode(e, out);
                let ghost c3_4 = out@;
                proof {
                    lemma_append_assoc(c3_2, (*shrinked_camera_regions).spec_bytes(e), (*shrinked_death_regions).spec_bytes(e));
                    assert(c3_4 == c3_2 + ((*shrinked_camera_regions), (*shrinked_death_regions)).spec_bytes(e));
                    lemma_append_assoc(c3_1, (*split_areas).spec_bytes(e), ((*shrinked_camera_regions), (*shrinked_death_regions)).spec_bytes(e));
                    assert(c3_4 == c3_1 + ((*split_areas), ((*shrinked_camera_regions), (*shrinked_death_regions))).spec_bytes(e));
                    lemma_append_assoc(c3_0, (*area_hints).spec_bytes(e), ((*split_areas), ((*shrinked_camera_regions), (*shrinked_death_regions))).spec_bytes(e));
                    assert(c3_4 == c3_0 + ((*area_hints), ((*split_areas), ((*shrinked_camera_regions), (*shrinked_death_regions)))).spec_bytes(e));
                }
                let ghost u5 = out@;
                proof {
                    lemma_append_assoc(u3, Run((*item_popups, (*ptrainer_ranges, (*general_shapes2, (*general_shapes3, (*area_lights, *fs_start_points)))))).spec_bytes(e), Run((*area_hints, (*split_areas, (*shrinked_camera_regions, *shrinked_death_regions)))).spec_bytes(e));
                    assert(u5 == u3 + (Run((*item_popups, (*ptrainer_ranges, (*general_shapes2, (*general_shapes3, (*area_lights, *fs_start_points)))))), Run((*area_hints, (*split_areas, (*shrinked_camera_regions, *shrinked_death_regions))))).spec_bytes(e));
                    lemma_append_assoc(u2, Run((*fs_items, (*fs_unknown, (*fs_area_cams, (*fs_area_locks, (*fs_cam_limits, *damage_shapes)))))).spec_bytes(e), (Run((*item_popups, (*ptrainer_ranges, (*general_shapes2, (*general_shapes3, (*area_lights, *fs_start_points)))))), Run((*area_hints, (*split_areas, (*shrinked_camera_regions, *shrinked_death_regions))))).spec_bytes(e));
                    assert(u5 == u2 + (Run((*fs_items, (*fs_unknown, (*fs_area_cams, (*fs_area_locks, (*fs_cam_limits, *damage_shapes)))))), (Run((*item_popups, (*ptrainer_ranges, (*general_shapes2, (*general_shapes3, (*area_lights, *fs_start_points)))))), Run((*area_hints, (*split_areas, (*shrinked_camera_regions, *shrinked_death_regions)))))).spec_bytes(e));
                    lemma_append_assoc(u1, Run((*collisions, (*start_positions, (*restart_positions, (*camera_regions, (*death_regions, *enemy_generators)))))).spec_bytes(e), (Run((*fs_items, (*fs_unknown, (*fs_area_cams, (*fs_area_locks, (*fs_cam_limits, *damage_shapes)))))), (Run((*item_popups, (*ptrainer_ranges, (*general_shapes2, (*general_shapes3, (*area_lights, *fs_start_points)))))), Run((*area_hints, (*split_areas, (*shrinked_camera_regions, *shrinked_death_regions)))))).spec_bytes(e));
                    assert(u5 == u1 + (Run((*collisions, (*start_positions, (*restart_positions, (*camera_regions, (*death_regions, *enemy_generators)))))), (Run((*fs_items, (*fs_unknown, (*fs_area_cams, (*fs_area_locks, (*fs_cam_limits, *damage_shapes)))))), (Run((*item_popups, (*ptrainer_ranges, (*general_shapes2, (*general_shapes3, (*area_lights, *fs_start_points)))))), Run((*area_hints, (*split_areas, (*shrinked_camera_regions, *shrinked_death_regions))))))).spec_bytes(e));
                    lemma_append_assoc(u0, Signature {}.spec_bytes(e), (Run((*collisions, (*start_positions, (*restart_positions, (*camera_regions, (*death_regions, *enemy_generators)))))), (Run((*fs_items, (*fs_unknown, (*fs_area_cams, (*fs_area_locks, (*fs_cam_limits, *damage_shapes)))))), (Run((*item_popups, (*ptrainer_ranges, (*general_shapes2, (*general_shapes3, (*area_lights, *fs_start_points)))))), Run((*area_hints, (*split_areas, (*shrinked_camera_regions, *shrinked_death_regions))))))).spec_bytes(e));
                    assert(u5 == u0 + (Signature {}, (Run((*collisions, (*start_positions, (*restart_positions, (*camera_regions, (*death_regions, *enemy_generators)))))), (Run((*fs_items, (*fs_unknown, (*fs_area_cams, (*fs_area_locks, (*fs_cam_limits, *damage_shapes)))))), (Run((*item_popups, (*ptrainer_ranges, (*general_shapes2, (*general_shapes3, (*area_lights, *fs_start_points)))))), Run((*area_hints, (*split_areas, (*shrinked_camera_regions, *shrinked_death_regions)))))))).spec_bytes(e));
                }
            },
            _ => {},
        }
    }

    /// Reads the payload of layout 13.
    #[verifier::spinoff_prover]
    #[verifier::rlimit(100)]
    fn decode_v13(e: Endian, buf: &[u8], pos: usize) -> (r: Result<(Self, usize), DecodeError>)
        requires
            pos <= buf@.len(),
        ensures
            match r {
                Ok((v, end)) => {
                    &&& v.spec_version() == 13
                    &&& end == pos + v.spec_bytes(e).len()
                    &&& end <= buf@.len()
                    &&& v.wf()
                    &&& v.spec_accepts(e, buf@.subrange(pos as int, end as int))
                },
                Err(_) => true,
            },
            forall|x: Self|
                x.spec_version() == 13 && x.wf() && pos + x.spec_bytes(e).len() <= buf@.len()
                    && #[trigger] x.spec_accepts(e, buf@.subrange(pos as int, pos + x.spec_bytes(e).len()))
                    ==> match r {
                    Ok((v, end)) => v.same(&x) && end == pos + x.spec_bytes(e).len(),
                    Err(_) => false,
                },
            pos + 5 <= buf@.len() && buf@.subrange(pos as int, pos + 5) != signature_bytes() ==> r == Err::<
                (Self, usize),
                DecodeError,
            >(DecodeError::BadMagic { pos }),
    {
        let p1 = match check_signature(buf, pos) {
            Ok(p1) => p1,
            Err(err) => {
                proof {
                    assert forall|x: Self|
                        x.spec_version() == 13 && x.wf() && pos + x.spec_bytes(e).len() <= buf@.len()
                            && #[trigger] x.spec_accepts(e, buf@.subrange(pos as int, pos + x.spec_bytes(e).len()))
                            implies false by {
                        if let Lvd::V13 { collisions, start_positions, restart_positions, camera_regions, death_regions, enemy_generators, fs_items, fs_unknown, fs_area_cams, fs_area_locks, fs_cam_limits, damage_shapes, item_popups, ptrainer_ranges, ptrainer_floating_floors, general_shapes2, general_shapes3, area_lights, fs_start_points, area_hints, split_areas, shrinked_camera_regions, shrinked_death_regions } = x {
                            lemma_window_split(buf@, pos as int, 5, (Run((collisions, (start_positions, (restart_positions, (camera_regions, (death_regions, enemy_generators)))))), (Run((fs_items, (fs_unknown, (fs_area_cams, (fs_area_locks, (fs_cam_limits, damage_shapes)))))), (Run((item_popups, (ptrainer_ranges, (ptrainer_floating_floors, (general_shapes2, (general_shapes3, area_lights)))))), Run((fs_start_points, (area_hints, (split_areas, (shrinked_camera_regions, shrinked_death_regions)))))))).spec_bytes(e).len() as int);
                        }
                    }
                }
                return Err(err);
            },
        };
        match <(Run<(Versioned<Array<Collision>>, (Versioned<Array<Point>>, (Versioned<Array<Point>>, (Versioned<Array<Region>>, (Versioned<Array<Region>>, Versioned<Array<EnemyGenerator>>)))))>, (Run<(Versioned<Array<FsItem>>, (Versioned<Array<FsUnknown>>, (Versioned<Array<FsAreaCam>>, (Versioned<Array<FsAreaLock>>, (Versioned<Array<FsCamLimit>>, Versioned<Array<DamageShape>>)))))>, (Run<(Versioned<Array<ItemPopup>>, (Versioned<Array<PTrainerRange>>, (Versioned<Array<PTrainerFloatingFloor>>, (Versioned<Array<GeneralShape2>>, (Versioned<Array<GeneralShape3>>, Versioned<Array<AreaLight>>)))))>, Run<(Versioned<Array<FsStartPoint>>, (Versioned<Array<AreaHint>>, (Versioned<Array<SplitArea>>, (Versioned<Array<Region>>, Versioned<Array<Region>>))))>)))>::decode(e, buf, p1) {
            Ok(((Run((collisions, (start_positions, (restart_positions, (camera_regions, (death_regions, enemy_generators)))))), (Run((fs_items, (fs_unknown, (fs_area_cams, (fs_area_locks, (fs_cam_limits, damage_shapes)))))), (Run((item_popups, (ptrainer_ranges, (ptrainer_floating_floors, (general_shapes2, (general_shapes3, area_lights)))))), Run((fs_start_points, (area_hints, (split_areas, (shrinked_camera_regions, shrinked_death_regions)))))))), end)) => {
                proof {
                    assert(p1 == pos + 5);
                    assert(end <= buf@.len());
                    assert(end == p1 + (Run((collisions, (start_positions, (restart_positions, (camera_regions, (death_regions, enemy_generators)))))), (Run((fs_items, (fs_unknown, (fs_area_cams, (fs_area_locks, (fs_cam_limits, damage_shapes)))))), (Run((item_popups, (ptrainer_ranges, (ptrainer_floating_floors, (general_shapes2, (general_shapes3, area_lights)))))), Run((fs_start_points, (area_hints, (split_areas, (shrinked_camera_regions, shrinked_death_regions)))))))).spec_bytes(e).len());
                    lemma_window_split(buf@, pos as int, 5, (Run((collisions, (start_positions, (restart_positions, (camera_regions, (death_regions, enemy_generators)))))), (Run((fs_items, (fs_unknown, (fs_area_cams, (fs_area_locks, (fs_cam_limits, damage_shapes)))))), (Run((item_popups, (ptrainer_ranges, (ptrainer_floating_floors, (general_shapes2, (general_shapes3, area_lights)))))), Run((fs_start_points, (area_hints, (split_areas, (shrinked_camera_regions, shrinked_death_regions)))))))).spec_bytes(e).len() as int);
                    assert forall|x: Self|
                        x.spec_version() == 13 && x.wf() && pos + x.spec_bytes(e).len() <= buf@.len()
                            && #[trigger] x.spec_accepts(e, buf@.subrange(pos as int, pos + x.spec_bytes(e).len()))
                            implies Lvd::V13 { collisions, start_positions, restart_positions, camera_regions, death_regions, enemy_generators, fs_items, fs_unknown, fs_area_cams, fs_area_locks, fs_cam_limits, damage_shapes, item_popups, ptrainer_ranges, ptrainer_floating_floors, general_shapes2, general_shapes3, area_lights, fs_start_points, area_hints, split_areas, shrinked_camera_regions, shrinked_death_regions }.same(&x) && end == pos + x.spec_bytes(e).len() by {
                        if let Lvd::V13 { collisions, start_positions, restart_positions, camera_regions, death_regions, enemy_generators, fs_items, fs_unknown, fs_area_cams, fs_area_locks, fs_cam_limits, damage_shapes, item_popups, ptrainer_ranges, ptrainer_floating_floors, general_shapes2, general_shapes3, area_lights, fs_start_points, area_hints, split_areas, shrinked_camera_regions, shrinked_death_regions } = x {
                            let b = (Run((collisions, (start_positions, (restart_positions, (camera_regions, (death_regions, enemy_generators)))))), (Run((fs_items, (fs_unknown, (fs_area_cams, (fs_area_locks, (fs_cam_limits, damage_shapes)))))), (Run((item_popups, (ptrainer_ranges, (ptrainer_floating_floors, (general_shapes2, (general_shapes3, area_lights)))))), Run((fs_start_points, (area_hints, (split_areas, (shrinked_camera_regions, shrinked_death_regions)))))))).spec_bytes(e).len() as int;
                            lemma_window_split(buf@, pos as int, 5, b);
                            assert((Run((collisions, (start_positions, (restart_positions, (camera_regions, (death_regions, enemy_generators)))))), (Run((fs_items, (fs_unknown, (fs_area_cams, (fs_area_locks, (fs_cam_limits, damage_shapes)))))), (Run((item_popups, (ptrainer_ranges, (ptrainer_floating_floors, (general_shapes2, (general_shapes3, area_lights)))))), Run((fs_start_points, (area_hints, (split_areas, (shrinked_camera_regions, shrinked_death_regions)))))))).spec_accepts(e, buf@.subrange(p1 as int, p1 + b)));
                        }
                    }
                }
                Ok((Lvd::V13 { collisions, start_positions, restart_positions, camera_regions, death_regions, enemy_generators, fs_items, fs_unknown, fs_area_cams, fs_area_locks, fs_cam_limits, damage_shapes, item_popups, ptrainer_ranges, ptrainer_floating_floors, general_shapes2, general_shapes3, area_lights, fs_start_points, area_hints, split_areas, shrinked_camera_regions, shrinked_death_regions }, end))
            },
            Err(err) => {
                proof {
                    assert forall|x: Self|
                        x.spec_version() == 13 && x.wf() && pos + x.spec_bytes(e).len() <= buf@.len()
                            && #[trigger] x.spec_accepts(e, buf@.subrange(pos as int, pos + x.spec_bytes(e).len()))
                            implies false by {
                        if let Lvd::V13 { collisions, start_positions, restart_positions, camera_regions, death_regions, enemy_generators, fs_items, fs_unknown, fs_area_cams, fs_area_locks, fs_cam_limits, damage_shapes, item_popups, ptrainer_ranges, ptrainer_floating_floors, general_shapes2, general_shapes3, area_lights, fs_start_points, area_hints, split_areas, shrinked_camera_regions, shrinked_death_regions } = x {
                            let b = (Run((collisions, (start_positions, (restart_positions, (camera_regions, (death_regions, enemy_generators)))))), (Run((fs_items, (fs_unknown, (fs_area_cams, (fs_area_locks, (fs_cam_limits, damage_shapes)))))), (Run((item_popups, (ptrainer_ranges, (ptrainer_floating_floors, (general_shapes2, (general_shapes3, area_lights)))))), Run((fs_start_points, (area_hints, (split_areas, (shrinked_camera_regions, shrinked_death_regions)))))))).spec_bytes(e).len() as int;
                            lemma_window_split(buf@, pos as int, 5, b);
                            assert((Run((collisions, (start_positions, (restart_positions, (camera_regions, (death_regions, enemy_generators)))))), (Run((fs_items, (fs_unknown, (fs_area_cams, (fs_area_locks, (fs_cam_limits, damage_shapes)))))), (Run((item_popups, (ptrainer_ranges, (ptrainer_floating_floors, (general_shapes2, (general_shapes3, area_lights)))))), Run((fs_start_points, (area_hints, (split_areas, (shrinked_camera_regions, shrinked_death_regions)))))))).spec_accepts(e, buf@.subrange(p1 as int, p1 + b)));
                        }
                    }
                }
                Err(err)
            },
        }
    }

    /// Writes the payload of layout 13.
    #[verifier::spinoff_prover]
    #[verifier::rlimit(100)]
    fn encode_v13(&self, e: Endian, out: &mut Vec<u8>)
        requires
            self is V13,
            self.wf(),
        ensures
            final(out)@ == old(out)@ + self.spec_bytes(e),
    {
        match self {
            Lvd::V13 { collisions, start_positions, restart_positions, camera_regions, death_regions, enemy_generators, fs_items, fs_unknown, fs_area_cams, fs_area_locks, fs_cam_limits, damage_shapes, item_popups, ptrainer_ranges, ptrainer_floating_floors, general_shapes2, general_shapes3, area_lights, fs_start_points, area_hints, split_areas, shrinked_camera_regions, shrinked_death_regions } => {
                proof {
                    lemma_run(Run((*collisions, (*start_positions, (*restart_positions, (*camera_regions, (*death_regions, *enemy_generators)))))), e);
                    lemma_run(Run((*fs_items, (*fs_unknown, (*fs_area_cams, (*fs_area_locks, (*fs_cam_limits, *damage_shapes)))))), e);
                    lemma_run(Run((*item_popups, (*ptrainer_ranges, (*ptrainer_floating_floors, (*general_shapes2, (*general_shapes3, *area_lights)))))), e);
                    lemma_run(Run((*fs_start_points, (*area_hints, (*split_areas, (*shrinked_camera_regions, *shrinked_death_regions))))), e);
                }
                let ghost u0 = out@;
                Signature {}.encode(e, out);
                let ghost u1 = out@;
                let ghost c0_0 = out@;
                collisions.encode(e, out);
                let ghost c0_1 = out@;
                start_positions.encode(e, out);
                let ghost c0_2 = out@;
                restart_positions.encode(e, out);
                let ghost c0_3 = out@;
                camera_regions.encode(e, out);
                let ghost c0_4 = out@;
                death_regions.encode(e, out);
                let ghost c0_5 = out@;
                enemy_generators.encode(e, out);
                let ghost c0_6 = out@;
                proof {
                    lemma_append_assoc(c0_4, (*death_regions).spec_bytes(e), (*enemy_generators).spec_bytes(e));
                    assert(c0_6 == c0_4 + ((*death_regions), (*enemy_generators)).spec_bytes(e));
                    lemma_append_assoc(c0_3, (*camera_regions).spec_bytes(e), ((*death_regions), (*enemy_generators)).spec_bytes(e));
                    assert(c0_6 == c0_3 + ((*camera_regions), ((*death_regions), (*enemy_generators))).spec_bytes(e));
                    lemma_append_assoc(c0_2, (*restart_positions).spec_bytes(e), ((*camera_regions), ((*death_regions), (*enemy_generators))).spec_bytes(e));
                    assert(c0_6 == c0_2 + ((*restart_positions), ((*camera_regions), ((*death_regions), (*enemy_generators)))).spec_bytes(e));
                    lemma_append_assoc(c0_1, (*start_positions).spec_bytes(e), ((*restart_positions), ((*camera_regions), ((*death_regions), (*enemy_generators)))).spec_bytes(e));
                    assert(c0_6 == c0_1 + ((*start_positions), ((*restart_positions), ((*camera_regions), ((*death_regions), (*enemy_generators))))).spec_bytes(e));
                    lemma_append_assoc(c0_0, (*collisions).spec_bytes(e), ((*start_positions), ((*restart_positions), ((*camera_regions), ((*death_regions), (*enemy_generators))))).spec_bytes(e));
                    assert(c0_6 == c0_0 + ((*collisions), ((*start_positions), ((*restart_positions), ((*camera_regions), ((*death_regions), (*enemy_generators)))))).spec_bytes(e));
                }
                let ghost u2 = out@;
                let ghost c1_0 = out@;
                fs_items.encode(e, out);
                let ghost c1_1 = out@;
                fs_unknown.encode(e, out);
                let ghost c1_2 = out@;
                fs_area_cams.encode(e, out);
                let ghost c1_3 = out@;
                fs_area_locks.encode(e, out);
                let ghost c1_4 = out@;
                fs_cam_limits.encode(e, out);
                let ghost c1_5 = out@;
                damage_shapes.encode(e, out);
                let ghost c1_6 = out@;
                proof {
                    lemma_append_assoc(c1_4, (*fs_cam_limits).spec_bytes(e), (*damage_shapes).spec_bytes(e));
                    assert(c1_6 == c1_4 + ((*fs_cam_limits), (*damage_shapes)).spec_bytes(e));
                    lemma_append_assoc(c1_3, (*fs_area_locks).spec_bytes(e), ((*fs_cam_limits), (*damage_shapes)).spec_bytes(e));
                    assert(c1_6 == c1_3 + ((*fs_area_locks), ((*fs_cam_limits), (*damage_shapes))).spec_bytes(e));
                    lemma_append_assoc(c1_2, (*fs_area_cams).spec_bytes(e), ((*fs_area_locks), ((*fs_cam_limits), (*damage_shapes))).spec_bytes(e));
                    assert(c1_6 == c1_2 + ((*fs_area_cams), ((*fs_area_locks), ((*fs_cam_limits), (*damage_shapes)))).spec_bytes(e));
                    lemma_append_assoc(c1_1, (*fs_unknown).spec_bytes(e), ((*fs_area_cams), ((*fs_area_locks), ((*fs_cam_limits), (*damage_shapes)))).spec_bytes(e));
                    assert(c1_6 == c1_1 + ((*fs_unknown), ((*fs_area_cams), ((*fs_area_locks), ((*fs_cam_limits), (*damage_shapes))))).spec_bytes(e));
                    lemma_append_assoc(c1_0, (*fs_items).spec_bytes(e), ((*fs_unknown), ((*fs_area_cams), ((*fs_area_locks), ((*fs_cam_limits), (*damage_shapes))))).spec_bytes(e));
                    assert(c1_6 == c1_0 + ((*fs_items), ((*fs_unknown), ((*fs_area_cams), ((*fs_area_locks), ((*fs_cam_limits), (*damage_shapes)))))).spec_bytes(e));
                }
                let ghost u3 = out@;
                let ghost c2_0 = out@;
                item_popups.encode(e, out);
                let ghost c2_1 = out@;
                ptrainer_ranges.encode(e, out);
                let ghost c2_2 = out@;
                ptrainer_floating_floors.encode(e, out);
                let ghost c2_3 = out@;
                general_shapes2.encode(e, out);
                let ghost c2_4 = out@;
                general_shapes3.encode(e, out);
                let ghost c2_5 = out@;
                area_lights.encode(e, out);
                let ghost c2_6 = out@;
                proof {
                    lemma_append_assoc(c2_4, (*general_shapes3).spec_bytes(e), (*area_lights).spec_bytes(e));
                    assert(c2_6 == c2_4 + ((*general_shapes3), (*area_lights)).spec_bytes(e));
                    lemma_append_assoc(c2_3, (*general_shapes2).spec_bytes(e), ((*general_shapes3), (*area_lights)).spec_bytes(e));
                    assert(c2_6 == c2_3 + ((*general_shapes2), ((*general_shapes3), (*area_lights))).spec_bytes(e));
                    lemma_append_assoc(c2_2, (*ptrainer_floating_floors).spec_bytes(e), ((*general_shapes2), ((*general_shapes3), (*area_lights))).spec_bytes(e));
                    assert(c2_6 == c2_2 + ((*ptrainer_floating_floors), ((*general_shapes2), ((*general_shapes3), (*area_lights)))).spec_bytes(e));
                    lemma_append_assoc(c2_1, (*ptrainer_ranges).spec_bytes(e), ((*ptrainer_floating_floors), ((*general_shapes2), ((*general_shapes3), (*area_lights)))).spec_bytes(e));
                    assert(c2_6 == c2_1 + ((*ptrainer_ranges), ((*ptrainer_floating_floors), ((*general_shapes2), ((*general_shapes3), (*area_lights))))).spec_bytes(e));
                    lemma_append_assoc(c2_0, (*item_popups).spec_bytes(e), ((*ptrainer_ranges), ((*ptrainer_floating_floors), ((*general_shapes2), ((*general_shapes3), (*area_lights))))).spec_bytes(e));
                    assert(c2_6 == c2_0 + ((*item_popups), ((*ptrainer_ranges), ((*ptrainer_floating_floors), ((*general_shapes2), ((*general_shapes3), (*area_lights)))))).spec_bytes(e));
                }
                let ghost u4 = out@;
                let ghost c3_0 = out@;
                fs_start_points.encode(e, out);
                let ghost c3_1 = out@;
                area_hints.encode(e, out);
                let ghost c3_2 = out@;
                split_areas.encode(e, out);
                let ghost c3_3 = out@;
                shrinked_camera_regions.encode(e, out);
                let ghost c3_4 = out@;
                shrinked_death_regions.encode(e, out);
                let ghost c3_5 = out@;
                proof {
                    lemma_append_assoc(c3_3, (*shrinked_camera_regions).spec_bytes(e), (*shrinked_death_regions).spec_bytes(e));
                    assert(c3_5 == c3_3 + ((*shrinked_camera_regions), (*shrinked_death_regions)).spec_bytes(e));
                    lemma_append_assoc(c3_2, (*split_areas).spec_bytes(e), ((*shrinked_camera_regions), (*shrinked_death_regions)).spec_bytes(e));
                    assert(c3_5 == c3_2 + ((*split_areas), ((*shrinked_camera_regions), (*shrinked_death_regions))).spec_bytes(e));
                    lemma_append_assoc(c3_1, (*area_hints).spec_bytes(e), ((*split_areas), ((*shrinked_camera_regions), (*shrinked_death_regions))).spec_bytes(e));
                    assert(c3_5 == c3_1 + ((*area_hints), ((*split_areas), ((*shrinked_camera_regions), (*shrinked_death_regions)))).spec_bytes(e));
                    lemma_append_assoc(c3_0, (*fs_start_points).spec_bytes(e), ((*area_hints), ((*split_areas), ((*shrinked_camera_regions), (*shrinked_death_regions)))).spec_bytes(e));
                    assert(c3_5 == c3_0 + ((*fs_start_points), ((*area_hints), ((*split_areas), ((*shrinked_camera_regions), (*shrinked_death_regions))))).spec_bytes(e));
                }
                let ghost u5 = out@;
                proof {
                    lemma_append_assoc(u3, Run((*item_popups, (*ptrainer_ranges, (*ptrainer_floating_floors, (*general_shapes2, (*general_shapes3, *area_lights)))))).spec_bytes(e), Run((*fs_start_points, (*area_hints, (*split_areas, (*shrinked_camera_regions, *shrinked_death_regions))))).spec_bytes(e));
                    assert(u5 == u3 + (Run((*item_popups, (*ptrainer_ranges, (*ptrainer_floating_floors, (*general_shapes2, (*general_shapes3, *area_lights)))))), Run((*fs_start_points, (*area_hints, (*split_areas, (*shrinked_camera_regions, *shrinked_death_regions)))))).spec_bytes(e));
                    lemma_append_assoc(u2, Run((*fs_items, (*fs_unknown, (*fs_area_cams, (*fs_area_locks, (*fs_cam_limits, *damage_shapes)))))).spec_bytes(e), (Run((*item_popups, (*ptrainer_ranges, (*ptrainer_floating_floors, (*general_shapes2, (*general_shapes3, *area_lights)))))), Run((*fs_start_points, (*area_hints, (*split_areas, (*shrinked_camera_regions, *shrinked_death_regions)))))).spec_bytes(e));
                    assert(u5 == u2 + (Run((*fs_items, (*fs_unknown, (*fs_area_cams, (*fs_area_locks, (*fs_cam_limits, *damage_shapes)))))), (Run((*item_popups, (*ptrainer_ranges, (*ptrainer_floating_floors, (*general_shapes2, (*general_shapes3, *area_lights)))))), Run((*fs_start_points, (*area_hints, (*split_areas, (*shrinked_camera_regions, *shrinked_death_regions))))))).spec_bytes(e));
                    lemma_append_assoc(u1, Run((*collisions, (*start_positions, (*restart_positions, (*camera_regions, (*death_regions, *enemy_generators)))))).spec_bytes(e), (Run((*fs_items, (*fs_unknown, (*fs_area_cams, (*fs_area_locks, (*fs_cam_limits, *damage_shapes)))))), (Run((*item_popups, (*ptrainer_ranges, (*ptrainer_floating_floors, (*general_shapes2, (*general_shapes3, *area_lights)))))), Run((*fs_start_points, (*area_hints, (*split_areas, (*shrinked_camera_regions, *shrinked_death_regions))))))).spec_bytes(e));
                    assert(u5 == u1 + (Run((*collisions, (*start_positions, (*restart_positions, (*camera_regions, (*death_regions, *enemy_generators)))))), (Run((*fs_items, (*fs_unknown, (*fs_area_cams, (*fs_area_locks, (*fs_cam_limits, *damage_shapes)))))), (Run((*item_popups, (*ptrainer_ranges, (*ptrainer_floating_floors, (*general_shapes2, (*general_shapes3, *area_lights)))))), Run((*fs_start_points, (*area_hints, (*split_areas, (*shrinked_camera_regions, *shrinked_death_regions)))))))).spec_bytes(e));
                    lemma_append_assoc(u0, Signature {}.spec_bytes(e), (Run((*collisions, (*start_positions, (*restart_positions, (*camera_regions, (*death_regions, *enemy_generators)))))), (Run((*fs_items, (*fs_unknown, (*fs_area_cams, (*fs_area_locks, (*fs_cam_limits, *damage_shapes)))))), (Run((*item_popups, (*ptrainer_ranges, (*ptrainer_floating_floors, (*general_shapes2, (*general_shapes3, *area_lights)))))), Run((*fs_start_points, (*area_hints, (*split_areas, (*shrinked_camera_regions, *shrinked_death_regions)))))))).spec_bytes(e));
                    assert(u5 == u0 + (Signature {}, (Run((*collisions, (*start_positions, (*restart_positions, (*camera_regions, (*death_regions, *enemy_generators)))))), (Run((*fs_items, (*fs_unknown, (*fs_area_cams, (*fs_area_locks, (*fs_cam_limits, *damage_shapes)))))), (Run((*item_popups, (*ptrainer_ranges, (*ptrainer_floating_floors, (*general_shapes2, (*general_shapes3, *area_lights)))))), Run((*fs_start_points, (*area_hints, (*split_areas, (*shrinked_camera_regions, *shrinked_death_regions))))))))).spec_bytes(e));
                }
            },
            _ => {},
        }
    }

}

} // verus!
