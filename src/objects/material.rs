//! The material presets of an edge.
use vstd::prelude::*;
use crate::wire::{DecodeError, Endian, Wire};

verus! {

/// How an edge looks, sounds and behaves when touched; stored as a 32-bit code.
#[derive(Clone, Copy, Debug, PartialEq, Eq, Structural)]
pub enum MaterialType {
    Unset,
    Rock,
    Grass,
    Soil,
    Wood,
    Iron,
    Nibuiron,
    Carpet,
    Numenume,
    Creature,
    Asase,
    Soft,
    Turuturu,
    Snow,
    Ice,
    Gamewatch,
    Oil,
    Danbouru,
    Damage1,
    Damage2,
    Damage3,
    Plankton,
    Cloud,
    Akuukan,
    Brick,
    Noattr,
    Mario,
    Wirenetting,
    Sand,
    Homerun,
    AsaseEarth,
    Death,
    Ringmat,
    Glass,
    Slipdx,
    SpPoison,
    SpFlame,
    SpElectricShock,
    SpSleep,
    SpFreezing,
    SpAdhesion,
    IceNoSlip,
    CloudNoThrough,
    JackMementoes,
}

/// The code a material is stored as.
pub open spec fn material_code(m: MaterialType) -> u32 {
    match m {
        MaterialType::Unset => 0,
        MaterialType::Rock => 1,
        MaterialType::Grass => 2,
        MaterialType::Soil => 3,
        MaterialType::Wood => 4,
        MaterialType::Iron => 5,
        MaterialType::Nibuiron => 6,
        MaterialType::Carpet => 7,
        MaterialType::Numenume => 8,
        MaterialType::Creature => 9,
        MaterialType::Asase => 10,
        MaterialType::Soft => 11,
        MaterialType::Turuturu => 12,
        MaterialType::Snow => 13,
        MaterialType::Ice => 14,
        MaterialType::Gamewatch => 15,
        MaterialType::Oil => 16,
        MaterialType::Danbouru => 17,
        MaterialType::Damage1 => 18,
        MaterialType::Damage2 => 19,
        MaterialType::Damage3 => 20,
        MaterialType::Plankton => 21,
        MaterialType::Cloud => 22,
        MaterialType::Akuukan => 23,
        MaterialType::Brick => 24,
        MaterialType::Noattr => 25,
        MaterialType::Mario => 26,
        MaterialType::Wirenetting => 27,
        MaterialType::Sand => 28,
        MaterialType::Homerun => 29,
        MaterialType::AsaseEarth => 30,
        MaterialType::Death => 31,
        MaterialType::Ringmat => 32,
        MaterialType::Glass => 33,
        MaterialType::Slipdx => 34,
        MaterialType::SpPoison => 35,
        MaterialType::SpFlame => 36,
        MaterialType::SpElectricShock => 37,
        MaterialType::SpSleep => 38,
        MaterialType::SpFreezing => 39,
        MaterialType::SpAdhesion => 40,
        MaterialType::IceNoSlip => 41,
        MaterialType::CloudNoThrough => 42,
        MaterialType::JackMementoes => 43,
    }
}

impl MaterialType {
    /// The code the material is stored as.
    pub fn code(&self) -> (r: u32)
        ensures
            r == material_code(*self),
    {
        match self {
            MaterialType::Unset => 0,
            MaterialType::Rock => 1,
            MaterialType::Grass => 2,
            MaterialType::Soil => 3,
            MaterialType::Wood => 4,
            MaterialType::Iron => 5,
            MaterialType::Nibuiron => 6,
            MaterialType::Carpet => 7,
            MaterialType::Numenume => 8,
            MaterialType::Creature => 9,
            MaterialType::Asase => 10,
            MaterialType::Soft => 11,
            MaterialType::Turuturu => 12,
            MaterialType::Snow => 13,
            MaterialType::Ice => 14,
            MaterialType::Gamewatch => 15,
            MaterialType::Oil => 16,
            MaterialType::Danbouru => 17,
            MaterialType::Damage1 => 18,
            MaterialType::Damage2 => 19,
            MaterialType::Damage3 => 20,
            MaterialType::Plankton => 21,
            MaterialType::Cloud => 22,
            MaterialType::Akuukan => 23,
            MaterialType::Brick => 24,
            MaterialType::Noattr => 25,
            MaterialType::Mario => 26,
            MaterialType::Wirenetting => 27,
            MaterialType::Sand => 28,
            MaterialType::Homerun => 29,
            MaterialType::AsaseEarth => 30,
            MaterialType::Death => 31,
            MaterialType::Ringmat => 32,
            MaterialType::Glass => 33,
            MaterialType::Slipdx => 34,
            MaterialType::SpPoison => 35,
            MaterialType::SpFlame => 36,
            MaterialType::SpElectricShock => 37,
            MaterialType::SpSleep => 38,
            MaterialType::SpFreezing => 39,
            MaterialType::SpAdhesion => 40,
            MaterialType::IceNoSlip => 41,
            MaterialType::CloudNoThrough => 42,
            MaterialType::JackMementoes => 43,
        }
    }

    /// The material stored as `c`, if any.
    pub fn from_code(c: u32) -> (r: Option<MaterialType>)
        ensures
            r matches Some(m) ==> material_code(m) == c,
            forall|m: MaterialType| #[trigger] material_code(m) == c ==> r == Some(m),
            c > 43 ==> r is None,
    {
        match c {
            0 => Some(MaterialType::Unset),
            1 => Some(MaterialType::Rock),
            2 => Some(MaterialType::Grass),
            3 => Some(MaterialType::Soil),
            4 => Some(MaterialType::Wood),
            5 => Some(MaterialType::Iron),
            6 => Some(MaterialType::Nibuiron),
            7 => Some(MaterialType::Carpet),
            8 => Some(MaterialType::Numenume),
            9 => Some(MaterialType::Creature),
            10 => Some(MaterialType::Asase),
            11 => Some(MaterialType::Soft),
            12 => Some(MaterialType::Turuturu),
            13 => Some(MaterialType::Snow),
            14 => Some(MaterialType::Ice),
            15 => Some(MaterialType::Gamewatch),
            16 => Some(MaterialType::Oil),
            17 => Some(MaterialType::Danbouru),
            18 => Some(MaterialType::Damage1),
            19 => Some(MaterialType::Damage2),
            20 => Some(MaterialType::Damage3),
            21 => Some(MaterialType::Plankton),
            22 => Some(MaterialType::Cloud),
            23 => Some(MaterialType::Akuukan),
            24 => Some(MaterialType::Brick),
            25 => Some(MaterialType::Noattr),
            26 => Some(MaterialType::Mario),
            27 => Some(MaterialType::Wirenetting),
            28 => Some(MaterialType::Sand),
            29 => Some(MaterialType::Homerun),
            30 => Some(MaterialType::AsaseEarth),
            31 => Some(MaterialType::Death),
            32 => Some(MaterialType::Ringmat),
            33 => Some(MaterialType::Glass),
            34 => Some(MaterialType::Slipdx),
            35 => Some(MaterialType::SpPoison),
            36 => Some(MaterialType::SpFlame),
            37 => Some(MaterialType::SpElectricShock),
            38 => Some(MaterialType::SpSleep),
            39 => Some(MaterialType::SpFreezing),
            40 => Some(MaterialType::SpAdhesion),
            41 => Some(MaterialType::IceNoSlip),
            42 => Some(MaterialType::CloudNoThrough),
            43 => Some(MaterialType::JackMementoes),
            _ => None,
        }
    }
}

impl Wire for MaterialType {
    open spec fn wf(&self) -> bool {
        true
    }

    open spec fn spec_bytes(&self, e: Endian) -> Seq<u8> {
        material_code(*self).spec_bytes(e)
    }

    open spec fn spec_accepts(&self, e: Endian, s: Seq<u8>) -> bool {
        material_code(*self).spec_accepts(e, s)
    }

    open spec fn same(&self, other: &Self) -> bool {
        *self == *other
    }

    proof fn lemma_canonical(&self, e: Endian) {
    }

    fn decode(e: Endian, buf: &[u8], pos: usize) -> (r: Result<(Self, usize), DecodeError>) {
        match u32::decode(e, buf, pos) {
            Ok((c, end)) => match MaterialType::from_code(c) {
                Some(m) => Ok((m, end)),
                None => Err(DecodeError::InvalidValue { pos }),
            },
            Err(err) => Err(err),
        }
    }

    fn encode(&self, e: Endian, out: &mut Vec<u8>) {
        self.code().encode(e, out);
    }
}

} // verus!
