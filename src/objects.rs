//! The records that make up a level: each object type with its versioned layouts.
pub mod base;
pub mod collision;
pub mod damage_shape;
pub mod enemy_generator;
pub mod field_smash;
pub mod flags;
pub mod general_shape;
pub mod item_popup;
pub mod material;
pub mod point;
pub mod ptrainer;
pub mod region;
pub mod shape;
