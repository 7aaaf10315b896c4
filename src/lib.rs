//! Codecs for the records of LVD level-data files: typed records that each carry their own
//! version selector, in a big- or little-endian byte stream.
use vstd::prelude::*;

pub mod array;
pub mod file;
pub mod id;
pub mod laws;
pub mod lvd;
pub mod objects;
pub mod run;
pub mod string;
pub mod tag;
pub mod vector;
pub mod version;
pub mod wire;

verus! {

} // verus!
