//! Network volumes.

use vstd::prelude::*;

verus! {

/// A network volume.
#[derive(Debug, Clone)]
pub struct NetworkVolume {
    pub id: String,
    pub name: String,
    pub size: i32,
    pub data_center_id: String,
}

/// What a create request for a network volume holds.
#[derive(Debug)]
pub struct NetworkVolumeCreateInput {
    pub name: String,
    pub size: i32,
    pub data_center_id: String,
}

/// What an update request for a network volume holds: a new name, a new size
/// (greater than the current one), or both.
#[derive(Debug)]
pub struct NetworkVolumeUpdateInput {
    pub name: Option<String>,
    pub size: Option<i32>,
}

} // verus!
