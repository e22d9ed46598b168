//! The tile map: a grid of tile indices in one or more layers.

use vstd::prelude::*;

verus! {

/// A map as the map editor stores it.
#[derive(Debug)]
pub struct TileMap {
    pub width: u8,
    pub height: u8,
    pub layers: Vec<TileLayer>,
}

/// One layer of a map: its tile indices row by row.
#[derive(Debug)]
pub struct TileLayer {
    pub width: u8,
    pub height: u8,
    pub data: Vec<u8>,
}

impl TileMap {
    /// A map that the simulation can run on has a ground layer.
    pub open spec fn playable(&self) -> bool {
        self.layers@.len() >= 1
    }

    /// The tile indices of the ground layer.
    pub open spec fn ground(&self) -> Seq<u8> {
        self.layers@[0].data@
    }

    /// Tells whether the map has a ground layer.
    pub fn is_playable(&self) -> (ok: bool)
        ensures
            ok == self.playable(),
    {
        self.layers.len() >= 1
    }
}

} // verus!
