//! The list of assets that a game asks for before it starts, and what the
//! host hands back once they are loaded.

use crate::engine::tiled::TileMap;
use vstd::prelude::*;

verus! {

/// Collects the paths of the images and maps to load, in the order asked.
pub struct Preloader {
    pub image_paths: Vec<String>,
    pub json_paths: Vec<String>,
}

impl Preloader {
    /// A preloader that has been asked for nothing.
    pub fn new() -> (loader: Self)
        ensures
            loader.image_paths@ == Seq::<String>::empty(),
            loader.json_paths@ == Seq::<String>::empty(),
    {
        Preloader { image_paths: Vec::new(), json_paths: Vec::new() }
    }

    /// Asks for the image at `path`.
    pub fn load_image(&mut self, path: String)
        ensures
            final(self).image_paths@ == old(self).image_paths@.push(path),
            final(self).json_paths@ == old(self).json_paths@,
    {
        self.image_paths.push(path);
    }

    /// Asks for the map at `path`.
    pub fn load_json(&mut self, path: String)
        ensures
            final(self).json_paths@ == old(self).json_paths@.push(path),
            final(self).image_paths@ == old(self).image_paths@,
    {
        self.json_paths.push(path);
    }
}

/// An image that the host has loaded. The number is the host's own handle;
/// the simulation only passes it on.
#[derive(Clone, Copy, PartialEq, Eq, Structural, Debug)]
pub struct ImageHandle {
    pub id: u32,
}

/// An image together with the path it was asked for.
pub struct LoadedImage {
    pub path: String,
    pub image: ImageHandle,
}

/// A decoded map together with the path it was asked for.
pub struct LoadedMap {
    pub path: String,
    pub map: TileMap,
}

/// Everything that was loaded. An asset that failed to load is absent.
pub struct Resources {
    pub images: Vec<LoadedImage>,
    pub jsons: Vec<LoadedMap>,
}

} // verus!
