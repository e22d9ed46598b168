//! The assets of the game: what it asks the host to load, and how it
//! takes what was loaded.

use crate::engine::preloader::{ImageHandle, LoadedImage, LoadedMap, Preloader, Resources};
use crate::game::MyGame;
use vstd::prelude::*;

verus! {

/// The path of the sprite sheet.
pub open spec fn sprites_path() -> Seq<char> {
    "assets/lorez.png"@
}

/// The path of the sheet with digits, hearts and the ammunition sign.
pub open spec fn numbers_path() -> Seq<char> {
    "assets/numbers.png"@
}

/// The path of the tile map.
pub open spec fn map_path() -> Seq<char> {
    "assets/tilemap.json"@
}

/// The index of the first image at or after `from` that was asked for
/// under `path`, or the number of images if there is none.
pub open spec fn image_named(images: Seq<LoadedImage>, path: Seq<char>, from: int) -> int
    decreases images.len() - from,
{
    if from < 0 || from >= images.len() {
        images.len() as int
    } else if images[from].path@ == path {
        from
    } else {
        image_named(images, path, from + 1)
    }
}

/// The index of the first map at or after `from` that was asked for under
/// `path`, or the number of maps if there is none.
pub open spec fn map_named(maps: Seq<LoadedMap>, path: Seq<char>, from: int) -> int
    decreases maps.len() - from,
{
    if from < 0 || from >= maps.len() {
        maps.len() as int
    } else if maps[from].path@ == path {
        from
    } else {
        map_named(maps, path, from + 1)
    }
}

/// The image that a game holds after it was offered `images`: the first
/// one loaded under `path`, or what it held before.
pub open spec fn image_taken(
    held: Option<ImageHandle>,
    images: Seq<LoadedImage>,
    path: Seq<char>,
) -> Option<ImageHandle> {
    let i = image_named(images, path, 0);
    if i < images.len() {
        Some(images[i].image)
    } else {
        held
    }
}

/// Finds the first image that was asked for under `path`.
pub fn find_image(images: &Vec<LoadedImage>, path: &String) -> (i: usize)
    ensures
        i == image_named(images@, path@, 0),
{
    let n = images.len();
    let mut j: usize = 0;
    while j < n
        invariant
            j <= n,
            n == images@.len(),
            image_named(images@, path@, 0) == image_named(images@, path@, j as int),
        decreases n - j,
    {
        if images[j].path == *path {
            return j;
        }
        j = j + 1;
    }
    n
}

/// Finds the first map that was asked for under `path`.
pub fn find_map(maps: &Vec<LoadedMap>, path: &String) -> (i: usize)
    ensures
        i == map_named(maps@, path@, 0),
{
    let n = maps.len();
    let mut j: usize = 0;
    while j < n
        invariant
            j <= n,
            n == maps@.len(),
            map_named(maps@, path@, 0) == map_named(maps@, path@, j as int),
        decreases n - j,
    {
        if maps[j].path == *path {
            return j;
        }
        j = j + 1;
    }
    n
}

impl MyGame {
    /// Asks for the game's assets: the two image sheets and the map.
    pub fn preload(&self, loader: &mut Preloader)
        ensures
            final(loader).image_paths@.len() == old(loader).image_paths@.len() + 2,
            final(loader).image_paths@.take(old(loader).image_paths@.len() as int) == old(
                loader,
            ).image_paths@,
            final(loader).image_paths@[old(loader).image_paths@.len() as int]@ == sprites_path(),
            final(loader).image_paths@[old(loader).image_paths@.len() as int + 1]@ == numbers_path(),
            final(loader).json_paths@.len() == old(loader).json_paths@.len() + 1,
            final(loader).json_paths@.take(old(loader).json_paths@.len() as int) == old(
                loader,
            ).json_paths@,
            final(loader).json_paths@[old(loader).json_paths@.len() as int]@ == map_path(),
    {
        loader.load_image("assets/lorez.png".to_owned());
        loader.load_image("assets/numbers.png".to_owned());
        loader.load_json("assets/tilemap.json".to_owned());
    }

    /// Takes the loaded assets. Each of the two sheets and the map is
    /// taken if it was loaded under its path; what was not loaded stays as
    /// it was.
    pub fn init(&mut self, resources: Resources)
        ensures
            final(self).sprites == image_taken(old(self).sprites, resources.images@, sprites_path()),
            final(self).numbers == image_taken(old(self).numbers, resources.images@, numbers_path()),
            final(self).map == (if map_named(resources.jsons@, map_path(), 0)
                < resources.jsons@.len() {
                Some(resources.jsons@[map_named(resources.jsons@, map_path(), 0)].map)
            } else {
                old(self).map
            }),
            final(self)@ == old(self)@,
    {
        let mut resources = resources;
        let sprites = find_image(&resources.images, &"assets/lorez.png".to_owned());
        if sprites < resources.images.len() {
            self.sprites = Some(resources.images[sprites].image);
        }
        let numbers = find_image(&resources.images, &"assets/numbers.png".to_owned());
        if numbers < resources.images.len() {
            self.numbers = Some(resources.images[numbers].image);
        }
        let tilemap = find_map(&resources.jsons, &"assets/tilemap.json".to_owned());
        if tilemap < resources.jsons.len() {
            let loaded = resources.jsons.remove(tilemap);
            self.map = Some(loaded.map);
        }
    }
}

} // verus!
