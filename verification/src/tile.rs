//! What a cell shows, and the image that is drawn for it.

use vstd::prelude::*;
use crate::geometry::Rect;

verus! {

/// The visual state of one cell.
#[derive(Clone, Copy, Debug, PartialEq, Eq, Structural)]
pub enum TileState {
    /// An untouched cell of the play area.
    Tile,
    /// A cell painted as residential.
    Residential,
    /// A cell of the legend strip.
    Legend,
}

/// One of the three images, in the order in which they are loaded.
#[derive(Clone, Copy, Debug, PartialEq, Eq, Structural)]
pub enum Texture {
    Tile,
    House,
    LegendTile,
}

/// How many images there are.
pub const TEXTURE_COUNT: usize = 3;

impl TileState {
    /// The state's number: 0 for `Tile`, 1 for `Residential`, 2 for `Legend`.
    pub open spec fn spec_ordinal(self) -> u64 {
        match self {
            TileState::Tile => 0,
            TileState::Residential => 1,
            TileState::Legend => 2,
        }
    }

    /// The image that shows a cell in this state.
    pub open spec fn spec_texture(self) -> Texture {
        match self {
            TileState::Tile => Texture::Tile,
            TileState::Residential => Texture::House,
            TileState::Legend => Texture::LegendTile,
        }
    }

    /// The state's number, which is also the index of its image.
    #[verifier::when_used_as_spec(spec_ordinal)]
    pub fn ordinal(self) -> (n: u64)
        ensures
            n == self.spec_ordinal(),
            n == self.spec_texture().spec_index(),
    {
        match self {
            TileState::Tile => 0,
            TileState::Residential => 1,
            TileState::Legend => 2,
        }
    }

    /// The image that shows a cell in this state.
    #[verifier::when_used_as_spec(spec_texture)]
    pub fn texture(self) -> (t: Texture)
        ensures
            t == self.spec_texture(),
    {
        match self {
            TileState::Tile => Texture::Tile,
            TileState::Residential => Texture::House,
            TileState::Legend => Texture::LegendTile,
        }
    }
}

impl Texture {
    /// The name of the file that holds the image.
    pub open spec fn spec_file_name(self) -> Seq<char> {
        match self {
            Texture::Tile => "tile.png"@,
            Texture::House => "house.png"@,
            Texture::LegendTile => "legendTile.png"@,
        }
    }

    /// The name of the file that holds the image.
    pub fn file_name(self) -> (name: &'static str)
        ensures
            name@ == self.spec_file_name(),
    {
        match self {
            Texture::Tile => "tile.png",
            Texture::House => "house.png",
            Texture::LegendTile => "legendTile.png",
        }
    }

    /// The image that is loaded at place `i`, if there is one.
    pub fn from_index(i: usize) -> (t: Option<Texture>)
        ensures
            match t {
                Some(texture) => texture.spec_index() == i,
                None => i >= TEXTURE_COUNT,
            },
    {
        if i == 0 {
            Some(Texture::Tile)
        } else if i == 1 {
            Some(Texture::House)
        } else if i == 2 {
            Some(Texture::LegendTile)
        } else {
            None
        }
    }

    /// The image's place in the table of loaded images.
    pub open spec fn spec_index(self) -> usize {
        match self {
            Texture::Tile => 0,
            Texture::House => 1,
            Texture::LegendTile => 2,
        }
    }

    /// The image's place in the table of loaded images.
    #[verifier::when_used_as_spec(spec_index)]
    pub fn index(self) -> (i: usize)
        ensures
            i == self.spec_index(),
            i < TEXTURE_COUNT,
    {
        match self {
            Texture::Tile => 0,
            Texture::House => 1,
            Texture::LegendTile => 2,
        }
    }
}

/// One cell: where it lies on the screen and what it shows.
#[derive(Clone, Copy, Debug, PartialEq, Eq, Structural)]
pub struct Tile {
    pub rect: Rect,
    pub tile_state: TileState,
}

/// One draw: the whole of an image, mapped onto a rectangle of the screen.
#[derive(Clone, Copy, Debug, PartialEq, Eq, Structural)]
pub struct DrawCommand {
    pub texture: Texture,
    pub dest: Rect,
}

impl Tile {
    /// The draw that shows this cell.
    pub open spec fn spec_draw(self) -> DrawCommand {
        DrawCommand { texture: self.tile_state.spec_texture(), dest: self.rect }
    }

    /// The draw that shows this cell: its state's image onto its rectangle.
    #[verifier::when_used_as_spec(spec_draw)]
    pub fn draw(self) -> (d: DrawCommand)
        ensures
            d == self.spec_draw(),
    {
        DrawCommand { texture: self.tile_state.texture(), dest: self.rect }
    }
}

} // verus!
