//! Tile types, their display colors, and the geometry of a single tile:
//! where it sits in the centered coordinate frame and when a point hits it.

use vstd::prelude::*;

verus! {

/// The kind of terrain a tile shows.
#[derive(Clone, Copy, Debug, PartialEq, Eq, Structural)]
pub enum TileType {
    Grass,
    Dirt,
    Water,
    Crop,
}

/// An RGB color with each channel in hundredths: 0 is 0.0, 100 is full
/// intensity 1.0.
#[derive(Clone, Copy, Debug, PartialEq, Eq, Structural)]
pub struct Rgb {
    pub r: u8,
    pub g: u8,
    pub b: u8,
}

/// The display color that belongs to each tile type.
pub open spec fn color_of(t: TileType) -> Rgb {
    match t {
        TileType::Grass => Rgb { r: 0, g: 100, b: 0 },
        TileType::Dirt => Rgb { r: 50, g: 25, b: 10 },
        TileType::Water => Rgb { r: 0, g: 0, b: 100 },
        TileType::Crop => Rgb { r: 10, g: 50, b: 10 },
    }
}

/// The fixed color a tile shows while the cursor is over it.
pub open spec fn highlight_color() -> Rgb {
    Rgb { r: 100, g: 100, b: 0 }
}

impl TileType {
    /// The display color of this tile type.
    pub fn color(&self) -> (c: Rgb)
        ensures
            c == color_of(*self),
    {
        match self {
            TileType::Grass => Rgb { r: 0, g: 100, b: 0 },
            TileType::Dirt => Rgb { r: 50, g: 25, b: 10 },
            TileType::Water => Rgb { r: 0, g: 0, b: 100 },
            TileType::Crop => Rgb { r: 10, g: 50, b: 10 },
        }
    }
}

/// The color used to mark the tile under the cursor.
pub fn highlight() -> (c: Rgb)
    ensures
        c == highlight_color(),
{
    Rgb { r: 100, g: 100, b: 0 }
}

/// The tile type that a raw byte selects: the byte taken modulo the number
/// of types, in declaration order.
pub open spec fn type_of_byte(b: u8) -> TileType {
    if b % 4 == 0 {
        TileType::Grass
    } else if b % 4 == 1 {
        TileType::Dirt
    } else if b % 4 == 2 {
        TileType::Water
    } else {
        TileType::Crop
    }
}

/// Maps a raw byte to a tile type, byte modulo four.
pub fn tile_type_of_byte(b: u8) -> (t: TileType)
    ensures
        t == type_of_byte(b),
{
    match b % 4 {
        0 => TileType::Grass,
        1 => TileType::Dirt,
        2 => TileType::Water,
        _ => TileType::Crop,
    }
}

/// One tile of the board: its grid coordinate, its position in the centered
/// world frame, its current type and the color it is displayed with.
#[derive(Clone, Copy, Debug, PartialEq, Eq, Structural)]
pub struct Tile {
    pub x: u32,
    pub y: u32,
    pub px: i32,
    pub py: i32,
    pub typ: TileType,
    pub color: Rgb,
}

/// Where a tile with grid coordinate `c` sits along one axis, for a board
/// of `extent` tiles of the given size: the frame is centered, so the whole
/// board is shifted back by half its span.
pub open spec fn pos_of(c: int, extent: int, size: int) -> int {
    c * size - (extent * size) / 2
}

/// Whether world point `(wx, wy)` falls strictly inside the square of
/// half-width `half` centered on `(px, py)`.
pub open spec fn hits(px: int, py: int, half: int, wx: int, wy: int) -> bool {
    &&& px - half < wx < px + half
    &&& py - half < wy < py + half
}

/// Point-in-square test against this tile's stored position.
pub fn tile_hit(t: &Tile, half: u32, wx: i32, wy: i32) -> (r: bool)
    ensures
        r == hits(t.px as int, t.py as int, half as int, wx as int, wy as int),
{
    let px: i64 = t.px as i64;
    let py: i64 = t.py as i64;
    let h: i64 = half as i64;
    let in_x = px - h < wx as i64 && (wx as i64) < px + h;
    let in_y = py - h < wy as i64 && (wy as i64) < py + h;
    in_x && in_y
}

} // verus!
