//! The tile board: a rectangular, row-major grid of tiles in a centered
//! coordinate frame, with its construction, click-to-paint pass and
//! hover-highlight pass, and the laws that hold of them.

use vstd::prelude::*;
use vstd::arithmetic::div_mod::lemma_fundamental_div_mod;
use vstd::arithmetic::div_mod::lemma_fundamental_div_mod_converse;
use crate::tile::Rgb;
use crate::tile::Tile;
use crate::tile::TileType;
use crate::tile::color_of;
use crate::tile::highlight_color;
use crate::tile::hits;
use crate::tile::pos_of;
use crate::tile::tile_hit;

verus! {

/// A board of `width * height` tiles of edge length `size`, stored row by
/// row: the tile with grid coordinate `(x, y)` sits at index `y * width + x`.
pub struct Grid {
    pub width: u32,
    pub height: u32,
    pub size: u32,
    pub tiles: Vec<Tile>,
}

/// The tile `t` carries the grid coordinate and the centered world position
/// that the board layout assigns to row-major index `i`.
pub open spec fn tile_placed(t: Tile, width: int, height: int, size: int, i: int) -> bool {
    &&& t.x == i % width
    &&& t.y == i / width
    &&& t.px == pos_of(i % width, width, size)
    &&& t.py == pos_of(i / width, height, size)
}

impl Grid {
    /// Half of a tile's edge: how far its bounding box reaches from its center.
    pub open spec fn half(self) -> int {
        (self.size as int) / 2
    }

    /// The tile at index `i` sits where the layout puts it.
    pub open spec fn tile_wf_at(self, i: int) -> bool {
        tile_placed(self.tiles@[i], self.width as int, self.height as int, self.size as int, i)
    }

    /// A well-formed board: the whole span fits the coordinate type, there
    /// is one tile for each grid coordinate in row-major order, and every
    /// tile sits at its assigned position.
    pub open spec fn wf(self) -> bool {
        &&& self.width * self.size <= i32::MAX
        &&& self.height * self.size <= i32::MAX
        &&& self.tiles@.len() == self.width * self.height
        &&& forall|i: int| 0 <= i < self.tiles@.len() ==> #[trigger] self.tile_wf_at(i)
    }

    /// Every tile is displayed in its own type's color.
    pub open spec fn colors_match(self) -> bool {
        forall|i: int|
            0 <= i < self.tiles@.len() ==> (#[trigger] self.tiles@[i]).color == color_of(
                self.tiles@[i].typ,
            )
    }
}

/// Position of coordinate `c` on an axis of `extent` tiles of edge `size`,
/// in the frame that centers the whole board on the origin.
pub fn axis_pos(c: u32, extent: u32, size: u32) -> (p: i32)
    requires
        c < extent,
        extent * size <= i32::MAX,
    ensures
        p == pos_of(c as int, extent as int, size as int),
{
    proof {
        assert((c as int) * (size as int) <= (extent as int) * (size as int)) by (nonlinear_arith)
            requires
                c <= extent,
                size >= 0,
        ;
    }
    let a: u64 = (c as u64) * (size as u64);
    let b: u64 = ((extent as u64) * (size as u64)) / 2;
    let d: i64 = (a as i64) - (b as i64);
    d as i32
}

impl Grid {
    /// Builds the board from a given assignment of tile types, one per grid
    /// coordinate in row-major order: tile `i` gets type `types[i]`, sits at
    /// its assigned position, and is displayed in its type's color.
    pub fn from_types(width: u32, height: u32, size: u32, types: &Vec<TileType>) -> (g: Grid)
        requires
            types@.len() == width * height,
            width * size <= i32::MAX,
            height * size <= i32::MAX,
            width * height <= usize::MAX,
        ensures
            g.wf(),
            g.colors_match(),
            g.width == width,
            g.height == height,
            g.size == size,
            g.tiles@.len() == types@.len(),
            forall|i: int| 0 <= i < types@.len() ==> (#[trigger] g.tiles@[i]).typ == types@[i],
    {
        let n: usize = (width as usize) * (height as usize);
        let mut tiles: Vec<Tile> = Vec::new();
        let mut i: usize = 0;
        while i < n
            invariant
                i <= n,
                n == width * height,
                n == types@.len(),
                width * size <= i32::MAX,
                height * size <= i32::MAX,
                tiles@.len() == i,
                forall|j: int|
                    0 <= j < i ==> tile_placed(
                        #[trigger] tiles@[j],
                        width as int,
                        height as int,
                        size as int,
                        j,
                    ),
                forall|j: int|
                    0 <= j < i ==> (#[trigger] tiles@[j]).typ == types@[j] && tiles@[j].color
                        == color_of(types@[j]),
            decreases n - i,
        {
            proof {
                assert(width > 0) by (nonlinear_arith)
                    requires
                        n == width * height,
                        n > 0,
                ;
            }
            let col: usize = i % (width as usize);
            let row: usize = i / (width as usize);
            let x: u32 = col as u32;
            let y: u32 = row as u32;
            proof {
                assert(row < height) by (nonlinear_arith)
                    requires
                        width > 0,
                        i < n,
                        n == width * height,
                        row == i as int / width as int,
                ;
            }
            let px: i32 = axis_pos(x, width, size);
            let py: i32 = axis_pos(y, height, size);
            let tt: TileType = types[i];
            let c: Rgb = tt.color();
            let tile = Tile { x, y, px, py, typ: tt, color: c };
            tiles.push(tile);
            i = i + 1;
        }
        let g = Grid { width, height, size, tiles };
        proof {
            assert forall|i: int| 0 <= i < g.tiles@.len() implies #[trigger] g.tile_wf_at(i) by {
                assert(tile_placed(g.tiles@[i], width as int, height as int, size as int, i));
            }
        }
        g
    }

    /// Builds the standard board: a tile at every grid coordinate, each
    /// given a type drawn from the thread-local generator. The contract
    /// leaves only the drawn types open; the layout, and that every tile is
    /// displayed in its own type's color, hold whatever bytes came back.
    pub fn new_random(width: u32, height: u32, size: u32) -> (g: Grid)
        requires
            width * size <= i32::MAX,
            height * size <= i32::MAX,
            width * height <= usize::MAX,
        ensures
            g.wf(),
            g.colors_match(),
            g.width == width,
            g.height == height,
            g.size == size,
    {
        let n: usize = (width as usize) * (height as usize);
        let mut types: Vec<TileType> = Vec::new();
        let mut i: usize = 0;
        while i < n
            invariant
                i <= n,
                types@.len() == i,
            decreases n - i,
        {
            let b: u8 = rand::random::<u8>();
            types.push(crate::tile::tile_type_of_byte(b));
            i = i + 1;
        }
        Grid::from_types(width, height, size, &types)
    }
}

/// The tile `t` repainted with the selected type: the type and displayed
/// color change, the coordinate and position stay.
pub open spec fn painted(t: Tile, sel: TileType) -> Tile {
    Tile { x: t.x, y: t.y, px: t.px, py: t.py, typ: sel, color: color_of(sel) }
}

/// The board's tiles after one click-to-paint pass at world point
/// `(wx, wy)` with `sel` selected: every tile whose bounding box of
/// half-width `half` contains the point is repainted with `sel`; every
/// other tile is untouched.
pub open spec fn clicked(tiles: Seq<Tile>, half: int, wx: int, wy: int, sel: TileType) -> Seq<
    Tile,
> {
    tiles.map(
        |i: int, t: Tile|
            if hits(t.px as int, t.py as int, half, wx, wy) {
                painted(t, sel)
            } else {
                t
            },
    )
}

/// The board's tiles after one hover pass with the cursor at `(wx, wy)`:
/// the tile under the cursor shows the highlight color, every other tile
/// its own type's color; nothing else changes.
pub open spec fn hovered(tiles: Seq<Tile>, half: int, wx: int, wy: int) -> Seq<Tile> {
    tiles.map(
        |i: int, t: Tile|
            Tile {
                x: t.x,
                y: t.y,
                px: t.px,
                py: t.py,
                typ: t.typ,
                color: if hits(t.px as int, t.py as int, half, wx, wy) {
                    highlight_color()
                } else {
                    color_of(t.typ)
                },
            },
    )
}

impl Grid {
    /// One click-to-paint pass: scans every tile and repaints each whose
    /// bounding box contains the clicked world point with the selected
    /// type, in the selected type's color. Tiles the point misses keep
    /// their type and color; a click that hits nothing changes nothing.
    pub fn click(&mut self, wx: i32, wy: i32, selected: TileType)
        requires
            old(self).wf(),
        ensures
            final(self).wf(),
            final(self).width == old(self).width,
            final(self).height == old(self).height,
            final(self).size == old(self).size,
            final(self).tiles@ == clicked(
                old(self).tiles@,
                old(self).half(),
                wx as int,
                wy as int,
                selected,
            ),
            forall|i: int|
                0 <= i < old(self).tiles@.len() && hits(
                    (#[trigger] old(self).tiles@[i]).px as int,
                    old(self).tiles@[i].py as int,
                    old(self).half(),
                    wx as int,
                    wy as int,
                ) ==> final(self).tiles@[i].typ == selected && final(self).tiles@[i].color
                    == color_of(selected),
            forall|i: int|
                0 <= i < old(self).tiles@.len() && !hits(
                    (#[trigger] old(self).tiles@[i]).px as int,
                    old(self).tiles@[i].py as int,
                    old(self).half(),
                    wx as int,
                    wy as int,
                ) ==> final(self).tiles@[i] == old(self).tiles@[i],
            old(self).colors_match() ==> final(self).colors_match(),
    {
        let half: u32 = self.size / 2;
        let n: usize = self.tiles.len();
        let mut i: usize = 0;
        while i < n
            invariant
                i <= n,
                n == self.tiles@.len(),
                self.width == old(self).width,
                self.height == old(self).height,
                self.size == old(self).size,
                half as int == old(self).half(),
                self.tiles@.len() == old(self).tiles@.len(),
                forall|j: int| i <= j < n ==> #[trigger] self.tiles@[j] == old(self).tiles@[j],
                forall|j: int|
                    0 <= j < i ==> #[trigger] self.tiles@[j] == clicked(
                        old(self).tiles@,
                        old(self).half(),
                        wx as int,
                        wy as int,
                        selected,
                    )[j],
            decreases n - i,
        {
            let t: Tile = self.tiles[i];
            if tile_hit(&t, half, wx, wy) {
                let c: Rgb = selected.color();
                self.tiles[i] = Tile { x: t.x, y: t.y, px: t.px, py: t.py, typ: selected, color: c };
            }
            i = i + 1;
        }
        proof {
            assert(self.tiles@ =~= clicked(
                old(self).tiles@,
                old(self).half(),
                wx as int,
                wy as int,
                selected,
            ));
            assert forall|i: int| 0 <= i < self.tiles@.len() implies #[trigger] self.tile_wf_at(i) by {
                assert(old(self).tile_wf_at(i));
            }
        }
    }

    /// One hover pass: repaints every tile from scratch, the tile under
    /// the cursor in the highlight color and every other tile in its own
    /// type's color. Types and positions are untouched, so a later pass
    /// with the cursor elsewhere restores the type's color on its own.
    pub fn hover(&mut self, wx: i32, wy: i32)
        requires
            old(self).wf(),
        ensures
            final(self).wf(),
            final(self).width == old(self).width,
            final(self).height == old(self).height,
            final(self).size == old(self).size,
            final(self).tiles@ == hovered(old(self).tiles@, old(self).half(), wx as int, wy as int),
            forall|i: int|
                0 <= i < old(self).tiles@.len() ==> (#[trigger] final(self).tiles@[i]).typ == old(
                    self,
                ).tiles@[i].typ,
            forall|i: int|
                0 <= i < old(self).tiles@.len() && hits(
                    (#[trigger] old(self).tiles@[i]).px as int,
                    old(self).tiles@[i].py as int,
                    old(self).half(),
                    wx as int,
                    wy as int,
                ) ==> final(self).tiles@[i].color == highlight_color(),
            forall|i: int|
                0 <= i < old(self).tiles@.len() && !hits(
                    (#[trigger] old(self).tiles@[i]).px as int,
                    old(self).tiles@[i].py as int,
                    old(self).half(),
                    wx as int,
                    wy as int,
                ) ==> final(self).tiles@[i].color == color_of(old(self).tiles@[i].typ),
    {
        let half: u32 = self.size / 2;
        let n: usize = self.tiles.len();
        let mut i: usize = 0;
        while i < n
            invariant
                i <= n,
                n == self.tiles@.len(),
                self.width == old(self).width,
                self.height == old(self).height,
                self.size == old(self).size,
                half as int == old(self).half(),
                self.tiles@.len() == old(self).tiles@.len(),
                forall|j: int| i <= j < n ==> #[trigger] self.tiles@[j] == old(self).tiles@[j],
                forall|j: int|
                    0 <= j < i ==> #[trigger] self.tiles@[j] == hovered(
                        old(self).tiles@,
                        old(self).half(),
                        wx as int,
                        wy as int,
                    )[j],
            decreases n - i,
        {
            let t: Tile = self.tiles[i];
            let c: Rgb = if tile_hit(&t, half, wx, wy) {
                crate::tile::highlight()
            } else {
                t.typ.color()
            };
            self.tiles[i] = Tile { x: t.x, y: t.y, px: t.px, py: t.py, typ: t.typ, color: c };
            i = i + 1;
        }
        proof {
            assert(self.tiles@ =~= hovered(
                old(self).tiles@,
                old(self).half(),
                wx as int,
                wy as int,
            ));
            assert forall|i: int| 0 <= i < self.tiles@.len() implies #[trigger] self.tile_wf_at(i) by {
                assert(old(self).tile_wf_at(i));
            }
        }
    }
}

/// Law: on a well-formed board, each grid coordinate inside the bounds is
/// held by exactly one tile — the one at its row-major index — and that
/// tile sits at the centered position the layout assigns the coordinate.
pub proof fn lemma_coordinate_unique(g: Grid, x: int, y: int)
    requires
        g.wf(),
        0 <= x < g.width,
        0 <= y < g.height,
    ensures
        0 <= y * (g.width as int) + x < g.tiles@.len(),
        g.tiles@[y * (g.width as int) + x].x == x,
        g.tiles@[y * (g.width as int) + x].y == y,
        g.tiles@[y * (g.width as int) + x].px == pos_of(x, g.width as int, g.size as int),
        g.tiles@[y * (g.width as int) + x].py == pos_of(y, g.height as int, g.size as int),
        forall|i: int|
            0 <= i < g.tiles@.len() && (#[trigger] g.tiles@[i]).x == x && g.tiles@[i].y == y ==> i
                == y * (g.width as int) + x,
{
    let w = g.width as int;
    let h = g.height as int;
    let idx = y * w + x;
    assert(0 <= idx < w * h) by (nonlinear_arith)
        requires
            0 <= x < w,
            0 <= y < h,
            idx == y * w + x,
    ;
    lemma_fundamental_div_mod_converse(idx, w, y, x);
    assert(g.tile_wf_at(idx));
    assert forall|i: int|
        0 <= i < g.tiles@.len() && (#[trigger] g.tiles@[i]).x == x && g.tiles@[i].y == y implies i
        == idx by {
        assert(g.tile_wf_at(i));
        assert(i % w == x && i / w == y);
        lemma_fundamental_div_mod(i, w);
        assert(i == w * y + x);
        assert(w * y == y * w) by (nonlinear_arith);
    }
}

/// Law: on a well-formed board the tiles' bounding boxes do not overlap —
/// a world point falls inside at most one tile's box, so a click repaints
/// at most one tile.
pub proof fn lemma_at_most_one_hit(g: Grid, wx: int, wy: int, i: int, j: int)
    requires
        g.wf(),
        0 <= i < g.tiles@.len(),
        0 <= j < g.tiles@.len(),
        hits(g.tiles@[i].px as int, g.tiles@[i].py as int, g.half(), wx, wy),
        hits(g.tiles@[j].px as int, g.tiles@[j].py as int, g.half(), wx, wy),
    ensures
        i == j,
{
    let w = g.width as int;
    let h = g.height as int;
    let s = g.size as int;
    let hw = g.half();
    assert(g.tile_wf_at(i));
    assert(g.tile_wf_at(j));
    assert(w > 0) by (nonlinear_arith)
        requires
            g.tiles@.len() == w * h,
            g.tiles@.len() > 0,
            h >= 0,
            w >= 0,
    ;
    // a box only contains points at all when its half-width is positive
    assert(hw >= 1);
    assert(2 * (s / 2) <= s);
    let xoff = (w * s) / 2;
    let yoff = (h * s) / 2;
    // on each axis, two boxes both holding the point lie less than a tile
    // apart, and distinct coordinates would put them a full tile apart
    assert(i % w == j % w) by (nonlinear_arith)
        requires
            g.tiles@[i].px == (i % w) * s - xoff,
            g.tiles@[j].px == (j % w) * s - xoff,
            g.tiles@[i].px - hw < wx < g.tiles@[i].px + hw,
            g.tiles@[j].px - hw < wx < g.tiles@[j].px + hw,
            2 * hw <= s,
            hw >= 1,
    ;
    assert(i / w == j / w) by (nonlinear_arith)
        requires
            g.tiles@[i].py == (i / w) * s - yoff,
            g.tiles@[j].py == (j / w) * s - yoff,
            g.tiles@[i].py - hw < wy < g.tiles@[i].py + hw,
            g.tiles@[j].py - hw < wy < g.tiles@[j].py + hw,
            2 * hw <= s,
            hw >= 1,
    ;
    lemma_fundamental_div_mod(i, w);
    lemma_fundamental_div_mod(j, w);
}

/// Law: a click at a point that falls in no tile's bounding box leaves
/// every tile, and so the whole board, unchanged.
pub proof fn lemma_click_outside_changes_nothing(
    tiles: Seq<Tile>,
    half: int,
    wx: int,
    wy: int,
    sel: TileType,
)
    requires
        forall|i: int|
            0 <= i < tiles.len() ==> !hits(
                (#[trigger] tiles[i]).px as int,
                tiles[i].py as int,
                half,
                wx,
                wy,
            ),
    ensures
        clicked(tiles, half, wx, wy, sel) == tiles,
{
    assert(clicked(tiles, half, wx, wy, sel) =~= tiles);
}

/// Law: painting is idempotent — clicking the same point twice with the
/// same selected type gives the same board as clicking it once, since a
/// repaint moves no tile and writes the type and color a hit tile then
/// already has.
pub proof fn lemma_click_idempotent(tiles: Seq<Tile>, half: int, wx: int, wy: int, sel: TileType)
    ensures
        clicked(clicked(tiles, half, wx, wy, sel), half, wx, wy, sel) == clicked(
            tiles,
            half,
            wx,
            wy,
            sel,
        ),
{
    let once = clicked(tiles, half, wx, wy, sel);
    assert(clicked(once, half, wx, wy, sel) =~= once);
}

/// Law: the hover pass shows the tile under the cursor in the highlight
/// color and every other tile in its own type's color, while no tile's
/// type changes; a later hover pass with the cursor elsewhere therefore
/// shows this tile in its type's color again.
pub proof fn lemma_hover_highlight_and_restore(
    tiles: Seq<Tile>,
    half: int,
    wx1: int,
    wy1: int,
    wx2: int,
    wy2: int,
    i: int,
)
    requires
        0 <= i < tiles.len(),
    ensures
        hits(tiles[i].px as int, tiles[i].py as int, half, wx1, wy1) ==> hovered(
            tiles,
            half,
            wx1,
            wy1,
        )[i].color == highlight_color(),
        !hits(tiles[i].px as int, tiles[i].py as int, half, wx1, wy1) ==> hovered(
            tiles,
            half,
            wx1,
            wy1,
        )[i].color == color_of(tiles[i].typ),
        hovered(tiles, half, wx1, wy1)[i].typ == tiles[i].typ,
        !hits(tiles[i].px as int, tiles[i].py as int, half, wx2, wy2) ==> hovered(
            hovered(tiles, half, wx1, wy1),
            half,
            wx2,
            wy2,
        )[i].color == color_of(tiles[i].typ),
{
}

} // verus!
