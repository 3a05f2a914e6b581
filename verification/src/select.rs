//! The button bar: the interaction state a selector button can report in a
//! frame, and how a frame's button events move the selected paint type.

use vstd::prelude::*;
use crate::grid::clicked;
use crate::tile::color_of;
use crate::tile::Rgb;
use crate::tile::Tile;
use crate::tile::TileType;
use crate::tile::hits;

verus! {

/// What the host UI layer reports for a button this frame.
#[derive(Clone, Copy, Debug, PartialEq, Eq, Structural)]
pub enum Interaction {
    Pressed,
    Hovered,
    Idle,
}

/// One selector button's changed interaction state in a frame, together
/// with the tile type the button stands for.
#[derive(Clone, Copy, Debug, PartialEq, Eq, Structural)]
pub struct ButtonEvent {
    pub interaction: Interaction,
    pub typ: TileType,
}

/// One selector button of the bar: the tile type it stands for and the
/// color its face shows. The association never changes after creation.
#[derive(Clone, Copy, Debug, PartialEq, Eq, Structural)]
pub struct ButtonDef {
    pub typ: TileType,
    pub color: Rgb,
}

/// The button bar: one selector button for each tile type, in declaration
/// order, each showing its own type's color on its face.
pub fn button_bar() -> (bar: Vec<ButtonDef>)
    ensures
        bar@.len() == 4,
        bar@[0].typ == TileType::Grass,
        bar@[1].typ == TileType::Dirt,
        bar@[2].typ == TileType::Water,
        bar@[3].typ == TileType::Crop,
        forall|i: int| 0 <= i < bar@.len() ==> (#[trigger] bar@[i]).color == color_of(bar@[i].typ),
{
    let mut bar: Vec<ButtonDef> = Vec::new();
    bar.push(ButtonDef { typ: TileType::Grass, color: TileType::Grass.color() });
    bar.push(ButtonDef { typ: TileType::Dirt, color: TileType::Dirt.color() });
    bar.push(ButtonDef { typ: TileType::Water, color: TileType::Water.color() });
    bar.push(ButtonDef { typ: TileType::Crop, color: TileType::Crop.color() });
    bar
}

/// The selected paint type after a frame's button events are applied in
/// order: each press selects its button's type; a hovered or idle button
/// changes nothing.
pub open spec fn selected_after(sel: TileType, events: Seq<ButtonEvent>) -> TileType
    decreases events.len(),
{
    if events.len() == 0 {
        sel
    } else if events.last().interaction == Interaction::Pressed {
        events.last().typ
    } else {
        selected_after(sel, events.drop_last())
    }
}

/// Applies a frame's button events, in order, to the selected paint type:
/// every press overwrites the selection with its button's type, so the
/// last press of the frame wins; hover and idle are no-ops.
pub fn apply_button_events(selected: &mut TileType, events: &Vec<ButtonEvent>)
    ensures
        *final(selected) == selected_after(*old(selected), events@),
{
    let n: usize = events.len();
    let mut i: usize = 0;
    while i < n
        invariant
            i <= n,
            n == events@.len(),
            *selected == selected_after(*old(selected), events@.take(i as int)),
        decreases n - i,
    {
        match events[i].interaction {
            Interaction::Pressed => {
                *selected = events[i].typ;
            },
            Interaction::Hovered => {},
            Interaction::Idle => {},
        }
        proof {
            assert(events@.take(i as int + 1).drop_last() =~= events@.take(i as int));
            assert(events@.take(i as int + 1).last() == events@[i as int]);
        }
        i = i + 1;
    }
    proof {
        assert(events@.take(n as int) =~= events@);
    }
}

/// Law: if the press of one button is the last press among a frame's
/// events, the selected type afterwards is that button's type, whatever
/// it was before and whatever the other buttons reported.
pub proof fn lemma_press_selects(sel: TileType, events: Seq<ButtonEvent>, k: int)
    requires
        0 <= k < events.len(),
        events[k].interaction == Interaction::Pressed,
        forall|j: int|
            k < j < events.len() ==> (#[trigger] events[j]).interaction != Interaction::Pressed,
    ensures
        selected_after(sel, events) == events[k].typ,
    decreases events.len(),
{
    if k == events.len() - 1 {
    } else {
        assert(events.drop_last()[k] == events[k]);
        lemma_press_selects(sel, events.drop_last(), k);
    }
}

/// Law: a press followed by a paint uses the pressed type — after a frame
/// whose last press was on the button for some type, a click pass made
/// with the resulting selection writes exactly that type into every tile
/// whose bounding box contains the clicked point.
pub proof fn lemma_press_then_paint(
    sel: TileType,
    events: Seq<ButtonEvent>,
    k: int,
    tiles: Seq<Tile>,
    half: int,
    wx: int,
    wy: int,
    i: int,
)
    requires
        0 <= k < events.len(),
        events[k].interaction == Interaction::Pressed,
        forall|j: int|
            k < j < events.len() ==> (#[trigger] events[j]).interaction != Interaction::Pressed,
        0 <= i < tiles.len(),
        hits(tiles[i].px as int, tiles[i].py as int, half, wx, wy),
    ensures
        clicked(tiles, half, wx, wy, selected_after(sel, events))[i].typ == events[k].typ,
{
    lemma_press_selects(sel, events, k);
}

} // verus!
