use tile_grid::grid::Grid;
use tile_grid::select::apply_button_events;
use tile_grid::select::button_bar;
use tile_grid::select::ButtonEvent;
use tile_grid::select::Interaction;
use tile_grid::tile::highlight;
use tile_grid::tile::tile_type_of_byte;
use tile_grid::tile::Rgb;
use tile_grid::tile::TileType;

fn all_grass(width: u32, height: u32) -> Vec<TileType> {
    let mut v = Vec::new();
    for _ in 0..width * height {
        v.push(TileType::Grass);
    }
    v
}

fn standard_board() -> Grid {
    Grid::from_types(10, 10, 32, &all_grass(10, 10))
}

#[test]
fn colors_are_exact() {
    assert_eq!(TileType::Grass.color(), Rgb { r: 0, g: 100, b: 0 });
    assert_eq!(TileType::Dirt.color(), Rgb { r: 50, g: 25, b: 10 });
    assert_eq!(TileType::Water.color(), Rgb { r: 0, g: 0, b: 100 });
    assert_eq!(TileType::Crop.color(), Rgb { r: 10, g: 50, b: 10 });
    assert_eq!(highlight(), Rgb { r: 100, g: 100, b: 0 });
}

#[test]
fn byte_picks_type_modulo_four() {
    assert_eq!(tile_type_of_byte(0), TileType::Grass);
    assert_eq!(tile_type_of_byte(1), TileType::Dirt);
    assert_eq!(tile_type_of_byte(2), TileType::Water);
    assert_eq!(tile_type_of_byte(3), TileType::Crop);
    assert_eq!(tile_type_of_byte(4), TileType::Grass);
    assert_eq!(tile_type_of_byte(255), TileType::Crop);
}

#[test]
fn layout_is_row_major_and_centered() {
    let g = standard_board();
    assert_eq!(g.tiles.len(), 100);
    for (i, t) in g.tiles.iter().enumerate() {
        let x = (i % 10) as u32;
        let y = (i / 10) as u32;
        assert_eq!(t.x, x);
        assert_eq!(t.y, y);
        assert_eq!(t.px, x as i32 * 32 - 160);
        assert_eq!(t.py, y as i32 * 32 - 160);
    }
    // exactly one tile per grid coordinate
    for x in 0..10u32 {
        for y in 0..10u32 {
            let n = g.tiles.iter().filter(|t| t.x == x && t.y == y).count();
            assert_eq!(n, 1);
        }
    }
}

#[test]
fn initial_colors_match_types() {
    let mut types = Vec::new();
    for i in 0..100u8 {
        types.push(tile_type_of_byte(i));
    }
    let g = Grid::from_types(10, 10, 32, &types);
    for (i, t) in g.tiles.iter().enumerate() {
        assert_eq!(t.typ, types[i]);
        assert_eq!(t.color, t.typ.color());
    }
}

#[test]
fn click_paints_the_hit_tile_and_no_other() {
    let mut g = standard_board();
    // center of tile (3, 4): (3 * 32 - 160, 4 * 32 - 160)
    g.click(-64, -32, TileType::Water);
    for (i, t) in g.tiles.iter().enumerate() {
        if i == 4 * 10 + 3 {
            assert_eq!(t.typ, TileType::Water);
            assert_eq!(t.color, TileType::Water.color());
        } else {
            assert_eq!(t.typ, TileType::Grass);
            assert_eq!(t.color, TileType::Grass.color());
        }
    }
}

#[test]
fn click_outside_every_box_changes_nothing() {
    let mut g = standard_board();
    let before = g.tiles.clone();
    g.click(10_000, 10_000, TileType::Crop);
    assert_eq!(g.tiles, before);
}

#[test]
fn click_on_a_box_edge_misses() {
    // tile (0, 0) is centered on (-160, -160) with half-width 16; a point
    // exactly 16 away is outside the strict bound, and is 16 away from the
    // neighbor (1, 0) as well, so the click paints nothing.
    let mut g = standard_board();
    let before = g.tiles.clone();
    g.click(-144, -160, TileType::Dirt);
    assert_eq!(g.tiles, before);
    // one step closer, the click hits tile (0, 0)
    g.click(-145, -160, TileType::Dirt);
    assert_eq!(g.tiles[0].typ, TileType::Dirt);
    assert_eq!(g.tiles[1].typ, TileType::Grass);
}

#[test]
fn clicking_twice_changes_nothing_more() {
    let mut g = standard_board();
    g.click(-64, -32, TileType::Crop);
    let after_once = g.tiles.clone();
    g.click(-64, -32, TileType::Crop);
    assert_eq!(g.tiles, after_once);
}

#[test]
fn press_sets_selection_and_later_clicks_paint_with_it() {
    let mut selected = TileType::Grass;
    let events = vec![
        ButtonEvent { interaction: Interaction::Hovered, typ: TileType::Dirt },
        ButtonEvent { interaction: Interaction::Pressed, typ: TileType::Water },
        ButtonEvent { interaction: Interaction::Idle, typ: TileType::Crop },
    ];
    apply_button_events(&mut selected, &events);
    assert_eq!(selected, TileType::Water);

    let mut g = standard_board();
    g.click(-160, -160, selected);
    assert_eq!(g.tiles[0].typ, TileType::Water);
}

#[test]
fn last_press_of_a_frame_wins() {
    let mut selected = TileType::Grass;
    let events = vec![
        ButtonEvent { interaction: Interaction::Pressed, typ: TileType::Dirt },
        ButtonEvent { interaction: Interaction::Pressed, typ: TileType::Crop },
    ];
    apply_button_events(&mut selected, &events);
    assert_eq!(selected, TileType::Crop);
}

#[test]
fn the_bar_holds_one_button_per_type_in_its_color() {
    let bar = button_bar();
    let expected = [TileType::Grass, TileType::Dirt, TileType::Water, TileType::Crop];
    assert_eq!(bar.len(), expected.len());
    for (b, t) in bar.iter().zip(expected.iter()) {
        assert_eq!(b.typ, *t);
        assert_eq!(b.color, t.color());
    }
}

#[test]
fn hover_and_idle_leave_selection_alone() {
    let mut selected = TileType::Dirt;
    let events = vec![
        ButtonEvent { interaction: Interaction::Hovered, typ: TileType::Water },
        ButtonEvent { interaction: Interaction::Idle, typ: TileType::Crop },
    ];
    apply_button_events(&mut selected, &events);
    assert_eq!(selected, TileType::Dirt);
    apply_button_events(&mut selected, &Vec::new());
    assert_eq!(selected, TileType::Dirt);
}

#[test]
fn hover_highlights_one_tile_and_moving_away_restores_it() {
    let mut g = standard_board();
    // cursor over the center of tile (3, 4)
    g.hover(-64, -32);
    for (i, t) in g.tiles.iter().enumerate() {
        if i == 4 * 10 + 3 {
            assert_eq!(t.color, highlight());
        } else {
            assert_eq!(t.color, t.typ.color());
        }
        assert_eq!(t.typ, TileType::Grass);
    }
    // next frame the cursor is over tile (0, 0): the old tile is restored
    g.hover(-160, -160);
    assert_eq!(g.tiles[4 * 10 + 3].color, TileType::Grass.color());
    assert_eq!(g.tiles[0].color, highlight());
}

#[test]
fn hover_keeps_painted_colors_elsewhere() {
    let mut g = standard_board();
    g.click(-64, -32, TileType::Water);
    g.hover(-160, -160);
    assert_eq!(g.tiles[4 * 10 + 3].color, TileType::Water.color());
    assert_eq!(g.tiles[0].color, highlight());
}

#[test]
fn random_board_is_laid_out_and_colored_like_any_other() {
    let g = Grid::new_random(10, 10, 32);
    assert_eq!(g.tiles.len(), 100);
    for (i, t) in g.tiles.iter().enumerate() {
        assert_eq!(t.x, (i % 10) as u32);
        assert_eq!(t.y, (i / 10) as u32);
        assert_eq!(t.px, t.x as i32 * 32 - 160);
        assert_eq!(t.py, t.y as i32 * 32 - 160);
        assert_eq!(t.color, t.typ.color());
    }
}

#[test]
fn an_empty_board_takes_clicks_without_effect() {
    let mut g = Grid::from_types(0, 5, 32, &Vec::new());
    assert_eq!(g.tiles.len(), 0);
    g.click(0, 0, TileType::Water);
    g.hover(0, 0);
    assert_eq!(g.tiles.len(), 0);
}
