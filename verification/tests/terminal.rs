use kitty_placeholders::color::{ColorAttribute, SrgbaTuple};
use kitty_placeholders::diacritics::{DIACRITIC_VALUES, UNICODE_PLACEHOLDER};
use kitty_placeholders::placements::{VirtualPlacement, VirtualPlacements};
use kitty_placeholders::screen::{Cell, CellAttributes, ImageCell, Ratio, Screen, TextureCoordinate};
use kitty_placeholders::terminal::{
    inherit_diacritics, CursorPosition, KittyImagePlacement, KittyImageState, PlacementError,
    TerminalState,
};
use std::sync::Arc;

fn text(values: &[usize]) -> String {
    let mut s = String::new();
    s.push(UNICODE_PLACEHOLDER);
    for v in values {
        s.push(char::from_u32(DIACRITIC_VALUES[*v].0).unwrap());
    }
    s
}

fn cell(text: String, foreground: ColorAttribute, underline_color: ColorAttribute) -> Cell<String> {
    Cell { text, attrs: CellAttributes { foreground, underline_color, images: Vec::new() } }
}

fn palette(values: &[usize], index: u8) -> Cell<String> {
    cell(text(values), ColorAttribute::PaletteIndex(index), ColorAttribute::Default)
}

fn terminal(rows: Vec<Vec<Cell<String>>>) -> TerminalState<String> {
    TerminalState {
        kitty_img: KittyImageState { virtual_placements: VirtualPlacements::new() },
        screen: Screen { rows },
        cursor: CursorPosition { x: 3, y: 1 },
    }
}

fn command(columns: u32, rows: u32, placement_id: Option<u32>) -> KittyImagePlacement {
    KittyImagePlacement { columns: Some(columns), rows: Some(rows), placement_id, z_index: None }
}

fn register(term: &mut TerminalState<String>, image_id: u32, placement_id: Option<u32>, name: &str) {
    let result = term.kitty_register_virtual_placement(
        image_id,
        &command(4, 2, placement_id),
        Arc::new(name.to_string()),
    );
    assert_eq!(result, Ok(()));
}

fn found(term: &TerminalState<String>, image_id: u32, placement_id: Option<u32>) -> Option<String> {
    term.find_virtual_placement(image_id, placement_id).map(|p| p.data.as_ref().clone())
}

fn images(term: &TerminalState<String>, x: usize, y: i64) -> &Vec<ImageCell<String>> {
    &term.screen.get_cell(x, y).unwrap().attrs.images
}

fn coordinate(x: (u32, u32), y: (u32, u32)) -> TextureCoordinate {
    TextureCoordinate { x: Ratio { num: x.0, den: x.1 }, y: Ratio { num: y.0, den: y.1 } }
}

#[test]
fn registers_a_virtual_placement() {
    let mut term = terminal(vec![vec![palette(&[0, 0], 7)]]);
    let placement = KittyImagePlacement {
        columns: Some(4),
        rows: Some(2),
        placement_id: Some(5),
        z_index: Some(-3),
    };
    let data = Arc::new("image".to_string());
    assert_eq!(term.kitty_register_virtual_placement(7, &placement, data.clone()), Ok(()));
    let vp = term.find_virtual_placement(7, Some(5)).unwrap();
    assert!(Arc::ptr_eq(&vp.data, &data));
    assert_eq!((vp.cols, vp.rows, vp.z_index), (4, 2, -3));
    assert!(images(&term, 0, 0).is_empty());
    assert_eq!(term.cursor, CursorPosition { x: 3, y: 1 });
}

#[test]
fn z_index_is_zero_unless_given() {
    let mut term = terminal(vec![]);
    register(&mut term, 7, None, "image");
    assert_eq!(term.find_virtual_placement(7, None).unwrap().z_index, 0);
}

#[test]
fn columns_and_rows_are_required() {
    let mut term = terminal(vec![]);
    let mut placement = command(4, 2, None);
    placement.columns = None;
    let data = Arc::new("image".to_string());
    assert_eq!(
        term.kitty_register_virtual_placement(7, &placement, data.clone()),
        Err(PlacementError::MissingColumns)
    );
    placement.rows = None;
    assert_eq!(
        term.kitty_register_virtual_placement(7, &placement, data.clone()),
        Err(PlacementError::MissingColumns)
    );
    placement.columns = Some(4);
    assert_eq!(
        term.kitty_register_virtual_placement(7, &placement, data),
        Err(PlacementError::MissingRows)
    );
    assert!(term.find_virtual_placement(7, None).is_none());
}

#[test]
fn error_messages() {
    assert_eq!(
        PlacementError::MissingColumns.message(),
        "U=1 virtual placement requires c= (columns)"
    );
    assert_eq!(PlacementError::MissingRows.message(), "U=1 virtual placement requires r= (rows)");
}

#[test]
fn registering_again_replaces() {
    let mut term = terminal(vec![]);
    register(&mut term, 7, None, "old");
    register(&mut term, 7, None, "new");
    register(&mut term, 7, Some(1), "one");
    register(&mut term, 7, Some(1), "uno");
    assert_eq!(found(&term, 7, None), Some("new".to_string()));
    assert_eq!(found(&term, 7, Some(1)), Some("uno".to_string()));
}

#[test]
fn lookup_without_placement_id_prefers_the_unnamed() {
    let mut term = terminal(vec![]);
    register(&mut term, 7, Some(0), "zero");
    register(&mut term, 7, None, "unnamed");
    assert_eq!(found(&term, 7, None), Some("unnamed".to_string()));
}

#[test]
fn lookup_without_placement_id_takes_the_smallest() {
    let mut term = terminal(vec![]);
    for id in [9u32, 3, 12, u32::MAX, 5] {
        register(&mut term, 7, Some(id), &id.to_string());
    }
    register(&mut term, 6, Some(1), "other");
    register(&mut term, 8, Some(2), "other");
    assert_eq!(found(&term, 7, None), Some("3".to_string()));
    term.kitty_remove_virtual_placements(7, Some(3));
    assert_eq!(found(&term, 7, None), Some("5".to_string()));
}

#[test]
fn lookup_with_placement_id_is_exact() {
    let mut term = terminal(vec![]);
    register(&mut term, 7, None, "unnamed");
    register(&mut term, 7, Some(2), "two");
    assert_eq!(found(&term, 7, Some(2)), Some("two".to_string()));
    assert_eq!(found(&term, 7, Some(3)), None);
    assert_eq!(found(&term, 2, Some(7)), None);
    assert_eq!(found(&term, 8, None), None);
}

#[test]
fn ids_at_the_ends_of_the_range_are_kept_apart() {
    let mut term = terminal(vec![]);
    register(&mut term, 0, Some(u32::MAX), "a");
    register(&mut term, 1, Some(0), "b");
    register(&mut term, u32::MAX, Some(u32::MAX), "c");
    assert_eq!(found(&term, 0, Some(u32::MAX)), Some("a".to_string()));
    assert_eq!(found(&term, 0, None), Some("a".to_string()));
    assert_eq!(found(&term, 1, Some(0)), Some("b".to_string()));
    assert_eq!(found(&term, u32::MAX, None), Some("c".to_string()));
}

#[test]
fn removes_one_placement() {
    let mut term = terminal(vec![]);
    register(&mut term, 7, None, "unnamed");
    register(&mut term, 7, Some(1), "one");
    register(&mut term, 7, Some(2), "two");
    term.kitty_remove_virtual_placements(7, Some(1));
    assert_eq!(found(&term, 7, Some(1)), None);
    assert_eq!(found(&term, 7, Some(2)), Some("two".to_string()));
    assert_eq!(found(&term, 7, None), Some("unnamed".to_string()));
    term.kitty_remove_virtual_placements(7, Some(1));
    assert_eq!(found(&term, 7, Some(2)), Some("two".to_string()));
}

#[test]
fn removes_all_placements_of_an_image() {
    let mut term = terminal(vec![]);
    register(&mut term, 7, None, "unnamed");
    for id in 0..20u32 {
        register(&mut term, 7, Some(id), "seven");
        register(&mut term, 8, Some(id), "eight");
    }
    term.kitty_remove_virtual_placements(7, None);
    assert_eq!(found(&term, 7, None), None);
    for id in 0..20u32 {
        assert_eq!(found(&term, 7, Some(id)), None);
        assert_eq!(found(&term, 8, Some(id)), Some("eight".to_string()));
    }
}

#[test]
fn register_of_placements_reads_back() {
    let mut placements: VirtualPlacements<String> = VirtualPlacements::new();
    let vp = VirtualPlacement { data: Arc::new("x".to_string()), cols: 1, rows: 2, z_index: 3 };
    placements.insert(1, Some(2), vp.clone());
    assert!(placements.get(1, None).is_none());
    let got = placements.get(1, Some(2)).unwrap();
    assert_eq!((got.cols, got.rows, got.z_index), (1, 2, 3));
    assert!(Arc::ptr_eq(&got.data, &vp.data));
    placements.remove(1, None);
    assert!(placements.get(1, Some(2)).is_none());
    assert!(placements.find(1, None).is_none());
}

#[test]
fn inheritance_rules() {
    let left = Some((Some(1), Some(2), Some(3)));
    assert_eq!(inherit_diacritics((None, None, None), left), (Some(1), Some(2), Some(3)));
    assert_eq!(
        inherit_diacritics((Some(5), Some(6), None), left),
        (Some(5), Some(6), Some(3))
    );
    assert_eq!(inherit_diacritics((Some(1), None, None), left), (Some(1), Some(2), Some(3)));
    assert_eq!(inherit_diacritics((Some(5), None, None), left), (Some(5), Some(2), None));
    assert_eq!(
        inherit_diacritics((Some(5), Some(6), Some(7)), left),
        (Some(5), Some(6), Some(7))
    );
    assert_eq!(inherit_diacritics((Some(5), None, None), None), (Some(5), None, None));
    assert_eq!(
        inherit_diacritics((None, None, None), Some((Some(4), None, None))),
        (Some(4), None, None)
    );
}

#[test]
fn resolves_a_complete_placeholder() {
    let mut term = terminal(vec![vec![palette(&[1, 2, 0], 42)]]);
    let data = Arc::new("image".to_string());
    let mut placement = command(4, 3, None);
    placement.z_index = Some(9);
    term.kitty_register_virtual_placement(42, &placement, data.clone()).unwrap();
    term.resolve_unicode_placeholder(0, 0);
    let attached = images(&term, 0, 0);
    assert_eq!(attached.len(), 1);
    let image = &attached[0];
    assert_eq!(image.top_left, coordinate((2, 4), (1, 3)));
    assert_eq!(image.bottom_right, coordinate((3, 4), (2, 3)));
    assert!(Arc::ptr_eq(&image.data, &data));
    assert_eq!(image.z_index, 9);
    assert_eq!(image.image_id, Some(42));
    assert_eq!(image.placement_id, None);
    assert_eq!(
        (image.padding_left, image.padding_top, image.padding_right, image.padding_bottom),
        (0, 0, 0, 0)
    );
    assert_eq!(term.screen.get_cell(0, 0).unwrap().text, text(&[1, 2, 0]));
}

#[test]
fn absent_values_count_as_zero() {
    let mut term = terminal(vec![vec![palette(&[], 42)]]);
    register(&mut term, 42, None, "image");
    term.resolve_unicode_placeholder(0, 0);
    let image = &images(&term, 0, 0)[0];
    assert_eq!(image.top_left, coordinate((0, 4), (0, 2)));
    assert_eq!(image.bottom_right, coordinate((1, 4), (1, 2)));
}

#[test]
fn true_color_and_msb_give_the_image_id() {
    let part = |v: u32| (v as f32 / 255.0).to_bits();
    let fg = ColorAttribute::TrueColorWithDefaultFallback(SrgbaTuple(
        part(0x34),
        part(0x56),
        part(0x78),
        1.0f32.to_bits(),
    ));
    let mut term =
        terminal(vec![vec![cell(text(&[0, 0, 0x12]), fg, ColorAttribute::PaletteIndex(5))]]);
    register(&mut term, 0x12345678, Some(5), "image");
    term.resolve_unicode_placeholder(0, 0);
    let image = &images(&term, 0, 0)[0];
    assert_eq!(image.image_id, Some(0x12345678));
    assert_eq!(image.placement_id, Some(5));
}

#[test]
fn unset_underline_matches_any_placement() {
    let mut term = terminal(vec![vec![palette(&[0, 0], 42)]]);
    register(&mut term, 42, Some(8), "image");
    term.resolve_unicode_placeholder(0, 0);
    assert_eq!(images(&term, 0, 0)[0].placement_id, None);
    assert_eq!(images(&term, 0, 0)[0].data.as_str(), "image");
}

#[test]
fn underline_selects_the_placement() {
    let fg = ColorAttribute::PaletteIndex(42);
    let mut term = terminal(vec![vec![
        cell(text(&[0, 0]), fg, ColorAttribute::PaletteIndex(8)),
        cell(text(&[0, 0]), fg, ColorAttribute::PaletteIndex(9)),
    ]]);
    register(&mut term, 42, None, "unnamed");
    register(&mut term, 42, Some(8), "eight");
    term.resolve_unicode_placeholder(0, 0);
    term.resolve_unicode_placeholder(1, 0);
    assert_eq!(images(&term, 0, 0)[0].data.as_str(), "eight");
    assert!(images(&term, 1, 0).is_empty());
}

#[test]
fn inherits_from_the_left_cell() {
    let mut term = terminal(vec![vec![
        palette(&[1, 2], 42),
        palette(&[], 42),
        palette(&[1], 42),
    ]]);
    register(&mut term, 42, None, "image");
    for x in 0..3 {
        term.resolve_unicode_placeholder(x, 0);
    }
    assert_eq!(images(&term, 1, 0)[0].top_left, coordinate((2, 4), (1, 2)));
    // The cell to its left carries no diacritics of its own.
    assert_eq!(images(&term, 2, 0)[0].top_left, coordinate((0, 4), (1, 2)));
}

#[test]
fn inherits_the_most_significant_byte() {
    let mut term = terminal(vec![vec![
        palette(&[0, 0, 1], 42),
        palette(&[0, 1], 42),
        palette(&[1, 1, 1], 42),
        palette(&[0], 42),
    ]]);
    register(&mut term, 0x0100_002a, None, "image");
    for x in 0..4 {
        term.resolve_unicode_placeholder(x, 0);
    }
    assert_eq!(images(&term, 1, 0)[0].image_id, Some(0x0100_002a));
    assert_eq!(images(&term, 1, 0)[0].top_left, coordinate((1, 4), (0, 2)));
    // Of another row: the byte is not inherited, and the image is another.
    assert!(images(&term, 3, 0).is_empty());
}

#[test]
fn does_not_inherit_across_colors() {
    let fg = ColorAttribute::PaletteIndex(42);
    let mut term = terminal(vec![vec![
        palette(&[1, 2], 41),
        palette(&[], 42),
        cell(text(&[1, 2]), fg, ColorAttribute::PaletteIndex(1)),
        palette(&[], 42),
    ]]);
    register(&mut term, 42, None, "image");
    term.resolve_unicode_placeholder(1, 0);
    term.resolve_unicode_placeholder(3, 0);
    assert_eq!(images(&term, 1, 0)[0].top_left, coordinate((0, 4), (0, 2)));
    assert_eq!(images(&term, 3, 0)[0].top_left, coordinate((0, 4), (0, 2)));
}

#[test]
fn inherits_across_the_two_zeros() {
    let black = |zero: f32| {
        ColorAttribute::TrueColorWithDefaultFallback(SrgbaTuple(
            zero.to_bits(),
            zero.to_bits(),
            zero.to_bits(),
            1.0f32.to_bits(),
        ))
    };
    let mut term = terminal(vec![vec![
        cell(text(&[1, 2, 3]), black(0.0), ColorAttribute::Default),
        cell(text(&[]), black(-0.0), ColorAttribute::Default),
    ]]);
    register(&mut term, 0x0300_0000, None, "image");
    term.resolve_unicode_placeholder(0, 0);
    term.resolve_unicode_placeholder(1, 0);
    assert_eq!(images(&term, 1, 0)[0].top_left, images(&term, 0, 0)[0].top_left);
    assert_eq!(images(&term, 1, 0)[0].image_id, Some(0x0300_0000));
}

#[test]
fn does_not_inherit_from_plain_text() {
    let fg = ColorAttribute::PaletteIndex(42);
    let mut term = terminal(vec![vec![
        cell("a".to_string(), fg, ColorAttribute::Default),
        palette(&[1], 42),
    ]]);
    register(&mut term, 42, None, "image");
    term.resolve_unicode_placeholder(1, 0);
    assert_eq!(images(&term, 1, 0)[0].top_left, coordinate((0, 4), (1, 2)));
}

#[test]
fn large_numbers_lose_their_high_bits_as_msb() {
    let mut term = terminal(vec![vec![palette(&[0, 0, 257], 42)]]);
    register(&mut term, 0x0100_002a, None, "image");
    term.resolve_unicode_placeholder(0, 0);
    assert_eq!(images(&term, 0, 0)[0].image_id, Some(0x0100_002a));
}

#[test]
fn unresolvable_cells_stay_plain() {
    let fg = ColorAttribute::PaletteIndex(42);
    let mut term = terminal(vec![vec![
        cell("a".to_string(), fg, ColorAttribute::Default),
        cell("\u{10EEEE}\u{0301}".to_string(), fg, ColorAttribute::Default),
        cell(text(&[0, 0]), ColorAttribute::Default, ColorAttribute::Default),
        palette(&[2, 0], 42),
        palette(&[0, 4], 42),
        palette(&[0, 0], 41),
        cell(
            "\u{10EEEE}\u{0305}\u{0305}\u{0305}\u{0301}".to_string(),
            fg,
            ColorAttribute::Default,
        ),
    ]]);
    register(&mut term, 42, None, "image");
    for x in 0..7 {
        term.resolve_unicode_placeholder(x, 0);
        assert!(images(&term, x, 0).is_empty());
    }
}

#[test]
fn positions_off_the_screen_are_ignored() {
    let mut term = terminal(vec![vec![palette(&[0, 0], 42)]]);
    register(&mut term, 42, None, "image");
    for (x, y) in [(1usize, 0i64), (0, 1), (0, -1), (usize::MAX, i64::MAX), (0, i64::MIN)] {
        assert!(term.screen.get_cell(x, y).is_none());
        term.resolve_unicode_placeholder(x, y);
    }
    assert!(images(&term, 0, 0).is_empty());
}

#[test]
fn attaching_preserves_what_was_attached() {
    let mut term = terminal(vec![vec![palette(&[0, 0], 42), palette(&[0, 1], 42)]]);
    register(&mut term, 42, None, "first");
    term.resolve_unicode_placeholder(0, 0);
    register(&mut term, 42, None, "second");
    term.resolve_unicode_placeholder(0, 0);
    let names: Vec<&str> = images(&term, 0, 0).iter().map(|i| i.data.as_str()).collect();
    assert_eq!(names, vec!["first", "second"]);
    assert!(images(&term, 1, 0).is_empty());
}

#[test]
fn resolving_leaves_the_images_of_other_cells() {
    let mut term = terminal(vec![vec![palette(&[0, 0], 42), palette(&[0, 1], 42)]]);
    for name in ["first", "second", "third"] {
        register(&mut term, 42, None, name);
        term.resolve_unicode_placeholder(0, 0);
    }
    term.resolve_unicode_placeholder(1, 0);
    term.kitty_remove_virtual_placements(42, None);
    term.resolve_unicode_placeholder(0, 0);
    let names: Vec<&str> = images(&term, 0, 0).iter().map(|i| i.data.as_str()).collect();
    assert_eq!(names, vec!["first", "second", "third"]);
    assert_eq!(images(&term, 1, 0).len(), 1);
}

#[test]
fn complete_placeholders_ignore_their_neighbours() {
    let fragment = |left: Cell<String>| {
        let mut term = terminal(vec![vec![left, palette(&[1, 3, 0], 42)]]);
        register(&mut term, 42, None, "image");
        term.resolve_unicode_placeholder(1, 0);
        let image = &images(&term, 1, 0)[0];
        (image.top_left, image.bottom_right, image.image_id)
    };
    let expected = (coordinate((3, 4), (1, 2)), coordinate((4, 4), (2, 2)), Some(42));
    assert_eq!(fragment(palette(&[0, 0, 7], 42)), expected);
    assert_eq!(fragment(palette(&[], 41)), expected);
    assert_eq!(
        fragment(cell("a".to_string(), ColorAttribute::Default, ColorAttribute::Default)),
        expected
    );
}

#[test]
fn removed_images_are_not_displayed() {
    let mut term = terminal(vec![vec![palette(&[0, 0], 42)]]);
    register(&mut term, 42, None, "image");
    register(&mut term, 42, Some(3), "image");
    term.kitty_remove_virtual_placements(42, None);
    term.resolve_unicode_placeholder(0, 0);
    assert!(images(&term, 0, 0).is_empty());
}

#[test]
fn fragments_tile_the_placement() {
    let mut row = Vec::new();
    for col in 0..4 {
        row.push(palette(&[1, col], 42));
    }
    let mut term = terminal(vec![row]);
    register(&mut term, 42, None, "image");
    for x in 0..4 {
        term.resolve_unicode_placeholder(x, 0);
    }
    for x in 0..3 {
        assert_eq!(
            images(&term, x, 0)[0].bottom_right.x,
            images(&term, x + 1, 0)[0].top_left.x
        );
    }
    assert_eq!(images(&term, 0, 0)[0].top_left.x, Ratio { num: 0, den: 4 });
    assert_eq!(images(&term, 3, 0)[0].bottom_right, coordinate((4, 4), (2, 2)));
}
