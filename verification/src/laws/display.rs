//! What a placeholder cell displays, and what resolving it does to the
//! screen.
use crate::diacritics::{Diacritics, UNICODE_PLACEHOLDER};
use crate::placements::{PlacementKey, VirtualPlacement};
use crate::screen::{CellView, ImageCell, Screen};
use vstd::prelude::*;

verus! {

/// A cell without diacritics takes all three values from the left, present
/// or not.
pub proof fn law_bare_cell_takes_everything(left: Diacritics)
    ensures
        crate::terminal::inherited((None, None, None), Some(left)) == left,
{
}

/// A cell with a row and a column takes exactly the most significant byte
/// from the left, present or not.
pub proof fn law_position_takes_the_byte(row: u32, col: u32, left: Diacritics)
    ensures
        crate::terminal::inherited((Some(row), Some(col), None), Some(left)) == (
            Some(row),
            Some(col),
            left.2,
        ),
{
}

/// A cell with a row only takes exactly the column from the left, present
/// or not, and the most significant byte if and only if the left cell has
/// the same row.
pub proof fn law_row_takes_the_column(row: u32, left: Diacritics)
    ensures
        ({
            let full = crate::terminal::inherited((Some(row), None, None), Some(left));
            &&& full.0 == Some(row)
            &&& full.1 == left.1
            &&& left.0 == Some(row) ==> full.2 == left.2
            &&& left.0 != Some(row) ==> full.2 is None
        }),
{
}

/// A complete cell takes nothing, nor does any cell where there is nothing
/// to inherit from, nor one that lacks a row but not everything.
pub proof fn law_nothing_to_take(own: Diacritics, left: Option<Diacritics>)
    requires
        ({
            ||| left is None
            ||| own.0 is Some && own.1 is Some && own.2 is Some
            ||| own.0 is None && (own.1 is Some || own.2 is Some)
        }),
    ensures
        crate::terminal::inherited(own, left) == own,
{
}

/// The low 24 bits of an image id are those of the color, and its top byte
/// combines the low byte of the third diacritic with what the color has
/// there.
pub proof fn law_image_id_bytes(msb: u32, bits: u32)
    ensures
        crate::terminal::image_id_of(msb, bits) % 0x100_0000 == bits % 0x100_0000,
        crate::terminal::image_id_of(msb, bits) / 0x100_0000 == (msb | (bits / 0x100_0000))
            % 0x100,
{
    let id = (msb << 24) | bits;
    assert(id % 0x100_0000 == bits % 0x100_0000) by (bit_vector)
        requires
            id == (msb << 24) | bits,
    ;
    assert(id / 0x100_0000 == (msb | (bits / 0x100_0000)) % 0x100) by (bit_vector)
        requires
            id == (msb << 24) | bits,
    ;
}

/// A fragment is the part of the image in its row and column, of the
/// placement's rows and columns, with the placement's image and stacking
/// order, the given ids and no padding.
pub proof fn law_fragment_fields<D>(
    placement: VirtualPlacement<D>,
    row: u32,
    col: u32,
    image_id: u32,
    placement_id: Option<u32>,
)
    requires
        row < placement.rows,
        col < placement.cols,
    ensures
        shows(
            crate::terminal::fragment_of(placement, row, col, image_id, placement_id),
            placement,
            row,
            col,
            image_id,
            placement_id,
        ),
{
}

/// An image cell is the part in row `row` and column `col` of a placement,
/// under the given ids.
pub open spec fn shows<D>(
    image: ImageCell<D>,
    placement: VirtualPlacement<D>,
    row: u32,
    col: u32,
    image_id: u32,
    placement_id: Option<u32>,
) -> bool {
    &&& image.top_left.x.num == col
    &&& image.top_left.y.num == row
    &&& image.bottom_right.x.num == col + 1
    &&& image.bottom_right.y.num == row + 1
    &&& image.top_left.x.den == placement.cols
    &&& image.bottom_right.x.den == placement.cols
    &&& image.top_left.y.den == placement.rows
    &&& image.bottom_right.y.den == placement.rows
    &&& image.data == placement.data
    &&& image.z_index == placement.z_index
    &&& image.padding_left == 0
    &&& image.padding_top == 0
    &&& image.padding_right == 0
    &&& image.padding_bottom == 0
    &&& image.image_id == Some(image_id)
    &&& image.placement_id == placement_id
}

/// Every displayed fragment comes from a registered placement: the one found
/// under the fragment's own ids, whose image and stacking order it carries
/// and inside which it lies. Its placement id is that of the underline.
pub proof fn law_displayed_comes_from_a_placement<D>(
    m: Map<PlacementKey, VirtualPlacement<D>>,
    cell: CellView<D>,
    left: Option<CellView<D>>,
)
    ensures
        crate::terminal::displayed(m, cell, left) matches Some(image) ==> {
            &&& image.image_id matches Some(id)
            &&& image.placement_id == crate::color::id_bits(cell.underline_color)
            &&& crate::placements::found(m, id, image.placement_id) matches Some(p)
            &&& image.data == p.data
            &&& image.z_index == p.z_index
            &&& image.top_left.x.num < p.cols
            &&& image.top_left.y.num < p.rows
            &&& shows(
                image,
                p,
                image.top_left.y.num,
                image.top_left.x.num,
                id,
                image.placement_id,
            )
        },
{
}

/// Only placeholder cells with a set foreground color display anything.
pub proof fn law_only_placeholders_display<D>(
    m: Map<PlacementKey, VirtualPlacement<D>>,
    cell: CellView<D>,
    left: Option<CellView<D>>,
)
    requires
        crate::terminal::displayed(m, cell, left) is Some,
    ensures
        crate::diacritics::decoded(cell.text) is Some,
        cell.text.len() > 0,
        cell.text[0] == UNICODE_PLACEHOLDER,
        !(cell.foreground is Default),
{
}

/// What a cell displays follows from its values after inheritance, absent
/// ones counting as 0: the fragment in that row and column of the placement
/// found under the ids, or nothing where none is found or the row or the
/// column lies outside.
pub proof fn law_displayed_exactly<D>(
    m: Map<PlacementKey, VirtualPlacement<D>>,
    cell: CellView<D>,
    left: Option<CellView<D>>,
    own: Diacritics,
    full: Diacritics,
    row: u32,
    col: u32,
    msb: u32,
    bits: u32,
    id: u32,
)
    requires
        crate::diacritics::decoded(cell.text) == Some(own),
        crate::color::id_bits(cell.foreground) == Some(bits),
        full == (match left {
            Some(l) => if crate::color::same_color(l.foreground, cell.foreground)
                && crate::color::same_color(l.underline_color, cell.underline_color) {
                crate::terminal::inherited(own, crate::diacritics::decoded(l.text))
            } else {
                own
            },
            None => own,
        }),
        full.0 == Some(row) || (full.0 is None && row == 0),
        full.1 == Some(col) || (full.1 is None && col == 0),
        full.2 == Some(msb) || (full.2 is None && msb == 0),
        id % 0x100_0000 == bits % 0x100_0000,
        id / 0x100_0000 == (msb | (bits / 0x100_0000)) % 0x100,
    ensures
        match crate::placements::found(m, id, crate::color::id_bits(cell.underline_color)) {
            Some(p) => if row < p.rows && col < p.cols {
                crate::terminal::displayed(m, cell, left) matches Some(image) && shows(
                    image,
                    p,
                    row,
                    col,
                    id,
                    crate::color::id_bits(cell.underline_color),
                )
            } else {
                crate::terminal::displayed(m, cell, left) is None
            },
            None => crate::terminal::displayed(m, cell, left) is None,
        },
{
    law_image_id_bytes(msb, bits);
    let made = crate::terminal::image_id_of(msb, bits);
    assert(made == (made / 0x100_0000) * 0x100_0000 + made % 0x100_0000);
    assert(id == (id / 0x100_0000) * 0x100_0000 + id % 0x100_0000);
    assert(made == id);
}

/// Nothing is displayed by a cell that does not decode, or whose foreground
/// color encodes no id.
pub proof fn law_nothing_displayed<D>(
    m: Map<PlacementKey, VirtualPlacement<D>>,
    cell: CellView<D>,
    left: Option<CellView<D>>,
)
    requires
        crate::diacritics::decoded(cell.text) is None || crate::color::id_bits(
            cell.foreground,
        ) is None,
    ensures
        crate::terminal::displayed(m, cell, left) is None,
{
}

/// A left cell of other colors, or one that is no placeholder, counts as
/// none.
pub proof fn law_unrelated_left_cell_counts_as_none<D>(
    m: Map<PlacementKey, VirtualPlacement<D>>,
    cell: CellView<D>,
    left: CellView<D>,
)
    requires
        ({
            ||| !crate::color::same_color(left.foreground, cell.foreground)
            ||| !crate::color::same_color(left.underline_color, cell.underline_color)
            ||| crate::diacritics::decoded(left.text) is None
        }),
    ensures
        crate::terminal::displayed(m, cell, Some(left)) == crate::terminal::displayed(
            m,
            cell,
            None,
        ),
{
}

/// Neither the images attached to a cell nor those of the cell to its left
/// influence what it displays.
pub proof fn law_attached_images_do_not_matter<D>(
    m: Map<PlacementKey, VirtualPlacement<D>>,
    cell: CellView<D>,
    left: CellView<D>,
    images: Seq<ImageCell<D>>,
    left_images: Seq<ImageCell<D>>,
)
    ensures
        crate::terminal::displayed(m, CellView { images, ..cell }, None)
            == crate::terminal::displayed(m, cell, None),
        crate::terminal::displayed(
            m,
            CellView { images, ..cell },
            Some(CellView { images: left_images, ..left }),
        ) == crate::terminal::displayed(m, cell, Some(left)),
{
}

/// A cell of the grid is looked up by its row and its column, and there are
/// no cells outside of the rows.
pub proof fn law_cell_lookup<D>(grid: Seq<Seq<CellView<D>>>, x: int, y: int)
    ensures
        0 <= y < grid.len() && 0 <= x < grid[y].len() ==> crate::screen::cell_at(grid, x, y)
            == Some(grid[y][x]),
        !(0 <= y < grid.len() && 0 <= x < grid[y].len()) ==> crate::screen::cell_at(
            grid,
            x,
            y,
        ) is None,
        crate::screen::on_screen(grid, x, y) <==> 0 <= y < grid.len() && 0 <= x < grid[y].len(),
{
}

/// The view of a screen shows every cell with its text, its colors and its
/// images, in its place.
pub proof fn law_screen_view<D>(screen: Screen<D>, x: int, y: int)
    ensures
        screen@.len() == screen.rows@.len(),
        0 <= y < screen.rows@.len() ==> screen@[y].len() == screen.rows@[y]@.len(),
        0 <= y < screen.rows@.len() && 0 <= x < screen.rows@[y]@.len() ==> {
            &&& screen@[y][x].text == screen.rows@[y]@[x].text@
            &&& screen@[y][x].foreground == screen.rows@[y]@[x].attrs.foreground
            &&& screen@[y][x].underline_color == screen.rows@[y]@[x].attrs.underline_color
            &&& screen@[y][x].images == screen.rows@[y]@[x].attrs.images@
        },
{
}

/// What is displayed at a place depends on the cell there and on the cell
/// to its left in the same row, and on no other; the first cell of a row
/// has none to its left.
pub proof fn law_left_neighbour_is_in_the_same_row<D>(
    m: Map<PlacementKey, VirtualPlacement<D>>,
    grid: Seq<Seq<CellView<D>>>,
    x: int,
    y: int,
)
    requires
        0 <= y < grid.len(),
        0 <= x < grid[y].len(),
    ensures
        x > 0 ==> crate::terminal::displayed_at(m, grid, x, y) == crate::terminal::displayed(
            m,
            grid[y][x],
            Some(grid[y][x - 1]),
        ),
        x == 0 ==> crate::terminal::displayed_at(m, grid, x, y) == crate::terminal::displayed(
            m,
            grid[y][0],
            None,
        ),
{
}

/// Nothing is displayed off the screen.
pub proof fn law_nothing_displayed_off_the_screen<D>(
    m: Map<PlacementKey, VirtualPlacement<D>>,
    grid: Seq<Seq<CellView<D>>>,
    x: int,
    y: int,
)
    requires
        !(0 <= y < grid.len() && 0 <= x < grid[y].len()),
    ensures
        crate::terminal::displayed_at(m, grid, x, y) is None,
        crate::terminal::resolved(m, grid, x, y) == grid,
{
}

/// Two grids that agree in a cell and in the one to its left display the
/// same there, whatever else they hold.
pub proof fn law_other_cells_do_not_matter<D>(
    m: Map<PlacementKey, VirtualPlacement<D>>,
    grid: Seq<Seq<CellView<D>>>,
    other: Seq<Seq<CellView<D>>>,
    x: int,
    y: int,
)
    requires
        0 <= y < grid.len(),
        0 <= y < other.len(),
        0 <= x < grid[y].len(),
        0 <= x < other[y].len(),
        grid[y][x] == other[y][x],
        x > 0 ==> grid[y][x - 1] == other[y][x - 1],
    ensures
        crate::terminal::displayed_at(m, grid, x, y) == crate::terminal::displayed_at(
            m,
            other,
            x,
            y,
        ),
{
}

/// In every row of the screen, a placeholder without diacritics displays
/// what the complete placeholder of the same colors to its left displays.
pub proof fn law_bare_placeholder_repeats_in_every_row<D>(
    m: Map<PlacementKey, VirtualPlacement<D>>,
    grid: Seq<Seq<CellView<D>>>,
    x: int,
    y: int,
)
    requires
        0 <= y < grid.len(),
        0 < x < grid[y].len(),
        grid[y][x].text == seq![UNICODE_PLACEHOLDER],
        crate::diacritics::decoded(grid[y][x - 1].text) matches Some((Some(_), Some(_), Some(_))),
        crate::color::same_color(grid[y][x - 1].foreground, grid[y][x].foreground),
        crate::color::same_color(grid[y][x - 1].underline_color, grid[y][x].underline_color),
    ensures
        crate::terminal::displayed_at(m, grid, x, y) == crate::terminal::displayed_at(
            m,
            grid,
            x - 1,
            y,
        ),
{
    crate::laws::law_bare_placeholder_repeats(
        m,
        grid[y][x],
        grid[y][x - 1],
        crate::screen::cell_at(grid, x - 2, y),
    );
}

/// Attaching appends one fragment to the images of one cell and leaves its
/// text, its colors, its earlier images and every other cell.
pub proof fn law_attaching<D>(
    grid: Seq<Seq<CellView<D>>>,
    x: int,
    y: int,
    image: ImageCell<D>,
    i: int,
    j: int,
)
    requires
        0 <= y < grid.len(),
        0 <= x < grid[y].len(),
        0 <= j < grid.len(),
        0 <= i < grid[j].len(),
    ensures
        ({
            let after = crate::screen::with_image(grid, x, y, image);
            &&& after.len() == grid.len()
            &&& after[j].len() == grid[j].len()
            &&& after[j][i].text == grid[j][i].text
            &&& after[j][i].foreground == grid[j][i].foreground
            &&& after[j][i].underline_color == grid[j][i].underline_color
            &&& after[y][x].images.len() == grid[y][x].images.len() + 1
            &&& after[y][x].images.last() == image
            &&& after[y][x].images.drop_last() == grid[y][x].images
            &&& (i, j) != (x, y) ==> after[j][i] == grid[j][i]
        }),
{
    assert(grid[y][x].images.push(image).drop_last() =~= grid[y][x].images);
}

/// Resolving attaches exactly the displayed fragment, to exactly that cell;
/// where nothing is displayed, the grid stays as it is.
pub proof fn law_resolving_attaches_what_is_displayed<D>(
    m: Map<PlacementKey, VirtualPlacement<D>>,
    grid: Seq<Seq<CellView<D>>>,
    x: int,
    y: int,
)
    requires
        0 <= y < grid.len(),
        0 <= x < grid[y].len(),
    ensures
        ({
            let after = crate::terminal::resolved(m, grid, x, y);
            let left = if x > 0 {
                Some(grid[y][x - 1])
            } else {
                None
            };
            match crate::terminal::displayed(m, grid[y][x], left) {
                Some(image) => {
                    &&& after[y][x].images.len() == grid[y][x].images.len() + 1
                    &&& after[y][x].images.last() == image
                    &&& after[y][x].images.drop_last() == grid[y][x].images
                },
                None => after == grid,
            }
        }),
{
    if let Some(image) = crate::terminal::displayed_at(m, grid, x, y) {
        law_attaching(grid, x, y, image, x, y);
    }
}

/// The order in which cells are resolved does not matter: resolving one
/// cell changes nothing of what another displays.
pub proof fn law_resolving_does_not_disturb<D>(
    m: Map<PlacementKey, VirtualPlacement<D>>,
    grid: Seq<Seq<CellView<D>>>,
    x: int,
    y: int,
    i: int,
    j: int,
)
    ensures
        crate::terminal::displayed_at(m, crate::terminal::resolved(m, grid, x, y), i, j)
            == crate::terminal::displayed_at(m, grid, i, j),
{
    crate::laws::law_resolving_keeps_text(m, grid, x, y, i, j);
    crate::laws::law_resolving_keeps_text(m, grid, x, y, i - 1, j);
}

} // verus!
