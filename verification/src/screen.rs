//! The visible grid of cells, and the image fragments attached to them.
use crate::color::ColorAttribute;
use std::sync::Arc;
use vstd::prelude::*;

verus! {

/// Row of the visible screen, counted from 0 at the top.
pub type VisibleRowIndex = i64;

/// The number `num / den`.
#[derive(Debug, Clone, Copy, PartialEq, Eq, Structural)]
pub struct Ratio {
    pub num: u32,
    pub den: u32,
}

/// A point of an image, as fractions of its width and its height.
#[derive(Debug, Clone, Copy, PartialEq, Eq, Structural)]
pub struct TextureCoordinate {
    pub x: Ratio,
    pub y: Ratio,
}

/// A rectangular fragment of an image, as attached to a cell.
#[derive(Debug)]
pub struct ImageCell<D> {
    pub top_left: TextureCoordinate,
    pub bottom_right: TextureCoordinate,
    pub data: Arc<D>,
    pub z_index: i32,
    pub padding_left: u16,
    pub padding_top: u16,
    pub padding_right: u16,
    pub padding_bottom: u16,
    pub image_id: Option<u32>,
    pub placement_id: Option<u32>,
}

/// Everything about a cell but its text.
#[derive(Debug)]
pub struct CellAttributes<D> {
    pub foreground: ColorAttribute,
    pub underline_color: ColorAttribute,
    /// The attached image fragments, in the order of their attachment.
    pub images: Vec<ImageCell<D>>,
}

/// One cell of the screen, holding one grapheme.
#[derive(Debug)]
pub struct Cell<D> {
    pub text: String,
    pub attrs: CellAttributes<D>,
}

/// What a cell holds.
#[verifier::ext_equal]
pub struct CellView<D> {
    pub text: Seq<char>,
    pub foreground: ColorAttribute,
    pub underline_color: ColorAttribute,
    pub images: Seq<ImageCell<D>>,
}

impl<D> View for Cell<D> {
    type V = CellView<D>;

    open spec fn view(&self) -> CellView<D> {
        CellView {
            text: self.text@,
            foreground: self.attrs.foreground,
            underline_color: self.attrs.underline_color,
            images: self.attrs.images@,
        }
    }
}

/// The visible screen: rows of cells, top to bottom and left to right.
#[derive(Debug)]
pub struct Screen<D> {
    pub rows: Vec<Vec<Cell<D>>>,
}

impl<D> View for Screen<D> {
    type V = Seq<Seq<CellView<D>>>;

    open spec fn view(&self) -> Seq<Seq<CellView<D>>> {
        self.rows@.map_values(|row: Vec<Cell<D>>| row@.map_values(|cell: Cell<D>| cell@))
    }
}

/// There is a cell in column `x` of row `y`.
pub open spec fn on_screen<D>(grid: Seq<Seq<CellView<D>>>, x: int, y: int) -> bool {
    0 <= y < grid.len() && 0 <= x < grid[y].len()
}

/// The cell in column `x` of row `y`, if there is one.
pub open spec fn cell_at<D>(grid: Seq<Seq<CellView<D>>>, x: int, y: int) -> Option<CellView<D>> {
    if on_screen(grid, x, y) {
        Some(grid[y][x])
    } else {
        None
    }
}

/// The cell with one more fragment attached to it.
pub open spec fn attached<D>(cell: CellView<D>, image: ImageCell<D>) -> CellView<D> {
    CellView { images: cell.images.push(image), ..cell }
}

/// The grid with one more fragment attached to the cell in column `x` of
/// row `y`, and nothing else changed.
pub open spec fn with_image<D>(
    grid: Seq<Seq<CellView<D>>>,
    x: int,
    y: int,
    image: ImageCell<D>,
) -> Seq<Seq<CellView<D>>> {
    if on_screen(grid, x, y) {
        grid.update(y, grid[y].update(x, attached(grid[y][x], image)))
    } else {
        grid
    }
}

/// Two screens have the same shape and hold the very same cells everywhere
/// but in column `x` of row `y`.
pub open spec fn same_elsewhere<D>(before: Screen<D>, after: Screen<D>, x: int, y: int) -> bool {
    &&& after.rows@.len() == before.rows@.len()
    &&& forall|j: int|
        0 <= j < before.rows@.len() ==> (#[trigger] after.rows@[j])@.len()
            == before.rows@[j]@.len()
    &&& forall|j: int, i: int|
        0 <= j < before.rows@.len() && 0 <= i < before.rows@[j]@.len() && (i, j) != (x, y)
            ==> #[trigger] after.rows@[j]@[i] == before.rows@[j]@[i]
}

impl<D> Screen<D> {
    /// The cell in column `x` of row `y`, if there is one.
    pub fn get_cell(&self, x: usize, y: VisibleRowIndex) -> (cell: Option<&Cell<D>>)
        ensures
            match cell {
                Some(c) => cell_at(self@, x as int, y as int) == Some(c@),
                None => cell_at(self@, x as int, y as int) is None,
            },
    {
        if y < 0 || y as u64 >= self.rows.len() as u64 {
            return None;
        }
        let row = &self.rows[y as usize];
        if x >= row.len() {
            return None;
        }
        Some(&row[x])
    }

    /// Attach an image fragment to the cell in column `x` of row `y`, if
    /// there is one, keeping its text, its colors and what was attached.
    pub fn attach_image(&mut self, x: usize, y: VisibleRowIndex, image: ImageCell<D>)
        ensures
            final(self)@ == with_image(old(self)@, x as int, y as int, image),
            same_elsewhere(*old(self), *final(self), x as int, y as int),
            !on_screen(old(self)@, x as int, y as int) ==> *final(self) == *old(self),
    {
        if y < 0 || y as u64 >= self.rows.len() as u64 {
            return;
        }
        let row = y as usize;
        if x < self.rows[row].len() {
            self.rows[row][x].attrs.images.push(image);
            proof {
                let grid = old(self)@;
                let cell = attached(grid[row as int][x as int], image);
                assert(self.rows@[row as int]@[x as int]@ =~= cell);
                assert(self@[row as int] =~= grid[row as int].update(x as int, cell));
            }
        }
        assert(self@ =~= with_image(old(self)@, x as int, y as int, image));
    }
}

} // verus!
