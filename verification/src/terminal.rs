//! Kitty graphics protocol: Unicode placeholders for image display.
//!
//! An image placed with `U=1`
//! (`ESC _ G a=p,U=1,i=<image_id>,c=<columns>,r=<rows> ESC \`) becomes a
//! *virtual placement*: it is registered, no cells are touched and the
//! cursor does not move. Cells containing the placeholder character then
//! display fragments of that image:
//!
//! * the foreground color encodes the low 24 bits of the image id (the
//!   palette index in 256-color mode, the 24-bit RGB value in true color
//!   mode)
//! * the underline color optionally encodes the placement id
//! * up to three combining diacritics encode the row number, the column
//!   number and the most significant image id byte, in that order, with
//!   inheritance rules from the placeholder cell to the left when some
//!   diacritics are absent
//!
//! The placeholder text itself stays in the cell, so virtually-placed
//! images move, scroll and delete like ordinary text.
//!
//! <https://sw.kovidgoyal.net/kitty/graphics-protocol/#unicode-placeholders>
use crate::color::color_to_id_bits;
use crate::diacritics::{decode_diacritics, Diacritics};
use crate::placements::{share, VirtualPlacement, VirtualPlacements};
use crate::screen::{Cell, ImageCell, Ratio, Screen, TextureCoordinate, VisibleRowIndex};
use std::sync::Arc;
use vstd::prelude::*;

verus! {

/// What a placement command says of a virtual placement.
#[derive(Debug, Clone, Copy)]
pub struct KittyImagePlacement {
    /// `c=`: how many columns the image spans.
    pub columns: Option<u32>,
    /// `r=`: how many rows the image spans.
    pub rows: Option<u32>,
    /// `p=`: the placement id.
    pub placement_id: Option<u32>,
    /// `z=`: the stacking order.
    pub z_index: Option<i32>,
}

/// Why a virtual placement was not registered.
#[derive(Debug, Clone, Copy, PartialEq, Eq, Structural)]
pub enum PlacementError {
    MissingColumns,
    MissingRows,
}

impl PlacementError {
    /// The message for the client that sent the command.
    pub fn message(&self) -> (text: &'static str)
        ensures
            text@ == match self {
                PlacementError::MissingColumns => "U=1 virtual placement requires c= (columns)"@,
                PlacementError::MissingRows => "U=1 virtual placement requires r= (rows)"@,
            },
    {
        match self {
            PlacementError::MissingColumns => "U=1 virtual placement requires c= (columns)",
            PlacementError::MissingRows => "U=1 virtual placement requires r= (rows)",
        }
    }
}

/// The state of the kitty graphics protocol.
pub struct KittyImageState<D> {
    pub virtual_placements: VirtualPlacements<D>,
}

/// Where the next character is printed.
#[derive(Debug, Clone, Copy, PartialEq, Eq, Structural)]
pub struct CursorPosition {
    pub x: usize,
    pub y: VisibleRowIndex,
}

/// The state of a terminal, as far as placeholders are concerned.
pub struct TerminalState<D> {
    pub kitty_img: KittyImageState<D>,
    pub screen: Screen<D>,
    pub cursor: CursorPosition,
}

/// The placement that a complete command registers.
pub open spec fn placement_of<D>(
    placement: KittyImagePlacement,
    data: Arc<D>,
) -> VirtualPlacement<D> {
    VirtualPlacement {
        data,
        cols: placement.columns->0,
        rows: placement.rows->0,
        z_index: match placement.z_index {
            Some(z) => z,
            None => 0,
        },
    }
}

/// The diacritics of a cell completed from those of the placeholder cell to
/// its left. Without any of its own, a cell takes all three; with a row and
/// a column, it takes the most significant byte; with a row only, it takes
/// the column, and the most significant byte where the rows agree.
pub open spec fn inherited(own: Diacritics, left: Option<Diacritics>) -> Diacritics {
    match left {
        None => own,
        Some((lrow, lcol, lmsb)) => {
            let (row, col, msb) = own;
            if row is Some && col is Some && msb is Some {
                own
            } else if row is None && col is None && msb is None {
                (lrow, lcol, lmsb)
            } else if row is Some && col is Some {
                (row, col, lmsb)
            } else if row is Some {
                (row, lcol, if row == lrow { lmsb } else { msb })
            } else {
                own
            }
        },
    }
}

/// The value of a diacritic; an absent one counts as 0.
pub open spec fn or_zero(value: Option<u32>) -> u32 {
    match value {
        Some(v) => v,
        None => 0,
    }
}

/// The image id made of its most significant byte and the bits below.
pub open spec fn image_id_of(msb: u32, low24: u32) -> u32 {
    (msb << 24) | low24
}

/// The fragment in row `row` and column `col` of a virtual placement, which
/// divides its image evenly into rows and columns.
pub open spec fn fragment_of<D>(
    placement: VirtualPlacement<D>,
    row: u32,
    col: u32,
    image_id: u32,
    placement_id: Option<u32>,
) -> ImageCell<D> {
    ImageCell {
        top_left: TextureCoordinate {
            x: Ratio { num: col, den: placement.cols },
            y: Ratio { num: row, den: placement.rows },
        },
        bottom_right: TextureCoordinate {
            x: Ratio { num: (col + 1) as u32, den: placement.cols },
            y: Ratio { num: (row + 1) as u32, den: placement.rows },
        },
        data: placement.data,
        z_index: placement.z_index,
        padding_left: 0,
        padding_top: 0,
        padding_right: 0,
        padding_bottom: 0,
        image_id: Some(image_id),
        placement_id,
    }
}

/// The diacritics that a cell inherits from: those of the cell to its left,
/// if that is a placeholder cell with the same foreground and underline
/// colors.
pub open spec fn left_diacritics<D>(
    cell: crate::screen::CellView<D>,
    left: Option<crate::screen::CellView<D>>,
) -> Option<Diacritics> {
    match left {
        Some(l) => if crate::color::same_color(l.foreground, cell.foreground)
            && crate::color::same_color(l.underline_color, cell.underline_color) {
            crate::diacritics::decoded(l.text)
        } else {
            None
        },
        None => None,
    }
}

/// The row, the column and the most significant image id byte of a
/// placeholder cell, given its own diacritics.
pub open spec fn position_of<D>(
    own: Diacritics,
    cell: crate::screen::CellView<D>,
    left: Option<crate::screen::CellView<D>>,
) -> (u32, u32, u32) {
    let (row, col, msb) = inherited(own, left_diacritics(cell, left));
    (or_zero(row), or_zero(col), or_zero(msb))
}

/// The image fragment that a cell displays: none if it is not a placeholder
/// cell, if its foreground color encodes no id, if there is no matching
/// virtual placement, or if its row or column lies outside of that.
pub open spec fn displayed<D>(
    placements: Map<crate::placements::PlacementKey, VirtualPlacement<D>>,
    cell: crate::screen::CellView<D>,
    left: Option<crate::screen::CellView<D>>,
) -> Option<ImageCell<D>> {
    match (crate::diacritics::decoded(cell.text), crate::color::id_bits(cell.foreground)) {
        (Some(own), Some(low24)) => {
            let (row, col, msb) = position_of(own, cell, left);
            let image_id = image_id_of(msb, low24);
            let placement_id = crate::color::id_bits(cell.underline_color);
            match crate::placements::found(placements, image_id, placement_id) {
                Some(p) => if row < p.rows && col < p.cols {
                    Some(fragment_of(p, row, col, image_id, placement_id))
                } else {
                    None
                },
                None => None,
            }
        },
        _ => None,
    }
}

/// The cell to the left of column `x`.
pub open spec fn left_of<D>(
    grid: Seq<Seq<crate::screen::CellView<D>>>,
    x: int,
    y: int,
) -> Option<crate::screen::CellView<D>> {
    crate::screen::cell_at(grid, x - 1, y)
}

/// The fragment that the cell in column `x` of row `y` displays; where there
/// is no cell, there is none.
pub open spec fn displayed_at<D>(
    placements: Map<crate::placements::PlacementKey, VirtualPlacement<D>>,
    grid: Seq<Seq<crate::screen::CellView<D>>>,
    x: int,
    y: int,
) -> Option<ImageCell<D>> {
    match crate::screen::cell_at(grid, x, y) {
        Some(cell) => displayed(placements, cell, left_of(grid, x, y)),
        None => None,
    }
}

/// The grid after the placeholder in column `x` of row `y` was resolved:
/// the displayed fragment, if any, is attached to that cell, and nothing
/// else changes.
pub open spec fn resolved<D>(
    placements: Map<crate::placements::PlacementKey, VirtualPlacement<D>>,
    grid: Seq<Seq<crate::screen::CellView<D>>>,
    x: int,
    y: int,
) -> Seq<Seq<crate::screen::CellView<D>>> {
    match displayed_at(placements, grid, x, y) {
        Some(image) => crate::screen::with_image(grid, x, y, image),
        None => grid,
    }
}

/// Complete the diacritics of a cell from those of the placeholder cell to
/// its left.
pub fn inherit_diacritics(own: Diacritics, left: Option<Diacritics>) -> (complete: Diacritics)
    ensures
        complete == inherited(own, left),
{
    let (mut row, mut col, mut msb) = own;
    if row.is_none() || col.is_none() || msb.is_none() {
        if let Some((lrow, lcol, lmsb)) = left {
            if row.is_none() && col.is_none() && msb.is_none() {
                // No diacritics at all: take all three from the left cell.
                row = lrow;
                col = lcol;
                msb = lmsb;
            } else if row.is_some() && col.is_some() {
                // Only the most significant byte is missing.
                msb = lmsb;
            } else if row.is_some() {
                // Only the row is present: take the column from the left
                // cell, and the msb only when the rows agree.
                col = lcol;
                if row == lrow {
                    msb = lmsb;
                }
            }
        }
    }
    (row, col, msb)
}

impl<D> KittyImageState<D> {
    /// The image fragment that a cell displays, given the cell to its left.
    pub fn displayed_fragment(&self, cell: &Cell<D>, left: Option<&Cell<D>>) -> (image: Option<
        ImageCell<D>,
    >)
        ensures
            image == displayed(
                self.virtual_placements@,
                cell@,
                match left {
                    Some(l) => Some(l@),
                    None => None,
                },
            ),
    {
        let own = match decode_diacritics(cell.text.as_str()) {
            Some(own) => own,
            None => {
                return None;
            },
        };
        let left_own = match left {
            Some(left) => if left.attrs.foreground == cell.attrs.foreground
                && left.attrs.underline_color == cell.attrs.underline_color {
                decode_diacritics(left.text.as_str())
            } else {
                None
            },
            None => None,
        };
        let (row, col, msb) = inherit_diacritics(own, left_own);
        let row: u32 = row.unwrap_or(0);
        let col: u32 = col.unwrap_or(0);
        let msb: u32 = msb.unwrap_or(0);

        let low24: u32 = match color_to_id_bits(&cell.attrs.foreground) {
            Some(bits) => bits,
            None => {
                return None;
            },
        };
        // An unset underline color matches any placement id.
        let placement_id = color_to_id_bits(&cell.attrs.underline_color);
        let image_id: u32 = (msb << 24) | low24;

        let placement = match self.virtual_placements.find(image_id, placement_id) {
            Some(placement) => placement,
            None => {
                return None;
            },
        };
        if row >= placement.rows || col >= placement.cols {
            // Outside the virtual placement: leave the placeholder as text.
            return None;
        }
        Some(
            ImageCell {
                top_left: TextureCoordinate {
                    x: Ratio { num: col, den: placement.cols },
                    y: Ratio { num: row, den: placement.rows },
                },
                bottom_right: TextureCoordinate {
                    x: Ratio { num: col + 1, den: placement.cols },
                    y: Ratio { num: row + 1, den: placement.rows },
                },
                data: share(&placement.data),
                z_index: placement.z_index,
                padding_left: 0,
                padding_top: 0,
                padding_right: 0,
                padding_bottom: 0,
                image_id: Some(image_id),
                placement_id,
            },
        )
    }
}

impl<D> TerminalState<D> {
    /// Register a virtual (`U=1`) placement for later resolution by
    /// placeholder cells, in place of an earlier one under the same ids.
    /// Does not touch the grid and does not move the cursor.
    pub fn kitty_register_virtual_placement(
        &mut self,
        image_id: u32,
        placement: &KittyImagePlacement,
        data: Arc<D>,
    ) -> (result: Result<(), PlacementError>)
        ensures
            final(self).screen == old(self).screen,
            final(self).cursor == old(self).cursor,
            result == (if placement.columns is None {
                Err(PlacementError::MissingColumns)
            } else if placement.rows is None {
                Err(PlacementError::MissingRows)
            } else {
                Ok::<(), PlacementError>(())
            }),
            result is Ok ==> final(self).kitty_img.virtual_placements@ == old(
                self,
            ).kitty_img.virtual_placements@.insert(
                (image_id, placement.placement_id),
                placement_of(*placement, data),
            ),
            result is Ok ==> ({
                let key = (image_id, placement.placement_id);
                let after = final(self).kitty_img.virtual_placements@;
                &&& after.contains_key(key)
                &&& Some(after[key].cols) == placement.columns
                &&& Some(after[key].rows) == placement.rows
                &&& after[key].data == data
                &&& placement.z_index matches Some(z) ==> after[key].z_index == z
                &&& placement.z_index is None ==> after[key].z_index == 0
            }),
            result is Err ==> *final(self) == *old(self),
    {
        let cols: u32 = match placement.columns {
            Some(cols) => cols,
            None => {
                return Err(PlacementError::MissingColumns);
            },
        };
        let rows: u32 = match placement.rows {
            Some(rows) => rows,
            None => {
                return Err(PlacementError::MissingRows);
            },
        };
        self.kitty_img.virtual_placements.insert(
            image_id,
            placement.placement_id,
            VirtualPlacement { data, cols, rows, z_index: placement.z_index.unwrap_or(0) },
        );
        Ok(())
    }

    /// Remove virtual placements matching (image_id, placement_id).
    /// With `placement_id == None`, removes every virtual placement of
    /// the image. Implements the virtual-placement side of the
    /// `d=i/I/n/N` deletion commands.
    pub fn kitty_remove_virtual_placements(&mut self, image_id: u32, placement_id: Option<u32>)
        ensures
            final(self).screen == old(self).screen,
            final(self).cursor == old(self).cursor,
            final(self).kitty_img.virtual_placements@ == crate::placements::without(
                old(self).kitty_img.virtual_placements@,
                image_id,
                placement_id,
            ),
    {
        self.kitty_img.virtual_placements.remove(image_id, placement_id);
    }

    /// Find the virtual placement for a 32-bit image id and optional
    /// placement id. Without a placement id, any placement of the image
    /// matches: the one without an explicit placement id wins, otherwise
    /// the smallest placement id (deterministic).
    pub fn find_virtual_placement(&self, image_id: u32, placement_id: Option<u32>) -> (placement:
        Option<&VirtualPlacement<D>>)
        ensures
            match placement {
                Some(p) => crate::placements::found(
                    self.kitty_img.virtual_placements@,
                    image_id,
                    placement_id,
                ) == Some(*p),
                None => crate::placements::found(
                    self.kitty_img.virtual_placements@,
                    image_id,
                    placement_id,
                ) is None,
            },
    {
        self.kitty_img.virtual_placements.find(image_id, placement_id)
    }

    /// Resolve a placeholder cell printed at (x, y) against the registered
    /// virtual placements, attaching the matching image fragment to the
    /// cell. The placeholder text stays in the cell so that it moves,
    /// scrolls and deletes like ordinary text. Cells that cannot be
    /// resolved (no diacritic match, no virtual placement, or out-of-range
    /// row/column) are left as plain text.
    pub fn resolve_unicode_placeholder(&mut self, x: usize, y: VisibleRowIndex)
        ensures
            final(self).kitty_img == old(self).kitty_img,
            final(self).cursor == old(self).cursor,
            final(self).screen@ == resolved(
                old(self).kitty_img.virtual_placements@,
                old(self).screen@,
                x as int,
                y as int,
            ),
            crate::screen::same_elsewhere(
                old(self).screen,
                final(self).screen,
                x as int,
                y as int,
            ),
            displayed_at(
                old(self).kitty_img.virtual_placements@,
                old(self).screen@,
                x as int,
                y as int,
            ) is None ==> *final(self) == *old(self),
    {
        let image = match self.screen.get_cell(x, y) {
            Some(cell) => {
                let left = if x > 0 {
                    self.screen.get_cell(x - 1, y)
                } else {
                    None
                };
                self.kitty_img.displayed_fragment(cell, left)
            },
            None => None,
        };
        if let Some(image) = image {
            self.screen.attach_image(x, y, image);
        }
    }
}

} // verus!
