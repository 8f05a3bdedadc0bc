//! Screen geometry: the size of a terminal and how a split divides it.

use vstd::prelude::*;

verus! {

/// The size of a terminal's display area: cells, and the same area in pixels.
#[derive(Clone, Copy, Debug, PartialEq, Eq, Structural)]
pub struct TerminalSize {
    /// The number of lines of text.
    pub rows: u16,
    /// The number of columns of text.
    pub cols: u16,
    /// The width of the area in pixels.
    pub pixel_width: u16,
    /// The height of the area in pixels.
    pub pixel_height: u16,
}

/// The axis along which a pane is divided. A horizontal split places the two
/// panes side by side; a vertical split places one above the other.
#[derive(Clone, Copy, Debug, PartialEq, Eq, Structural)]
pub enum SplitDirection {
    Horizontal,
    Vertical,
}

/// The cells that the first pane keeps when `extent` cells are divided.
pub open spec fn first_share(extent: int) -> int {
    extent / 2
}

/// The cells that the second pane gets when `extent` cells are divided. One
/// cell between the two panes is given to the divider.
pub open spec fn second_share(extent: int) -> int {
    if extent % 2 == 0 && extent >= 2 {
        extent / 2 - 1
    } else {
        extent / 2
    }
}

/// The pixels that `share` cells take when `cells` cells take `pixels`
/// pixels, each cell being a whole number of pixels wide.
pub open spec fn share_pixels(pixels: int, cells: int, share: int) -> int {
    if cells == 0 {
        0
    } else {
        (pixels / cells) * share
    }
}

/// Divides `extent` cells between two panes and the divider between them.
pub fn split_dimension(extent: u16) -> (shares: (u16, u16))
    ensures
        shares.0 == first_share(extent as int),
        shares.1 == second_share(extent as int),
{
    let half: u16 = extent / 2;
    if extent % 2 == 0 && half > 0 {
        (half, half - 1)
    } else {
        (half, half)
    }
}

/// The pixel extent of `share` cells out of `cells` cells that span `pixels`.
pub fn scale_pixels(pixels: u16, cells: u16, share: u16) -> (scaled: u16)
    requires
        share <= cells,
    ensures
        scaled == share_pixels(pixels as int, cells as int, share as int),
{
    if cells == 0 {
        0
    } else {
        let per_cell: u16 = pixels / cells;
        assert(per_cell * share <= pixels) by (nonlinear_arith)
            requires
                per_cell == pixels / cells,
                0 <= share <= cells,
                cells > 0,
        ;
        per_cell * share
    }
}

/// The sizes of the two panes that a split leaves.
#[derive(Clone, Copy, Debug, PartialEq, Eq, Structural)]
pub struct SplitSizes {
    /// The axis of the split.
    pub direction: SplitDirection,
    /// The size that the pane being split keeps.
    pub first: TerminalSize,
    /// The size of the pane that the split adds.
    pub second: TerminalSize,
}

/// The two sizes that dividing `size` along `direction` gives.
pub open spec fn split_sizes(size: TerminalSize, direction: SplitDirection) -> SplitSizes {
    match direction {
        SplitDirection::Horizontal => SplitSizes {
            direction,
            first: TerminalSize {
                rows: size.rows,
                cols: first_share(size.cols as int) as u16,
                pixel_width: share_pixels(
                    size.pixel_width as int,
                    size.cols as int,
                    first_share(size.cols as int),
                ) as u16,
                pixel_height: size.pixel_height,
            },
            second: TerminalSize {
                rows: size.rows,
                cols: second_share(size.cols as int) as u16,
                pixel_width: share_pixels(
                    size.pixel_width as int,
                    size.cols as int,
                    second_share(size.cols as int),
                ) as u16,
                pixel_height: size.pixel_height,
            },
        },
        SplitDirection::Vertical => SplitSizes {
            direction,
            first: TerminalSize {
                rows: first_share(size.rows as int) as u16,
                cols: size.cols,
                pixel_width: size.pixel_width,
                pixel_height: share_pixels(
                    size.pixel_height as int,
                    size.rows as int,
                    first_share(size.rows as int),
                ) as u16,
            },
            second: TerminalSize {
                rows: second_share(size.rows as int) as u16,
                cols: size.cols,
                pixel_width: size.pixel_width,
                pixel_height: share_pixels(
                    size.pixel_height as int,
                    size.rows as int,
                    second_share(size.rows as int),
                ) as u16,
            },
        },
    }
}

impl TerminalSize {
    /// Divides this size along `direction`.
    pub fn split(&self, direction: SplitDirection) -> (sizes: SplitSizes)
        ensures
            sizes == split_sizes(*self, direction),
    {
        match direction {
            SplitDirection::Horizontal => {
                let (first, second) = split_dimension(self.cols);
                SplitSizes {
                    direction,
                    first: TerminalSize {
                        rows: self.rows,
                        cols: first,
                        pixel_width: scale_pixels(self.pixel_width, self.cols, first),
                        pixel_height: self.pixel_height,
                    },
                    second: TerminalSize {
                        rows: self.rows,
                        cols: second,
                        pixel_width: scale_pixels(self.pixel_width, self.cols, second),
                        pixel_height: self.pixel_height,
                    },
                }
            },
            SplitDirection::Vertical => {
                let (first, second) = split_dimension(self.rows);
                SplitSizes {
                    direction,
                    first: TerminalSize {
                        rows: first,
                        cols: self.cols,
                        pixel_width: self.pixel_width,
                        pixel_height: scale_pixels(self.pixel_height, self.rows, first),
                    },
                    second: TerminalSize {
                        rows: second,
                        cols: self.cols,
                        pixel_width: self.pixel_width,
                        pixel_height: scale_pixels(self.pixel_height, self.rows, second),
                    },
                }
            },
        }
    }
}

impl SplitSizes {
    /// Whether both panes have at least one row and one column.
    pub open spec fn has_room(&self) -> bool {
        self.first.rows != 0 && self.first.cols != 0 && self.second.rows != 0 && self.second.cols
            != 0
    }

    /// Whether both panes have at least one row and one column.
    pub fn fits(&self) -> (yes: bool)
        ensures
            yes == self.has_room(),
    {
        self.first.rows != 0 && self.first.cols != 0 && self.second.rows != 0 && self.second.cols
            != 0
    }
}

/// A split that leaves room for both panes gives away exactly one cell, to
/// the divider, along its axis, and leaves the other axis as it was.
pub proof fn split_conserves_space(size: TerminalSize, direction: SplitDirection)
    requires
        split_sizes(size, direction).has_room(),
    ensures
        direction == SplitDirection::Horizontal ==> {
            &&& split_sizes(size, direction).first.cols + 1 + split_sizes(
                size,
                direction,
            ).second.cols == size.cols
            &&& split_sizes(size, direction).first.rows == size.rows
            &&& split_sizes(size, direction).second.rows == size.rows
        },
        direction == SplitDirection::Vertical ==> {
            &&& split_sizes(size, direction).first.rows + 1 + split_sizes(
                size,
                direction,
            ).second.rows == size.rows
            &&& split_sizes(size, direction).first.cols == size.cols
            &&& split_sizes(size, direction).second.cols == size.cols
        },
        split_sizes(size, direction).first.cols - split_sizes(size, direction).second.cols <= 1,
        split_sizes(size, direction).first.rows - split_sizes(size, direction).second.rows <= 1,
{
}

/// A size can be divided along an axis exactly when it has at least three
/// cells along it and at least one along the other.
pub proof fn room_needs_three_cells(size: TerminalSize)
    ensures
        split_sizes(size, SplitDirection::Horizontal).has_room() <==> size.cols >= 3 && size.rows
            >= 1,
        split_sizes(size, SplitDirection::Vertical).has_room() <==> size.rows >= 3 && size.cols
            >= 1,
{
}

} // verus!
