//! Size of the terminal text area, of its cells and of the image drawn into it.

use vstd::prelude::*;

verus! {

/// Height of a sixel band in pixels.
pub const BAND: u32 = 6;

/// Width of a character cell, in pixels, when the terminal reports no pixel size.
pub const DEFAULT_CELL_WIDTH: u32 = 8;

/// Height of a character cell, in pixels, when the terminal reports no pixel size.
pub const DEFAULT_CELL_HEIGHT: u32 = 16;

/// Size of the terminal window as the terminal reports it.
#[derive(Clone, Copy, PartialEq, Eq, Debug, Structural)]
pub struct WindowSize {
    /// Number of character cells horizontally.
    pub columns: u16,
    /// Number of character cells vertically.
    pub rows: u16,
    /// Pixel width of the text area, 0 if unknown.
    pub width: u16,
    /// Pixel height of the text area, 0 if unknown.
    pub height: u16,
}

/// The larger of two integers.
pub open spec fn max_of(a: int, b: int) -> int {
    if a >= b { a } else { b }
}

impl WindowSize {
    /// Columns of the window, at least one.
    pub open spec fn cols(self) -> int {
        max_of(self.columns as int, 1)
    }

    /// Rows of the window, at least one.
    pub open spec fn lines(self) -> int {
        max_of(self.rows as int, 1)
    }

    /// Whether the terminal reported both pixel dimensions.
    pub open spec fn has_pixels(self) -> bool {
        self.width != 0 && self.height != 0
    }

    /// Pixel width of the text area.
    pub open spec fn pixel_width(self) -> int {
        if self.has_pixels() { self.width as int } else { self.cols() * DEFAULT_CELL_WIDTH }
    }

    /// Pixel height of the text area.
    pub open spec fn pixel_height(self) -> int {
        if self.has_pixels() { self.height as int } else { self.lines() * DEFAULT_CELL_HEIGHT }
    }

    /// Whole pixels in the height of one text row.
    pub open spec fn row_height(self) -> int {
        self.pixel_height() / self.lines()
    }

    /// Height left for the image once one text row is reserved, at least one band.
    pub open spec fn usable_height(self) -> int {
        max_of(self.pixel_height() - self.row_height(), BAND as int)
    }

    /// Height of the image: the usable height without its incomplete last band.
    pub open spec fn image_height(self) -> int {
        self.usable_height() - self.usable_height() % (BAND as int)
    }
}

/// Exact size of one character cell along one axis: `pixels` shared out over `cells`.
#[derive(Clone, Copy, PartialEq, Eq, Debug, Structural)]
pub struct CellSize {
    /// Pixels of the whole text area along the axis.
    pub pixels: u32,
    /// Number of cells along the axis, never 0.
    pub cells: u16,
}

impl CellSize {
    /// Whether the size is one that a text area can have.
    pub open spec fn wf(self) -> bool {
        self.cells >= 1
    }
}

/// Exact coordinate of the middle of one cell along one axis.
///
/// The coordinate in pixels is `(cell + 1/2) * size.pixels / size.cells`.
#[derive(Clone, Copy, PartialEq, Eq, Debug, Structural)]
pub struct CellCentre {
    /// Index of the cell, counted from 0.
    pub cell: u16,
    /// Size of a cell along the axis.
    pub size: CellSize,
}

impl CellCentre {
    /// Numerator of the coordinate in pixels.
    pub open spec fn numerator(self) -> int {
        (2 * self.cell + 1) * self.size.pixels
    }

    /// Denominator of the coordinate in pixels.
    pub open spec fn denominator(self) -> int {
        2 * self.size.cells
    }
}

/// Position of the pointer: the middle of the cell that it is in.
#[derive(Clone, Copy, PartialEq, Eq, Debug, Structural)]
pub struct Position {
    /// Horizontal coordinate.
    pub x: CellCentre,
    /// Vertical coordinate.
    pub y: CellCentre,
}

/// Exact distance along one axis, a whole number of cells.
///
/// The distance in pixels is `cells * size.pixels / size.cells`.
#[derive(Clone, Copy, PartialEq, Eq, Debug, Structural)]
pub struct CellSpan {
    /// Number of cells, negative towards the left or the bottom.
    pub cells: i32,
    /// Size of a cell along the axis.
    pub size: CellSize,
}

/// Geometry of the terminal text area, refreshed whenever the terminal is resized.
#[derive(Clone, Copy, PartialEq, Eq, Debug, Structural)]
pub struct Geometry {
    /// Number of character cells horizontally.
    pub cols: u16,
    /// Number of character cells vertically.
    pub rows: u16,
    /// Width of the image in pixels.
    pub width: u32,
    /// Height of the image in pixels, a whole number of bands.
    pub height: u32,
    /// Pixel height of the whole text area, used to map the pointer.
    pub full_height: u32,
}

impl Default for Geometry {
    fn default() -> (geometry: Self)
        ensures
            geometry == Geometry::unsynced(),
    {
        Geometry { cols: 0, rows: 0, width: 0, height: 0, full_height: 0 }
    }
}

impl Geometry {
    /// The geometry before the terminal was asked for its size.
    pub open spec fn unsynced() -> Geometry {
        Geometry { cols: 0, rows: 0, width: 0, height: 0, full_height: 0 }
    }

    /// The geometry that a window of size `size` calls for.
    pub open spec fn of(size: WindowSize) -> Geometry {
        Geometry {
            cols: size.cols() as u16,
            rows: size.lines() as u16,
            width: size.pixel_width() as u32,
            height: size.image_height() as u32,
            full_height: size.pixel_height() as u32,
        }
    }

    /// Number of pixels in the image.
    pub open spec fn area(self) -> int {
        self.width * self.height
    }

    /// Computes the geometry for a window of the given size.
    pub fn from_window_size(size: WindowSize) -> (geometry: Geometry)
        ensures
            geometry == Geometry::of(size),
            geometry.cols == size.cols(),
            geometry.rows == size.lines(),
            geometry.width == size.pixel_width(),
            geometry.height == size.image_height(),
            geometry.full_height == size.pixel_height(),
            size.width != 0 && size.height != 0 ==> geometry.width == size.width
                && geometry.full_height == size.height,
            size.width == 0 || size.height == 0 ==> geometry.width == 8 * geometry.cols
                && geometry.full_height == 16 * geometry.rows,
    {
        let cols: u16 = if size.columns == 0 { 1 } else { size.columns };
        let rows: u16 = if size.rows == 0 { 1 } else { size.rows };
        let mut pw: u32 = size.width as u32;
        let mut ph: u32 = size.height as u32;
        if pw == 0 || ph == 0 {
            pw = cols as u32 * DEFAULT_CELL_WIDTH;
            ph = rows as u32 * DEFAULT_CELL_HEIGHT;
        }
        let cell_h: u32 = ph / rows as u32;
        let left: u32 = ph.saturating_sub(cell_h);
        let usable_h: u32 = if left < BAND { BAND } else { left };
        let height: u32 = (usable_h / BAND) * BAND;
        proof {
            lemma_row_height(size);
        }
        Geometry { cols, rows, width: pw, height, full_height: ph }
    }

    /// Width of a cell: the image width shared out over the columns.
    pub open spec fn cell_width(self) -> CellSize {
        CellSize { pixels: self.width, cells: max_of(self.cols as int, 1) as u16 }
    }

    /// Height of a cell: the height of the text area shared out over the rows.
    pub open spec fn cell_height(self) -> CellSize {
        CellSize { pixels: self.full_height, cells: max_of(self.rows as int, 1) as u16 }
    }

    /// Returns the exact width of a character cell.
    pub fn cell_w(&self) -> (size: CellSize)
        ensures
            size == self.cell_width(),
            size.pixels == self.width,
            size.cells == max_of(self.cols as int, 1),
    {
        CellSize { pixels: self.width, cells: if self.cols == 0 { 1 } else { self.cols } }
    }

    /// Returns the exact height of a character cell.
    pub fn cell_h(&self) -> (size: CellSize)
        ensures
            size == self.cell_height(),
            size.pixels == self.full_height,
            size.cells == max_of(self.rows as int, 1),
    {
        CellSize { pixels: self.full_height, cells: if self.rows == 0 { 1 } else { self.rows } }
    }

    /// The middle of the cell in the given column and row.
    pub open spec fn centre_of(self, column: u16, row: u16) -> Position {
        Position {
            x: CellCentre { cell: column, size: self.cell_width() },
            y: CellCentre { cell: row, size: self.cell_height() },
        }
    }

    /// Returns the middle of the cell in the given column and row.
    pub fn cell_centre(&self, column: u16, row: u16) -> (position: Position)
        ensures
            position == self.centre_of(column, row),
    {
        Position {
            x: CellCentre { cell: column, size: self.cell_w() },
            y: CellCentre { cell: row, size: self.cell_h() },
        }
    }

    /// Whether one vector of this machine can hold the bytes of the image, three per pixel.
    pub open spec fn fits_memory(self) -> bool {
        3 * self.area() <= isize::MAX
    }

    /// Tests whether one vector of this machine can hold the bytes of the image.
    pub fn frame_fits(&self) -> (fits: bool)
        ensures
            fits == self.fits_memory(),
    {
        let (w, h): (u64, u64) = (self.width as u64, self.height as u64);
        assert(w * h <= u32::MAX * u32::MAX) by (nonlinear_arith)
            requires
                0 <= w <= u32::MAX,
                0 <= h <= u32::MAX,
        ;
        let limit: u64 = isize::MAX as u64;
        w * h <= limit / 3
    }
}

/// A text row is no higher than the text area.
proof fn lemma_row_height(size: WindowSize)
    ensures
        0 <= size.row_height() <= size.pixel_height(),
{
    let (h, n) = (size.pixel_height(), size.lines());
    assert(0 <= h / n <= h) by (nonlinear_arith)
        requires
            h >= 0,
            n >= 1,
    ;
}

/// The image is a whole number of bands, at least one, and at least one pixel wide; it is no wider
/// than the widest window whose cells have the default width.
pub proof fn image_is_whole_bands(size: WindowSize)
    ensures
        Geometry::of(size).width <= u16::MAX * DEFAULT_CELL_WIDTH,
        Geometry::of(size).height as int % (BAND as int) == 0,
        Geometry::of(size).height >= BAND,
        Geometry::of(size).width >= 1,
        Geometry::of(size).height == size.image_height(),
        Geometry::of(size).width == size.pixel_width(),
{
    lemma_row_height(size);
}

/// Wherever a row and a band fit into the text area, the image leaves one text row free below it,
/// and wastes less than a band on top of that.
pub proof fn last_row_stays_free(size: WindowSize)
    requires
        size.pixel_height() - size.row_height() >= BAND,
    ensures
        Geometry::of(size).height + size.row_height() <= size.pixel_height(),
        size.pixel_height() < Geometry::of(size).height + size.row_height() + BAND,
{
    lemma_row_height(size);
}

/// Without a reported pixel size every cell is exactly 8 by 16 pixels.
pub proof fn cells_default_to_8_by_16(size: WindowSize)
    requires
        size.width == 0 || size.height == 0,
    ensures
        Geometry::of(size).cell_width().pixels == 8 * Geometry::of(size).cell_width().cells,
        Geometry::of(size).cell_height().pixels == 16 * Geometry::of(size).cell_height().cells,
        size.row_height() == 16,
{
    let n = size.lines();
    assert(n * 16 / n == 16) by (nonlinear_arith)
        requires
            n >= 1,
    ;
}

/// The pointer is put strictly inside the cell it is in: right of the cell's left edge
/// `cell * pixels / cells`, left of its right edge `(cell + 1) * pixels / cells`, and half way
/// between the two.
pub proof fn pointer_is_in_its_cell(centre: CellCentre)
    requires
        centre.size.wf(),
        centre.size.pixels >= 1,
    ensures
        2 * (centre.cell * centre.size.pixels) < centre.numerator(),
        centre.numerator() < 2 * ((centre.cell + 1) * centre.size.pixels),
        2 * centre.numerator() == 2 * (centre.cell * centre.size.pixels)
            + 2 * ((centre.cell + 1) * centre.size.pixels),
{
    let (c, p) = (centre.cell as int, centre.size.pixels as int);
    assert((2 * c + 1) * p == 2 * (c * p) + p) by (nonlinear_arith);
    assert((c + 1) * p == c * p + p) by (nonlinear_arith);
}

/// A pointer in a cell of the text area is put inside the text area, on both axes.
pub proof fn pointer_is_in_the_text_area(size: WindowSize, column: u16, row: u16)
    requires
        column < size.cols(),
        row < size.lines(),
    ensures
        ({
            let at = Geometry::of(size).centre_of(column, row);
            &&& 0 < at.x.numerator() < size.pixel_width() * at.x.denominator()
            &&& 0 < at.y.numerator() < size.pixel_height() * at.y.denominator()
        }),
{
    let at = Geometry::of(size).centre_of(column, row);
    lemma_centre_below(at.x);
    lemma_centre_below(at.y);
}

/// The centre of a cell that exists lies between the two ends of its axis.
proof fn lemma_centre_below(centre: CellCentre)
    requires
        centre.cell < centre.size.cells,
        centre.size.pixels >= 1,
    ensures
        0 < centre.numerator() < centre.size.pixels * centre.denominator(),
{
    let (c, n, p) = (centre.cell as int, centre.size.cells as int, centre.size.pixels as int);
    assert(0 < (2 * c + 1) * p < p * (2 * n)) by (nonlinear_arith)
        requires
            0 <= c < n,
            p >= 1,
    ;
}

/// Pointers in different columns or rows keep their order.
pub proof fn pointer_keeps_order(size: CellSize, left: u16, right: u16)
    requires
        size.wf(),
        size.pixels >= 1,
        left < right,
    ensures
        (CellCentre { cell: left, size }).numerator() < (CellCentre {
            cell: right,
            size,
        }).numerator(),
{
    let (a, b, p) = (left as int, right as int, size.pixels as int);
    assert((2 * a + 1) * p < (2 * b + 1) * p) by (nonlinear_arith)
        requires
            a < b,
            p >= 1,
    ;
}

/// The image is as wide, and the text area as high, as the terminal reports. If it leaves out one of
/// the two, every cell counts as 8 by 16 pixels. There is at least one column and one row.
pub proof fn the_reported_size_is_used(size: WindowSize)
    ensures
        size.width != 0 && size.height != 0 ==> {
            &&& Geometry::of(size).width == size.width
            &&& Geometry::of(size).full_height == size.height
        },
        size.width == 0 || size.height == 0 ==> {
            &&& Geometry::of(size).width == 8 * Geometry::of(size).cols
            &&& Geometry::of(size).full_height == 16 * Geometry::of(size).rows
        },
        size.columns != 0 ==> Geometry::of(size).cols == size.columns,
        size.columns == 0 ==> Geometry::of(size).cols == 1,
        size.rows != 0 ==> Geometry::of(size).rows == size.rows,
        size.rows == 0 ==> Geometry::of(size).rows == 1,
{
}

/// The image is as high as it can be: `h` can be its height if it is a whole number of bands of 6
/// pixels and leaves the height of one row, in whole pixels, free in the text area. Where no band
/// has room, the image is one band high.
pub proof fn the_image_is_as_high_as_it_can_be(size: WindowSize, h: int)
    ensures
        ({
            let g = Geometry::of(size);
            let room = g.full_height - g.full_height as int / g.rows as int;
            &&& g.height >= 6
            &&& g.height as int % 6 == 0
            &&& room >= 6 ==> g.height <= room
            &&& room < 6 ==> g.height == 6
            &&& h % 6 == 0 && h <= room ==> h <= g.height
        }),
{
    lemma_row_height(size);
    let g = Geometry::of(size);
    assert(g.rows == size.lines());
    assert(g.full_height == size.pixel_height());
}

/// The number of pixels of the image is its width times its height, and its bytes, three a pixel,
/// fit into memory exactly when a vector can hold so many.
pub proof fn pixels_are_counted(geometry: Geometry)
    ensures
        geometry.area() == geometry.width * geometry.height,
        geometry.fits_memory() <==> 3 * (geometry.width * geometry.height) <= isize::MAX,
{
}

/// The cells share the width of the image and the height of the whole text area; a geometry without
/// cells counts as one cell.
pub proof fn cells_share_the_text_area(geometry: Geometry, column: u16, row: u16)
    ensures
        geometry.cell_width().pixels == geometry.width,
        geometry.cell_height().pixels == geometry.full_height,
        geometry.cols != 0 ==> geometry.cell_width().cells == geometry.cols,
        geometry.rows != 0 ==> geometry.cell_height().cells == geometry.rows,
        geometry.cols == 0 ==> geometry.cell_width().cells == 1,
        geometry.rows == 0 ==> geometry.cell_height().cells == 1,
        geometry.centre_of(column, row).x.cell == column,
        geometry.centre_of(column, row).y.cell == row,
        geometry.centre_of(column, row).x.size == geometry.cell_width(),
        geometry.centre_of(column, row).y.size == geometry.cell_height(),
{
}

/// The pointer follows the size that the terminal reports: in the middle of column `c` of `n`, it is
/// at `(c + 1/2) / n` of the reported width, and likewise for rows and the reported height.
pub proof fn the_pointer_follows_the_reported_size(size: WindowSize, column: u16, row: u16)
    requires
        size.columns != 0,
        size.rows != 0,
        size.width != 0,
        size.height != 0,
    ensures
        ({
            let at = Geometry::of(size).centre_of(column, row);
            &&& at.x.numerator() == (2 * column + 1) * size.width
            &&& at.x.denominator() == 2 * size.columns
            &&& at.y.numerator() == (2 * row + 1) * size.height
            &&& at.y.denominator() == 2 * size.rows
        }),
{
}

/// Before the terminal was asked for its size there is nothing to draw on.
pub proof fn nothing_is_known_at_first()
    ensures
        Geometry::unsynced().cols == 0,
        Geometry::unsynced().rows == 0,
        Geometry::unsynced().width == 0,
        Geometry::unsynced().height == 0,
        Geometry::unsynced().full_height == 0,
{
}

} // verus!
