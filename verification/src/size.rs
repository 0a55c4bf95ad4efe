//! Pixel sizes, and the table that gives a character cell its size at a DPI.

use vstd::prelude::*;

verus! {

/// Width and height of one character cell, in pixels.
#[derive(Debug, Clone, Copy, PartialEq, Eq, Structural)]
pub struct FontSize {
    pub width: i32,
    pub height: i32,
}

/// Width and height of the console window, in pixels.
#[derive(Debug, Clone, Copy, PartialEq, Eq, Structural)]
pub struct TerminalSize {
    pub width: i32,
    pub height: i32,
}

/// Width and height of the console's screen buffer, in character cells.
#[derive(Debug, Clone, Copy, PartialEq, Eq, Structural)]
pub struct CellGrid {
    pub columns: i16,
    pub rows: i16,
}

/// Why a size could not be determined.
#[derive(Debug, Clone, Copy, PartialEq, Eq, Structural)]
pub enum TerminalError {
    /// The standard output handle is null or invalid.
    NoStdHandle,
    /// The console did not report its screen buffer.
    NoScreenBufferInfo,
    /// The window's DPI is not one of 96, 120 and 144.
    UnsupportedDpi,
}

/// The cell size of a 12 point Consolas font at 100 %, 125 % and 150 % scaling.
/// No other DPI has an entry.
pub open spec fn glyph_at(dpi: u32) -> Option<FontSize> {
    if dpi == 96 {
        Some(FontSize { width: 9, height: 20 })
    } else if dpi == 120 {
        Some(FontSize { width: 12, height: 25 })
    } else if dpi == 144 {
        Some(FontSize { width: 14, height: 32 })
    } else {
        None
    }
}

impl FontSize {
    /// The table's entry for `dpi`, or `UnsupportedDpi` where it has none.
    pub open spec fn lookup(dpi: u32) -> Result<FontSize, TerminalError> {
        match glyph_at(dpi) {
            Some(font) => Ok(font),
            None => Err(TerminalError::UnsupportedDpi),
        }
    }

    /// Looks `dpi` up in the table. This is the only place that reads it.
    pub fn for_dpi(dpi: u32) -> (found: Result<FontSize, TerminalError>)
        ensures
            found == FontSize::lookup(dpi),
            found is Ok <==> dpi == 96 || dpi == 120 || dpi == 144,
    {
        if dpi == 96 {
            Ok(FontSize { width: 9, height: 20 })
        } else if dpi == 120 {
            Ok(FontSize { width: 12, height: 25 })
        } else if dpi == 144 {
            Ok(FontSize { width: 14, height: 32 })
        } else {
            Err(TerminalError::UnsupportedDpi)
        }
    }
}

impl TerminalSize {
    /// Whether `self` is what `grid` covers when each cell is `font` pixels large.
    pub open spec fn covers(self, grid: CellGrid, font: FontSize) -> bool {
        &&& self.width == grid.columns * font.width
        &&& self.height == grid.rows * font.height
    }

    /// The pixel size of `grid` at `dpi`.
    pub open spec fn measure(grid: CellGrid, dpi: u32) -> Result<TerminalSize, TerminalError> {
        match glyph_at(dpi) {
            Some(font) => Ok(
                TerminalSize {
                    width: (grid.columns * font.width) as i32,
                    height: (grid.rows * font.height) as i32,
                },
            ),
            None => Err(TerminalError::UnsupportedDpi),
        }
    }

    /// Multiplies the cell counts of `grid` by the cell size that the table has
    /// for `dpi`. The products are exact: no grid is large enough to overflow.
    pub fn for_grid(grid: CellGrid, dpi: u32) -> (size: Result<TerminalSize, TerminalError>)
        ensures
            size == TerminalSize::measure(grid, dpi),
            glyph_at(dpi) matches Some(font) ==> size is Ok && size.unwrap().covers(grid, font),
            glyph_at(dpi) is None ==> size == Err::<TerminalSize, TerminalError>(
                TerminalError::UnsupportedDpi,
            ),
    {
        match FontSize::for_dpi(dpi) {
            Ok(font) => {
                let columns: i32 = grid.columns as i32;
                let rows: i32 = grid.rows as i32;
                assert(-1048576 <= columns * font.width <= 1048576) by (nonlinear_arith)
                    requires
                        -32768 <= columns <= 32767,
                        0 <= font.width <= 32,
                ;
                assert(-1048576 <= rows * font.height <= 1048576) by (nonlinear_arith)
                    requires
                        -32768 <= rows <= 32767,
                        0 <= font.height <= 32,
                ;
                Ok(TerminalSize { width: font.width * columns, height: font.height * rows })
            },
            Err(error) => Err(error),
        }
    }
}

/// At each DPI that the table has, the terminal's width is the grid's columns
/// times the font's width, and its height the grid's rows times the font's
/// height, as whole numbers: nothing is cut off.
pub proof fn pixels_are_cells_times_font(grid: CellGrid, dpi: u32)
    requires
        glyph_at(dpi) is Some,
    ensures
        FontSize::lookup(dpi) is Ok,
        TerminalSize::measure(grid, dpi) is Ok,
        TerminalSize::measure(grid, dpi).unwrap().width == grid.columns * FontSize::lookup(
            dpi,
        ).unwrap().width,
        TerminalSize::measure(grid, dpi).unwrap().height == grid.rows * FontSize::lookup(
            dpi,
        ).unwrap().height,
{
}

/// The table has an entry for 96, 120 and 144 DPI and for nothing else, so
/// both lookups fail on exactly the same DPIs, and only with `UnsupportedDpi`.
pub proof fn three_dpis_are_supported(grid: CellGrid, dpi: u32)
    ensures
        glyph_at(dpi) is Some <==> dpi == 96 || dpi == 120 || dpi == 144,
        FontSize::lookup(dpi) is Ok <==> glyph_at(dpi) is Some,
        TerminalSize::measure(grid, dpi) is Ok <==> glyph_at(dpi) is Some,
        FontSize::lookup(dpi) matches Err(error) ==> error == TerminalError::UnsupportedDpi,
        TerminalSize::measure(grid, dpi) matches Err(error) ==> error
            == TerminalError::UnsupportedDpi,
{
}

} // verus!
