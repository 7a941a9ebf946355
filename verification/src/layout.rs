//! The four stacked regions of a frame, split off by `ratatui`'s layout solver.

use vstd::prelude::*;

verus! {

/// A rectangle of terminal cells: its top-left corner and its size.
#[derive(Clone, Copy, Debug, PartialEq, Eq, Structural)]
pub struct Rect {
    pub x: u16,
    pub y: u16,
    pub width: u16,
    pub height: u16,
}

impl Rect {
    /// The column just right of the rectangle.
    pub open spec fn right(self) -> int {
        self.x + self.width
    }

    /// The row just below the rectangle.
    pub open spec fn bottom(self) -> int {
        self.y + self.height
    }

    /// The rectangle spans `area` from its left edge to its right edge and
    /// lies between its top and its bottom.
    pub open spec fn is_band_of(self, area: Rect) -> bool {
        &&& self.x == area.x
        &&& self.width == area.width
        &&& area.y <= self.y
        &&& self.bottom() <= area.bottom()
    }

    /// The band of `area` that starts `offset` rows below its top and is
    /// `height` rows high.
    pub open spec fn band(area: Rect, offset: int, height: int) -> Rect {
        Rect {
            x: area.x,
            y: (area.y + offset) as u16,
            width: area.width,
            height: height as u16,
        }
    }
}

/// The regions of a frame, top to bottom.
#[derive(Clone, Copy, Debug, PartialEq, Eq, Structural)]
pub struct FrameLayout {
    pub title: Rect,
    pub input_box: Rect,
    pub content: Rect,
    pub help: Rect,
}

/// Rows of the title line.
pub const TITLE_ROWS: u16 = 1;

/// Rows of the search box: its text between two borders.
pub const INPUT_ROWS: u16 = 3;

/// Rows of the help line. The list of results takes the rows that are left.
pub const HELP_ROWS: u16 = 1;

/// Whether an area is high enough for three bands of the given heights and
/// ends at a row that a `u16` can hold.
pub open spec fn holds_bands(area: Rect, top: u16, middle: u16, bottom: u16) -> bool {
    top + middle + bottom <= area.height && area.bottom() <= u16::MAX
}

/// The four bands that fill `area` top to bottom: `top` rows, `middle` rows,
/// the rows that are left, and `bottom` rows.
pub open spec fn stacked(area: Rect, top: u16, middle: u16, bottom: u16) -> Seq<Rect> {
    seq![
        Rect::band(area, 0, top as int),
        Rect::band(area, top as int, middle as int),
        Rect::band(area, top + middle, area.height - top - middle - bottom),
        Rect::band(area, area.height - bottom, bottom as int),
    ]
}

/// `ratatui`'s `Layout::vertical(..).areas(..)` for two bands of fixed length,
/// one that fills, and a last of fixed length. The solver keeps every band in
/// the area's columns and between its top and bottom; where the fixed lengths
/// fit the area it gives each its length and the filling band the rest.
#[verifier::external_body]
fn split_bands(area: Rect, top: u16, middle: u16, bottom: u16) -> (bands: [Rect; 4])
    ensures
        forall|i: int| 0 <= i < 4 ==> (#[trigger] bands@[i]).is_band_of(area),
        holds_bands(area, top, middle, bottom) ==> bands@ == stacked(area, top, middle, bottom),
{
    let whole = ratatui::layout::Rect { x: area.x, y: area.y, width: area.width, height: area.height };
    let bands: [ratatui::layout::Rect; 4] = ratatui::layout::Layout::vertical([
        ratatui::layout::Constraint::Length(top),
        ratatui::layout::Constraint::Length(middle),
        ratatui::layout::Constraint::Fill(1),
        ratatui::layout::Constraint::Length(bottom),
    ]).areas(whole);
    bands.map(|band| Rect { x: band.x, y: band.y, width: band.width, height: band.height })
}

impl FrameLayout {
    /// Every region is a band of `area`.
    pub open spec fn is_within(self, area: Rect) -> bool {
        &&& self.title.is_band_of(area)
        &&& self.input_box.is_band_of(area)
        &&& self.content.is_band_of(area)
        &&& self.help.is_band_of(area)
    }

    /// The layout of an area of at least five rows: the title on the first
    /// row, the search box on the next three, the help line on the last, and
    /// the results in between.
    pub open spec fn stack(area: Rect) -> FrameLayout {
        FrameLayout {
            title: Rect::band(area, 0, 1),
            input_box: Rect::band(area, 1, 3),
            content: Rect::band(area, 4, area.height - 5),
            help: Rect::band(area, area.height - 1, 1),
        }
    }

    /// Splits `area` into the four regions of a frame. Every region is a
    /// band of `area`, and an area of five rows or more is split as `stack`
    /// says.
    pub fn split(area: Rect) -> (layout: FrameLayout)
        ensures
            layout.is_within(area),
            area.height >= 5 && area.bottom() <= u16::MAX ==> layout == FrameLayout::stack(area),
    {
        let bands = split_bands(area, TITLE_ROWS, INPUT_ROWS, HELP_ROWS);
        FrameLayout { title: bands[0], input_box: bands[1], content: bands[2], help: bands[3] }
    }
}

} // verus!
