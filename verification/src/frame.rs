//! What one frame shows: four blocks, top to bottom, and what stands in them.

use crate::input::InputView;
use crate::layout::{FrameLayout, Rect};
use vstd::prelude::*;

verus! {

/// The line at the top of the screen.
pub const TITLE: &'static str = " ytui - youtube search in the terminal ";

/// The title on the border of the search box.
pub const INPUT_TITLE: &'static str = " Search ";

/// The title on the border of the list of results.
pub const CONTENT_TITLE: &'static str = " Youtube videos ";

/// The line at the bottom of the screen.
pub const HELP: &'static str =
    "h - move left, j - move down, k - move up, l - move right , s - enter search mode, esc - exit search mode";

/// Columns of padding between the side borders of the search box and its
/// text.
pub const INPUT_PADDING: u16 = 1;

/// Where a block's title stands on its first row.
#[derive(Clone, Copy, Debug, PartialEq, Eq, Structural)]
pub enum Alignment {
    Left,
    Center,
}

/// How the text of the search box is drawn.
#[derive(Clone, Copy, Debug, PartialEq, Eq, Structural)]
pub enum InputStyle {
    /// In the terminal's own colours.
    Plain,
    /// With a yellow foreground.
    Yellow,
}

/// A region of the frame with its title and its decoration.
#[derive(Debug)]
pub struct BlockView {
    /// The cells that the block covers.
    pub area: Rect,
    /// The text on the block's first row.
    pub title: String,
    /// Where on that row the title stands.
    pub title_alignment: Alignment,
    /// Whether a border is drawn on all four sides.
    pub bordered: bool,
    /// Columns left empty inside the left and the right edge.
    pub padding: u16,
}

/// A block as plain values.
pub ghost struct BlockModel {
    pub area: Rect,
    pub title: Seq<char>,
    pub title_alignment: Alignment,
    pub bordered: bool,
    pub padding: u16,
}

impl View for BlockView {
    type V = BlockModel;

    open spec fn view(&self) -> BlockModel {
        BlockModel {
            area: self.area,
            title: self.title@,
            title_alignment: self.title_alignment,
            bordered: self.bordered,
            padding: self.padding,
        }
    }
}

impl BlockModel {
    /// A block without border or padding that shows only a centred line.
    pub open spec fn line(area: Rect, text: Seq<char>) -> BlockModel {
        BlockModel {
            area,
            title: text,
            title_alignment: Alignment::Center,
            bordered: false,
            padding: 0,
        }
    }

    /// A bordered block.
    pub open spec fn boxed(
        area: Rect,
        title: Seq<char>,
        title_alignment: Alignment,
        padding: u16,
    ) -> BlockModel {
        BlockModel { area, title, title_alignment, bordered: true, padding }
    }
}

impl BlockView {
    /// A block without border or padding that shows only a centred line.
    pub fn line(area: Rect, text: &str) -> (block: BlockView)
        ensures
            block@ == BlockModel::line(area, text@),
    {
        BlockView {
            area,
            title: text.to_owned(),
            title_alignment: Alignment::Center,
            bordered: false,
            padding: 0,
        }
    }

    /// A bordered block.
    pub fn boxed(
        area: Rect,
        title: &str,
        title_alignment: Alignment,
        padding: u16,
    ) -> (block: BlockView)
        ensures
            block@ == BlockModel::boxed(area, title@, title_alignment, padding),
    {
        BlockView { area, title: title.to_owned(), title_alignment, bordered: true, padding }
    }
}

/// One frame, ready to be drawn.
#[derive(Debug)]
pub struct FrameView {
    /// The title line.
    pub title: BlockView,
    /// The search box.
    pub input_box: BlockView,
    /// The whole text of the search field, of which the box shows what
    /// follows the scroll.
    pub input: String,
    /// How that text is drawn.
    pub input_style: InputStyle,
    /// How many columns the text is scrolled to the left.
    pub scroll: usize,
    /// Column and row of the cursor, or `None` where it is hidden.
    pub cursor: Option<(u16, u16)>,
    /// The box around the list of results.
    pub content: BlockView,
    /// The results, first to last.
    pub items: Vec<String>,
    /// The help line.
    pub help: BlockView,
}

/// A frame as plain values.
pub ghost struct FrameModel {
    pub title: BlockModel,
    pub input_box: BlockModel,
    pub input: Seq<char>,
    pub input_style: InputStyle,
    pub scroll: nat,
    pub cursor: Option<(u16, u16)>,
    pub content: BlockModel,
    pub items: Seq<Seq<char>>,
    pub help: BlockModel,
}

impl FrameModel {
    /// Where the four blocks lie.
    pub open spec fn layout(self) -> FrameLayout {
        FrameLayout {
            title: self.title.area,
            input_box: self.input_box.area,
            content: self.content.area,
            help: self.help.area,
        }
    }
}

/// The texts of a list of strings.
pub open spec fn texts(items: Seq<String>) -> Seq<Seq<char>> {
    items.map_values(|item: String| item@)
}

impl View for FrameView {
    type V = FrameModel;

    open spec fn view(&self) -> FrameModel {
        FrameModel {
            title: self.title@,
            input_box: self.input_box@,
            input: self.input@,
            input_style: self.input_style,
            scroll: self.scroll as nat,
            cursor: self.cursor,
            content: self.content@,
            items: texts(self.items@),
            help: self.help@,
        }
    }
}

impl FrameView {
    /// Where the four blocks lie.
    pub fn layout(&self) -> (layout: FrameLayout)
        ensures
            layout == self@.layout(),
    {
        FrameLayout {
            title: self.title.area,
            input_box: self.input_box.area,
            content: self.content.area,
            help: self.help.area,
        }
    }
}

/// The inner width of a search box: its width without the two borders and
/// the column kept for the cursor, and without the two columns of padding.
pub open spec fn inner_width(box_width: u16) -> int {
    (if box_width > 3 {
        box_width as int
    } else {
        3
    }) - 3 - 2
}

/// The cell of the cursor in a search box: as many columns right of the
/// box's left border and padding as the cursor is ahead of the scroll, on the
/// row below the top border.
pub open spec fn cursor_cell(input_box: Rect, input: InputView) -> (u16, u16) {
    let scroll = input.scroll(inner_width(input_box.width) as nat);
    ((input_box.x + (input.cursor - scroll) + 2) as u16, (input_box.y + 1) as u16)
}

/// Whether a search box can be drawn: it is wide enough for its borders, its
/// padding and the cursor, and the cursor's cell has a column and a row that
/// a `u16` can hold.
pub open spec fn can_hold_input(input_box: Rect) -> bool {
    &&& input_box.width >= 5
    &&& input_box.right() <= u16::MAX
    &&& input_box.y < u16::MAX
}

} // verus!
