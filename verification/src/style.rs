//! Colours, text styles and the border styles of the three panels.
//!
//! The types here are plain values. Whatever draws the screen turns them into
//! the styles of its terminal library.

use vstd::prelude::*;

verus! {

/// A terminal colour.
#[derive(Clone, Copy, Debug, PartialEq, Eq)]
pub enum Color {
    Reset,
    Black,
    Red,
    Green,
    Yellow,
    Blue,
    Magenta,
    Cyan,
    Gray,
    DarkGray,
    LightRed,
    LightGreen,
    LightYellow,
    LightBlue,
    LightMagenta,
    LightCyan,
    White,
    Rgb(u8, u8, u8),
    Indexed(u8),
}

/// The line style of a panel's border.
#[derive(Clone, Copy, Debug, PartialEq, Eq)]
pub enum BorderType {
    Plain,
    Rounded,
    Double,
    Thick,
}

/// How a piece of text is drawn: an optional foreground colour and the
/// modifiers that are switched on.
#[derive(Clone, Copy, Debug, PartialEq, Eq)]
pub struct Style {
    pub fg: Option<Color>,
    pub bold: bool,
    pub italic: bool,
    pub underlined: bool,
}

impl Style {
    /// The style that changes nothing: no colour, no modifier.
    pub open spec fn plain() -> Style {
        Style { fg: None, bold: false, italic: false, underlined: false }
    }

    /// The plain style with the foreground colour `color`.
    pub open spec fn colored(color: Color) -> Style {
        Style { fg: Some(color), bold: false, italic: false, underlined: false }
    }

    /// This style with the foreground colour `color`.
    pub fn fg(self, color: Color) -> (s: Style)
        ensures
            s == (Style { fg: Some(color), ..self }),
    {
        Style { fg: Some(color), bold: self.bold, italic: self.italic, underlined: self.underlined }
    }

    /// This style in bold.
    pub fn bold(self) -> (s: Style)
        ensures
            s == (Style { bold: true, ..self }),
    {
        Style { fg: self.fg, bold: true, italic: self.italic, underlined: self.underlined }
    }

    /// This style in italics.
    pub fn italic(self) -> (s: Style)
        ensures
            s == (Style { italic: true, ..self }),
    {
        Style { fg: self.fg, bold: self.bold, italic: true, underlined: self.underlined }
    }

    /// This style underlined.
    pub fn underlined(self) -> (s: Style)
        ensures
            s == (Style { underlined: true, ..self }),
    {
        Style { fg: self.fg, bold: self.bold, italic: self.italic, underlined: true }
    }
}

impl Default for Style {
    fn default() -> (s: Style)
        ensures
            s == Style::plain(),
    {
        Style { fg: None, bold: false, italic: false, underlined: false }
    }
}

/// The panel that receives the keys.
#[derive(Clone, Copy, Debug, PartialEq, Eq)]
pub enum SelectedField {
    BoardList,
    ThreadList,
    Thread,
}

/// The value for one panel: `highlight` for the selected one, `default` for
/// the other two.
pub open spec fn pick<T>(selected: SelectedField, panel: SelectedField, highlight: T, default: T) -> T {
    if selected == panel {
        highlight
    } else {
        default
    }
}

/// The border colour of each panel.
#[derive(Clone, Copy, Debug, PartialEq, Eq)]
pub struct BlockBorderColor {
    pub board_list: Color,
    pub thread_list: Color,
    pub thread: Color,
}

impl BlockBorderColor {
    pub fn new(board_list: Color, thread_list: Color, thread: Color) -> (colors: Self)
        ensures
            colors == (BlockBorderColor { board_list, thread_list, thread }),
    {
        Self { board_list, thread_list, thread }
    }

    /// The colours when `selected_field` has the focus.
    pub open spec fn for_selected(
        selected_field: SelectedField,
        highlight_color: Color,
        default_color: Color,
    ) -> BlockBorderColor {
        BlockBorderColor {
            board_list: pick(selected_field, SelectedField::BoardList, highlight_color, default_color),
            thread_list: pick(
                selected_field,
                SelectedField::ThreadList,
                highlight_color,
                default_color,
            ),
            thread: pick(selected_field, SelectedField::Thread, highlight_color, default_color),
        }
    }

    /// `highlight_color` for the selected panel, `default_color` for the
    /// other two.
    pub fn from_selected_field(
        selected_field: &SelectedField,
        highlight_color: Color,
        default_color: Color,
    ) -> (colors: Self)
        ensures
            colors == Self::for_selected(*selected_field, highlight_color, default_color),
    {
        match selected_field {
            SelectedField::BoardList => Self::new(highlight_color, default_color, default_color),
            SelectedField::ThreadList => Self::new(default_color, highlight_color, default_color),
            SelectedField::Thread => Self::new(default_color, default_color, highlight_color),
        }
    }

    pub fn board_list(&self) -> (color: Color)
        ensures
            color == self.board_list,
    {
        self.board_list
    }

    pub fn thread_list(&self) -> (color: Color)
        ensures
            color == self.thread_list,
    {
        self.thread_list
    }

    pub fn thread(&self) -> (color: Color)
        ensures
            color == self.thread,
    {
        self.thread
    }
}

/// The border line style of each panel.
#[derive(Clone, Copy, Debug, PartialEq, Eq)]
pub struct BlockBorderType {
    pub board_list: BorderType,
    pub thread_list: BorderType,
    pub thread: BorderType,
}

impl BlockBorderType {
    pub fn new(board_list: BorderType, thread_list: BorderType, thread: BorderType) -> (types: Self)
        ensures
            types == (BlockBorderType { board_list, thread_list, thread }),
    {
        Self { board_list, thread_list, thread }
    }

    /// The line styles when `selected_field` has the focus.
    pub open spec fn for_selected(
        selected_field: SelectedField,
        highlight_border: BorderType,
        default_border: BorderType,
    ) -> BlockBorderType {
        BlockBorderType {
            board_list: pick(
                selected_field,
                SelectedField::BoardList,
                highlight_border,
                default_border,
            ),
            thread_list: pick(
                selected_field,
                SelectedField::ThreadList,
                highlight_border,
                default_border,
            ),
            thread: pick(selected_field, SelectedField::Thread, highlight_border, default_border),
        }
    }

    /// `highlight_border` for the selected panel, `default_border` for the
    /// other two.
    pub fn from_selected_field(
        selected_field: &SelectedField,
        highlight_border: BorderType,
        default_border: BorderType,
    ) -> (types: Self)
        ensures
            types == Self::for_selected(*selected_field, highlight_border, default_border),
    {
        match selected_field {
            SelectedField::BoardList => Self::new(highlight_border, default_border, default_border),
            SelectedField::ThreadList => {
                Self::new(default_border, highlight_border, default_border)
            },
            SelectedField::Thread => Self::new(default_border, default_border, highlight_border),
        }
    }

    pub fn board_list(&self) -> (border: BorderType)
        ensures
            border == self.board_list,
    {
        self.board_list
    }

    pub fn thread_list(&self) -> (border: BorderType)
        ensures
            border == self.thread_list,
    {
        self.thread_list
    }

    pub fn thread(&self) -> (border: BorderType)
        ensures
            border == self.thread,
    {
        self.thread
    }
}

/// The border colours and line styles of the three panels.
#[derive(Clone, Copy, Debug, PartialEq, Eq)]
pub struct BlockStyle {
    pub border_color: BlockBorderColor,
    pub border_type: BlockBorderType,
}

impl BlockStyle {
    /// The borders when `selected_field` has the focus: its panel gets the
    /// highlight border colour and line style, the others the default ones.
    /// The two text colours play no part in the borders.
    pub fn from_selected_field(
        selected_field: &SelectedField,
        _highlight_color: Color,
        _default_color: Color,
        highlight_border_type: BorderType,
        default_border_type: BorderType,
        highlight_border_color: Color,
        default_border_color: Color,
    ) -> (style: Self)
        ensures
            style.border_color == BlockBorderColor::for_selected(
                *selected_field,
                highlight_border_color,
                default_border_color,
            ),
            style.border_type == BlockBorderType::for_selected(
                *selected_field,
                highlight_border_type,
                default_border_type,
            ),
    {
        Self::new(
            BlockBorderColor::from_selected_field(
                selected_field,
                highlight_border_color,
                default_border_color,
            ),
            BlockBorderType::from_selected_field(
                selected_field,
                highlight_border_type,
                default_border_type,
            ),
        )
    }

    pub fn new(border_color: BlockBorderColor, border_type: BlockBorderType) -> (style: Self)
        ensures
            style == (BlockStyle { border_color, border_type }),
    {
        Self { border_color, border_type }
    }

    pub fn border_color(&self) -> (colors: &BlockBorderColor)
        ensures
            *colors == self.border_color,
    {
        &self.border_color
    }

    pub fn border_type(&self) -> (types: &BlockBorderType)
        ensures
            *types == self.border_type,
    {
        &self.border_type
    }
}

/// The colours and border styles that the panels are drawn with.
#[derive(Clone, Copy, Debug, PartialEq, Eq)]
pub struct StyleProvider {
    pub highlight_color: Color,
    pub default_color: Color,
    pub highlight_border_type: BorderType,
    pub default_border_type: BorderType,
    pub highlight_border_color: Color,
    pub default_border_color: Color,
}

impl StyleProvider {
    /// The built-in look: a dark gray highlight and a blue border round the
    /// selected panel, plain border lines everywhere.
    pub fn new() -> (provider: Self)
        ensures
            provider == (StyleProvider {
                highlight_color: Color::DarkGray,
                default_color: Color::Reset,
                highlight_border_type: BorderType::Plain,
                default_border_type: BorderType::Plain,
                highlight_border_color: Color::Blue,
                default_border_color: Color::Reset,
            }),
    {
        Self {
            highlight_color: Color::DarkGray,
            default_color: Color::Reset,
            highlight_border_type: BorderType::Plain,
            default_border_type: BorderType::Plain,
            highlight_border_color: Color::Blue,
            default_border_color: Color::Reset,
        }
    }

    /// The borders of the three panels when `selected_field` has the focus.
    pub fn default_from_selected_field(&self, selected_field: &SelectedField) -> (style: BlockStyle)
        ensures
            style.border_color == BlockBorderColor::for_selected(
                *selected_field,
                self.highlight_border_color,
                self.default_border_color,
            ),
            style.border_type == BlockBorderType::for_selected(
                *selected_field,
                self.highlight_border_type,
                self.default_border_type,
            ),
    {
        BlockStyle::from_selected_field(
            selected_field,
            self.highlight_color,
            self.default_color,
            self.highlight_border_type,
            self.default_border_type,
            self.highlight_border_color,
            self.default_border_color,
        )
    }

    pub fn highlight_color(&self) -> (color: &Color)
        ensures
            *color == self.highlight_color,
    {
        &self.highlight_color
    }
}

} // verus!
