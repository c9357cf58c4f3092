//! The decoration of a panel: its title line, its border, its padding and
//! its colors, as plain values that a renderer can draw.

use vstd::prelude::*;

verus! {

/// Where a title stands along its border.
#[derive(Clone, Copy, Debug, PartialEq, Eq, Structural)]
pub enum Alignment {
    Left,
    Center,
    Right,
}

/// The border that carries the title.
#[derive(Clone, Copy, Debug, PartialEq, Eq, Structural)]
pub enum Position {
    Top,
    Bottom,
}

/// The line style of a border.
#[derive(Clone, Copy, Debug, PartialEq, Eq, Structural)]
pub enum BorderType {
    Plain,
    Rounded,
    Double,
    Thick,
}

/// The named terminal colors.
#[derive(Clone, Copy, Debug, PartialEq, Eq, Structural)]
pub enum Color {
    Black,
    Red,
    Green,
    Yellow,
    Blue,
    Magenta,
    Cyan,
    Gray,
    DarkGray,
    LightRed,
    LightGreen,
    LightYellow,
    LightBlue,
    LightMagenta,
    LightCyan,
    White,
}

/// The sides of a panel on which a border is drawn.
#[derive(Clone, Copy, Debug, PartialEq, Eq, Structural)]
pub struct Borders {
    pub top: bool,
    pub right: bool,
    pub bottom: bool,
    pub left: bool,
}

/// The empty cells between a panel's border and its content, for each side.
#[derive(Clone, Copy, Debug, PartialEq, Eq, Structural)]
pub struct Padding {
    pub left: u16,
    pub right: u16,
    pub top: u16,
    pub bottom: u16,
}

/// A decorated panel, ready to be drawn into a rectangle.
#[derive(Clone, Debug, PartialEq, Eq)]
pub struct Block {
    pub title: String,
    pub title_position: Position,
    pub title_alignment: Alignment,
    pub borders: Borders,
    pub border_color: Color,
    pub border_type: BorderType,
    pub padding: Padding,
    pub background: Color,
}

/// The title line of a panel: the title, a space, and the hotkey in round
/// brackets.
pub open spec fn title_with_hotkey(title: Seq<char>, hotkey: char) -> Seq<char> {
    title + seq![' ', '(', hotkey, ')']
}

impl Block {
    /// Whether this is the dashboard's panel for `title` and `hotkey`: the
    /// title line centered on the top border, a rounded dark gray border on
    /// all four sides, ten cells of padding left and right and two above and
    /// below, on a black background.
    pub open spec fn is_panel(self, title: Seq<char>, hotkey: char) -> bool {
        &&& self.title@ == title_with_hotkey(title, hotkey)
        &&& self.title_position == Position::Top
        &&& self.title_alignment == Alignment::Center
        &&& self.borders == (Borders { top: true, right: true, bottom: true, left: true })
        &&& self.border_color == Color::DarkGray
        &&& self.border_type == BorderType::Rounded
        &&& self.padding == (Padding { left: 10, right: 10, top: 2, bottom: 2 })
        &&& self.background == Color::Black
    }
}

} // verus!
