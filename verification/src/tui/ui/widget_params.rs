//! What a pane asks to be drawn: a text and how it is to look.

use crate::text::optional_text;
use vstd::prelude::*;

verus! {

/// How a text is aligned in its area.
#[derive(Clone, Copy, Debug, PartialEq, Eq, Structural, Hash)]
pub enum Alignment {
    Left,
    Center,
    Right,
}

/// A colour of the terminal.
#[derive(Clone, Copy, Debug, PartialEq, Eq, Structural, Hash)]
pub enum Color {
    Reset,
    Black,
    Red,
    Green,
    Yellow,
    Blue,
    Magenta,
    Cyan,
    Gray,
    DarkGray,
    LightRed,
    LightGreen,
    LightYellow,
    LightBlue,
    LightMagenta,
    LightCyan,
    White,
    Rgb(u8, u8, u8),
    Indexed(u8),
}

/// The sides of an area that have a border, one bit per side.
#[derive(Clone, Copy, Debug, PartialEq, Eq, Structural, Hash)]
pub struct Borders {
    pub bits: u8,
}

/// The ways in which a text is set off, one bit per way.
#[derive(Clone, Copy, Debug, PartialEq, Eq, Structural, Hash)]
pub struct Modifier {
    pub bits: u16,
}

impl Borders {
    /// No border.
    pub fn none() -> (b: Borders)
        ensures
            b.bits == 0,
    {
        Borders { bits: 0 }
    }

    /// A border on every side.
    pub fn all() -> (b: Borders)
        ensures
            b.bits == 0b1111,
    {
        Borders { bits: 0b1111 }
    }
}

impl Modifier {
    /// Plain text.
    pub fn empty() -> (m: Modifier)
        ensures
            m.bits == 0,
    {
        Modifier { bits: 0 }
    }

    /// Bold text.
    pub fn bold() -> (m: Modifier)
        ensures
            m.bits == 0b0001,
    {
        Modifier { bits: 0b0001 }
    }

    /// Italic text.
    pub fn italic() -> (m: Modifier)
        ensures
            m.bits == 0b0100,
    {
        Modifier { bits: 0b0100 }
    }
}

/// A text and how it is to look.
#[derive(Debug)]
pub struct WidgetParams {
    pub text: String,
    pub alignment: Alignment,
    pub borders: Borders,
    pub title: Option<String>,
    pub color: Color,
    pub modifier: Modifier,
}

/// The mathematical value of a [`WidgetParams`].
pub struct WidgetParamsView {
    pub text: Seq<char>,
    pub alignment: Alignment,
    pub borders: Borders,
    pub title: Option<Seq<char>>,
    pub color: Color,
    pub modifier: Modifier,
}

impl View for WidgetParams {
    type V = WidgetParamsView;

    open spec fn view(&self) -> WidgetParamsView {
        WidgetParamsView {
            text: self.text@,
            alignment: self.alignment,
            borders: self.borders,
            title: optional_text(self.title),
            color: self.color,
            modifier: self.modifier,
        }
    }
}

/// The look of a text for which nothing else was asked: aligned left, with
/// a border on every side, without title, white and plain.
pub open spec fn plain(text: Seq<char>) -> WidgetParamsView {
    WidgetParamsView {
        text,
        alignment: Alignment::Left,
        borders: Borders { bits: 0b1111 },
        title: None,
        color: Color::White,
        modifier: Modifier { bits: 0 },
    }
}

impl WidgetParams {
    /// `text` with the look for which nothing else was asked.
    pub fn new(text: String) -> (p: WidgetParams)
        ensures
            p@ == plain(text@),
    {
        WidgetParams {
            text,
            alignment: Alignment::Left,
            borders: Borders::all(),
            title: None,
            color: Color::White,
            modifier: Modifier::empty(),
        }
    }

    /// The same with another alignment.
    pub fn with_alignment(self, alignment: Alignment) -> (p: WidgetParams)
        ensures
            p@ == (WidgetParamsView { alignment, ..self@ }),
    {
        let mut p = self;
        p.alignment = alignment;
        p
    }

    /// The same with other borders.
    pub fn with_borders(self, borders: Borders) -> (p: WidgetParams)
        ensures
            p@ == (WidgetParamsView { borders, ..self@ }),
    {
        let mut p = self;
        p.borders = borders;
        p
    }

    /// The same with a title.
    pub fn with_title(self, title: String) -> (p: WidgetParams)
        ensures
            p@ == (WidgetParamsView { title: Some(title@), ..self@ }),
    {
        let mut p = self;
        p.title = Some(title);
        p
    }

    /// The same in another colour.
    pub fn with_color(self, color: Color) -> (p: WidgetParams)
        ensures
            p@ == (WidgetParamsView { color, ..self@ }),
    {
        let mut p = self;
        p.color = color;
        p
    }

    /// The same set off in another way.
    pub fn _with_modifier(self, modifier: Modifier) -> (p: WidgetParams)
        ensures
            p@ == (WidgetParamsView { modifier, ..self@ }),
    {
        let mut p = self;
        p.modifier = modifier;
        p
    }
}

} // verus!
