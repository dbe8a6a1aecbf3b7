//! Colours, and the palette of the dashboard.

use vstd::prelude::*;

verus! {

#[derive(Clone, Copy, Debug, PartialEq, Eq, Structural)]
pub enum Color {
    Rgb(u8, u8, u8),
    Black,
    Red,
    Green,
    Yellow,
    Blue,
    Magenta,
    Cyan,
    Gray,
    DarkGray,
    White,
}

/// How a piece of text is drawn.
#[derive(Clone, Copy, Debug, PartialEq, Eq, Structural)]
pub struct Style {
    pub fg: Option<Color>,
    pub bg: Option<Color>,
    pub bold: bool,
    pub dim: bool,
}

/// No colour of its own, neither bold nor dim.
pub open spec fn plain_style() -> Style {
    Style { fg: None, bg: None, bold: false, dim: false }
}

pub open spec fn colored(c: Color) -> Style {
    Style { fg: Some(c), ..plain_style() }
}

pub open spec fn bold(c: Color) -> Style {
    Style { fg: Some(c), bold: true, ..plain_style() }
}

impl Style {
    pub fn plain() -> (r: Style)
        ensures
            r == plain_style(),
    {
        Style { fg: None, bg: None, bold: false, dim: false }
    }

    pub fn fg(c: Color) -> (r: Style)
        ensures
            r == colored(c),
    {
        Style { fg: Some(c), bg: None, bold: false, dim: false }
    }

    pub fn bold(c: Color) -> (r: Style)
        ensures
            r == self::bold(c),
    {
        Style { fg: Some(c), bg: None, bold: true, dim: false }
    }
}

/// A piece of text in one style.
pub struct Span {
    pub text: String,
    pub style: Style,
}

#[verifier::ext_equal]
pub struct SpanView {
    pub text: Seq<char>,
    pub style: Style,
}

impl View for Span {
    type V = SpanView;

    open spec fn view(&self) -> SpanView {
        SpanView { text: self.text@, style: self.style }
    }
}

impl DeepView for Span {
    type V = SpanView;

    open spec fn deep_view(&self) -> SpanView {
        self@
    }
}

impl Span {
    pub fn new(t: &str, style: Style) -> (r: Span)
        ensures
            r@ == (SpanView { text: t@, style }),
    {
        Span { text: t.to_owned(), style }
    }
}

pub open spec fn span(t: Seq<char>, style: Style) -> SpanView {
    SpanView { text: t, style }
}

/// A frame around a widget: its title and the colour of its border.
pub struct Frame {
    pub title: Span,
    pub border: Color,
}

#[derive(Clone, Copy, Debug, PartialEq, Eq, Structural)]
pub struct Theme {
    pub bg: Color,
    pub fg: Color,
    pub accent: Color,
    pub accent_alt: Color,
    pub ok: Color,
    pub warn: Color,
    pub err: Color,
    pub muted: Color,
}

pub open spec fn dark_theme() -> Theme {
    Theme {
        bg: Color::Rgb(10, 12, 14),
        fg: Color::Rgb(224, 226, 228),
        accent: Color::Rgb(102, 166, 255),
        accent_alt: Color::Rgb(255, 149, 128),
        ok: Color::Rgb(46, 204, 113),
        warn: Color::Rgb(241, 196, 15),
        err: Color::Rgb(231, 76, 60),
        muted: Color::Rgb(120, 124, 130),
    }
}

impl Theme {
    pub fn dark() -> (r: Theme)
        ensures
            r == dark_theme(),
    {
        Theme {
            bg: Color::Rgb(10, 12, 14),
            fg: Color::Rgb(224, 226, 228),
            accent: Color::Rgb(102, 166, 255),
            accent_alt: Color::Rgb(255, 149, 128),
            ok: Color::Rgb(46, 204, 113),
            warn: Color::Rgb(241, 196, 15),
            err: Color::Rgb(231, 76, 60),
            muted: Color::Rgb(120, 124, 130),
        }
    }

    /// A title in the accent colour.
    pub fn title(&self, txt: &str) -> (r: Span)
        ensures
            r@ == span(txt@, bold(self.accent)),
    {
        Span::new(txt, Style::bold(self.accent))
    }

    /// A frame with a title and a muted border.
    pub fn block(&self, title: &str) -> (r: Frame)
        ensures
            r.title@ == span(title@, bold(self.accent)),
            r.border == self.muted,
    {
        Frame { title: self.title(title), border: self.muted }
    }
}

/// A short message, and the colour it is shown in.
pub type Note = Option<(String, Color)>;

pub open spec fn note_view(n: Note) -> Option<(Seq<char>, Color)> {
    match n {
        Some(m) => Some((m.0@, m.1)),
        None => None,
    }
}

} // verus!
