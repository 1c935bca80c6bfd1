//! The colours of the browser, as plain values for a renderer to apply.

use vstd::prelude::*;

verus! {

/// The colours that the browser uses.
#[derive(Clone, Copy, Debug, PartialEq, Eq)]
pub enum Color {
    Black,
    White,
    Yellow,
    LightGreen,
    LightBlue,
}

/// How text is set off.
#[derive(Clone, Copy, Debug, PartialEq, Eq)]
pub enum Modifier {
    Bold,
    Italic,
}

/// Foreground, background and emphasis; `None` leaves what is there.
#[derive(Clone, Copy, Debug, PartialEq, Eq)]
pub struct Style {
    pub fg: Option<Color>,
    pub bg: Option<Color>,
    pub modifier: Option<Modifier>,
}

/// A piece of text with its style.
#[derive(Debug, PartialEq, Eq)]
pub struct Span {
    pub content: String,
    pub style: Style,
}

impl Style {
    /// Titles: bold light green on black.
    pub open spec fn title() -> Style {
        Style {
            fg: Some(Color::LightGreen),
            bg: Some(Color::Black),
            modifier: Some(Modifier::Bold),
        }
    }

    /// The border of a pane without the focus: white.
    pub open spec fn border() -> Style {
        Style { fg: Some(Color::White), bg: None, modifier: None }
    }

    /// The border of the pane with the focus: yellow.
    pub open spec fn active_block() -> Style {
        Style { fg: Some(Color::Yellow), bg: None, modifier: None }
    }

    /// The highlighted entry: italic light blue on black.
    pub open spec fn selected_dir() -> Style {
        Style {
            fg: Some(Color::LightBlue),
            bg: Some(Color::Black),
            modifier: Some(Modifier::Italic),
        }
    }

    /// The border of a pane, by whether it has the focus.
    pub open spec fn block(is_active: bool) -> Style {
        if is_active {
            Style::active_block()
        } else {
            Style::border()
        }
    }
}

/// The style of a pane's title.
pub fn title_style() -> (style: Style)
    ensures
        style == Style::title(),
{
    Style { fg: Some(Color::LightGreen), bg: Some(Color::Black), modifier: Some(Modifier::Bold) }
}

/// The style of the border of a pane without the focus.
pub fn border_style() -> (style: Style)
    ensures
        style == Style::border(),
{
    Style { fg: Some(Color::White), bg: None, modifier: None }
}

/// The style of the border of the pane with the focus.
pub fn active_block_style() -> (style: Style)
    ensures
        style == Style::active_block(),
{
    Style { fg: Some(Color::Yellow), bg: None, modifier: None }
}

/// The style of the highlighted entry of a pane.
pub fn selected_dir_style() -> (style: Style)
    ensures
        style == Style::selected_dir(),
{
    Style { fg: Some(Color::LightBlue), bg: Some(Color::Black), modifier: Some(Modifier::Italic) }
}

/// The style of a pane's border: the active one where the pane has the
/// focus, the plain one where it has not.
pub fn block_style(is_active: bool) -> (style: Style)
    ensures
        style == Style::block(is_active),
{
    let mut style = active_block_style();
    if !is_active {
        style = border_style();
    }
    style
}

/// A title: the text, in the style of titles.
pub fn title_span(text: &str) -> (span: Span)
    ensures
        span.content@ == text@,
        span.style == Style::title(),
{
    Span { content: text.to_owned(), style: title_style() }
}

} // verus!
