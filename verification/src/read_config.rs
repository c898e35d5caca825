//! Reader configuration: colors and styles, flags, the per-entry preview
//! layout and tag colors.
//!
//! Styles are described as data (the terminal colors, modifiers and layout
//! constraints the terminal interface draws with).
use vstd::prelude::*;
use crate::commands::Commandish;
use crate::entry::{has_tag_fuzzy_spec, Entry, EntryView};

verus! {

/// Terminal colors.
#[derive(Clone, Copy, Debug, PartialEq, Eq, Structural)]
pub enum Color {
    Black,
    Red,
    Green,
    Yellow,
    Blue,
    Magenta,
    Cyan,
    Gray,
    DarkGray,
    LightRed,
    LightGreen,
    LightYellow,
    LightBlue,
    LightMagenta,
    LightCyan,
    White,
}

/// The underline modifier bit.
pub const UNDERLINED: u16 = 0b1000;

/// A text style: colors and the modifiers added and removed.
#[derive(Clone, Copy, Debug, PartialEq, Eq, Structural)]
pub struct Style {
    pub fg: Option<Color>,
    pub bg: Option<Color>,
    pub underline_color: Option<Color>,
    pub add_modifier: u16,
    pub sub_modifier: u16,
}

impl Style {
    /// No colors, no modifiers.
    pub fn default() -> (res: Style)
        ensures
            res == (Style { fg: None, bg: None, underline_color: None, add_modifier: 0, sub_modifier: 0 }),
    {
        Style { fg: None, bg: None, underline_color: None, add_modifier: 0, sub_modifier: 0 }
    }
}

/// The configured color names (ANSI colors).
#[derive(Clone, Copy, Debug, PartialEq, Eq, Structural)]
pub enum ColorLiteral {
    Black,
    Red,
    Green,
    Yellow,
    Blue,
    Magenta,
    Cyan,
    White,
    BrightBlack,
    BrightRed,
    BrightGreen,
    BrightYellow,
    BrightBlue,
    BrightMagenta,
    BrightCyan,
    BrightWhite,
}

/// The terminal color a configured color names: white is the terminal's
/// gray, bright black its dark gray, bright white its white, the other
/// bright colors its light ones.
pub open spec fn color_of(c: ColorLiteral) -> Color {
    match c {
        ColorLiteral::Black => Color::Black,
        ColorLiteral::Red => Color::Red,
        ColorLiteral::Green => Color::Green,
        ColorLiteral::Yellow => Color::Yellow,
        ColorLiteral::Blue => Color::Blue,
        ColorLiteral::Magenta => Color::Magenta,
        ColorLiteral::Cyan => Color::Cyan,
        ColorLiteral::White => Color::Gray,
        ColorLiteral::BrightBlack => Color::DarkGray,
        ColorLiteral::BrightRed => Color::LightRed,
        ColorLiteral::BrightGreen => Color::LightGreen,
        ColorLiteral::BrightYellow => Color::LightYellow,
        ColorLiteral::BrightBlue => Color::LightBlue,
        ColorLiteral::BrightMagenta => Color::LightMagenta,
        ColorLiteral::BrightCyan => Color::LightCyan,
        ColorLiteral::BrightWhite => Color::White,
    }
}

impl ColorLiteral {
    /// The terminal color this names.
    pub fn color(&self) -> (res: Color)
        ensures
            res == color_of(*self),
    {
        match self {
            ColorLiteral::Black => Color::Black,
            ColorLiteral::Red => Color::Red,
            ColorLiteral::Green => Color::Green,
            ColorLiteral::Yellow => Color::Yellow,
            ColorLiteral::Blue => Color::Blue,
            ColorLiteral::Magenta => Color::Magenta,
            ColorLiteral::Cyan => Color::Cyan,
            ColorLiteral::White => Color::Gray,
            ColorLiteral::BrightBlack => Color::DarkGray,
            ColorLiteral::BrightRed => Color::LightRed,
            ColorLiteral::BrightGreen => Color::LightGreen,
            ColorLiteral::BrightYellow => Color::LightYellow,
            ColorLiteral::BrightBlue => Color::LightBlue,
            ColorLiteral::BrightMagenta => Color::LightMagenta,
            ColorLiteral::BrightCyan => Color::LightCyan,
            ColorLiteral::BrightWhite => Color::White,
        }
    }
}

/// The terminal color of an optional configured color.
pub open spec fn opt_color(c: Option<ColorLiteral>) -> Option<Color> {
    match c {
        Some(l) => Some(color_of(l)),
        None => None,
    }
}

fn opt_color_exec(c: &Option<ColorLiteral>) -> (res: Option<Color>)
    ensures
        res == opt_color(*c),
{
    match c {
        Some(l) => Some(l.color()),
        None => None,
    }
}

/// A color configuration: foreground, background and underline colors.
#[derive(Clone, Copy, Debug, PartialEq, Eq, Structural)]
pub struct ColorConfig {
    pub fg: Option<ColorLiteral>,
    pub bg: Option<ColorLiteral>,
    pub underline: Option<ColorLiteral>,
}

/// A style with the configured parts of a color configuration applied: the
/// configured colors replace the style's, and a configured underline color
/// also adds the underline modifier (and stops removing it).
pub open spec fn applied(c: ColorConfig, s: Style) -> Style {
    let s1 = match c.fg { Some(f) => Style { fg: Some(color_of(f)), ..s }, None => s };
    let s2 = match c.bg { Some(b) => Style { bg: Some(color_of(b)), ..s1 }, None => s1 };
    match c.underline {
        Some(u) => Style {
            add_modifier: s2.add_modifier | UNDERLINED,
            sub_modifier: s2.sub_modifier & !UNDERLINED,
            underline_color: Some(color_of(u)),
            ..s2
        },
        None => s2,
    }
}

impl ColorConfig {
    /// Nothing configured.
    pub fn default() -> (res: ColorConfig)
        ensures
            res == (ColorConfig { fg: None, bg: None, underline: None }),
    {
        ColorConfig { fg: None, bg: None, underline: None }
    }

    /// Applies the configured parts to a style.
    pub fn apply_style(&self, style: &mut Style)
        ensures
            *final(style) == applied(*self, *old(style)),
    {
        if let Some(fg) = &self.fg {
            style.fg = Some(fg.color());
        }
        if let Some(bg) = &self.bg {
            style.bg = Some(bg.color());
        }
        if let Some(u) = &self.underline {
            style.sub_modifier = style.sub_modifier & !UNDERLINED;
            style.add_modifier = style.add_modifier | UNDERLINED;
            style.underline_color = Some(u.color());
        }
    }

    /// The style of this configuration alone: its colors, and the underline
    /// modifier when an underline color is configured.
    pub fn style(&self) -> (res: Style)
        ensures
            res == (Style {
                fg: opt_color(self.fg),
                bg: opt_color(self.bg),
                underline_color: opt_color(self.underline),
                add_modifier: if self.underline is Some { UNDERLINED } else { 0 },
                sub_modifier: 0,
            }),
    {
        Style {
            fg: opt_color_exec(&self.fg),
            bg: opt_color_exec(&self.bg),
            underline_color: opt_color_exec(&self.underline),
            add_modifier: if self.underline.is_some() { UNDERLINED } else { 0 },
            sub_modifier: 0,
        }
    }
}

/// Styled text.
#[derive(Debug)]
pub struct Span {
    pub content: String,
    pub style: Style,
}

/// A flag: a symbol and its color.
#[derive(Debug)]
pub struct FlagConfig {
    pub symbol: String,
    pub color: Option<ColorLiteral>,
}

impl FlagConfig {
    /// The flag as a one-character span: the symbol's first character, in
    /// the flag's color; none for an empty symbol.
    pub fn as_span(&self) -> (res: Option<Span>)
        ensures
            self.symbol@.len() == 0 <==> res is None,
            res matches Some(s) ==> s.content@ == seq![self.symbol@[0]] && s.style == (Style {
                fg: opt_color(self.color),
                bg: None,
                underline_color: None,
                add_modifier: 0,
                sub_modifier: 0,
            }),
    {
        let cs = crate::text::chars_of(self.symbol.as_str());
        if cs.len() < 1 {
            return None;
        }
        let first = crate::text::string_of(&cs.as_slice()[0..1]);
        Some(Span { content: first, style: self.style() })
    }

    /// The flag's style: its color as foreground.
    pub fn style(&self) -> (res: Style)
        ensures
            res == (Style { fg: opt_color(self.color), bg: None, underline_color: None, add_modifier: 0, sub_modifier: 0 }),
    {
        Style { fg: opt_color_exec(&self.color), bg: None, underline_color: None, add_modifier: 0, sub_modifier: 0 }
    }
}

/// The parts of an entry's preview line.
#[derive(Clone, Copy, Debug, PartialEq, Eq, Structural)]
pub enum PreviewToken {
    Summary,
    Flags,
    Feed,
}

/// A width constraint of a preview part.
#[derive(Clone, Copy, Debug, PartialEq, Eq, Structural)]
pub enum Constraint {
    /// Takes a share of the remaining width.
    Fill(u16),
    /// At most this many columns.
    Max(u16),
}

/// The constraint of a preview part: the summary fills, the flags take at
/// most 4 columns and the feed at most 12.
pub open spec fn constraint_of(t: PreviewToken) -> Constraint {
    match t {
        PreviewToken::Summary => Constraint::Fill(1),
        PreviewToken::Flags => Constraint::Max(4),
        PreviewToken::Feed => Constraint::Max(12),
    }
}

/// The parts of the preview line, left to right.
#[derive(Debug)]
pub struct PreviewFormat(pub Vec<PreviewToken>);

impl PreviewFormat {
    /// Feed, flags, then summary.
    pub fn default() -> (res: PreviewFormat)
        ensures
            res.0@ == seq![PreviewToken::Feed, PreviewToken::Flags, PreviewToken::Summary],
    {
        PreviewFormat(vec![PreviewToken::Feed, PreviewToken::Flags, PreviewToken::Summary])
    }

    /// The horizontal layout of the preview line: one constraint per part, in order.
    pub fn layout(&self) -> (res: Vec<Constraint>)
        ensures
            res@ == self.0@.map_values(|t: PreviewToken| constraint_of(t)),
    {
        let mut out: Vec<Constraint> = Vec::new();
        let mut i: usize = 0;
        while i < self.0.len()
            invariant
                i <= self.0.len(),
                out@ == self.0@.take(i as int).map_values(|t: PreviewToken| constraint_of(t)),
            decreases self.0.len() - i,
        {
            let c = match self.0[i] {
                PreviewToken::Summary => Constraint::Fill(1),
                PreviewToken::Flags => Constraint::Max(4),
                PreviewToken::Feed => Constraint::Max(12),
            };
            out.push(c);
            assert(self.0@.take(i + 1).map_values(|t: PreviewToken| constraint_of(t))
                =~= self.0@.take(i as int).map_values(|t: PreviewToken| constraint_of(t)).push(constraint_of(self.0@[i as int])));
            i += 1;
        }
        assert(self.0@.take(self.0.len() as int) =~= self.0@);
        out
    }
}

/// The tag or tags a color applies to.
#[derive(Debug)]
pub enum TagOrTags {
    Tag(String),
    Tags(Vec<String>),
}

/// Whether an entry carries (fuzzily, ignoring case) every one of the tags.
pub open spec fn carries_all(t: TagOrTags, e: EntryView) -> bool {
    match t {
        TagOrTags::Tag(s) => has_tag_fuzzy_spec(e, s@),
        TagOrTags::Tags(v) => forall|i: int| #![trigger v@[i]] 0 <= i < v@.len() ==> has_tag_fuzzy_spec(e, v@[i]@),
    }
}

impl TagOrTags {
    /// Whether the entry carries every one of the tags.
    pub fn matches_all(&self, e: &Entry) -> (res: bool)
        ensures
            res == carries_all(*self, e@),
    {
        match self {
            TagOrTags::Tag(s) => e.has_tag_fuzzy(s.as_str()),
            TagOrTags::Tags(v) => {
                let mut i: usize = 0;
                while i < v.len()
                    invariant
                        i <= v.len(),
                        *self == TagOrTags::Tags(*v),
                        forall|k: int| #![trigger v@[k]] 0 <= k < i ==> has_tag_fuzzy_spec(e@, v@[k]@),
                    decreases v.len() - i,
                {
                    if !e.has_tag_fuzzy(v[i].as_str()) {
                        assert(!has_tag_fuzzy_spec(e@, v@[i as int]@));
                        assert(!(forall|k: int| #![trigger v@[k]] 0 <= k < v@.len() ==> has_tag_fuzzy_spec(e@, v@[k]@)));
                        let ghost tv = TagOrTags::Tags(*v);
                        assert(tv matches TagOrTags::Tags(w) && w@ == v@);
                        assert(!carries_all(tv, e@));
                        return false;
                    }
                    i += 1;
                }
                true
            },
        }
    }
}

/// A color for entries carrying tags.
#[derive(Debug)]
pub struct TagColor {
    pub tag: TagOrTags,
    pub color: ColorConfig,
}

impl TagColor {
    /// Whether the color applies to the entry: it carries every tag.
    pub fn matches(&self, e: &Entry) -> (res: bool)
        ensures
            res == carries_all(self.tag, e@),
    {
        self.tag.matches_all(e)
    }

    /// The color's style.
    pub fn style(&self) -> (res: Style)
        ensures
            res == (Style {
                fg: opt_color(self.color.fg),
                bg: opt_color(self.color.bg),
                underline_color: opt_color(self.color.underline),
                add_modifier: if self.color.underline is Some { UNDERLINED } else { 0 },
                sub_modifier: 0,
            }),
    {
        self.color.style()
    }

    /// Applies the color to a style.
    pub fn apply_style(&self, style: &mut Style)
        ensures
            *final(style) == applied(self.color, *old(style)),
    {
        self.color.apply_style(style)
    }
}

/// Tag display configuration.
#[derive(Debug)]
pub struct TagConfig {
    /// Tags not shown.
    pub hidden: Vec<String>,
    /// Tag colors, most important first.
    pub colors: Vec<TagColor>,
}

/// Reader configuration.
#[derive(Debug)]
pub struct ReadConfig {
    pub tags: TagConfig,
    /// Key bindings: key to command.
    pub bindings: Vec<(String, Commandish)>,
    /// Lines scrolled per mouse movement.
    pub scroll: u8,
    /// Rows kept between the cursor and the edge before scrolling.
    pub scroll_buffer: u8,
    /// The initial search command.
    pub initial_search: String,
    pub preview_format: PreviewFormat,
}

impl ReadConfig {
    /// No tag configuration or bindings; scroll 2 lines, keep 3 rows, no
    /// initial search, the default preview.
    pub fn default() -> (res: ReadConfig)
        ensures
            res.tags.hidden@.len() == 0,
            res.tags.colors@.len() == 0,
            res.bindings@.len() == 0,
            res.scroll == 2,
            res.scroll_buffer == 3,
            res.initial_search@.len() == 0,
            res.preview_format.0@ == seq![PreviewToken::Feed, PreviewToken::Flags, PreviewToken::Summary],
    {
        ReadConfig {
            tags: TagConfig { hidden: Vec::new(), colors: Vec::new() },
            bindings: Vec::new(),
            scroll: 2,
            scroll_buffer: 3,
            initial_search: String::new(),
            preview_format: PreviewFormat::default(),
        }
    }
}

} // verus!
