use vstd::prelude::*;
use crate::config::TextRenderConfig;
use crate::style::Style;

verus! {

/// One user-perceived character of the text, classified for layout.
#[derive(Debug)]
pub enum Grapheme {
    Space,
    Nbsp,
    Tab,
    Other { raw: String, width: u16 },
}

/// The classification of a grapheme's characters, given its display width.
pub open spec fn classify(raw: Seq<char>, width: u16) -> GraphemeKind {
    if raw == seq!['\t'] {
        GraphemeKind::Tab
    } else if raw == seq![' '] {
        GraphemeKind::Space
    } else if raw == seq!['\u{00A0}'] {
        GraphemeKind::Nbsp
    } else {
        GraphemeKind::Other { raw, width }
    }
}

/// What a grapheme is, without its storage.
pub ghost enum GraphemeKind {
    Space,
    Nbsp,
    Tab,
    Other { raw: Seq<char>, width: u16 },
}

/// The width of a tab drawn at column `x`: it fills up to the next tab stop.
pub open spec fn tab_fill(x: nat, tab_width: nat) -> nat
    recommends
        tab_width > 0,
{
    (tab_width - x % tab_width) as nat
}

impl GraphemeKind {
    pub open spec fn min_width(self) -> nat {
        match self {
            GraphemeKind::Other { width, .. } => width as nat,
            _ => 1,
        }
    }

    pub open spec fn is_whitespace(self) -> bool {
        !(self is Other)
    }

    pub open spec fn is_breaking_space(self) -> bool {
        self is Space || self is Tab
    }

    /// The characters a grapheme stands for in the text.
    pub open spec fn source_text(self) -> Seq<char> {
        match self {
            GraphemeKind::Space => seq![' '],
            GraphemeKind::Nbsp => seq!['\u{00A0}'],
            GraphemeKind::Tab => seq!['\t'],
            GraphemeKind::Other { raw, .. } => raw,
        }
    }

    /// The width a grapheme takes when drawn at column `x`.
    pub open spec fn display_width(self, x: nat, tab_width: nat) -> nat {
        match self {
            GraphemeKind::Tab => tab_fill(x, tab_width),
            _ => self.min_width(),
        }
    }

    /// The glyphs drawn for a grapheme at column `x`.
    pub open spec fn display_text(self, x: nat, config: TextRenderConfig) -> Seq<char> {
        match self {
            GraphemeKind::Tab => config.tab@.subrange(0, tab_fill(x, config.tab_width as nat) as int),
            GraphemeKind::Space => config.space@,
            GraphemeKind::Nbsp => config.nbsp@,
            GraphemeKind::Other { raw, .. } => raw,
        }
    }
}

impl Grapheme {
    pub open spec fn kind(&self) -> GraphemeKind {
        match self {
            Grapheme::Space => GraphemeKind::Space,
            Grapheme::Nbsp => GraphemeKind::Nbsp,
            Grapheme::Tab => GraphemeKind::Tab,
            Grapheme::Other { raw, width } => GraphemeKind::Other { raw: raw@, width: *width },
        }
    }

    /// Classifies the characters `raw` of one grapheme whose display width is `width`.
    pub fn from_raw(raw: String, width: u16) -> (r: Grapheme)
        ensures
            r.kind() == classify(raw@, width),
    {
        let n = raw.as_str().unicode_len();
        if n == 1 {
            let c = raw.as_str().get_char(0);
            if c == '\t' {
                assert(raw@ =~= seq!['\t']);
                return Grapheme::Tab;
            } else if c == ' ' {
                assert(raw@ =~= seq![' ']);
                return Grapheme::Space;
            } else if c == '\u{00A0}' {
                assert(raw@ =~= seq!['\u{00A0}']);
                return Grapheme::Nbsp;
            }
        }
        proof {
            if n == 1 {
                assert(raw@ != seq!['\t'] && raw@ != seq![' '] && raw@ != seq!['\u{00A0}']) by {
                    assert(raw@[0] != '\t' && raw@[0] != ' ' && raw@[0] != '\u{00A0}');
                    assert(seq!['\t'][0] == '\t');
                    assert(seq![' '][0] == ' ');
                    assert(seq!['\u{00A0}'][0] == '\u{00A0}');
                }
            } else {
                assert(seq!['\t'].len() == 1);
            }
        }
        Grapheme::Other { raw, width }
    }

    /// Returns the approximate visual width of this grapheme,
    /// a lower bound used during soft wrapping; a tab may take more.
    pub fn min_width(&self) -> (r: u16)
        ensures
            r as nat == self.kind().min_width(),
    {
        match self {
            Grapheme::Other { width, .. } => *width,
            _ => 1,
        }
    }

    /// The display width and glyphs of this grapheme drawn at column `visual_x`.
    pub fn into_display(self, visual_x: usize, config: &TextRenderConfig) -> (r: (u16, String))
        requires
            config.wf(),
        ensures
            r.0 as nat == self.kind().display_width(visual_x as nat, config.tab_width as nat),
            r.1@ == self.kind().display_text(visual_x as nat, *config),
    {
        match self {
            Grapheme::Tab => {
                let visual_tab_width = config.tab_width - (visual_x % config.tab_width as usize) as u16;
                let shown = config.tab.as_str().substring_char(0, visual_tab_width as usize);
                (visual_tab_width, shown.to_owned())
            },
            Grapheme::Space => (1, config.space.clone()),
            Grapheme::Nbsp => (1, config.nbsp.clone()),
            Grapheme::Other { raw, width } => (width, raw),
        }
    }

    pub fn is_whitespace(&self) -> (r: bool)
        ensures
            r == self.kind().is_whitespace(),
    {
        !matches!(self, Grapheme::Other { .. })
    }

    pub fn is_breaking_space(&self) -> (r: bool)
        ensures
            r == self.kind().is_breaking_space(),
    {
        matches!(self, Grapheme::Space | Grapheme::Tab)
    }
}

/// A grapheme ready for drawing, with its resolved style.
#[derive(Debug)]
pub struct StyledGrapheme {
    pub grapheme: Grapheme,
    pub style: Style,
}

impl StyledGrapheme {
    pub open spec fn kind(&self) -> GraphemeKind {
        self.grapheme.kind()
    }

    /// The style drawn: whitespace gets the whitespace style on top.
    pub open spec fn style_spec(&self, config: TextRenderConfig) -> Style {
        if self.kind().is_whitespace() {
            self.style.patch_spec(config.whitespace_style)
        } else {
            self.style
        }
    }

    pub fn placeholder() -> (r: StyledGrapheme)
        ensures
            r.kind() == GraphemeKind::Space,
            r.style == Style::empty_spec(),
    {
        StyledGrapheme { grapheme: Grapheme::Space, style: Style::empty() }
    }

    pub fn new(raw: String, width: u16, style: Style) -> (r: StyledGrapheme)
        ensures
            r.kind() == classify(raw@, width),
            r.style == style,
    {
        StyledGrapheme { grapheme: Grapheme::from_raw(raw, width), style }
    }

    pub fn is_whitespace(&self) -> (r: bool)
        ensures
            r == self.kind().is_whitespace(),
    {
        self.grapheme.is_whitespace()
    }

    pub fn is_breaking_space(&self) -> (r: bool)
        ensures
            r == self.kind().is_breaking_space(),
    {
        self.grapheme.is_breaking_space()
    }

    pub fn style(&self, config: &TextRenderConfig) -> (r: Style)
        ensures
            r == self.style_spec(*config),
    {
        if self.is_whitespace() {
            self.style.patch(config.whitespace_style)
        } else {
            self.style
        }
    }

    pub fn min_width(&self) -> (r: u16)
        ensures
            r as nat == self.kind().min_width(),
    {
        self.grapheme.min_width()
    }

    /// Width, glyphs and style of this grapheme drawn at column `visual_x`.
    pub fn into_display(self, visual_x: usize, config: &TextRenderConfig) -> (r: (u16, String, Style))
        requires
            config.wf(),
        ensures
            r.0 as nat == self.kind().display_width(visual_x as nat, config.tab_width as nat),
            r.1@ == self.kind().display_text(visual_x as nat, *config),
            r.2 == self.style_spec(*config),
    {
        let style = self.style(config);
        let (width, raw) = self.grapheme.into_display(visual_x, config);
        (width, raw, style)
    }
}

} // verus!
