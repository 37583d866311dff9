use vstd::prelude::*;
use crate::style::{Position, Style};

verus! {

/// Soft-wrap settings of the editor.
#[derive(Clone, Copy, Debug)]
pub struct SoftWrap {
    pub enable: bool,
    pub max_wrap: usize,
    pub max_indent_retain: usize,
    pub wrap_indent: usize,
}

/// Which whitespace categories are drawn with their substitute glyphs.
#[derive(Clone, Copy, Debug)]
pub struct WhitespaceRender {
    pub space: bool,
    pub nbsp: bool,
    pub tab: bool,
    pub newline: bool,
}

/// The substitute glyphs for whitespace.
#[derive(Clone, Copy, Debug)]
pub struct WhitespaceCharacters {
    pub space: char,
    pub nbsp: char,
    pub tab: char,
    pub tabpad: char,
    pub newline: char,
}

#[derive(Clone, Copy, Debug)]
pub struct WhitespaceConfig {
    pub render: WhitespaceRender,
    pub characters: WhitespaceCharacters,
}

#[derive(Clone, Copy, Debug)]
pub struct IndentGuidesConfig {
    pub render: bool,
    pub character: char,
    pub skip_levels: u8,
}

/// The editor settings that text layout reads.
#[derive(Clone, Copy, Debug)]
pub struct EditorConfig {
    pub soft_wrap: SoftWrap,
    pub whitespace: WhitespaceConfig,
    pub indent_guides: IndentGuidesConfig,
}

/// The styles of a color theme: the base text style, the whitespace and
/// indent-guide styles, and one style per highlight scope.
#[derive(Debug)]
pub struct Theme {
    pub text: Style,
    pub whitespace: Style,
    pub indent_guide: Option<Style>,
    pub highlights: Vec<Style>,
}

impl Theme {
    pub fn highlight(&self, scope: usize) -> (r: Style)
        requires
            scope < self.highlights@.len(),
        ensures
            r == self.highlights@[scope as int],
    {
        self.highlights[scope]
    }
}

/// Relies on `String::push`: appends one character.
#[verifier::external_body]
pub(crate) fn push_char(s: &mut String, c: char)
    ensures
        final(s)@ == old(s)@.push(c),
{
    s.push(c)
}

/// `first` followed by `n - 1` copies of `rest`.
pub open spec fn glyph_run_spec(first: char, rest: char, n: nat) -> Seq<char> {
    Seq::new(n, |i: int| if i == 0 { first } else { rest })
}

/// Builds `first` followed by `n - 1` copies of `rest` (empty when `n` is 0).
pub fn glyph_run(first: char, rest: char, n: usize) -> (r: String)
    ensures
        r@ == glyph_run_spec(first, rest, n as nat),
{
    let mut s = String::new();
    let mut i: usize = 0;
    while i < n
        invariant
            i <= n,
            s@ == glyph_run_spec(first, rest, i as nat),
        decreases n - i,
    {
        if i == 0 {
            push_char(&mut s, first);
        } else {
            push_char(&mut s, rest);
        }
        assert(s@ =~= glyph_run_spec(first, rest, (i + 1) as nat));
        i = i + 1;
    }
    s
}

/// The string of one character.
pub fn single(c: char) -> (r: String)
    ensures
        r@ == seq![c],
{
    let mut s = String::new();
    push_char(&mut s, c);
    assert(s@ =~= seq![c]);
    s
}

/// Various constants required for text rendering.
#[derive(Debug)]
pub struct TextRenderConfig {
    pub text_style: Style,
    pub whitespace_style: Style,
    pub indent_guide_char: String,
    pub indent_guide_style: Style,
    pub newline: String,
    pub nbsp: String,
    pub space: String,
    pub tab: String,
    pub tab_width: u16,
    pub starting_indent: usize,
}

impl TextRenderConfig {
    /// Tab stops are positive and the tab glyph run holds one glyph per cell.
    pub open spec fn wf(&self) -> bool {
        &&& self.tab_width >= 1
        &&& self.tab@.len() == self.tab_width as nat
    }

    /// The glyph run drawn for a tab, or plain spaces when tabs are not rendered.
    pub open spec fn tab_spec(ws: WhitespaceConfig, tab_width: nat) -> Seq<char> {
        if ws.render.tab {
            glyph_run_spec(ws.characters.tab, ws.characters.tabpad, tab_width)
        } else {
            glyph_run_spec(' ', ' ', tab_width)
        }
    }

    /// The glyph for a whitespace category: its substitute when rendered, else a space.
    pub open spec fn glyph_spec(render: bool, c: char) -> Seq<char> {
        if render { seq![c] } else { seq![' '] }
    }

    /// Resolves the constants of one render pass. `tab_width` is the
    /// document's tab width; `offset` is the scroll position.
    pub fn new(tab_width: usize, editor_config: &EditorConfig, theme: &Theme, offset: &Position) -> (r: TextRenderConfig)
        requires
            1 <= tab_width <= u16::MAX,
            offset.col / tab_width + editor_config.indent_guides.skip_levels <= usize::MAX,
        ensures
            r.wf(),
            r.tab_width == tab_width,
            r.tab@ == Self::tab_spec(editor_config.whitespace, tab_width as nat),
            r.newline@ == Self::glyph_spec(editor_config.whitespace.render.newline, editor_config.whitespace.characters.newline),
            r.space@ == Self::glyph_spec(editor_config.whitespace.render.space, editor_config.whitespace.characters.space),
            r.nbsp@ == Self::glyph_spec(editor_config.whitespace.render.nbsp, editor_config.whitespace.characters.nbsp),
            r.indent_guide_char@ == seq![editor_config.indent_guides.character],
            r.text_style == theme.text,
            r.whitespace_style == theme.whitespace,
            r.indent_guide_style == theme.text.patch_spec(
                match theme.indent_guide { Some(s) => s, None => theme.whitespace },
            ),
            r.starting_indent == offset.col / tab_width + editor_config.indent_guides.skip_levels,
    {
        let ws = editor_config.whitespace;
        let tab = if ws.render.tab {
            glyph_run(ws.characters.tab, ws.characters.tabpad, tab_width)
        } else {
            glyph_run(' ', ' ', tab_width)
        };
        let newline = if ws.render.newline { single(ws.characters.newline) } else { single(' ') };
        let space = if ws.render.space { single(ws.characters.space) } else { single(' ') };
        let nbsp = if ws.render.nbsp { single(ws.characters.nbsp) } else { single(' ') };
        let guide_overlay = match theme.indent_guide {
            Some(s) => s,
            None => theme.whitespace,
        };
        TextRenderConfig {
            text_style: theme.text,
            whitespace_style: theme.whitespace,
            indent_guide_char: single(editor_config.indent_guides.character),
            indent_guide_style: theme.text.patch(guide_overlay),
            newline,
            nbsp,
            space,
            tab,
            tab_width: tab_width as u16,
            starting_indent: offset.col / tab_width + editor_config.indent_guides.skip_levels as usize,
        }
    }
}

} // verus!
