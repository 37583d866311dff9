use vstd::prelude::*;
use crate::config::EditorConfig;
use crate::grapheme::{classify, GraphemeKind, StyledGrapheme};
use crate::style::{Position, Rect, Style};
use crate::text_render::TextRender;

verus! {

/// Wrap limits, scaled down for narrow viewports.
#[derive(Debug, Clone, Copy)]
pub struct DocumentCursorConfig {
    pub max_wrap: usize,
    pub max_indent_retain: usize,
}

pub open spec fn min_nat(a: nat, b: nat) -> nat {
    if a < b { a } else { b }
}

impl DocumentCursorConfig {
    /// Each limit is the configured value, but at most a quarter of the viewport width.
    pub open spec fn new_spec(editor_config: &EditorConfig, viewport: &Rect) -> DocumentCursorConfig {
        DocumentCursorConfig {
            max_wrap: min_nat(editor_config.soft_wrap.max_wrap as nat, viewport.width as nat / 4) as usize,
            max_indent_retain: min_nat(editor_config.soft_wrap.max_indent_retain as nat, viewport.width as nat / 4) as usize,
        }
    }

    pub fn new(editor_config: &EditorConfig, viewport: &Rect) -> (r: DocumentCursorConfig)
        ensures
            r == Self::new_spec(editor_config, viewport),
    {
        // a lower limit keeps wrapping sensible on tiny viewports
        let quarter = viewport.width as usize / 4;
        let max_wrap = if editor_config.soft_wrap.max_wrap < quarter { editor_config.soft_wrap.max_wrap } else { quarter };
        let max_indent_retain = if editor_config.soft_wrap.max_indent_retain < quarter {
            editor_config.soft_wrap.max_indent_retain
        } else {
            quarter
        };
        DocumentCursorConfig { max_wrap, max_indent_retain }
    }
}

/// Why accumulation of a word stopped.
#[derive(PartialEq, Eq, Clone, Copy, Debug, Structural)]
pub enum WordBoundary {
    Space,
    Wrap,
    Newline,
}

/// One grapheme of the source text and its display width.
#[derive(Debug)]
pub struct SourceGrapheme {
    pub raw: String,
    pub width: u16,
}

impl SourceGrapheme {
    pub fn new(raw: String, width: u16) -> (r: SourceGrapheme)
        ensures
            r.raw@ == raw@,
            r.width == width,
    {
        SourceGrapheme { raw, width }
    }

    pub open spec fn kind(&self) -> GraphemeKind {
        classify(self.raw@, self.width)
    }
}

/// A line-ending sequence: CRLF or one of the Unicode line terminators.
pub open spec fn is_line_ending(s: Seq<char>) -> bool {
    s == seq!['\r', '\n'] || (s.len() == 1 && (s[0] == '\n' || s[0] == '\r' || s[0] == '\u{000B}'
        || s[0] == '\u{000C}' || s[0] == '\u{0085}' || s[0] == '\u{2028}' || s[0] == '\u{2029}'))
}

/// Every grapheme holds at least one character.
#[verifier::opaque]
pub open spec fn all_nonempty(g: Seq<SourceGrapheme>) -> bool {
    forall|i: int| 0 <= i < g.len() ==> (#[trigger] g[i]).raw@.len() > 0
}

/// Whether a grapheme ends the word being accumulated.
pub open spec fn ends_word(g: SourceGrapheme) -> bool {
    is_line_ending(g.raw@) || g.kind().is_breaking_space()
}

/// The sum of the minimum widths of the graphemes in `s`.
pub open spec fn width_sum(s: Seq<StyledGrapheme>) -> nat
    decreases s.len(),
{
    if s.len() == 0 { 0 } else { width_sum(s.drop_last()) + s.last().kind().min_width() }
}

/// The number of characters in graphemes `from .. to` of `g`.
pub open spec fn chars_in(g: Seq<SourceGrapheme>, from: int, to: int) -> nat
    decreases to - from,
{
    if to <= from { 0 } else { chars_in(g, from, to - 1) + g[to - 1].raw@.len() }
}

/// The graphemes `from .. to` of `g` that are buffered: all but line endings.
pub open spec fn pending(g: Seq<SourceGrapheme>, from: int, to: int) -> Seq<GraphemeKind>
    decreases to - from,
{
    if to <= from {
        seq![]
    } else {
        let p = pending(g, from, to - 1);
        if is_line_ending(g[to - 1].raw@) { p } else { p.push(g[to - 1].kind()) }
    }
}

pub open spec fn kinds(s: Seq<StyledGrapheme>) -> Seq<GraphemeKind> {
    s.map_values(|x: StyledGrapheme| x.kind())
}

/// The sum of the minimum widths of `s`.
pub open spec fn kinds_width(s: Seq<GraphemeKind>) -> nat
    decreases s.len(),
{
    if s.len() == 0 { 0 } else { kinds_width(s.drop_last()) + s.last().min_width() }
}

proof fn lemma_kinds_width(s: Seq<StyledGrapheme>)
    ensures
        width_sum(s) == kinds_width(kinds(s)),
    decreases s.len(),
{
    if s.len() > 0 {
        lemma_kinds_width(s.drop_last());
        assert(kinds(s).drop_last() =~= kinds(s.drop_last()));
    }
}

pub proof fn lemma_width_sum_bound(s: Seq<StyledGrapheme>)
    ensures
        width_sum(s) <= 65535 * s.len(),
    decreases s.len(),
{
    if s.len() > 0 {
        lemma_width_sum_bound(s.drop_last());
    }
}

pub proof fn lemma_width_sum_split(s: Seq<StyledGrapheme>, k: int)
    requires
        0 <= k <= s.len(),
    ensures
        width_sum(s) == width_sum(s.subrange(0, k)) + width_sum(s.subrange(k, s.len() as int)),
    decreases s.len(),
{
    if s.len() > k {
        lemma_width_sum_split(s.drop_last(), k);
        assert(s.subrange(0, k) =~= s.drop_last().subrange(0, k));
        assert(s.subrange(k, s.len() as int).drop_last() =~= s.drop_last().subrange(k, s.len() - 1));
    } else {
        assert(s.subrange(0, k) =~= s);
        assert(s.subrange(k, s.len() as int) =~= seq![]);
    }
}

/// Buffering graphemes `a .. b` and then `b .. c` buffers `a .. c`.
pub proof fn lemma_pending_append(g: Seq<SourceGrapheme>, a: int, b: int, c: int)
    requires
        a <= b <= c,
    ensures
        pending(g, a, c) == pending(g, a, b) + pending(g, b, c),
    decreases c - b,
{
    if c == b {
        assert(pending(g, a, b) + pending(g, b, c) =~= pending(g, a, b));
    } else {
        lemma_pending_append(g, a, b, c - 1);
        assert(pending(g, a, b) + pending(g, b, c - 1).push(g[c - 1].kind()) =~= (pending(g, a, b) + pending(g, b, c - 1)).push(
            g[c - 1].kind(),
        ));
    }
}

proof fn lemma_chars_in_mono(g: Seq<SourceGrapheme>, from: int, mid: int, to: int)
    requires
        from <= mid <= to,
    ensures
        chars_in(g, from, to) == chars_in(g, from, mid) + chars_in(g, mid, to),
    decreases to - mid,
{
    if to > mid {
        lemma_chars_in_mono(g, from, mid, to - 1);
    }
}

/// Walks the source text grapheme by grapheme, buffering a word until a
/// boundary is reached.
#[derive(Debug)]
pub struct DocumentCursor {
    pub config: DocumentCursorConfig,
    /// Character index of the next grapheme.
    pub char_pos: usize,
    pub word_buf: Vec<StyledGrapheme>,
    pub word_width: usize,
    /// The text, segmented into graphemes.
    pub graphemes: Vec<SourceGrapheme>,
    /// Index of the next grapheme in `graphemes`.
    pub next: usize,
    /// Position within the document.
    pub pos: Position,
    /// End (exclusive) of the current highlight scope and its style.
    pub highlight_scope: (usize, Style),
}

impl DocumentCursor {
    pub open spec fn wf(&self) -> bool {
        &&& self.next <= self.graphemes@.len()
        &&& self.word_width == width_sum(self.word_buf@)
        &&& self.word_buf@.len() <= self.next
        &&& self.pos.col <= self.char_pos
        &&& self.char_pos + chars_in(self.graphemes@, self.next as int, self.graphemes@.len() as int) <= usize::MAX
        &&& self.pos.row + (self.graphemes@.len() - self.next) <= usize::MAX
        &&& self.graphemes@.len() * 65535 <= usize::MAX
        &&& all_nonempty(self.graphemes@)
    }

    /// A cursor at the start of `text`, whose first character is character
    /// `start_char` of line `start_line` of the document.
    pub fn new(text: Vec<SourceGrapheme>, start_line: usize, start_char: usize, editor_config: &EditorConfig, viewport: &Rect) -> (r: DocumentCursor)
        requires
            start_char + chars_in(text@, 0, text@.len() as int) <= usize::MAX,
            start_line + text@.len() <= usize::MAX,
            text@.len() * 65535 <= usize::MAX,
            all_nonempty(text@),
        ensures
            r.wf(),
            r.graphemes@ == text@,
            r.next == 0,
            r.char_pos == start_char,
            r.pos == (Position { row: start_line, col: 0 }),
            r.word_buf@.len() == 0,
            r.highlight_scope == (0usize, Style::empty_spec()),
            r.config == DocumentCursorConfig::new_spec(editor_config, viewport),
    {
        DocumentCursor {
            config: DocumentCursorConfig::new(editor_config, viewport),
            char_pos: start_char,
            word_buf: Vec::new(),
            word_width: 0,
            graphemes: text,
            next: 0,
            pos: Position { row: start_line, col: 0 },
            highlight_scope: (0, Style::empty()),
        }
    }

    pub fn doc_position(&self) -> (r: Position)
        ensures
            r == self.pos,
    {
        self.pos
    }

    /// Installs `style` for the characters `scope_char_start .. scope_char_end`;
    /// the scope must start where the cursor stands.
    pub fn set_highlight_scope(&mut self, scope_char_start: usize, scope_char_end: usize, style: Style)
        requires
            old(self).char_pos == scope_char_start,
        ensures
            *final(self) == (DocumentCursor { highlight_scope: (scope_char_end, style), ..*old(self) }),
    {
        self.highlight_scope = (scope_char_end, style);
    }

    pub fn get_highlight_scope(&self) -> (r: (usize, Style))
        ensures
            r == self.highlight_scope,
    {
        self.highlight_scope
    }

    pub fn word_width(&self) -> (r: usize)
        ensures
            r == self.word_width,
    {
        self.word_width
    }

    /// The cursor has moved from `old` to `self` by buffering graphemes in
    /// the current highlight scope, none of which ended a word but possibly the last.
    pub open spec fn advanced_from(&self, old: &DocumentCursor) -> bool {
        let g = old.graphemes@;
        &&& self.wf()
        &&& self.config == old.config
        &&& self.graphemes == old.graphemes
        &&& self.highlight_scope == old.highlight_scope
        &&& old.next <= self.next
        &&& self.char_pos == old.char_pos + chars_in(g, old.next as int, self.next as int)
        &&& self.word_buf@.subrange(0, old.word_buf@.len() as int) == old.word_buf@
        &&& kinds(self.word_buf@) == kinds(old.word_buf@) + pending(g, old.next as int, self.next as int)
        &&& forall|i: int| old.word_buf@.len() <= i < self.word_buf@.len() ==> #[trigger] self.word_buf@[i].style == old.highlight_scope.1
        &&& forall|j: int| old.next <= j < self.next - 1 ==> !ends_word(#[trigger] g[j])
    }

    /// Buffers graphemes until a word boundary: `Space` after a breaking
    /// space, `Newline` at a line ending, `Wrap` once the word is at least
    /// `space_left` wide, and `None` when the highlight scope or the text ends.
    pub fn advance(&mut self, space_left: usize) -> (r: Option<WordBoundary>)
        requires
            old(self).wf(),
        ensures
            final(self).advanced_from(old(self)),
            r.is_some() ==> final(self).next > old(self).next,
            r == Some(WordBoundary::Newline) ==> {
                &&& is_line_ending(final(self).graphemes@[final(self).next - 1].raw@)
                &&& final(self).pos == (Position { row: (old(self).pos.row + 1) as usize, col: 0 })
            },
            r != Some(WordBoundary::Newline) ==> final(self).pos.row == old(self).pos.row
                && final(self).pos.col == old(self).pos.col + chars_in(old(self).graphemes@, old(self).next as int, final(self).next as int),
            r == Some(WordBoundary::Space) ==> final(self).graphemes@[final(self).next - 1].kind().is_breaking_space()
                && !is_line_ending(final(self).graphemes@[final(self).next - 1].raw@),
            forall|j: int| old(self).next < j < final(self).next ==> kinds_width(
                kinds(old(self).word_buf@) + #[trigger] pending(old(self).graphemes@, old(self).next as int, j),
            ) < space_left,
            r == Some(WordBoundary::Wrap) ==> final(self).word_width >= space_left
                && !ends_word(final(self).graphemes@[final(self).next - 1]),
            old(self).char_pos >= old(self).highlight_scope.0 ==> r is None && *final(self) == *old(self),
            // a scope end on a grapheme boundary is never passed
            forall|k: int| old(self).next <= k <= old(self).graphemes@.len()
                && old(self).char_pos + #[trigger] chars_in(old(self).graphemes@, old(self).next as int, k) == old(self).highlight_scope.0
                ==> final(self).next <= k,
            r.is_some() ==> final(self).char_pos > old(self).char_pos,
            r is None ==> {
                &&& final(self).char_pos >= final(self).highlight_scope.0 || final(self).next == final(self).graphemes@.len()
                &&& final(self).next > old(self).next ==> !ends_word(final(self).graphemes@[final(self).next - 1])
            },
    {
        let ghost start = *self;
        assert(self.word_buf@.subrange(0, start.word_buf@.len() as int) =~= start.word_buf@);
        assert(kinds(self.word_buf@) =~= kinds(start.word_buf@) + pending(start.graphemes@, start.next as int, start.next as int));
        loop
            invariant
                self.advanced_from(&start),
                start == *old(self),
                start.wf(),
                self.next == start.next ==> *self == start,
                start.char_pos >= start.highlight_scope.0 ==> self.next == start.next,
                forall|k: int| start.next <= k < self.next ==> start.char_pos + #[trigger] chars_in(start.graphemes@, start.next as int, k)
                    < start.highlight_scope.0,
                self.next > start.next ==> self.char_pos > start.char_pos,
                self.next > start.next ==> !ends_word(self.graphemes@[self.next - 1]),
                self.pos.row == start.pos.row,
                self.pos.col == start.pos.col + chars_in(start.graphemes@, start.next as int, self.next as int),
                self.next > start.next ==> self.word_width < space_left,
                forall|j: int| start.next < j <= self.next ==> kinds_width(
                    kinds(start.word_buf@) + #[trigger] pending(start.graphemes@, start.next as int, j),
                ) < space_left,
            decreases self.graphemes@.len() - self.next,
        {
            if self.char_pos >= self.highlight_scope.0 {
                return None;
            }
            if self.next >= self.graphemes.len() {
                return None;
            }
            let ghost before = *self;
            let raw = self.graphemes[self.next].raw.clone();
            let width = self.graphemes[self.next].width;
            let codepoints = raw.as_str().unicode_len();
            proof {
                reveal(all_nonempty);
                let g = self.graphemes@;
                lemma_chars_in_mono(g, self.next as int, self.next + 1, g.len() as int);
                lemma_chars_in_mono(g, start.next as int, self.next as int, self.next + 1);
                assert(chars_in(g, self.next as int, self.next + 1) == g[self.next as int].raw@.len());
                lemma_width_sum_bound(self.word_buf@);
                assert((self.word_buf@.len() + 1) * 65535 <= usize::MAX) by (nonlinear_arith)
                    requires self.word_buf@.len() + 1 <= g.len(), g.len() * 65535 <= usize::MAX;
            }
            self.next = self.next + 1;
            self.pos.col = self.pos.col + codepoints;
            self.char_pos = self.char_pos + codepoints;
            let style = self.highlight_scope.1;
            let word_end = self.push_grapheme(raw, width, style);
            proof {
                let g = self.graphemes@;
                let j = (self.next - 1) as int;
                assert(pending(g, start.next as int, self.next as int) == if is_line_ending(g[j].raw@) {
                    pending(g, start.next as int, j)
                } else {
                    pending(g, start.next as int, j).push(g[j].kind())
                });
                assert(kinds(before.word_buf@).len() == before.word_buf@.len());
                assert(kinds(start.word_buf@).len() == start.word_buf@.len());
                if is_line_ending(g[j].raw@) {
                    assert(self.word_buf@ == before.word_buf@);
                } else {
                    let last = self.word_buf@.last();
                    assert(self.word_buf@ == before.word_buf@.push(last));
                    assert(kinds(self.word_buf@) =~= kinds(before.word_buf@).push(last.kind()));
                    assert(self.word_buf@.subrange(0, start.word_buf@.len() as int) =~= before.word_buf@.subrange(
                        0,
                        start.word_buf@.len() as int,
                    ));
                }
                assert(self.word_buf@.subrange(0, start.word_buf@.len() as int) =~= start.word_buf@);
                assert(kinds(self.word_buf@) =~= kinds(start.word_buf@) + pending(g, start.next as int, self.next as int));
                lemma_width_sum_bound(self.word_buf@);
                assert forall|i: int| start.word_buf@.len() <= i < self.word_buf@.len() implies #[trigger] self.word_buf@[i].style
                    == start.highlight_scope.1 by {
                    if i < before.word_buf@.len() {
                        assert(self.word_buf@[i] == before.word_buf@[i]);
                    }
                }
            }
            if let Some(boundary) = word_end {
                return Some(boundary);
            }
            // the word fills the line: let the caller decide whether to wrap
            if self.word_width >= space_left {
                return Some(WordBoundary::Wrap);
            }
            proof {
                lemma_kinds_width(self.word_buf@);
                assert(kinds_width(kinds(start.word_buf@) + pending(start.graphemes@, start.next as int, self.next as int))
                    < space_left);
            }
        }
    }

    /// Hands out the buffered word and empties the buffer.
    pub fn take_word_buf(&mut self) -> (r: Vec<StyledGrapheme>)
        requires
            old(self).wf(),
        ensures
            r@ == old(self).word_buf@,
            final(self).wf(),
            final(self).word_buf@.len() == 0,
            final(self).word_width == 0,
            final(self).config == old(self).config,
            final(self).char_pos == old(self).char_pos,
            final(self).graphemes == old(self).graphemes,
            final(self).next == old(self).next,
            final(self).pos == old(self).pos,
            final(self).highlight_scope == old(self).highlight_scope,
    {
        let mut taken = Vec::new();
        core::mem::swap(&mut taken, &mut self.word_buf);
        self.word_width = 0;
        taken
    }

    /// Draws the leading graphemes of the buffered word on `text_render` for
    /// as long as each fits, by its minimum width, in the space left on the
    /// line; the rest stays buffered. Returns how many were drawn.
    #[verifier::rlimit(100)]
    pub fn take_word_buf_until(&mut self, text_render: &mut TextRender) -> (taken: usize)
        requires
            old(self).wf(),
            old(text_render).wf(),
            old(text_render).line_spec() < old(text_render).viewport_spec().height,
        ensures
            taken <= old(self).word_buf@.len(),
            final(self).word_buf@ == old(self).word_buf@.subrange(taken as int, old(self).word_buf@.len() as int),
            final(self).wf(),
            final(self).config == old(self).config,
            final(self).char_pos == old(self).char_pos,
            final(self).graphemes == old(self).graphemes,
            final(self).next == old(self).next,
            final(self).pos == old(self).pos,
            final(self).highlight_scope == old(self).highlight_scope,
            final(text_render).wf(),
            final(text_render).same_frame(old(text_render)),
            final(text_render).line_spec() == old(text_render).line_spec(),
            final(text_render).prev_indent_spec() == old(text_render).prev_indent_spec(),
            final(text_render).view() == old(text_render).frame().draw_all(
                old(text_render).view(),
                old(self).word_buf@.subrange(0, taken as int),
            ),
            forall|i: int| 0 <= i < taken ==> old(text_render).frame().fits(
                old(text_render).frame().draw_all(old(text_render).view(), old(self).word_buf@.subrange(0, i)),
                #[trigger] old(self).word_buf@[i],
            ),
            taken < old(self).word_buf@.len() ==> !old(text_render).frame().fits(
                final(text_render).view(),
                old(self).word_buf@[taken as int],
            ),
    {
        let ghost all = self.word_buf@;
        let ghost tr0 = *text_render;
        let mut rest = Vec::new();
        core::mem::swap(&mut rest, &mut self.word_buf);
        let mut taken: usize = 0;
        assert(all.subrange(0, 0) =~= Seq::<StyledGrapheme>::empty());
        assert(all.subrange(0, all.len() as int) =~= all);
        loop
            invariant
                0 <= taken <= all.len(),
                rest@ == all.subrange(taken as int, all.len() as int),
                self.word_width == width_sum(rest@),
                all == old(self).word_buf@,
                all.len() <= self.next,
                tr0 == *old(text_render),
                self.config == old(self).config,
                self.char_pos == old(self).char_pos,
                self.graphemes == old(self).graphemes,
                self.next == old(self).next,
                self.pos == old(self).pos,
                self.highlight_scope == old(self).highlight_scope,
                old(self).wf(),
                text_render.wf(),
                text_render.same_frame(&tr0),
                text_render.line_spec() == tr0.line_spec(),
                text_render.prev_indent_spec() == tr0.prev_indent_spec(),
                text_render.line_spec() < text_render.viewport_spec().height,
                text_render.view() == tr0.frame().draw_all(tr0.view(), all.subrange(0, taken as int)),
                forall|i: int| 0 <= i < taken ==> tr0.frame().fits(tr0.frame().draw_all(tr0.view(), all.subrange(0, i)), #[trigger] all[i]),
            ensures
                taken < all.len() ==> !tr0.frame().fits(text_render.view(), all[taken as int]),
            decreases rest.len(),
        {
            if rest.len() == 0 {
                break;
            }
            if text_render.space_left() < rest[0].min_width() as usize {
                assert(rest@[0] == all[taken as int]);
                break;
            }
            let ghost before = text_render.view();
            let g = rest.remove(0);
            proof {
                assert(tr0.frame().fits(before, all[taken as int]));
                assert forall|i: int| 0 <= i < taken + 1 implies tr0.frame().fits(tr0.frame().draw_all(tr0.view(), all.subrange(0, i)), #[trigger] all[i]) by {
                    if i == taken {
                        assert(tr0.frame().draw_all(tr0.view(), all.subrange(0, i)) == before);
                    }
                }
                let s = all.subrange(taken as int, all.len() as int);
                lemma_width_sum_split(s, 1);
                assert(s.subrange(0, 1).drop_last() =~= Seq::<StyledGrapheme>::empty());
                assert(s.subrange(0, 1).last() == s[0]);
                assert(s[0] == g);
                reveal_with_fuel(width_sum, 2);
                assert(width_sum(s.subrange(0, 1)) == g.kind().min_width());
                assert(s.subrange(1, s.len() as int) =~= rest@);
                assert(all.subrange(0, taken + 1).drop_last() =~= all.subrange(0, taken as int));
                assert(g == all[taken as int]);
            }
            self.word_width = self.word_width - g.min_width() as usize;
            text_render.draw_grapheme(g);
            taken = taken + 1;
            assert(rest@ =~= all.subrange(taken as int, all.len() as int));
        }
        self.word_buf = rest;
        assert(self.word_buf@.len() <= all.len());
        taken
    }

    /// Adds one grapheme to the current word. A line ending is not buffered:
    /// it moves the position to the start of the next row and reports `Newline`.
    /// A breaking space is buffered and reports `Space`.
    pub fn push_grapheme(&mut self, raw: String, width: u16, style: Style) -> (r: Option<WordBoundary>)
        requires
            old(self).word_width == width_sum(old(self).word_buf@),
            old(self).pos.row < usize::MAX,
            (old(self).word_buf@.len() + 1) * 65535 <= usize::MAX,
        ensures
            final(self).config == old(self).config,
            final(self).char_pos == old(self).char_pos,
            final(self).graphemes == old(self).graphemes,
            final(self).next == old(self).next,
            final(self).highlight_scope == old(self).highlight_scope,
            final(self).word_width == width_sum(final(self).word_buf@),
            is_line_ending(raw@) ==> {
                &&& r == Some(WordBoundary::Newline)
                &&& final(self).pos == (Position { row: (old(self).pos.row + 1) as usize, col: 0 })
                &&& final(self).word_buf@ == old(self).word_buf@
            },
            !is_line_ending(raw@) ==> {
                let g = final(self).word_buf@.last();
                &&& final(self).word_buf@ == old(self).word_buf@.push(g)
                &&& g.kind() == classify(raw@, width)
                &&& g.style == style
                &&& final(self).pos == old(self).pos
                &&& r == if g.kind().is_breaking_space() { Some(WordBoundary::Space) } else { None }
            },
    {
        if line_ending(raw.as_str()) {
            // the caller decides how to draw the end of the line
            self.pos.row = self.pos.row + 1;
            self.pos.col = 0;
            return Some(WordBoundary::Newline);
        }
        let grapheme = StyledGrapheme::new(raw, width, style);
        proof {
            lemma_width_sum_bound(self.word_buf@);
            assert(65535 * self.word_buf@.len() + 65535 <= usize::MAX) by (nonlinear_arith)
                requires (self.word_buf@.len() + 1) * 65535 <= usize::MAX;
        }
        self.word_width = self.word_width + grapheme.min_width() as usize;
        let word_end = if grapheme.is_breaking_space() { Some(WordBoundary::Space) } else { None };
        let ghost before = self.word_buf@;
        self.word_buf.push(grapheme);
        assert(self.word_buf@.drop_last() =~= before);
        word_end
    }
}

/// Whether `s` is one line-ending sequence.
fn line_ending(s: &str) -> (r: bool)
    ensures
        r == is_line_ending(s@),
{
    let n = s.unicode_len();
    if n == 1 {
        let c = s.get_char(0);
        proof {
            assert(seq!['\r', '\n'].len() == 2);
        }
        c == '\n' || c == '\r' || c == '\u{000B}' || c == '\u{000C}' || c == '\u{0085}' || c == '\u{2028}'
            || c == '\u{2029}'
    } else if n == 2 {
        let first = s.get_char(0);
        let second = s.get_char(1);
        proof {
            let crlf = seq!['\r', '\n'];
            assert(crlf[0] == '\r' && crlf[1] == '\n');
            if first == '\r' && second == '\n' {
                assert(s@ =~= crlf);
            }
        }
        first == '\r' && second == '\n'
    } else {
        proof {
            assert(seq!['\r', '\n'].len() == 2);
        }
        false
    }
}

} // verus!
