use vstd::prelude::*;
use crate::config::{EditorConfig, Theme};
use crate::cursor::{all_nonempty, chars_in, ends_word, is_line_ending, kinds, width_sum, lemma_pending_append, pending, DocumentCursor, SourceGrapheme, WordBoundary};
use crate::grapheme::{Grapheme, StyledGrapheme};
use crate::style::{Position, Rect, Style};
use crate::text_render::{IndentLevel, TextRender};

verus! {

/// One event of the syntax highlighter's stream.
#[derive(Debug, Clone, Copy, PartialEq, Eq, Structural)]
pub enum HighlightEvent {
    /// A scope opens; its style is the theme's highlight with this index.
    HighlightStart(usize),
    /// The innermost open scope closes.
    HighlightEnd,
    /// The characters `start .. end` carry the scopes open now.
    Source { start: usize, end: usize },
}

/// The base style with the style of each open scope laid over it, innermost last.
pub open spec fn fold_style(base: Style, spans: Seq<usize>, highlights: Seq<Style>) -> Style
    decreases spans.len(),
{
    if spans.len() == 0 {
        base
    } else {
        fold_style(base, spans.drop_last(), highlights).patch_spec(highlights[spans.last() as int])
    }
}

/// The stack of open scopes after the events `from .. to`; closing with
/// nothing open leaves the stack empty.
pub open spec fn stack_after(spans: Seq<usize>, events: Seq<HighlightEvent>, from: int, to: int) -> Seq<usize>
    decreases to - from,
{
    if to <= from {
        spans
    } else {
        let s = stack_after(spans, events, from, to - 1);
        match events[to - 1] {
            HighlightEvent::HighlightStart(h) => s.push(h),
            HighlightEvent::HighlightEnd => if s.len() > 0 { s.drop_last() } else { s },
            HighlightEvent::Source { .. } => s,
        }
    }
}

proof fn lemma_chars_prefix(g: Seq<SourceGrapheme>, i: int, n: int)
    requires
        0 <= i <= n,
    ensures
        chars_in(g, 0, i) <= chars_in(g, 0, n),
    decreases n - i,
{
    if i < n {
        lemma_chars_prefix(g, i, n - 1);
    }
}

/// Reading on after drawing `ws` keeps the account of what was read.
proof fn lemma_read_more(
    ws: Seq<StyledGrapheme>,
    buf0: Seq<StyledGrapheme>,
    c0: DocumentCursor,
    c1: DocumentCursor,
    g: Seq<SourceGrapheme>,
    start: int,
)
    requires
        c1.advanced_from(&c0),
        c0.graphemes@ == g,
        start <= c0.next,
        kinds(ws) + kinds(c0.word_buf@) == kinds(buf0) + pending(g, start, c0.next as int),
    ensures
        kinds(ws) + kinds(c1.word_buf@) == kinds(buf0) + pending(g, start, c1.next as int),
{
    lemma_pending_append(g, start, c0.next as int, c1.next as int);
    let p1 = pending(g, c0.next as int, c1.next as int);
    assert(kinds(ws) + (kinds(c0.word_buf@) + p1) =~= (kinds(ws) + kinds(c0.word_buf@)) + p1);
    assert((kinds(buf0) + pending(g, start, c0.next as int)) + p1 =~= kinds(buf0) + (pending(g, start, c0.next as int) + p1));
}

/// Reading on keeps the graphemes already held, in order, and gives the new
/// ones the style of the scope they were read in.
proof fn lemma_read_keeps(
    ws: Seq<StyledGrapheme>,
    buf0: Seq<StyledGrapheme>,
    c0: DocumentCursor,
    c1: DocumentCursor,
    same_scope: bool,
    style: Style,
)
    requires
        c1.advanced_from(&c0),
        ws.len() + c0.word_buf@.len() >= buf0.len(),
        forall|i: int| 0 <= i < buf0.len() ==> #[trigger] (ws + c0.word_buf@)[i] == buf0[i],
        same_scope ==> c0.highlight_scope.1 == style,
        same_scope ==> forall|i: int| buf0.len() <= i < ws.len() + c0.word_buf@.len() ==> #[trigger] (ws + c0.word_buf@)[i].style == style,
    ensures
        ws.len() + c1.word_buf@.len() >= buf0.len(),
        forall|i: int| 0 <= i < buf0.len() ==> #[trigger] (ws + c1.word_buf@)[i] == buf0[i],
        same_scope ==> forall|i: int| buf0.len() <= i < ws.len() + c1.word_buf@.len() ==> #[trigger] (ws + c1.word_buf@)[i].style == style,
{
    let a = ws + c0.word_buf@;
    let b = ws + c1.word_buf@;
    assert(kinds(c1.word_buf@).len() == c1.word_buf@.len());
    assert(kinds(c0.word_buf@).len() == c0.word_buf@.len());
    assert forall|i: int| 0 <= i < a.len() implies #[trigger] b[i] == a[i] by {
        if i >= ws.len() {
            assert(c1.word_buf@.subrange(0, c0.word_buf@.len() as int)[i - ws.len()] == c0.word_buf@[i - ws.len()]);
        }
    }
    if same_scope {
        assert forall|i: int| buf0.len() <= i < b.len() implies #[trigger] b[i].style == style by {
            if i < a.len() {
                assert(b[i] == a[i]);
            } else {
                assert(c1.word_buf@[i - ws.len()].style == c0.highlight_scope.1);
            }
        }
    }
    assert forall|i: int| 0 <= i < buf0.len() implies #[trigger] b[i] == buf0[i] by {
        assert(b[i] == a[i]);
    }
}

proof fn lemma_kinds_concat(a: Seq<StyledGrapheme>, b: Seq<StyledGrapheme>)
    ensures
        kinds(a + b) == kinds(a) + kinds(b),
{
    assert(kinds(a + b) =~= kinds(a) + kinds(b));
}

proof fn lemma_kinds_split(s: Seq<StyledGrapheme>, k: int)
    requires
        0 <= k <= s.len(),
    ensures
        kinds(s) == kinds(s.subrange(0, k)) + kinds(s.subrange(k, s.len() as int)),
{
    assert(kinds(s) =~= kinds(s.subrange(0, k)) + kinds(s.subrange(k, s.len() as int)));
}

/// No source range from event `k` on covers a character.
pub open spec fn no_source_from(events: Seq<HighlightEvent>, k: int) -> bool {
    forall|j: int| k <= j < events.len() ==> !is_nonempty_source(#[trigger] events[j])
}

/// A source range that covers at least one character.
pub open spec fn is_nonempty_source(e: HighlightEvent) -> bool {
    match e {
        HighlightEvent::Source { start, end } => start != end,
        _ => false,
    }
}

/// The indentation a continuation line keeps after a soft wrap: the wrapped
/// line's known indentation if it is at most `max_indent_retain`, else none.
pub open spec fn continuation_indent(level: IndentLevel, max_indent_retain: usize) -> IndentLevel {
    match level {
        IndentLevel::Known(i) => if i <= max_indent_retain { IndentLevel::Known(i) } else { IndentLevel::Disabled },
        _ => IndentLevel::Disabled,
    }
}

/// The column a line with indentation `level` starts at.
pub open spec fn start_col(level: IndentLevel) -> nat {
    match level {
        IndentLevel::Known(i) => i as nat,
        _ => 0,
    }
}

/// Renders a document one visual line per call, soft-wrapping words and
/// styling them by the highlight events.
#[derive(Debug)]
pub struct DocumentRender {
    pub config: EditorConfig,
    pub theme: Theme,
    /// Character index just past the end of the text.
    pub text_end: usize,
    pub highlights: Vec<HighlightEvent>,
    /// Index of the next highlight event.
    pub next_event: usize,
    pub cursor: DocumentCursor,
    /// The open highlight scopes, innermost last.
    pub spans: Vec<usize>,
    pub finished: bool,
}

impl DocumentRender {
    pub open spec fn wf(&self) -> bool {
        &&& self.cursor.wf()
        &&& self.next_event <= self.highlights@.len()
        &&& forall|i: int| 0 <= i < self.spans@.len() ==> #[trigger] self.spans@[i] < self.theme.highlights@.len()
        &&& forall|i: int, h: usize| 0 <= i < self.highlights@.len() && self.highlights@[i] == HighlightEvent::HighlightStart(h)
            ==> h < self.theme.highlights@.len()
    }

    /// Every scope that the events open has a style in the theme.
    pub open spec fn scopes_styled(highlights: Seq<HighlightEvent>, theme: &Theme) -> bool {
        forall|i: int, h: usize| 0 <= i < highlights.len() && highlights[i] == HighlightEvent::HighlightStart(h)
            ==> h < theme.highlights@.len()
    }

    /// Starts rendering `text`, the graphemes of the document from character
    /// `char_offset` on, which lies on line `offset.row`, and installs the
    /// first highlight scope.
    pub fn new(
        config: &EditorConfig,
        theme: Theme,
        text: Vec<SourceGrapheme>,
        highlights: Vec<HighlightEvent>,
        viewport: Rect,
        offset: Position,
        char_offset: usize,
        text_render: &TextRender,
    ) -> (r: DocumentRender)
        requires
            Self::scopes_styled(highlights@, &theme),
            char_offset + chars_in(text@, 0, text@.len() as int) <= usize::MAX,
            offset.row + text@.len() <= usize::MAX,
            text@.len() * 65535 <= usize::MAX,
            all_nonempty(text@),
        ensures
            r.wf(),
            r.config == *config,
            r.theme == theme,
            r.highlights@ == highlights@,
            r.text_end == char_offset + chars_in(text@, 0, text@.len() as int),
            r.cursor.graphemes@ == text@,
            r.cursor.next == 0,
            r.cursor.char_pos == char_offset,
            r.cursor.pos == (Position { row: offset.row, col: 0 }),
            r.cursor.word_buf@.len() == 0,
            r.next_event <= highlights@.len(),
            r.spans@ == stack_after(seq![], highlights@, 0, r.next_event as int),
            forall|j: int| 0 <= j < r.next_event - 1 ==> !is_nonempty_source(#[trigger] highlights@[j]),
            r.finished == forall|j: int| 0 <= j < highlights@.len() ==> !is_nonempty_source(#[trigger] highlights@[j]),
            !r.finished ==> match highlights@[r.next_event - 1] {
                HighlightEvent::Source { end, .. } => r.cursor.highlight_scope == (end, fold_style(
                    text_render.config.text_style,
                    r.spans@,
                    theme.highlights@,
                )),
                _ => false,
            },
    {
        let mut text_end = char_offset;
        let mut i: usize = 0;
        while i < text.len()
            invariant
                i <= text@.len(),
                text_end == char_offset + chars_in(text@, 0, i as int),
                char_offset + chars_in(text@, 0, text@.len() as int) <= usize::MAX,
            decreases text@.len() - i,
        {
            proof {
                lemma_chars_prefix(text@, i as int + 1, text@.len() as int);
            }
            text_end = text_end + text[i].raw.as_str().unicode_len();
            i = i + 1;
        }
        let cursor = DocumentCursor::new(text, offset.row, char_offset, config, &viewport);
        let mut render = DocumentRender {
            config: *config,
            theme,
            text_end,
            highlights,
            next_event: 0,
            cursor,
            spans: Vec::new(),
            finished: false,
        };
        assert(render.spans@ =~= seq![]);
        // install the first highlight scope
        render.advance_highlight_scope(text_render);
        render
    }

    /// Returns the line in the document that will be rendered next.
    pub fn doc_line(&self) -> (r: usize)
        ensures
            r == self.cursor.pos.row,
    {
        self.cursor.doc_position().row
    }

    /// Returns whether rendering has finished, because the viewport is full
    /// or the text has ended.
    pub fn finished(&self) -> (r: bool)
        ensures
            r == self.finished,
    {
        self.finished
    }

    /// Pulls highlight events until a source range that covers a character,
    /// and installs it with the style of the scopes open there. When the
    /// events run out, rendering is finished. A range that does not start at
    /// the cursor is installed from the cursor's position.
    pub fn advance_highlight_scope(&mut self, text_render: &TextRender)
        requires
            old(self).wf(),
            !old(self).finished,
        ensures
            final(self).wf(),
            final(self).config == old(self).config,
            final(self).theme == old(self).theme,
            final(self).text_end == old(self).text_end,
            final(self).highlights == old(self).highlights,
            old(self).next_event <= final(self).next_event,
            final(self).spans@ == stack_after(old(self).spans@, old(self).highlights@, old(self).next_event as int, final(self).next_event as int),
            forall|j: int| old(self).next_event <= j < final(self).next_event - 1 ==> !is_nonempty_source(#[trigger] old(self).highlights@[j]),
            final(self).cursor.highlight_scope.1 == fold_style(text_render.config.text_style, final(self).spans@, old(self).theme.highlights@)
                || final(self).finished,
            final(self).finished == (old(self).finished || (final(self).next_event == old(self).highlights@.len()
                && (final(self).next_event == old(self).next_event || !is_nonempty_source(old(self).highlights@[final(self).next_event - 1])))),
            !final(self).finished ==> {
                &&& final(self).next_event > old(self).next_event
                &&& is_nonempty_source(old(self).highlights@[final(self).next_event - 1])
                &&& match old(self).highlights@[final(self).next_event - 1] {
                    HighlightEvent::Source { end, .. } => final(self).cursor.highlight_scope.0 == end,
                    _ => false,
                }
            },
            final(self).cursor == (DocumentCursor { highlight_scope: final(self).cursor.highlight_scope, ..old(self).cursor }),
            final(self).finished && !old(self).finished ==> final(self).cursor == old(self).cursor,
    {
        let ghost start = self.next_event;
        let ghost spans0 = self.spans@;
        while self.next_event < self.highlights.len()
            invariant
                self.wf(),
                self.config == old(self).config,
                self.theme == old(self).theme,
                self.text_end == old(self).text_end,
                self.highlights == old(self).highlights,
                self.finished == old(self).finished,
                self.cursor == old(self).cursor,
                start == old(self).next_event,
                spans0 == old(self).spans@,
                start <= self.next_event,
                self.spans@ == stack_after(spans0, self.highlights@, start as int, self.next_event as int),
                forall|j: int| start <= j < self.next_event ==> !is_nonempty_source(#[trigger] self.highlights@[j]),
            decreases self.highlights@.len() - self.next_event,
        {
            let event = self.highlights[self.next_event];
            self.next_event = self.next_event + 1;
            match event {
                HighlightEvent::HighlightStart(span) => {
                    self.spans.push(span);
                },
                HighlightEvent::HighlightEnd => {
                    self.spans.pop();
                },
                HighlightEvent::Source { start: range_start, end } => {
                    if range_start != end {
                        let style = self.scope_style(text_render);
                        let at = self.cursor.char_pos;
                        self.cursor.set_highlight_scope(at, end, style);
                        return;
                    }
                },
            }
            assert(self.spans@ =~= stack_after(spans0, self.highlights@, start as int, self.next_event as int));
        }
        self.finished = true;
    }

    /// Both renderers agree on what they may draw next.
    pub open spec fn ready(&self, text_render: &TextRender) -> bool {
        &&& self.wf()
        &&& text_render.wf()
        &&& !self.finished ==> text_render.line_spec() < text_render.viewport_spec().height
    }

    /// Draws the buffered word.
    fn render_word(&mut self, text_render: &mut TextRender)
        requires
            old(self).wf(),
            old(text_render).wf(),
            old(text_render).line_spec() < old(text_render).viewport_spec().height,
        ensures
            *final(self) == (DocumentRender { cursor: final(self).cursor, ..*old(self) }),
            final(self).wf(),
            final(self).cursor.word_buf@.len() == 0,
            final(self).cursor == (DocumentCursor { word_buf: final(self).cursor.word_buf, word_width: 0, ..old(self).cursor }),
            final(text_render).wf(),
            final(text_render).same_frame(old(text_render)),
            final(text_render).line_spec() == old(text_render).line_spec(),
            final(text_render).prev_indent_spec() == old(text_render).prev_indent_spec(),
            final(text_render).view() == old(text_render).frame().draw_all(old(text_render).view(), old(self).cursor.word_buf@),
    {
        let word = self.cursor.take_word_buf();
        text_render.draw_graphemes(word);
    }

    /// Draws the indent guides of the line, if they are enabled.
    fn finish_line(&mut self, text_render: &mut TextRender)
        requires
            old(text_render).wf(),
            old(text_render).line_spec() < old(text_render).viewport_spec().height,
        ensures
            *final(self) == *old(self),
            final(text_render).wf(),
            final(text_render).same_frame(old(text_render)),
            final(text_render).line_spec() == old(text_render).line_spec(),
            final(text_render).col_spec() == old(text_render).col_spec(),
            final(text_render).indent_spec() == old(text_render).indent_spec(),
            final(text_render).prev_indent_spec() == old(text_render).prev_indent_spec(),
            final(text_render).ops_spec() == old(text_render).frame().closing(
                old(text_render).view(),
                old(text_render).prev_indent_spec(),
                old(self).config.indent_guides.render,
            ),
    {
        if self.config.indent_guides.render {
            text_render.draw_indent_guides();
        }
    }

    /// Finishes the line and moves to the next one with indentation `next_indent_level`.
    fn advance_line(&mut self, next_indent_level: IndentLevel, text_render: &mut TextRender)
        requires
            old(text_render).wf(),
            old(text_render).line_spec() < old(text_render).viewport_spec().height,
        ensures
            *final(self) == *old(self),
            final(text_render).wf(),
            final(text_render).same_frame(old(text_render)),
            final(text_render).line_spec() == old(text_render).line_spec() + 1,
            final(text_render).prev_indent_spec() == match old(text_render).indent_spec() {
                IndentLevel::Known(i) => i as nat,
                _ => old(text_render).prev_indent_spec(),
            },
            final(text_render).col_spec() == start_col(next_indent_level),
            final(text_render).indent_spec() == next_indent_level,
            final(text_render).ops_spec() == old(text_render).frame().closing(
                old(text_render).view(),
                old(text_render).prev_indent_spec(),
                old(self).config.indent_guides.render,
            ),
    {
        self.finish_line(text_render);
        text_render.advance_to_next_line(next_indent_level);
    }

    /// Performs a soft wrap. A word wider than `max_wrap` is broken: its
    /// leading graphemes are drawn while they fit. The continuation line
    /// keeps the wrapped line's indentation if that is at most
    /// `max_indent_retain`, and starts `wrap_indent` columns further in.
    pub fn wrap_line(&mut self, text_render: &mut TextRender)
        requires
            old(self).wf(),
            old(text_render).wf(),
            old(text_render).line_spec() < old(text_render).viewport_spec().height,
        ensures
            final(self).wf(),
            *final(self) == (DocumentRender { cursor: final(self).cursor, ..*old(self) }),
            final(text_render).wf(),
            final(text_render).same_frame(old(text_render)),
            final(text_render).line_spec() == old(text_render).line_spec() + 1,
            old(self).cursor.word_width <= old(self).cursor.config.max_wrap ==> final(self).cursor == old(self).cursor,
            final(self).cursor.pos == old(self).cursor.pos,
            final(self).cursor.config == old(self).cursor.config,
            final(self).cursor == (DocumentCursor {
                word_buf: final(self).cursor.word_buf,
                word_width: final(self).cursor.word_width,
                ..old(self).cursor
            }),
            ({
                let buf = old(self).cursor.word_buf@;
                let taken = buf.len() - final(self).cursor.word_buf@.len();
                let mid = old(text_render).frame().draw_all(old(text_render).view(), buf.subrange(0, taken));
                let level = continuation_indent(mid.indent, old(self).cursor.config.max_indent_retain);
                &&& 0 <= taken <= buf.len()
                &&& final(self).cursor.word_buf@ == buf.subrange(taken, buf.len() as int)
                &&& final(text_render).indent_spec() == level
                &&& final(text_render).col_spec() == (start_col(level) as usize).saturating_add(old(self).config.soft_wrap.wrap_indent)
                &&& final(text_render).prev_indent_spec() == match mid.indent {
                    IndentLevel::Known(i) => i as nat,
                    _ => old(text_render).prev_indent_spec(),
                }
                &&& final(text_render).ops_spec() == old(text_render).frame().closing(
                    mid,
                    old(text_render).prev_indent_spec(),
                    old(self).config.indent_guides.render,
                )
                &&& old(self).cursor.word_width <= old(self).cursor.config.max_wrap ==> taken == 0
                &&& forall|i: int| 0 <= i < taken ==> old(text_render).frame().fits(
                    old(text_render).frame().draw_all(old(text_render).view(), buf.subrange(0, i)),
                    #[trigger] buf[i],
                )
                &&& old(self).cursor.word_width > old(self).cursor.config.max_wrap && taken < buf.len()
                    ==> !old(text_render).frame().fits(mid, buf[taken])
            }),
    {
        let ghost buf = self.cursor.word_buf@;
        let ghost tr0 = *text_render;
        if self.cursor.word_width() > self.cursor.config.max_wrap {
            // the word can never fit a line: break inside it
            self.cursor.take_word_buf_until(text_render);
        } else {
            assert(buf.subrange(0, 0) =~= Seq::<StyledGrapheme>::empty());
            assert(buf.subrange(0, buf.len() as int) =~= buf);
        }
        let ghost mid = text_render.view();
        let indent_level = match text_render.indent_level() {
            IndentLevel::Known(level) => {
                if level <= self.cursor.config.max_indent_retain {
                    IndentLevel::Known(level)
                } else {
                    IndentLevel::Disabled
                }
            },
            _ => IndentLevel::Disabled,
        };
        let ghost pre = *text_render;
        self.advance_line(indent_level, text_render);
        assert(pre.frame() == tr0.frame());
        text_render.skip(self.config.soft_wrap.wrap_indent);
    }

    /// The space drawn at a line end or past the end of the text, where a cursor can show.
    pub open spec fn cursor_cell(style: Style) -> StyledGrapheme {
        StyledGrapheme { grapheme: Grapheme::Space, style }
    }

    /// A soft wrap: after drawing the words `w`, the word `word` reached the
    /// space left on the line. A word wider than `max_wrap` is broken: its first
    /// `taken` graphemes are drawn, each fitting, and the next one does not fit.
    pub open spec fn wrapped(
        o: DocumentRender,
        n: DocumentRender,
        t0: TextRender,
        ws: Seq<StyledGrapheme>,
        w: Seq<StyledGrapheme>,
        word: Seq<StyledGrapheme>,
        taken: int,
    ) -> bool {
        let f = t0.frame();
        let before = f.draw_all(t0.view(), w);
        let budget = ((f.col_offset + f.viewport.width as nat) as usize).saturating_sub(before.col as usize);
        let over = width_sum(word) > o.cursor.config.max_wrap;
        &&& 0 <= taken <= word.len()
        &&& ws == w + word.subrange(0, taken)
        &&& n.cursor.word_buf@ == word.subrange(taken, word.len() as int)
        &&& width_sum(word) >= budget
        &&& !over ==> taken == 0
        &&& forall|i: int| 0 <= i < taken ==> f.fits(f.draw_all(before, word.subrange(0, i)), #[trigger] word[i])
        &&& over && taken < word.len() ==> !f.fits(f.draw_all(before, word.subrange(0, taken)), word[taken])
    }

    /// One call of `render_line` took the render from `o`, `t0` to `n`, `t1`,
    /// drawing the graphemes `ws` (the buffered word, then the graphemes read,
    /// less what stays buffered) and then ending the line in one of three ways.
    pub open spec fn drew(o: DocumentRender, n: DocumentRender, t0: TextRender, t1: TextRender, ws: Seq<StyledGrapheme>) -> bool {
        let f = t0.frame();
        let mid = f.draw_all(t0.view(), ws);
        let g = o.cursor.graphemes@;
        let guides = o.config.indent_guides.render;
        let p0 = t0.prev_indent_spec();
        let full = t1.line_spec() >= t1.viewport_spec().height;
        &&& kinds(ws) + kinds(n.cursor.word_buf@) == kinds(o.cursor.word_buf@) + pending(g, o.cursor.next as int, n.cursor.next as int)
        &&& forall|i: int| 0 <= i < o.cursor.word_buf@.len() ==> #[trigger] (ws + n.cursor.word_buf@)[i] == o.cursor.word_buf@[i]
        &&& n.next_event == o.next_event ==> forall|i: int| o.cursor.word_buf@.len() <= i < ws.len() + n.cursor.word_buf@.len()
            ==> #[trigger] (ws + n.cursor.word_buf@)[i].style == o.cursor.highlight_scope.1
        &&& forall|j: int| o.cursor.next <= j < n.cursor.next - 1 ==> !is_line_ending(#[trigger] g[j].raw@)
        &&& t1.same_frame(&t0)
        &&& {
            // a line ending: the end-of-line cell, then a fresh line of unknown indentation
            ||| {
                let e = f.draw_step(mid, Self::cursor_cell(n.cursor.highlight_scope.1));
                &&& o.cursor.next < n.cursor.next
                &&& is_line_ending(g[n.cursor.next - 1].raw@)
                &&& n.cursor.pos.row == o.cursor.pos.row + 1
                &&& n.cursor.word_buf@.len() == 0
                &&& t1.ops_spec() == f.closing(e, p0, guides)
                &&& t1.line_spec() == t0.line_spec() + 1
                &&& t1.indent_spec() == IndentLevel::Unknown
                &&& t1.col_spec() == 0
                &&& t1.prev_indent_spec() == match e.indent {
                    IndentLevel::Known(i) => i as nat,
                    _ => p0,
                }
                &&& n.finished == full
            }
            // a soft wrap: the continuation line keeps a small enough indentation
            ||| {
                let level = continuation_indent(mid.indent, o.cursor.config.max_indent_retain);
                &&& o.config.soft_wrap.enable
                &&& o.cursor.next < n.cursor.next
                &&& !is_line_ending(g[n.cursor.next - 1].raw@)
                &&& exists|w: Seq<StyledGrapheme>, word: Seq<StyledGrapheme>, taken: int| #[trigger] Self::wrapped(o, n, t0, ws, w, word, taken)
                &&& n.cursor.pos.row == o.cursor.pos.row
                &&& t1.ops_spec() == f.closing(mid, p0, guides)
                &&& t1.line_spec() == t0.line_spec() + 1
                &&& t1.indent_spec() == level
                &&& t1.col_spec() == (start_col(level) as usize).saturating_add(o.config.soft_wrap.wrap_indent)
                &&& t1.prev_indent_spec() == match mid.indent {
                    IndentLevel::Known(i) => i as nat,
                    _ => p0,
                }
                &&& n.finished == full
            }
            // the end of the text: the last word, a cell for a cursor past the
            // end, the guides; no source range is left after the last one read
            ||| {
                let e = if n.cursor.highlight_scope.0 > n.text_end {
                    f.draw_step(mid, Self::cursor_cell(n.cursor.highlight_scope.1))
                } else {
                    mid
                };
                &&& n.finished
                &&& n.cursor.next > o.cursor.next ==> !is_line_ending(g[n.cursor.next - 1].raw@)
                &&& n.cursor.pos.row == o.cursor.pos.row
                &&& n.cursor.word_buf@.len() == 0
                &&& n.cursor.char_pos >= n.cursor.highlight_scope.0 || n.cursor.next == g.len()
                &&& t1.ops_spec() == f.closing(e, p0, guides)
                &&& t1.line_spec() == t0.line_spec()
                &&& t1.col_spec() == e.col
                &&& t1.indent_spec() == e.indent
                &&& t1.prev_indent_spec() == p0
                &&& n.next_event == n.highlights@.len()
                &&& exists|k: int| {
                    &&& o.next_event <= k <= n.highlights@.len()
                    &&& (k == o.next_event || is_nonempty_source(n.highlights@[k - 1]))
                    &&& #[trigger] no_source_from(n.highlights@, k)
                }
            }
        }
    }

    /// Renders the next visual line of the document: a whole line, or the
    /// part of it up to a soft wrap. Each call that does not finish
    /// rendering moves to the next viewport line; once finished, calls do nothing.
    #[verifier::rlimit(100)]
    pub fn render_line(&mut self, text_render: &mut TextRender)
        requires
            old(self).ready(old(text_render)),
        ensures
            final(self).ready(final(text_render)),
            final(text_render).same_frame(old(text_render)),
            final(self).config == old(self).config,
            final(self).theme == old(self).theme,
            final(self).highlights == old(self).highlights,
            final(self).text_end == old(self).text_end,
            old(self).finished ==> *final(self) == *old(self) && *final(text_render) == *old(text_render),
            !old(self).finished ==> exists|ws: Seq<StyledGrapheme>| #[trigger] Self::drew(*old(self), *final(self), *old(text_render), *final(text_render), ws),
    {
        if self.finished {
            return;
        }
        let ghost tr0 = *text_render;
        let ghost f = text_render.frame();
        let ghost g = self.cursor.graphemes@;
        let ghost mut ws: Seq<StyledGrapheme> = seq![];
        assert(kinds(ws) + kinds(self.cursor.word_buf@) =~= kinds(old(self).cursor.word_buf@) + pending(g, self.cursor.next as int, self.cursor.next as int));
        loop
            invariant
                self.wf(),
                !self.finished,
                text_render.wf(),
                text_render.same_frame(&tr0),
                text_render.line_spec() == tr0.line_spec(),
                text_render.line_spec() < text_render.viewport_spec().height,
                text_render.prev_indent_spec() == tr0.prev_indent_spec(),
                text_render.view() == f.draw_all(tr0.view(), ws),
                f == tr0.frame(),
                tr0 == *old(text_render),
                !old(self).finished,
                g == old(self).cursor.graphemes@,
                self.cursor.graphemes@ == g,
                old(self).cursor.next <= self.cursor.next,
                kinds(ws) + kinds(self.cursor.word_buf@) == kinds(old(self).cursor.word_buf@) + pending(g, old(self).cursor.next as int, self.cursor.next as int),
                self.next_event == old(self).next_event || is_nonempty_source(self.highlights@[self.next_event - 1]),
                old(self).next_event <= self.next_event,
                ws.len() + self.cursor.word_buf@.len() >= old(self).cursor.word_buf@.len(),
                forall|i: int| 0 <= i < old(self).cursor.word_buf@.len() ==> #[trigger] (ws + self.cursor.word_buf@)[i] == old(self).cursor.word_buf@[i],
                self.next_event == old(self).next_event ==> self.cursor.highlight_scope == old(self).cursor.highlight_scope,
                self.next_event == old(self).next_event ==> forall|i: int| old(self).cursor.word_buf@.len() <= i < ws.len() + self.cursor.word_buf@.len()
                    ==> #[trigger] (ws + self.cursor.word_buf@)[i].style == old(self).cursor.highlight_scope.1,
                forall|j: int| old(self).cursor.next <= j < self.cursor.next ==> !is_line_ending(#[trigger] g[j].raw@),
                self.cursor.pos.row == old(self).cursor.pos.row,
                self.cursor.config == old(self).cursor.config,
                self.config == old(self).config,
                self.theme == old(self).theme,
                self.highlights == old(self).highlights,
                self.text_end == old(self).text_end,
            decreases self.highlights@.len() - self.next_event,
        {
            let ghost event_at = self.next_event;
            loop
                invariant
                    self.next_event == event_at,
                    event_at == old(self).next_event || is_nonempty_source(self.highlights@[event_at - 1]),
                    old(self).next_event <= event_at,
                    self.wf(),
                    !self.finished,
                    text_render.wf(),
                    text_render.same_frame(&tr0),
                    text_render.line_spec() == tr0.line_spec(),
                    text_render.line_spec() < text_render.viewport_spec().height,
                    text_render.prev_indent_spec() == tr0.prev_indent_spec(),
                    text_render.view() == f.draw_all(tr0.view(), ws),
                    f == tr0.frame(),
                    tr0 == *old(text_render),
                    !old(self).finished,
                    g == old(self).cursor.graphemes@,
                    self.cursor.graphemes@ == g,
                    old(self).cursor.next <= self.cursor.next,
                    kinds(ws) + kinds(self.cursor.word_buf@) == kinds(old(self).cursor.word_buf@) + pending(g, old(self).cursor.next as int, self.cursor.next as int),
                    ws.len() + self.cursor.word_buf@.len() >= old(self).cursor.word_buf@.len(),
                    forall|i: int| 0 <= i < old(self).cursor.word_buf@.len() ==> #[trigger] (ws + self.cursor.word_buf@)[i] == old(self).cursor.word_buf@[i],
                    self.next_event == old(self).next_event ==> self.cursor.highlight_scope == old(self).cursor.highlight_scope,
                    self.next_event == old(self).next_event ==> forall|i: int| old(self).cursor.word_buf@.len() <= i < ws.len() + self.cursor.word_buf@.len()
                        ==> #[trigger] (ws + self.cursor.word_buf@)[i].style == old(self).cursor.highlight_scope.1,
                    forall|j: int| old(self).cursor.next <= j < self.cursor.next ==> !is_line_ending(#[trigger] g[j].raw@),
                    self.cursor.pos.row == old(self).cursor.pos.row,
                    self.cursor.config == old(self).cursor.config,
                    self.config == old(self).config,
                    self.theme == old(self).theme,
                    self.highlights == old(self).highlights,
                    self.text_end == old(self).text_end,
                ensures
                    self.cursor.char_pos >= self.cursor.highlight_scope.0 || self.cursor.next == g.len(),
                decreases self.cursor.graphemes@.len() - self.cursor.next,
            {
                let budget = if self.config.soft_wrap.enable {
                    text_render.space_left()
                } else {
                    // bounds the work per word on long lines
                    64
                };
                let ghost c0 = self.cursor;
                let boundary = match self.cursor.advance(budget) {
                    Some(b) => b,
                    None => {
                        proof {
                            lemma_read_more(ws, old(self).cursor.word_buf@, c0, self.cursor, g, old(self).cursor.next as int);
                            lemma_read_keeps(ws, old(self).cursor.word_buf@, c0, self.cursor, self.next_event == old(self).next_event, old(self).cursor.highlight_scope.1);
                        }
                        break;
                    },
                };
                proof {
                    lemma_read_more(ws, old(self).cursor.word_buf@, c0, self.cursor, g, old(self).cursor.next as int);
                    lemma_read_keeps(ws, old(self).cursor.word_buf@, c0, self.cursor, self.next_event == old(self).next_event, old(self).cursor.highlight_scope.1);
                }
                if self.config.soft_wrap.enable && boundary == WordBoundary::Wrap {
                    let ghost buf = self.cursor.word_buf@;
                    let ghost w = ws;
                    assert(budget == ((f.col_offset + f.viewport.width as nat) as usize).saturating_sub(f.draw_all(tr0.view(), w).col as usize));
                    self.wrap_line(text_render);
                    proof {
                        let taken = buf.len() - self.cursor.word_buf@.len();
                        assert(w + buf.subrange(0, taken) + buf.subrange(taken, buf.len() as int) =~= w + buf);
                        f.lemma_draw_all_append(tr0.view(), ws, buf.subrange(0, taken));
                        lemma_kinds_split(buf, taken);
                        lemma_kinds_concat(ws, buf.subrange(0, taken));
                        assert(kinds(ws) + kinds(buf.subrange(0, taken)) + kinds(buf.subrange(taken, buf.len() as int))
                            =~= kinds(ws) + kinds(buf));
                        ws = ws + buf.subrange(0, taken);
                        assert(kinds(ws) + kinds(self.cursor.word_buf@) =~= kinds(old(self).cursor.word_buf@) + pending(g, old(self).cursor.next as int, self.cursor.next as int));
                    }
                    if text_render.reached_viewport_end() {
                        self.finished = true;
                    }
                    proof {
                        let taken = buf.len() - self.cursor.word_buf@.len();
                        assert(Self::wrapped(*old(self), *self, tr0, ws, w, buf, taken));
                    }
                    assert(Self::drew(*old(self), *self, tr0, *text_render, ws));
                    return;
                }
                let ghost buf = self.cursor.word_buf@;
                self.render_word(text_render);
                proof {
                    f.lemma_draw_all_append(tr0.view(), ws, buf);
                    lemma_kinds_concat(ws, buf);
                    assert(ws + buf + self.cursor.word_buf@ =~= ws + buf);
                    ws = ws + buf;
                    assert(kinds(ws) + kinds(self.cursor.word_buf@) =~= kinds(old(self).cursor.word_buf@) + pending(g, old(self).cursor.next as int, self.cursor.next as int));
                }
                if boundary == WordBoundary::Newline {
                    let style = self.cursor.get_highlight_scope().1;
                    text_render.draw_grapheme(StyledGrapheme { grapheme: Grapheme::Space, style });
                    self.advance_line(IndentLevel::Unknown, text_render);
                    self.finished = text_render.reached_viewport_end();
                    assert(Self::drew(*old(self), *self, tr0, *text_render, ws));
                    return;
                }
                if text_render.reached_viewport_end() {
                    self.finished = true;
                    return;
                }
            }
            self.advance_highlight_scope(text_render);
            if self.finished {
                // the text has ended: draw what is left of the last line
                let ghost buf = self.cursor.word_buf@;
                self.render_word(text_render);
                proof {
                    f.lemma_draw_all_append(tr0.view(), ws, buf);
                    lemma_kinds_concat(ws, buf);
                    assert(ws + buf + self.cursor.word_buf@ =~= ws + buf);
                    ws = ws + buf;
                    assert(kinds(ws) + kinds(self.cursor.word_buf@) =~= kinds(old(self).cursor.word_buf@) + pending(g, old(self).cursor.next as int, self.cursor.next as int));
                }
                if self.cursor.get_highlight_scope().0 > self.text_end {
                    // the cursor past the end of the text is drawn as a space
                    let style = self.cursor.get_highlight_scope().1;
                    text_render.draw_grapheme(StyledGrapheme { grapheme: Grapheme::Space, style });
                }
                self.finish_line(text_render);
                proof {
                    let ev = self.highlights@;
                    assert forall|j: int| event_at <= j < ev.len() implies !is_nonempty_source(#[trigger] ev[j]) by {
                        assert(j < ev.len() - 1 || j == ev.len() - 1);
                    }
                    if event_at > old(self).next_event {
                        assert(is_nonempty_source(ev[event_at - 1]));
                    } else {
                    }
                    assert(no_source_from(ev, event_at as int));
                }
                assert(Self::drew(*old(self), *self, tr0, *text_render, ws));
                return;
            }
            if text_render.reached_viewport_end() {
                self.finish_line(text_render);
                self.finished = true;
                return;
            }
        }
    }

    /// The text style with the open scopes' styles laid over it in order.
    fn scope_style(&self, text_render: &TextRender) -> (r: Style)
        requires
            self.wf(),
        ensures
            r == fold_style(text_render.config.text_style, self.spans@, self.theme.highlights@),
    {
        let mut acc = text_render.config.text_style;
        let mut i: usize = 0;
        while i < self.spans.len()
            invariant
                self.wf(),
                i <= self.spans@.len(),
                acc == fold_style(text_render.config.text_style, self.spans@.subrange(0, i as int), self.theme.highlights@),
            decreases self.spans@.len() - i,
        {
            assert(self.spans@.subrange(0, i + 1).drop_last() =~= self.spans@.subrange(0, i as int));
            acc = acc.patch(self.theme.highlight(self.spans[i]));
            i = i + 1;
        }
        assert(self.spans@.subrange(0, i as int) =~= self.spans@);
        acc
    }
}

} // verus!
