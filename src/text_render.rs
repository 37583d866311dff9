use vstd::prelude::*;
use crate::config::TextRenderConfig;
use crate::grapheme::StyledGrapheme;
use crate::style::{Rect, Style};

verus! {

/// One write to the drawing surface.
#[derive(Debug)]
pub enum DrawOp {
    /// Writes `text` starting at cell (`x`, `y`).
    Text { x: u16, y: u16, text: String, style: Style },
    /// Applies `style` to `area` without changing its content.
    Restyle { area: Rect, style: Style },
}

/// What a draw operation does, with its glyphs as characters.
pub ghost enum DrawSpec {
    Text { x: u16, y: u16, text: Seq<char>, style: Style },
    Restyle { area: Rect, style: Style },
}

impl DrawOp {
    pub open spec fn view(&self) -> DrawSpec {
        match self {
            DrawOp::Text { x, y, text, style } => DrawSpec::Text { x: *x, y: *y, text: text@, style: *style },
            DrawOp::Restyle { area, style } => DrawSpec::Restyle { area: *area, style: *style },
        }
    }
}

/// The operations of a sequence of draw writes.
pub open spec fn ops_view(ops: Seq<DrawOp>) -> Seq<DrawSpec> {
    ops.map_values(|o: DrawOp| o@)
}

/// The part of a render pass that drawing on one line changes.
pub ghost struct RenderView {
    pub col: nat,
    pub indent: IndentLevel,
    pub ops: Seq<DrawSpec>,
}

/// What stays fixed while one line is drawn: the constants, the viewport,
/// the scroll offset and the viewport line.
pub ghost struct RenderFrame {
    pub config: TextRenderConfig,
    pub viewport: Rect,
    pub col_offset: nat,
    pub line: nat,
}

impl RenderFrame {
    /// The guides drawn at the end of a line whose indentation is `indent`,
    /// when the last known indentation before it is `prev_indent`.
    pub open spec fn guides(self, indent: IndentLevel, prev_indent: nat) -> Seq<DrawSpec> {
        let level = match indent {
            IndentLevel::Known(i) => i as nat,
            _ => prev_indent,
        };
        if indent == IndentLevel::Disabled {
            seq![]
        } else {
            guide_ops(
                self.config,
                self.viewport,
                self.col_offset,
                self.line,
                self.config.starting_indent as nat,
                end_indent(level, self.col_offset, self.viewport.width as nat, self.config.tab_width as nat),
            )
        }
    }

    /// What finishing a line in state `v` appends: its guides when they are enabled.
    pub open spec fn closing(self, v: RenderView, prev_indent: nat, render_guides: bool) -> Seq<DrawSpec> {
        if render_guides { v.ops + self.guides(v.indent, prev_indent) } else { v.ops }
    }

    /// Drawing `a` and then `b` is drawing `a + b`.
    pub proof fn lemma_draw_all_append(self, v: RenderView, a: Seq<StyledGrapheme>, b: Seq<StyledGrapheme>)
        ensures
            self.draw_all(v, a + b) == self.draw_all(self.draw_all(v, a), b),
        decreases b.len(),
    {
        if b.len() == 0 {
            assert(a + b =~= a);
        } else {
            self.lemma_draw_all_append(v, a, b.drop_last());
            assert((a + b).drop_last() =~= a + b.drop_last());
            assert((a + b).last() == b.last());
        }
    }

    /// Drawing `g` on the current line of this pass from state `v`. The
    /// grapheme is written when its first column is visible, restyled in
    /// its visible part when it straddles the left edge, and only counted
    /// otherwise. The first non-whitespace grapheme fixes the line's indentation.
    #[verifier::opaque]
    pub open spec fn draw_step(self, v: RenderView, g: StyledGrapheme) -> RenderView {
        let x = v.col;
        let k = g.kind();
        let w = k.display_width(x, self.config.tab_width as nat);
        let vp = self.viewport;
        let off = self.col_offset;
        let style = g.style_spec(self.config);
        RenderView {
            col: (x as usize).saturating_add(w as usize) as nat,
            indent: if !k.is_whitespace() && v.indent == IndentLevel::Unknown {
                IndentLevel::Known(x as usize)
            } else {
                v.indent
            },
            ops: if in_view(off, vp.width as nat, x) {
                v.ops.push(DrawSpec::Text {
                    x: (vp.x + x - off) as u16,
                    y: (vp.y + self.line) as u16,
                    text: k.display_text(x, self.config),
                    style,
                })
            } else if x < off && off - x < w {
                v.ops.push(DrawSpec::Restyle {
                    area: Rect { x: vp.x, y: (vp.y + self.line) as u16, width: (w - (off - x)) as u16, height: 1 },
                    style,
                })
            } else {
                v.ops
            },
        }
    }

    /// Drawing `gs` in order from state `v`.
    pub open spec fn draw_all(self, v: RenderView, gs: Seq<StyledGrapheme>) -> RenderView
        decreases gs.len(),
    {
        if gs.len() == 0 { v } else { self.draw_step(self.draw_all(v, gs.drop_last()), gs.last()) }
    }

    /// Whether `g` fits, by its minimum width, in what is left of the line at state `v`.
    pub open spec fn fits(self, v: RenderView, g: StyledGrapheme) -> bool {
        ((self.col_offset + self.viewport.width as nat) as usize).saturating_sub(v.col as usize)
            >= g.kind().min_width()
    }

}

/// The indentation of the visual line in progress.
#[derive(Debug, Copy, Clone, PartialEq, Eq, Structural)]
pub enum IndentLevel {
    /// Indentation is disabled for this line because it wrapped for too long.
    Disabled,
    /// No non-whitespace grapheme has been drawn on this line yet; the
    /// previous line's indentation is kept so that guides run through blank lines.
    Unknown,
    /// The column of the first non-whitespace grapheme of this line.
    Known(usize),
}

/// Whether running column `x` is visible in a viewport of `width` columns scrolled by `col_offset`.
pub open spec fn in_view(col_offset: nat, width: nat, x: nat) -> bool {
    col_offset <= x && x < col_offset + width
}

/// The guide glyph at tab stop `i`.
pub open spec fn guide_op(config: TextRenderConfig, viewport: Rect, col_offset: nat, line: nat, i: nat) -> DrawSpec {
    DrawSpec::Text {
        x: (viewport.x + i * config.tab_width - col_offset) as u16,
        y: (viewport.y + line) as u16,
        text: config.indent_guide_char@,
        style: config.indent_guide_style,
    }
}

/// The guides drawn for the tab stops `start .. end` that fall inside the viewport.
pub open spec fn guide_ops(config: TextRenderConfig, viewport: Rect, col_offset: nat, line: nat, start: nat, end: nat) -> Seq<DrawSpec>
    decreases end,
{
    if end <= start {
        seq![]
    } else {
        let i = (end - 1) as nat;
        let before = guide_ops(config, viewport, col_offset, line, start, i);
        if in_view(col_offset, viewport.width as nat, i * (config.tab_width as nat)) {
            before.push(guide_op(config, viewport, col_offset, line, i))
        } else {
            before
        }
    }
}

/// The last tab stop (exclusive) that gets a guide for an indentation of `indent` columns.
pub open spec fn end_indent(indent: nat, col_offset: nat, width: nat, tab_width: nat) -> nat {
    (if indent < col_offset + width + tab_width - 1 { indent } else { (col_offset + width + tab_width - 1) as nat })
        / tab_width
}

/// Lays out styled graphemes on the cells of a viewport, line by line.
#[derive(Debug)]
pub struct TextRender {
    /// Various constants required for rendering.
    pub config: TextRenderConfig,
    pub viewport: Rect,
    pub col_offset: usize,
    pub visual_line: u16,
    pub visual_x: usize,
    pub indent_level: IndentLevel,
    pub prev_indent_level: usize,
    pub ops: Vec<DrawOp>,
}

impl TextRender {
    pub open spec fn viewport_spec(&self) -> Rect {
        self.viewport
    }

    /// The horizontal scroll offset.
    pub open spec fn col_offset_spec(&self) -> nat {
        self.col_offset as nat
    }

    /// The viewport line that is filled next.
    pub open spec fn line_spec(&self) -> nat {
        self.visual_line as nat
    }

    /// The running column in the full, unclipped line.
    pub open spec fn col_spec(&self) -> nat {
        self.visual_x as nat
    }

    pub open spec fn indent_spec(&self) -> IndentLevel {
        self.indent_level
    }

    /// The indentation carried over from the last line whose indentation was known.
    pub open spec fn prev_indent_spec(&self) -> nat {
        self.prev_indent_level as nat
    }

    /// Everything drawn so far, in order.
    pub open spec fn ops_spec(&self) -> Seq<DrawSpec> {
        ops_view(self.ops@)
    }

    /// The constants are sound and the viewport's cells are addressable.
    pub open spec fn wf(&self) -> bool {
        &&& self.config.wf()
        &&& self.viewport_spec().fits()
        &&& self.col_offset_spec() + self.viewport_spec().width + self.config.tab_width <= usize::MAX
    }

    /// Everything but the running column, the line's indentation and the drawing is unchanged.
    pub open spec fn same_frame(&self, other: &TextRender) -> bool {
        &&& self.config == other.config
        &&& self.viewport_spec() == other.viewport_spec()
        &&& self.col_offset_spec() == other.col_offset_spec()
    }

    pub fn new(config: TextRenderConfig, col_offset: usize, viewport: Rect) -> (r: TextRender)
        requires
            config.wf(),
            viewport.fits(),
            col_offset + viewport.width + config.tab_width <= usize::MAX,
        ensures
            r.wf(),
            r.config == config,
            r.viewport_spec() == viewport,
            r.col_offset_spec() == col_offset,
            r.line_spec() == 0,
            r.col_spec() == 0,
            r.indent_spec() == IndentLevel::Unknown,
            r.prev_indent_spec() == 0,
            r.ops_spec() == Seq::<DrawSpec>::empty(),
    {
        let r = TextRender {
            config,
            viewport,
            visual_line: 0,
            visual_x: 0,
            col_offset,
            indent_level: IndentLevel::Unknown,
            prev_indent_level: 0,
            ops: Vec::new(),
        };
        assert(r.ops_spec() =~= Seq::<DrawSpec>::empty());
        r
    }

    /// Returns the indentation of the current line.
    pub fn indent_level(&self) -> (r: IndentLevel)
        ensures
            r == self.indent_spec(),
    {
        self.indent_level
    }

    /// Returns the line in the viewport (starting at 0) that will be filled next.
    pub fn visual_line(&self) -> (r: u16)
        ensures
            r == self.line_spec(),
    {
        self.visual_line
    }

    /// Returns the running column in the full, unclipped line.
    pub fn visual_x(&self) -> (r: usize)
        ensures
            r == self.col_spec(),
    {
        self.visual_x
    }

    /// Everything drawn so far, in order.
    pub fn ops(&self) -> (r: &Vec<DrawOp>)
        ensures
            ops_view(r@) == self.ops_spec(),
    {
        &self.ops
    }

    /// Returns whether `visual_x` is inside of the viewport.
    fn in_bounds(&self, visual_x: usize) -> (r: bool)
        ensures
            r == in_view(self.col_offset as nat, self.viewport.width as nat, visual_x as nat),
    {
        self.col_offset <= visual_x && visual_x - self.col_offset < self.viewport.width as usize
    }

    fn push_op(&mut self, op: DrawOp)
        ensures
            final(self).ops_spec() == old(self).ops_spec().push(op@),
            final(self).config == old(self).config,
            final(self).viewport == old(self).viewport,
            final(self).col_offset == old(self).col_offset,
            final(self).visual_line == old(self).visual_line,
            final(self).visual_x == old(self).visual_x,
            final(self).indent_level == old(self).indent_level,
            final(self).prev_indent_level == old(self).prev_indent_level,
    {
        let ghost before = self.ops@;
        self.ops.push(op);
        assert(ops_view(self.ops@) =~= ops_view(before).push(op@));
    }

    /// Draws a single `grapheme` at the current render position with its style.
    /// A grapheme straddling the left scroll edge only restyles its visible part.
    pub fn draw_grapheme(&mut self, styled_grapheme: StyledGrapheme)
        requires
            old(self).wf(),
            old(self).line_spec() < old(self).viewport_spec().height,
        ensures
            final(self).wf(),
            final(self).same_frame(old(self)),
            final(self).line_spec() == old(self).line_spec(),
            final(self).prev_indent_spec() == old(self).prev_indent_spec(),
            final(self).view() == old(self).frame().draw_step(old(self).view(), styled_grapheme),
    {
        reveal(RenderFrame::draw_step);
        let cut_off_start = self.col_offset.saturating_sub(self.visual_x);
        let is_whitespace = styled_grapheme.is_whitespace();
        let (width, grapheme, style) = styled_grapheme.into_display(self.visual_x, &self.config);
        if self.in_bounds(self.visual_x) {
            let op = DrawOp::Text {
                x: self.viewport.x + (self.visual_x - self.col_offset) as u16,
                y: self.viewport.y + self.visual_line,
                text: grapheme,
                style,
            };
            self.push_op(op);
        } else if cut_off_start != 0 && cut_off_start < width as usize {
            let area = Rect {
                x: self.viewport.x,
                y: self.viewport.y + self.visual_line,
                width: width - cut_off_start as u16,
                height: 1,
            };
            self.push_op(DrawOp::Restyle { area, style });
        }
        if !is_whitespace && self.indent_level == IndentLevel::Unknown {
            self.indent_level = IndentLevel::Known(self.visual_x);
        }
        self.visual_x = self.visual_x.saturating_add(width as usize);
    }

    /// The running column, the line's indentation and everything drawn.
    pub open spec fn view(&self) -> RenderView {
        RenderView { col: self.col_spec(), indent: self.indent_spec(), ops: self.ops_spec() }
    }

    /// What stays fixed while one line is drawn.
    pub open spec fn frame(&self) -> RenderFrame {
        RenderFrame {
            config: self.config,
            viewport: self.viewport_spec(),
            col_offset: self.col_offset_spec(),
            line: self.line_spec(),
        }
    }

    /// Draws `graphemes` in order on the current line.
    pub fn draw_graphemes(&mut self, graphemes: Vec<StyledGrapheme>)
        requires
            old(self).wf(),
            old(self).line_spec() < old(self).viewport_spec().height,
        ensures
            final(self).wf(),
            final(self).same_frame(old(self)),
            final(self).line_spec() == old(self).line_spec(),
            final(self).prev_indent_spec() == old(self).prev_indent_spec(),
            final(self).view() == old(self).frame().draw_all(old(self).view(), graphemes@),
    {
        let ghost all = graphemes@;
        let mut rest = graphemes;
        let ghost mut done: int = 0;
        assert(all.subrange(0, 0) =~= Seq::<StyledGrapheme>::empty());
        while rest.len() > 0
            invariant
                0 <= done <= all.len(),
                rest@ == all.subrange(done, all.len() as int),
                self.wf(),
                self.same_frame(old(self)),
                self.line_spec() == old(self).line_spec(),
                self.prev_indent_spec() == old(self).prev_indent_spec(),
                self.line_spec() < self.viewport_spec().height,
                self.view() == old(self).frame().draw_all(old(self).view(), all.subrange(0, done)),
            decreases rest.len(),
        {
            let g = rest.remove(0);
            proof {
                assert(all.subrange(0, done + 1).drop_last() =~= all.subrange(0, done));
                assert(g == all[done]);
            }
            self.draw_grapheme(g);
            proof {
                done = done + 1;
                assert(rest@ =~= all.subrange(done, all.len() as int));
            }
        }
        assert(all.subrange(0, done) =~= all);
    }

    /// The columns left on this visual line before the viewport's right edge.
    pub fn space_left(&self) -> (r: usize)
        requires
            self.wf(),
        ensures
            r == ((self.col_offset_spec() + self.viewport_spec().width as nat) as usize).saturating_sub(
                self.col_spec() as usize,
            ),
    {
        (self.col_offset + self.viewport.width as usize).saturating_sub(self.visual_x)
    }

    /// The indentation the guides of this line follow, if guides are drawn.
    pub open spec fn guide_indent(&self) -> Option<nat> {
        match self.indent_spec() {
            IndentLevel::Disabled => None,
            IndentLevel::Unknown => Some(self.prev_indent_spec()),
            IndentLevel::Known(i) => Some(i as nat),
        }
    }

    /// Overlays indentation guides on the rendered line: one glyph at every
    /// tab stop from `starting_indent` up to `end_indent`. Stops whose column
    /// lies outside the viewport (left of the scroll offset, or past the right
    /// edge) are skipped rather than written outside it. Must be called after
    /// the line's content has been drawn.
    pub fn draw_indent_guides(&mut self)
        requires
            old(self).wf(),
            old(self).line_spec() < old(self).viewport_spec().height,
        ensures
            final(self).wf(),
            final(self).same_frame(old(self)),
            final(self).line_spec() == old(self).line_spec(),
            final(self).col_spec() == old(self).col_spec(),
            final(self).indent_spec() == old(self).indent_spec(),
            final(self).prev_indent_spec() == old(self).prev_indent_spec(),
            final(self).ops_spec() == old(self).ops_spec() + old(self).frame().guides(old(self).indent_spec(), old(self).prev_indent_spec()),
            final(self).ops_spec() == match old(self).guide_indent() {
                None => old(self).ops_spec(),
                Some(indent) => old(self).ops_spec() + guide_ops(
                    old(self).config,
                    old(self).viewport_spec(),
                    old(self).col_offset_spec(),
                    old(self).line_spec(),
                    old(self).config.starting_indent as nat,
                    end_indent(indent, old(self).col_offset_spec(), old(self).viewport_spec().width as nat, old(self).config.tab_width as nat),
                ),
            },
    {
        let indent_level = match self.indent_level {
            IndentLevel::Disabled => {
                assert(self.ops_spec() =~= old(self).ops_spec());
                return;
            },
            IndentLevel::Unknown => self.prev_indent_level,
            IndentLevel::Known(level) => level,
        };
        let tab_width = self.config.tab_width as usize;
        let limit = self.col_offset + self.viewport.width as usize + (tab_width - 1);
        let end = if indent_level < limit { indent_level } else { limit } / tab_width;
        let start = self.config.starting_indent;
        let ghost base = self.ops_spec();
        let mut i = start;
        assert(base + guide_ops(self.config, self.viewport, self.col_offset as nat, self.visual_line as nat, start as nat, i as nat) =~= base);
        while i < end
            invariant
                start <= i <= end || (end < start && i == start),
                end == end_indent(indent_level as nat, self.col_offset as nat, self.viewport.width as nat, tab_width as nat),
                end <= limit,
                limit == self.col_offset + self.viewport.width + tab_width - 1,
                tab_width == self.config.tab_width,
                tab_width >= 1,
                self.wf(),
                self.config == old(self).config,
                self.viewport == old(self).viewport,
                self.col_offset == old(self).col_offset,
                self.visual_line == old(self).visual_line,
                self.visual_x == old(self).visual_x,
                self.indent_level == old(self).indent_level,
                self.prev_indent_level == old(self).prev_indent_level,
                self.visual_line < self.viewport.height,
                self.ops_spec() == base + guide_ops(self.config, self.viewport, self.col_offset as nat, self.visual_line as nat, start as nat, i as nat),
            decreases end - i,
        {
            assert(i * tab_width <= end * tab_width) by (nonlinear_arith)
                requires i <= end;
            assert(end * tab_width <= limit) by (nonlinear_arith)
                requires end == (if indent_level < limit { indent_level as int } else { limit as int }) / (tab_width as int), tab_width >= 1, 0 <= end;
            let col = i * tab_width;
            if self.in_bounds(col) {
                let op = DrawOp::Text {
                    x: self.viewport.x + (col - self.col_offset) as u16,
                    y: self.viewport.y + self.visual_line,
                    text: self.config.indent_guide_char.clone(),
                    style: self.config.indent_guide_style,
                };
                self.push_op(op);
            }
            assert(self.ops_spec() =~= base + guide_ops(self.config, self.viewport, self.col_offset as nat, self.visual_line as nat, start as nat, (i + 1) as nat));
            i = i + 1;
        }
        if end < start {
            assert(guide_ops(self.config, self.viewport, self.col_offset as nat, self.visual_line as nat, start as nat, end as nat) =~= seq![]);
            assert(guide_ops(self.config, self.viewport, self.col_offset as nat, self.visual_line as nat, start as nat, start as nat) =~= seq![]);
        }
    }

    /// Moves to the next visual line. A known indentation of the finished line
    /// is carried over; the new line starts at column 0, or at the given
    /// indentation when it is known.
    pub fn advance_to_next_line(&mut self, new_indent: IndentLevel)
        requires
            old(self).wf(),
            old(self).line_spec() < old(self).viewport_spec().height,
        ensures
            final(self).wf(),
            final(self).same_frame(old(self)),
            final(self).ops_spec() == old(self).ops_spec(),
            final(self).line_spec() == old(self).line_spec() + 1,
            final(self).prev_indent_spec() == match old(self).indent_spec() {
                IndentLevel::Known(i) => i as nat,
                _ => old(self).prev_indent_spec(),
            },
            final(self).col_spec() == match new_indent {
                IndentLevel::Known(i) => i as nat,
                _ => 0,
            },
            final(self).indent_spec() == new_indent,
    {
        self.visual_line = self.visual_line + 1;
        if let IndentLevel::Known(level) = self.indent_level {
            self.prev_indent_level = level;
        }
        self.visual_x = match new_indent {
            IndentLevel::Known(level) => level,
            _ => 0,
        };
        self.indent_level = new_indent;
    }

    /// Advances the running column by `width` without drawing.
    pub fn skip(&mut self, width: usize)
        ensures
            final(self).same_frame(old(self)),
            final(self).ops_spec() == old(self).ops_spec(),
            final(self).line_spec() == old(self).line_spec(),
            final(self).indent_spec() == old(self).indent_spec(),
            final(self).prev_indent_spec() == old(self).prev_indent_spec(),
            final(self).col_spec() == (old(self).col_spec() as usize).saturating_add(width),
    {
        self.visual_x = self.visual_x.saturating_add(width);
    }

    /// Whether every line of the viewport has been filled.
    pub fn reached_viewport_end(&self) -> (r: bool)
        ensures
            r == (self.line_spec() >= self.viewport_spec().height),
    {
        self.visual_line >= self.viewport.height
    }
}

/// The running column after drawing `gs` from column `x` on an unbounded
/// line: each grapheme takes its display width at the column it lands on.
pub open spec fn line_end(x: nat, gs: Seq<StyledGrapheme>, tab_width: nat) -> nat
    decreases gs.len(),
{
    if gs.len() == 0 {
        x
    } else {
        let e = line_end(x, gs.drop_last(), tab_width);
        e + gs.last().kind().display_width(e, tab_width)
    }
}

/// Drawing never wraps: after drawing the graphemes of a line, the running
/// column is the line's full visual width, whatever the viewport's size and
/// scroll offset (as long as that width fits a `usize`).
pub proof fn lemma_unwrapped_width(frame: RenderFrame, v: RenderView, gs: Seq<StyledGrapheme>)
    requires
        line_end(v.col, gs, frame.config.tab_width as nat) <= usize::MAX,
    ensures
        frame.draw_all(v, gs).col == line_end(v.col, gs, frame.config.tab_width as nat),
    decreases gs.len(),
{
    reveal(RenderFrame::draw_step);
    if gs.len() > 0 {
        lemma_unwrapped_width(frame, v, gs.drop_last());
    }
}

/// Every indent guide drawn for the tab stops `start .. end` stands at one of
/// those stops, inside the viewport: none past `end`, none before `start`.
pub proof fn lemma_guides_in_range(config: TextRenderConfig, viewport: Rect, col_offset: nat, line: nat, start: nat, end: nat)
    ensures
        forall|k: int| 0 <= k < guide_ops(config, viewport, col_offset, line, start, end).len() ==> exists|i: nat| {
            &&& start <= i < end
            &&& in_view(col_offset, viewport.width as nat, i * (config.tab_width as nat))
            &&& #[trigger] guide_ops(config, viewport, col_offset, line, start, end)[k] == guide_op(config, viewport, col_offset, line, i)
        },
    decreases end,
{
    if end > start {
        let i = (end - 1) as nat;
        lemma_guides_in_range(config, viewport, col_offset, line, start, i);
        let before = guide_ops(config, viewport, col_offset, line, start, i);
        let all = guide_ops(config, viewport, col_offset, line, start, end);
        assert forall|k: int| 0 <= k < all.len() implies exists|j: nat| {
            &&& start <= j < end
            &&& in_view(col_offset, viewport.width as nat, j * (config.tab_width as nat))
            &&& #[trigger] all[k] == guide_op(config, viewport, col_offset, line, j)
        } by {
            if k < before.len() {
                assert(all[k] == before[k]);
                let j = choose|j: nat| {
                    &&& start <= j < i
                    &&& in_view(col_offset, viewport.width as nat, j * (config.tab_width as nat))
                    &&& #[trigger] before[k] == guide_op(config, viewport, col_offset, line, j)
                };
                assert(start <= j < end);
            } else {
                assert(all[k] == guide_op(config, viewport, col_offset, line, i));
            }
        }
    }
}

/// The column at which the `i`-th of `gs` is drawn, starting from column `x`.
pub open spec fn col_of(x: nat, gs: Seq<StyledGrapheme>, i: int, tab_width: nat) -> nat {
    line_end(x, gs.subrange(0, i), tab_width)
}

/// A line drawn entirely inside the viewport writes one cell run per
/// grapheme, in order, each holding the grapheme's display glyphs: the
/// characters themselves, or the configured substitute for whitespace.
pub proof fn lemma_visible_text(frame: RenderFrame, v: RenderView, gs: Seq<StyledGrapheme>)
    requires
        line_end(v.col, gs, frame.config.tab_width as nat) <= usize::MAX,
        forall|i: int| 0 <= i < gs.len() ==> in_view(
            frame.col_offset,
            frame.viewport.width as nat,
            #[trigger] col_of(v.col, gs, i, frame.config.tab_width as nat),
        ),
    ensures
        frame.draw_all(v, gs).ops.len() == v.ops.len() + gs.len(),
        frame.draw_all(v, gs).ops.subrange(0, v.ops.len() as int) == v.ops,
        forall|i: int| 0 <= i < gs.len() ==> {
            let x = col_of(v.col, gs, i, frame.config.tab_width as nat);
            #[trigger] frame.draw_all(v, gs).ops[v.ops.len() + i] == DrawSpec::Text {
                x: (frame.viewport.x + x - frame.col_offset) as u16,
                y: (frame.viewport.y + frame.line) as u16,
                text: gs[i].kind().display_text(x, frame.config),
                style: gs[i].style_spec(frame.config),
            }
        },
    decreases gs.len(),
{
    reveal(RenderFrame::draw_step);
    let tw = frame.config.tab_width as nat;
    if gs.len() == 0 {
        assert(v.ops.subrange(0, v.ops.len() as int) =~= v.ops);
    } else {
        let init = gs.drop_last();
        let n = (gs.len() - 1) as int;
        assert forall|i: int| 0 <= i < init.len() implies in_view(
            frame.col_offset,
            frame.viewport.width as nat,
            #[trigger] col_of(v.col, init, i, tw),
        ) by {
            assert(init.subrange(0, i) =~= gs.subrange(0, i));
            assert(col_of(v.col, gs, i, tw) == col_of(v.col, init, i, tw));
        }
        lemma_unwrapped_width(frame, v, init);
        lemma_visible_text(frame, v, init);
        assert(gs.subrange(0, n) =~= init);
        assert(col_of(v.col, gs, n, tw) == line_end(v.col, init, tw));
        let mid = frame.draw_all(v, init);
        let all = frame.draw_all(v, gs);
        assert(all.ops == mid.ops.push(DrawSpec::Text {
            x: (frame.viewport.x + mid.col - frame.col_offset) as u16,
            y: (frame.viewport.y + frame.line) as u16,
            text: gs.last().kind().display_text(mid.col, frame.config),
            style: gs.last().style_spec(frame.config),
        }));
        assert(all.ops.subrange(0, v.ops.len() as int) =~= mid.ops.subrange(0, v.ops.len() as int));
        assert forall|i: int| 0 <= i < gs.len() implies {
            let x = col_of(v.col, gs, i, tw);
            #[trigger] all.ops[v.ops.len() + i] == DrawSpec::Text {
                x: (frame.viewport.x + x - frame.col_offset) as u16,
                y: (frame.viewport.y + frame.line) as u16,
                text: gs[i].kind().display_text(x, frame.config),
                style: gs[i].style_spec(frame.config),
            }
        } by {
            if i < n {
                assert(init.subrange(0, i) =~= gs.subrange(0, i));
                assert(init[i] == gs[i]);
                assert(all.ops[v.ops.len() + i] == mid.ops[v.ops.len() + i]);
            }
        }
    }
}

} // verus!
