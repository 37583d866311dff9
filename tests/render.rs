use document_render::config::{
    EditorConfig, IndentGuidesConfig, SoftWrap, TextRenderConfig, Theme, WhitespaceCharacters,
    WhitespaceConfig, WhitespaceRender,
};
use document_render::cursor::{DocumentCursor, DocumentCursorConfig, SourceGrapheme, WordBoundary};
use document_render::document::{DocumentRender, HighlightEvent};
use document_render::grapheme::{Grapheme, StyledGrapheme};
use document_render::style::{Position, Rect, Style};
use document_render::text_render::{DrawOp, IndentLevel, TextRender};

fn plain() -> Style {
    Style { fg: None, bg: None, add_modifier: 0, sub_modifier: 0 }
}

fn fg(c: u32) -> Style {
    Style { fg: Some(c), bg: None, add_modifier: 0, sub_modifier: 0 }
}

fn editor_config(soft_wrap: bool, max_wrap: usize, render_ws: bool, guides: bool) -> EditorConfig {
    EditorConfig {
        soft_wrap: SoftWrap { enable: soft_wrap, max_wrap, max_indent_retain: 40, wrap_indent: 0 },
        whitespace: WhitespaceConfig {
            render: WhitespaceRender { space: render_ws, nbsp: render_ws, tab: render_ws, newline: render_ws },
            characters: WhitespaceCharacters { space: '·', nbsp: '⍽', tab: '→', tabpad: '-', newline: '⏎' },
        },
        indent_guides: IndentGuidesConfig { render: guides, character: '│', skip_levels: 0 },
    }
}

fn theme() -> Theme {
    Theme { text: fg(1), whitespace: fg(2), indent_guide: None, highlights: vec![fg(7), fg(8)] }
}

fn source(text: &str) -> Vec<SourceGrapheme> {
    text.chars().map(|c| SourceGrapheme::new(c.to_string(), 1)).collect()
}

fn viewport(width: u16, height: u16) -> Rect {
    Rect { x: 0, y: 0, width, height }
}

fn renderer(config: &EditorConfig, col_offset: usize, vp: Rect) -> TextRender {
    let offset = Position { row: 0, col: col_offset };
    let render_config = TextRenderConfig::new(4, config, &theme(), &offset);
    TextRender::new(render_config, col_offset, vp)
}

fn document(config: &EditorConfig, text: &str, vp: Rect, tr: &TextRender) -> DocumentRender {
    let n = text.chars().count();
    let events = vec![HighlightEvent::Source { start: 0, end: n }];
    DocumentRender::new(config, theme(), source(text), events, vp, Position { row: 0, col: 0 }, 0, tr)
}

/// The glyphs written on viewport row `y`, in drawing order.
fn row_text(ops: &[DrawOp], y: u16) -> String {
    let mut out = String::new();
    for op in ops {
        if let DrawOp::Text { y: row, text, .. } = op {
            if *row == y {
                out.push_str(text);
            }
        }
    }
    out
}

fn row_cells(ops: &[DrawOp], y: u16) -> Vec<u16> {
    let mut out = Vec::new();
    for op in ops {
        if let DrawOp::Text { x, y: row, .. } = op {
            if *row == y {
                out.push(*x);
            }
        }
    }
    out
}

#[test]
fn two_lines_fill_a_two_line_viewport() {
    let config = editor_config(true, 80, false, false);
    let vp = viewport(10, 2);
    let mut tr = renderer(&config, 0, vp);
    let mut doc = document(&config, "The quick\nbrown fox", vp, &tr);
    doc.render_line(&mut tr);
    assert_eq!(row_text(tr.ops(), 0), "The quick ");
    assert_eq!(row_cells(tr.ops(), 0), (0..10).collect::<Vec<u16>>());
    assert_eq!(tr.visual_line(), 1);
    assert!(!doc.finished());
    doc.render_line(&mut tr);
    assert_eq!(row_text(tr.ops(), 1), "brown fox");
    assert!(doc.finished());
}

#[test]
fn tab_fills_to_next_stop() {
    let config = editor_config(false, 80, false, false);
    let render_config = TextRenderConfig::new(4, &config, &theme(), &Position { row: 0, col: 0 });
    let (w, text) = Grapheme::Tab.into_display(3, &render_config);
    assert_eq!(w, 1);
    assert_eq!(text, " ");
    let (w, text) = Grapheme::Tab.into_display(0, &render_config);
    assert_eq!(w, 4);
    assert_eq!(text, "    ");
}

#[test]
fn rendered_tab_uses_tab_glyphs() {
    let config = editor_config(false, 80, true, false);
    let render_config = TextRenderConfig::new(4, &config, &theme(), &Position { row: 0, col: 0 });
    assert_eq!(render_config.tab, "→---");
    assert_eq!(render_config.space, "·");
    assert_eq!(render_config.newline, "⏎");
    let (w, text) = Grapheme::Tab.into_display(1, &render_config);
    assert_eq!(w, 3);
    assert_eq!(text, "→--");
}

#[test]
fn unbreakable_word_is_split_across_lines() {
    // a viewport of width 5 scales max_wrap down to 1, so the word is broken inside
    let config = editor_config(true, 5, false, false);
    let vp = viewport(5, 3);
    let mut tr = renderer(&config, 0, vp);
    let mut doc = document(&config, "abcdefghij", vp, &tr);
    doc.render_line(&mut tr);
    assert_eq!(row_text(tr.ops(), 0), "abcde");
    assert_eq!(tr.visual_line(), 1);
    assert!(!doc.finished());
    doc.render_line(&mut tr);
    assert_eq!(row_text(tr.ops(), 1), "fghij");
}

#[test]
fn no_wrap_keeps_whole_line_width() {
    let config = editor_config(false, 80, false, false);
    let vp = viewport(4, 2);
    let mut tr = renderer(&config, 0, vp);
    let mut doc = document(&config, "abcdefgh", vp, &tr);
    doc.render_line(&mut tr);
    assert!(doc.finished());
    assert_eq!(tr.visual_line(), 0);
    // the running column covers the whole line, only four cells are written
    assert_eq!(tr.visual_x(), 8);
    assert_eq!(row_text(tr.ops(), 0), "abcd");
}

#[test]
fn line_text_is_reconstructed() {
    let config = editor_config(true, 80, false, false);
    let vp = viewport(20, 2);
    let mut tr = renderer(&config, 0, vp);
    let mut doc = document(&config, "let x = 1;", vp, &tr);
    doc.render_line(&mut tr);
    assert_eq!(row_text(tr.ops(), 0), "let x = 1;");
}

#[test]
fn scrolled_line_is_clipped() {
    let config = editor_config(false, 80, false, false);
    let vp = viewport(3, 1);
    let mut tr = renderer(&config, 2, vp);
    let mut doc = document(&config, "abcdef", vp, &tr);
    doc.render_line(&mut tr);
    assert_eq!(row_text(tr.ops(), 0), "cde");
    assert_eq!(row_cells(tr.ops(), 0), vec![0, 1, 2]);
}

#[test]
fn wide_grapheme_straddling_scroll_edge_is_restyled() {
    let config = editor_config(false, 80, false, false);
    let mut tr = renderer(&config, 1, viewport(4, 1));
    tr.draw_grapheme(StyledGrapheme::new("漢".to_string(), 2, fg(5)));
    assert_eq!(tr.ops().len(), 1);
    match &tr.ops()[0] {
        DrawOp::Restyle { area, style } => {
            assert_eq!(*area, Rect { x: 0, y: 0, width: 1, height: 1 });
            assert_eq!(*style, fg(5));
        }
        _ => panic!("expected a restyle"),
    }
    assert_eq!(tr.visual_x(), 2);
}

#[test]
fn continuation_keeps_small_indent() {
    let config = editor_config(true, 80, false, false);
    let vp = viewport(40, 3);
    let mut tr = renderer(&config, 0, vp);
    let first = format!("  {} ", "a".repeat(30));
    let mut doc = document(&config, &format!("{}bbbbbbbbb", first), vp, &tr);
    doc.render_line(&mut tr);
    assert_eq!(row_text(tr.ops(), 0), first);
    assert_eq!(tr.indent_level(), IndentLevel::Known(2));
    assert_eq!(tr.visual_x(), 2);
    doc.render_line(&mut tr);
    assert_eq!(row_cells(tr.ops(), 1)[0], 2);
    assert_eq!(row_text(tr.ops(), 1), "bbbbbbbbb");
}

#[test]
fn continuation_drops_large_indent() {
    // width 12 scales max_indent_retain down to 3
    let config = editor_config(true, 80, false, false);
    let vp = viewport(12, 3);
    let mut tr = renderer(&config, 0, vp);
    let mut doc = document(&config, "    aaaa bbbbbb", vp, &tr);
    doc.render_line(&mut tr);
    assert_eq!(tr.indent_level(), IndentLevel::Disabled);
    assert_eq!(tr.visual_x(), 0);
}

#[test]
fn indent_guides_stop_at_indent() {
    let config = editor_config(false, 80, false, true);
    let vp = viewport(20, 2);
    let mut tr = renderer(&config, 0, vp);
    let mut doc = document(&config, "        x", vp, &tr);
    doc.render_line(&mut tr);
    let guides: Vec<u16> = tr
        .ops()
        .iter()
        .filter_map(|op| match op {
            DrawOp::Text { x, text, .. } if text.as_str() == "│" => Some(*x),
            _ => None,
        })
        .collect();
    assert_eq!(guides, vec![0, 4]);
}

#[test]
fn whitespace_only_line_keeps_previous_guides() {
    let mut tr = renderer(&editor_config(false, 80, false, true), 0, viewport(20, 3));
    tr.draw_grapheme(StyledGrapheme::new("x".to_string(), 1, plain()));
    tr.skip(7);
    tr.advance_to_next_line(IndentLevel::Known(8));
    tr.advance_to_next_line(IndentLevel::Unknown);
    tr.draw_indent_guides();
    let n = tr.ops().len();
    assert_eq!(n, 3);
}

#[test]
fn finished_only_once_and_stays() {
    let config = editor_config(true, 80, false, false);
    let vp = viewport(10, 5);
    let mut tr = renderer(&config, 0, vp);
    let mut doc = document(&config, "ab", vp, &tr);
    assert!(!doc.finished());
    doc.render_line(&mut tr);
    assert!(doc.finished());
    let before = tr.ops().len();
    doc.render_line(&mut tr);
    assert!(doc.finished());
    assert_eq!(tr.ops().len(), before);
}

#[test]
fn empty_highlight_stream_finishes_at_once() {
    let config = editor_config(true, 80, false, false);
    let vp = viewport(10, 5);
    let tr = renderer(&config, 0, vp);
    let doc = DocumentRender::new(&config, theme(), source("ab"), vec![], vp, Position { row: 0, col: 0 }, 0, &tr);
    assert!(doc.finished());
}

#[test]
fn trailing_cursor_cell_past_text_end() {
    let config = editor_config(true, 80, false, false);
    let vp = viewport(10, 5);
    let mut tr = renderer(&config, 0, vp);
    let events = vec![HighlightEvent::Source { start: 0, end: 3 }];
    let mut doc = DocumentRender::new(&config, theme(), source("ab"), events, vp, Position { row: 0, col: 0 }, 0, &tr);
    doc.render_line(&mut tr);
    assert_eq!(row_text(tr.ops(), 0), "ab ");
}

#[test]
fn nested_scopes_fold_styles() {
    let config = editor_config(true, 80, false, false);
    let vp = viewport(10, 5);
    let mut tr = renderer(&config, 0, vp);
    let events = vec![
        HighlightEvent::HighlightStart(0),
        HighlightEvent::Source { start: 0, end: 1 },
        HighlightEvent::HighlightStart(1),
        HighlightEvent::Source { start: 1, end: 2 },
        HighlightEvent::HighlightEnd,
        HighlightEvent::HighlightEnd,
        HighlightEvent::Source { start: 2, end: 2 },
    ];
    let mut doc = DocumentRender::new(&config, theme(), source("ab"), events, vp, Position { row: 0, col: 0 }, 0, &tr);
    doc.render_line(&mut tr);
    let styles: Vec<Style> = tr
        .ops()
        .iter()
        .filter_map(|op| match op {
            DrawOp::Text { style, .. } => Some(*style),
            _ => None,
        })
        .collect();
    assert_eq!(styles[0], fg(7));
    assert_eq!(styles[1], fg(8));
}

#[test]
fn style_patch_overlay_wins() {
    let base = Style { fg: Some(1), bg: Some(2), add_modifier: 0b0011, sub_modifier: 0 };
    let overlay = Style { fg: Some(9), bg: None, add_modifier: 0b0100, sub_modifier: 0b0001 };
    let r = base.patch(overlay);
    assert_eq!(r, Style { fg: Some(9), bg: Some(2), add_modifier: 0b0110, sub_modifier: 0b0001 });
}

#[test]
fn grapheme_classification() {
    assert!(matches!(Grapheme::from_raw("\t".to_string(), 0), Grapheme::Tab));
    assert!(matches!(Grapheme::from_raw(" ".to_string(), 1), Grapheme::Space));
    assert!(matches!(Grapheme::from_raw("\u{00A0}".to_string(), 1), Grapheme::Nbsp));
    let g = Grapheme::from_raw("漢".to_string(), 2);
    assert_eq!(g.min_width(), 2);
    assert!(!g.is_whitespace());
    assert!(Grapheme::Tab.is_breaking_space());
    assert!(!Grapheme::Nbsp.is_breaking_space());
    assert!(Grapheme::Nbsp.is_whitespace());
    assert_eq!(Grapheme::Tab.min_width(), 1);
}

#[test]
fn whitespace_gets_whitespace_style() {
    let config = editor_config(false, 80, false, false);
    let render_config = TextRenderConfig::new(4, &config, &theme(), &Position { row: 0, col: 0 });
    let g = StyledGrapheme::new(" ".to_string(), 1, fg(1));
    assert_eq!(g.style(&render_config), fg(2));
    let g = StyledGrapheme::new("a".to_string(), 1, fg(1));
    assert_eq!(g.style(&render_config), fg(1));
}

#[test]
fn cursor_config_scales_with_viewport() {
    let config = editor_config(true, 80, false, false);
    let c = DocumentCursorConfig::new(&config, &viewport(10, 1));
    assert_eq!(c.max_wrap, 2);
    assert_eq!(c.max_indent_retain, 2);
    let c = DocumentCursorConfig::new(&config, &viewport(400, 1));
    assert_eq!(c.max_wrap, 80);
    assert_eq!(c.max_indent_retain, 40);
}

#[test]
fn cursor_reports_boundaries() {
    let config = editor_config(true, 80, false, false);
    let mut cursor = DocumentCursor::new(source("ab c\r\nd"), 3, 0, &config, &viewport(40, 2));
    cursor.set_highlight_scope(0, 7, plain());
    assert_eq!(cursor.advance(100), Some(WordBoundary::Space));
    assert_eq!(cursor.word_width(), 3);
    assert_eq!(cursor.take_word_buf().len(), 3);
    // a lone carriage return is a line ending of its own
    assert_eq!(cursor.advance(100), Some(WordBoundary::Newline));
    assert_eq!(cursor.take_word_buf().len(), 1);
    assert_eq!(cursor.word_width(), 0);
    assert_eq!(cursor.advance(100), Some(WordBoundary::Newline));
    assert_eq!(cursor.doc_position(), Position { row: 5, col: 0 });
    assert_eq!(cursor.advance(100), None);
    assert_eq!(cursor.word_width(), 1);
}

#[test]
fn cursor_wraps_when_word_fills_budget() {
    let config = editor_config(true, 80, false, false);
    let mut cursor = DocumentCursor::new(source("abcdef"), 0, 0, &config, &viewport(40, 2));
    cursor.set_highlight_scope(0, 6, plain());
    assert_eq!(cursor.advance(3), Some(WordBoundary::Wrap));
    assert_eq!(cursor.word_width(), 3);
    assert_eq!(cursor.doc_position(), Position { row: 0, col: 3 });
}

#[test]
fn cursor_newline_moves_to_next_row() {
    let config = editor_config(true, 80, false, false);
    let mut text = source("a");
    text.push(SourceGrapheme::new("\r\n".to_string(), 0));
    text.extend(source("b"));
    let mut cursor = DocumentCursor::new(text, 4, 10, &config, &viewport(40, 2));
    cursor.set_highlight_scope(10, 14, plain());
    assert_eq!(cursor.advance(100), Some(WordBoundary::Newline));
    assert_eq!(cursor.doc_position(), Position { row: 5, col: 0 });
    assert_eq!(cursor.take_word_buf().len(), 1);
    assert_eq!(cursor.get_highlight_scope().0, 14);
}

#[test]
fn doc_line_follows_cursor_row() {
    let config = editor_config(true, 80, false, false);
    let vp = viewport(10, 3);
    let mut tr = renderer(&config, 0, vp);
    let mut doc = document(&config, "a\nb\nc", vp, &tr);
    assert_eq!(doc.doc_line(), 0);
    doc.render_line(&mut tr);
    assert_eq!(doc.doc_line(), 1);
    assert_eq!(tr.indent_level(), IndentLevel::Unknown);
}

#[test]
fn space_left_counts_from_scroll_offset() {
    let config = editor_config(false, 80, false, false);
    let mut tr = renderer(&config, 3, viewport(5, 1));
    assert_eq!(tr.space_left(), 8);
    tr.skip(10);
    assert_eq!(tr.space_left(), 0);
    assert!(!tr.reached_viewport_end());
}

#[test]
fn substituted_whitespace_maps_back_to_text() {
    let config = editor_config(true, 80, true, false);
    let vp = viewport(20, 2);
    let mut tr = renderer(&config, 0, vp);
    let mut doc = document(&config, "a b\tc", vp, &tr);
    doc.render_line(&mut tr);
    let shown = row_text(tr.ops(), 0);
    assert_eq!(shown, "a·b→c");
    let restored: String = shown
        .chars()
        .map(|c| match c {
            '·' => ' ',
            '→' => '\t',
            other => other,
        })
        .collect();
    assert_eq!(restored, "a b\tc");
}

#[test]
fn cursor_at_scope_end_reads_nothing() {
    let config = editor_config(true, 80, false, false);
    let mut cursor = DocumentCursor::new(source("abc"), 0, 0, &config, &viewport(40, 2));
    cursor.set_highlight_scope(0, 2, plain());
    assert_eq!(cursor.advance(100), None);
    assert_eq!(cursor.word_width(), 2);
    assert_eq!(cursor.doc_position(), Position { row: 0, col: 2 });
    assert_eq!(cursor.advance(100), None);
    assert_eq!(cursor.word_width(), 2);
    assert_eq!(cursor.doc_position(), Position { row: 0, col: 2 });
}

#[test]
fn wide_word_draws_what_fits_before_wrapping() {
    let config = editor_config(true, 5, false, false);
    let vp = viewport(8, 3);
    let mut tr = renderer(&config, 0, vp);
    let mut doc = document(&config, "ab cdefghijk", vp, &tr);
    doc.render_line(&mut tr);
    assert_eq!(row_text(tr.ops(), 0), "ab cdefg");
    assert_eq!(tr.visual_line(), 1);
    doc.render_line(&mut tr);
    assert_eq!(row_text(tr.ops(), 1), "hijk");
}
