use dram::buffer::Buffer;
use dram::gauge::{eighth_block, label_placement, GaugeError, VerticalGauge};
use dram::geometry::Rect;
use dram::style::{Color, Style};

const FULL: &str = "\u{2588}";

fn symbol(buf: &Buffer, x: u16, y: u16) -> String {
    buf.cell(x, y).symbol.clone()
}

#[test]
fn percent_bounds() {
    assert_eq!(VerticalGauge::new().percent(101).err(), Some(GaugeError::PercentOutOfRange));
    assert!(VerticalGauge::new().percent(0).is_ok());
    assert!(VerticalGauge::new().percent(100).is_ok());
    let g = VerticalGauge::new().percent(43).unwrap();
    assert_eq!((g.num, g.den), (43, 100));
}

#[test]
fn ratio_bounds() {
    assert_eq!(VerticalGauge::new().ratio(101, 100).err(), Some(GaugeError::RatioOutOfRange));
    assert_eq!(VerticalGauge::new().ratio(1, 0).err(), Some(GaugeError::RatioOutOfRange));
    assert!(VerticalGauge::new().ratio(0, 1).is_ok());
    assert!(VerticalGauge::new().ratio(1, 1).is_ok());
}

#[test]
fn default_label_rounds_percentage() {
    let g = VerticalGauge::new().ratio(437, 1000).unwrap();
    assert_eq!(g.label_text(), "44%");
    let g = VerticalGauge::new().ratio(3, 8).unwrap();
    assert_eq!(g.label_text(), "38%");
    let g = VerticalGauge::new().percent(7).unwrap();
    assert_eq!(g.label_text(), "7%");
    let g = VerticalGauge::new().percent(7).unwrap().label("seven".to_string());
    assert_eq!(g.label_text(), "seven");
}

#[test]
fn coarse_rows_round_half_up() {
    let g = VerticalGauge::new().percent(50).unwrap();
    assert_eq!(g.filled_rows(10), 5);
    assert_eq!(g.filled_rows(5), 3);
    assert_eq!(g.filled_rows(0), 0);
    let g = VerticalGauge::new().percent(100).unwrap();
    assert_eq!(g.filled_rows(7), 7);
    let g = VerticalGauge::new().ratio(1, 3).unwrap();
    assert_eq!(g.filled_rows(4), 1);
}

#[test]
fn fine_rows_and_eighths() {
    let g = VerticalGauge::new().ratio(7, 16).unwrap().use_unicode(true);
    assert_eq!(g.filled_rows(8), 3);
    assert_eq!(g.transition_eighths(8), 4);
    let g = VerticalGauge::new().ratio(3, 8).unwrap().use_unicode(true);
    assert_eq!(g.filled_rows(8), 3);
    assert_eq!(g.transition_eighths(8), 0);
    let g = VerticalGauge::new().ratio(99, 100).unwrap().use_unicode(true);
    assert_eq!(g.filled_rows(1), 0);
    assert_eq!(g.transition_eighths(1), 8);
}

#[test]
fn covered_rows_grow_with_ratio() {
    let mut last = 0u16;
    for p in 0..=100u16 {
        let g = VerticalGauge::new().percent(p).unwrap().use_unicode(true);
        let covered = g.filled_rows(9) + if p < 100 && g.transition_eighths(9) > 0 { 1 } else { 0 };
        assert!(covered >= last);
        last = covered;
    }
    assert_eq!(last, 9);
}

#[test]
fn glyph_table() {
    assert_eq!(eighth_block(0), " ");
    assert_eq!(eighth_block(1), "\u{2581}");
    assert_eq!(eighth_block(4), "\u{2584}");
    assert_eq!(eighth_block(8), FULL);
}

#[test]
fn label_centred_and_clamped() {
    let area = Rect::new(2, 1, 10, 7);
    assert_eq!(label_placement(area, 3), (5, 4, 3));
    assert_eq!(label_placement(area, 4), (5, 4, 4));
    assert_eq!(label_placement(area, 12), (2, 4, 10));
}

#[test]
fn coarse_half_fill_scenario() {
    let area = Rect::new(0, 0, 3, 10);
    let mut buf = Buffer::empty(area);
    let g = VerticalGauge::new()
        .percent(50)
        .unwrap()
        .gauge_style(Style::new().fg(Color::Blue).bg(Color::White));
    g.render(area, &mut buf);
    for y in 0..5 {
        for x in 0..3 {
            assert_eq!(symbol(&buf, x, y), " ");
            assert_eq!(buf.cell(x, y).fg, Color::Blue);
        }
    }
    for y in 6..10 {
        for x in 0..3 {
            assert_eq!(symbol(&buf, x, y), FULL);
            assert_eq!(buf.cell(x, y).fg, Color::Blue);
            assert_eq!(buf.cell(x, y).bg, Color::White);
        }
    }
    assert_eq!(symbol(&buf, 0, 5), "5");
    assert_eq!(symbol(&buf, 1, 5), "0");
    assert_eq!(symbol(&buf, 2, 5), "%");
    assert_eq!(buf.cell(1, 5).fg, Color::White);
    assert_eq!(buf.cell(1, 5).bg, Color::Blue);
}

#[test]
fn label_box_inverted_inside_fill() {
    let area = Rect::new(0, 0, 5, 4);
    let mut buf = Buffer::empty(area);
    let g = VerticalGauge::new()
        .percent(100)
        .unwrap()
        .label("ab".to_string())
        .gauge_style(Style::new().fg(Color::Red).bg(Color::Green));
    g.render(area, &mut buf);
    assert_eq!(symbol(&buf, 1, 2), "a");
    assert_eq!(symbol(&buf, 2, 2), "b");
    assert_eq!(buf.cell(1, 2).fg, Color::Green);
    assert_eq!(buf.cell(1, 2).bg, Color::Red);
    assert_eq!(symbol(&buf, 0, 2), FULL);
    assert_eq!(symbol(&buf, 3, 2), FULL);
    assert_eq!(buf.cell(3, 2).fg, Color::Red);
}

#[test]
fn subcell_whole_rows_scenario() {
    let area = Rect::new(0, 0, 2, 8);
    let mut buf = Buffer::empty(area);
    let g = VerticalGauge::new().ratio(3, 8).unwrap().use_unicode(true).label(String::new());
    g.render(area, &mut buf);
    for y in 0..5 {
        for x in 0..2 {
            assert_eq!(symbol(&buf, x, y), " ");
        }
    }
    for y in 5..8 {
        for x in 0..2 {
            assert_eq!(symbol(&buf, x, y), FULL);
        }
    }
}

#[test]
fn subcell_half_row_scenario() {
    let area = Rect::new(0, 0, 2, 8);
    let mut buf = Buffer::empty(area);
    let g = VerticalGauge::new().ratio(7, 16).unwrap().use_unicode(true).label(String::new());
    g.render(area, &mut buf);
    for y in 0..4 {
        for x in 0..2 {
            assert_eq!(symbol(&buf, x, y), " ");
        }
    }
    for x in 0..2 {
        assert_eq!(symbol(&buf, x, 4), "\u{2584}");
    }
    for y in 5..8 {
        for x in 0..2 {
            assert_eq!(symbol(&buf, x, y), FULL);
        }
    }
}

#[test]
fn empty_area_leaves_buffer_unchanged() {
    let whole = Rect::new(0, 0, 4, 4);
    let g = VerticalGauge::new()
        .percent(60)
        .unwrap()
        .style(Style::new().bg(Color::Red))
        .gauge_style(Style::new().fg(Color::Blue));
    for area in [Rect::new(1, 1, 0, 3), Rect::new(1, 1, 3, 0)] {
        let mut buf = Buffer::empty(whole);
        g.render(area, &mut buf);
        for y in 0..4 {
            for x in 0..4 {
                assert_eq!(symbol(&buf, x, y), " ");
                assert_eq!(buf.cell(x, y).fg, Color::Reset);
                assert_eq!(buf.cell(x, y).bg, Color::Reset);
            }
        }
    }
}

#[test]
fn rendering_twice_from_same_state_agrees() {
    let area = Rect::new(0, 0, 4, 6);
    let g = VerticalGauge::new()
        .ratio(5, 11)
        .unwrap()
        .use_unicode(true)
        .gauge_style(Style::new().fg(Color::Yellow));
    let mut a = Buffer::empty(area);
    let mut b = Buffer::empty(area);
    g.render(area, &mut a);
    g.render(area, &mut b);
    for y in 0..6 {
        for x in 0..4 {
            assert_eq!(symbol(&a, x, y), symbol(&b, x, y));
            assert_eq!(a.cell(x, y).fg, b.cell(x, y).fg);
            assert_eq!(a.cell(x, y).bg, b.cell(x, y).bg);
        }
    }
}

#[test]
fn wide_label_is_cut_before_overflow() {
    let area = Rect::new(0, 0, 3, 2);
    let mut buf = Buffer::empty(area);
    let g = VerticalGauge::new().percent(100).unwrap().label("\u{65e5}\u{672c}".to_string());
    g.render(area, &mut buf);
    assert_eq!(symbol(&buf, 0, 1), "\u{65e5}");
    assert_eq!(symbol(&buf, 1, 1), " ");
    assert_eq!(symbol(&buf, 2, 1), " ");
    assert_eq!(symbol(&buf, 0, 0), FULL);
}

#[test]
fn framed_render_styles_outer_and_draws_inner() {
    let outer = Rect::new(0, 0, 4, 4);
    let inner = Rect::new(1, 1, 2, 2);
    let mut buf = Buffer::empty(outer);
    let g = VerticalGauge::new()
        .percent(100)
        .unwrap()
        .label(String::new())
        .style(Style::new().bg(Color::Magenta));
    g.render_framed(outer, inner, &mut buf);
    assert_eq!(buf.cell(0, 0).bg, Color::Magenta);
    assert_eq!(symbol(&buf, 0, 0), " ");
    assert_eq!(symbol(&buf, 1, 1), FULL);
    assert_eq!(buf.cell(1, 1).bg, Color::Reset);
}

#[test]
fn label_centred_by_display_width() {
    for (width, col) in [(6u16, 2u16), (7, 2)] {
        let area = Rect::new(0, 0, width, 1);
        let mut buf = Buffer::empty(area);
        let g = VerticalGauge::new().label("\u{65e5}".to_string());
        g.render(area, &mut buf);
        assert_eq!(symbol(&buf, col, 0), "\u{65e5}");
    }
}

#[test]
fn styled_label_colours_its_text_only() {
    let area = Rect::new(0, 0, 5, 3);
    let mut buf = Buffer::empty(area);
    let g = VerticalGauge::new()
        .percent(100)
        .unwrap()
        .gauge_style(Style::new().fg(Color::Blue).bg(Color::Black))
        .styled_label("ab".to_string(), Style::new().fg(Color::Yellow));
    g.render(area, &mut buf);
    assert_eq!(symbol(&buf, 1, 1), "a");
    assert_eq!(buf.cell(1, 1).fg, Color::Yellow);
    assert_eq!(buf.cell(1, 1).bg, Color::Blue);
    assert_eq!(buf.cell(2, 1).fg, Color::Yellow);
    assert_eq!(buf.cell(0, 1).fg, Color::Blue);
    assert_eq!(symbol(&buf, 0, 1), FULL);
}
