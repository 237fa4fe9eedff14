use widget_core::buffer::Buffer;
use widget_core::buffer::Cell;
use widget_core::layout::Rect;
use widget_core::style::Color;
use widget_core::style::Style;

#[test]
fn empty_buffer_is_blank() {
    let area = Rect::new(2, 3, 4, 2);
    let buf = Buffer::empty(area);
    assert_eq!(buf.content.len(), 8);
    let mut y: u16 = 3;
    while y < 5 {
        let mut x: u16 = 2;
        while x < 6 {
            let cell = buf.get(x, y);
            assert_eq!(cell.symbol, ' ');
            assert_eq!(cell.style, Style::default());
            x += 1;
        }
        y += 1;
    }
}

#[test]
fn empty_buffer_of_zero_size_has_no_cells() {
    let buf = Buffer::empty(Rect::new(0, 0, 0, 5));
    assert_eq!(buf.content.len(), 0);
    let buf = Buffer::empty(Rect::new(0, 0, 5, 0));
    assert_eq!(buf.content.len(), 0);
}

#[test]
fn set_string_writes_given_style() {
    let area = Rect::new(0, 0, 6, 1);
    let mut buf = Buffer::empty(area);
    let style = Style::new(Color::Red, Color::Blue);
    buf.set_string(1, 0, "ab", style);
    assert_eq!(buf.get(0, 0), Cell { symbol: ' ', style: Style::default() });
    assert_eq!(buf.get(1, 0), Cell { symbol: 'a', style });
    assert_eq!(buf.get(2, 0), Cell { symbol: 'b', style });
    assert_eq!(buf.get(3, 0), Cell { symbol: ' ', style: Style::default() });
}

#[test]
fn set_string_clips_at_right_edge() {
    let area = Rect::new(0, 0, 3, 1);
    let mut buf = Buffer::empty(area);
    buf.set_string(1, 0, "Hello", Style::default());
    assert_eq!(buf.get(0, 0).symbol, ' ');
    assert_eq!(buf.get(1, 0).symbol, 'H');
    assert_eq!(buf.get(2, 0).symbol, 'e');
}

#[test]
fn set_string_outside_rows_changes_nothing() {
    let area = Rect::new(0, 0, 4, 1);
    let mut buf = Buffer::empty(area);
    buf.set_string(0, 1, "Hi", Style::default());
    let untouched = Buffer::empty(area);
    assert!(buf.content_eq(&untouched));
}

#[test]
fn set_string_before_left_edge_clips_leading_chars() {
    let area = Rect::new(2, 0, 4, 1);
    let mut buf = Buffer::empty(area);
    buf.set_string(0, 0, "Hello", Style::default());
    assert_eq!(buf.get(2, 0).symbol, 'l');
    assert_eq!(buf.get(3, 0).symbol, 'l');
    assert_eq!(buf.get(4, 0).symbol, 'o');
    assert_eq!(buf.get(5, 0).symbol, ' ');
}

#[test]
fn content_eq_detects_differences() {
    let area = Rect::new(0, 0, 4, 1);
    let mut a = Buffer::empty(area);
    let b = Buffer::empty(area);
    assert!(a.content_eq(&b));
    a.set_string(0, 0, "x", Style::default());
    assert!(!a.content_eq(&b));

    let other_area = Buffer::empty(Rect::new(0, 0, 2, 2));
    assert!(!b.content_eq(&other_area));
}

#[test]
fn rect_contains_its_cells_only() {
    let area = Rect::new(1, 2, 3, 2);
    assert!(area.contains(1, 2));
    assert!(area.contains(3, 3));
    assert!(!area.contains(0, 2));
    assert!(!area.contains(4, 2));
    assert!(!area.contains(1, 1));
    assert!(!area.contains(1, 4));
}

#[test]
fn empty_rect_contains_nothing() {
    let area = Rect::new(1, 1, 0, 0);
    assert!(!area.contains(1, 1));
}

#[test]
fn default_style_resets_both_colors() {
    let style = Style::default();
    assert_eq!(style.fg, Color::Reset);
    assert_eq!(style.bg, Color::Reset);
    assert_eq!(style, Style::new(Color::Reset, Color::Reset));
}
