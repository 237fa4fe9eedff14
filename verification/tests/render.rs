use widget_core::buffer::Buffer;
use widget_core::layout::Rect;
use widget_core::style::Style;
use widget_core::widgets::Context;
use widget_core::widgets::Render;
use widget_core::widgets::Widget;

fn row(buf: &Buffer, y: u16, width: u16) -> String {
    let mut out = String::new();
    let mut x: u16 = 0;
    while x < width {
        out.push(buf.get(x, y).symbol);
        x += 1;
    }
    out
}

#[test]
fn bridge_matches_reference_render() {
    let area = Rect::new(0, 0, 20, 1);
    let mut by_value = Buffer::empty(area);
    let mut by_reference = Buffer::empty(area);
    let text = String::from("Hello");

    <&String as Widget>::render(&text, area, &mut by_value);

    let mut ctx = Context::from_buffer(&mut by_reference);
    Render::render(&text, area, &mut ctx);

    assert!(by_value.content_eq(&by_reference));
    assert_eq!(row(&by_value, 0, 20), "Hello               ");
}

#[test]
fn absent_optional_changes_nothing() {
    let area = Rect::new(0, 0, 10, 1);
    let mut rendered = Buffer::empty(area);
    let untouched = Buffer::empty(area);
    let widget: Option<&str> = None;

    let mut ctx = Context::from_buffer(&mut rendered);
    Render::render(&widget, area, &mut ctx);

    assert!(rendered.content_eq(&untouched));
}

#[test]
fn present_optional_matches_inner() {
    let area = Rect::new(0, 0, 10, 1);
    let mut with_option = Buffer::empty(area);
    let mut direct = Buffer::empty(area);
    let widget: Option<&str> = Some("Hi");

    let mut ctx = Context::from_buffer(&mut with_option);
    Render::render(&widget, area, &mut ctx);

    let mut ctx = Context::from_buffer(&mut direct);
    Render::render(&"Hi", area, &mut ctx);

    assert!(with_option.content_eq(&direct));
    assert_eq!(row(&with_option, 0, 10), "Hi        ");
}

#[test]
fn text_renders_at_origin_with_default_style() {
    let area = Rect::new(0, 0, 10, 1);
    let mut buf = Buffer::empty(area);

    let mut ctx = Context::from_buffer(&mut buf);
    Render::render(&"Hello", area, &mut ctx);

    let expected = ['H', 'e', 'l', 'l', 'o'];
    let mut x: u16 = 0;
    while x < 5 {
        let cell = buf.get(x, 0);
        assert_eq!(cell.symbol, expected[x as usize]);
        assert_eq!(cell.style, Style::default());
        x += 1;
    }
    while x < 10 {
        let cell = buf.get(x, 0);
        assert_eq!(cell.symbol, ' ');
        assert_eq!(cell.style, Style::default());
        x += 1;
    }
}

#[test]
fn repeated_render_gives_identical_output() {
    let area = Rect::new(0, 0, 8, 1);
    let mut once = Buffer::empty(area);
    let mut twice = Buffer::empty(area);

    let mut ctx = Context::from_buffer(&mut once);
    Render::render(&"hello", area, &mut ctx);

    let mut ctx = Context::from_buffer(&mut twice);
    Render::render(&"hello", area, &mut ctx);
    assert!(once.content_eq(&twice));

    let mut ctx = Context::from_buffer(&mut twice);
    Render::render(&"hello", area, &mut ctx);
    assert!(once.content_eq(&twice));
}

#[test]
fn composite_with_present_left_child() {
    let surface = Rect::new(0, 0, 10, 1);
    let left = Rect::new(0, 0, 5, 1);
    let right = Rect::new(5, 0, 5, 1);
    let mut buf = Buffer::empty(surface);
    let left_child: Option<&str> = Some("Hi");

    let mut ctx = Context::from_buffer(&mut buf);
    Render::render(&left_child, left, &mut ctx);
    Render::render(&"World", right, &mut ctx);

    assert_eq!(row(&buf, 0, 10), "Hi   World");
}

#[test]
fn composite_with_absent_left_child() {
    let surface = Rect::new(0, 0, 10, 1);
    let left = Rect::new(0, 0, 5, 1);
    let right = Rect::new(5, 0, 5, 1);
    let mut buf = Buffer::empty(surface);
    let left_child: Option<&str> = None;

    let mut ctx = Context::from_buffer(&mut buf);
    Render::render(&left_child, left, &mut ctx);
    Render::render(&"World", right, &mut ctx);

    assert_eq!(row(&buf, 0, 10), "     World");
}

#[test]
fn str_widget_renders_by_value() {
    let area = Rect::new(0, 0, 16, 1);
    let mut buf = Buffer::empty(area);
    Widget::render("hello world", area, &mut buf);
    assert_eq!(row(&buf, 0, 16), "hello world     ");
}

#[test]
fn string_widget_renders_by_value() {
    let area = Rect::new(0, 0, 16, 1);
    let mut buf = Buffer::empty(area);
    Widget::render(String::from("hello world"), area, &mut buf);
    assert_eq!(row(&buf, 0, 16), "hello world     ");
}

#[test]
fn string_and_str_render_alike() {
    let area = Rect::new(0, 0, 12, 1);
    let mut from_str = Buffer::empty(area);
    let mut from_string = Buffer::empty(area);

    let mut ctx = Context::from_buffer(&mut from_str);
    Render::render(&"greeting", area, &mut ctx);

    let owned = String::from("greeting");
    let mut ctx = Context::from_buffer(&mut from_string);
    Render::render(&owned, area, &mut ctx);

    assert!(from_str.content_eq(&from_string));
}

#[test]
fn render_at_region_offset() {
    let surface = Rect::new(0, 0, 8, 2);
    let region = Rect::new(3, 1, 5, 1);
    let mut buf = Buffer::empty(surface);

    let mut ctx = Context::from_buffer(&mut buf);
    Render::render(&"Hi", region, &mut ctx);

    assert_eq!(row(&buf, 0, 8), "        ");
    assert_eq!(row(&buf, 1, 8), "   Hi   ");
}

#[test]
fn render_outside_surface_changes_nothing() {
    let surface = Rect::new(0, 0, 4, 1);
    let region = Rect::new(0, 5, 4, 1);
    let mut buf = Buffer::empty(surface);
    let untouched = Buffer::empty(surface);

    let mut ctx = Context::from_buffer(&mut buf);
    Render::render(&"Hi", region, &mut ctx);

    assert!(buf.content_eq(&untouched));
}

#[test]
fn context_writes_reach_the_buffer() {
    let area = Rect::new(0, 0, 4, 1);
    let mut buf = Buffer::empty(area);
    let ctx = Context::from_buffer(&mut buf);
    ctx.buffer.set_string(0, 0, "abcd", Style::default());
    assert_eq!(row(&buf, 0, 4), "abcd");
}
