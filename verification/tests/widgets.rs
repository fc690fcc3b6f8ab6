use karsus_ui::{color, Button, ButtonStyle, Column, Font, Row, Text, Theme, Widget};

#[test]
fn themed_style_uses_on_secondary_for_focused_foreground() {
    let theme = Theme {
        background: 1,
        on_background: 2,
        primary: 3,
        on_primary: 4,
        secondary: 5,
        on_secondary: 6,
    };

    let style = ButtonStyle::themed(theme);
    assert_eq!(style.focused.foreground, 6);
    assert_eq!(style.normal.foreground, 2);
}

#[test]
fn themed_style_uses_each_theme_colour() {
    let theme = Theme {
        background: 1,
        on_background: 2,
        primary: 3,
        on_primary: 4,
        secondary: 5,
        on_secondary: 6,
    };
    let style = ButtonStyle::themed(theme);
    assert_eq!(style.normal.background, 1);
    assert_eq!(style.normal.border, 3);
    assert_eq!(style.focused.background, 5);
    assert_eq!(style.focused.border, 3);
    assert_eq!(style.border_width, 1);
    assert_eq!(style.padding, 4);
}

#[test]
fn default_theme_colours() {
    let theme = Theme::default();
    assert_eq!(theme.background, color::WHITE);
    assert_eq!(theme.on_background, color::BLACK);
    assert_eq!(theme.primary, color::BLACK);
    assert_eq!(theme.on_primary, color::WHITE);
    assert_eq!(theme.secondary, color::BLUE);
    assert_eq!(theme.on_secondary, color::WHITE);
    assert_eq!(color::WHITE, 0xFFFF);
    assert_eq!(color::GRAY, 0x8430);
}

#[test]
fn builders_set_one_field_each() {
    let text = Text::new("hello").color(7).font(Font::Font20);
    assert_eq!(text.text, "hello");
    assert_eq!(text.color, Some(7));
    assert_eq!(text.font, Font::Font20);
    assert_eq!(Text::new("x").color, None);
    assert_eq!(Text::new("x").font, Font::Font12);

    let style = ButtonStyle::themed(Theme::default());
    let other = ButtonStyle { padding: 9, ..style };
    let button = Button::new(3, "Go", style).on_press(11).with_style(other);
    assert_eq!(button.id, 3);
    assert_eq!(button.label, "Go");
    assert_eq!(button.on_press, Some(11));
    assert_eq!(button.style, Some(other));
    let themed = Button::new(4, "T", other).with_theme(Theme::default());
    assert_eq!(themed.style, Some(style));
    assert_eq!(themed.on_press, None);

    let row = Row::new(vec![Widget::text("a")]).spacing(3);
    assert_eq!(row.spacing, 3);
    assert_eq!(row.children.len(), 1);
    let column = Column::new(vec![]).spacing(5);
    assert_eq!(column.spacing, 5);
    assert!(column.children.is_empty());
}

#[test]
fn widget_shorthands() {
    match Widget::button(9, "Nine") {
        Widget::Button(b) => {
            assert_eq!(b.id, 9);
            assert_eq!(b.label, "Nine");
            assert_eq!(b.style, None);
        }
        _ => panic!("expected a button"),
    }
    let style = ButtonStyle { border_width: 3, ..ButtonStyle::themed(Theme::default()) };
    match Widget::button_with_style(2, "S", style) {
        Widget::Button(b) => assert_eq!(b.style, Some(style)),
        _ => panic!("expected a button"),
    }
    match Widget::row(vec![Widget::text("a"), Widget::text("b")]) {
        Widget::Row(r) => {
            assert_eq!(r.children.len(), 2);
            assert_eq!(r.spacing, 0);
        }
        _ => panic!("expected a row"),
    }
    match Widget::column(vec![Widget::text("a")]) {
        Widget::Column(c) => assert_eq!(c.children.len(), 1),
        _ => panic!("expected a column"),
    }
}
