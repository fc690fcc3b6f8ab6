use karsus_ui::{
    build_layout, render, Button, ButtonPalette, ButtonStyle, Column, DrawCommand, Font, Theme,
    Widget, Rect,
};

fn theme() -> Theme {
    Theme {
        background: 1,
        on_background: 2,
        primary: 3,
        on_primary: 4,
        secondary: 5,
        on_secondary: 6,
    }
}

#[test]
fn render_draws_title_texts_and_buttons_in_order() {
    let style = ButtonStyle {
        normal: ButtonPalette { background: 10, foreground: 11, border: 12 },
        focused: ButtonPalette { background: 20, foreground: 21, border: 22 },
        border_width: 2,
        padding: 4,
    };
    let widget = Widget::Column(Column::new(vec![
        Widget::text("hello"),
        Widget::Button(Button::new(1, "A", style)),
        Widget::Button(Button::new(2, "B", style)),
    ]));
    let frame = build_layout(&widget, Rect { x: 0, y: 0, width: 128, height: 126 }).unwrap();
    let commands = render(&frame, theme(), Some(2), "Title");
    assert_eq!(commands.len(), 1 + 1 + 1 + 3 * 2 + 1);
    assert_eq!(commands[0], DrawCommand::Clear { color: 1 });
    assert_eq!(
        commands[1],
        DrawCommand::Text { x: 2, y: 2, text: "Title".to_string(), font: Font::Font12, fg: 2, bg: 1 }
    );
    assert_eq!(
        commands[2],
        DrawCommand::Text { x: 0, y: 0, text: "hello".to_string(), font: Font::Font12, fg: 2, bg: 1 }
    );
    // button 1 occupies y 42..84, unfocused
    assert_eq!(
        commands[3],
        DrawCommand::Rect { x0: 0, y0: 42, x1: 127, y1: 83, color: 10, line_width: 1, filled: true }
    );
    assert_eq!(
        commands[4],
        DrawCommand::Rect { x0: 0, y0: 42, x1: 127, y1: 83, color: 12, line_width: 2, filled: false }
    );
    assert_eq!(
        commands[5],
        DrawCommand::Text { x: 4, y: 46, text: "A".to_string(), font: Font::Font12, fg: 11, bg: 10 }
    );
    // button 2 is focused
    assert_eq!(
        commands[6],
        DrawCommand::Rect { x0: 0, y0: 84, x1: 127, y1: 125, color: 20, line_width: 1, filled: true }
    );
    assert_eq!(
        commands[8],
        DrawCommand::Text { x: 4, y: 88, text: "B".to_string(), font: Font::Font12, fg: 21, bg: 20 }
    );
    assert_eq!(commands[9], DrawCommand::Present);
}

#[test]
fn render_without_title_and_with_tiny_buttons() {
    let style = ButtonStyle::themed(theme());
    let widget = Widget::Button(Button::new(1, "A", style));
    let frame = build_layout(&widget, Rect { x: 3, y: 5, width: 0, height: 6 }).unwrap();
    let commands = render(&frame, theme(), None, "");
    assert_eq!(commands.len(), 5);
    // the label is kept inside the button: its top at most 12 pixels above the bottom edge
    assert_eq!(
        commands[1],
        DrawCommand::Rect { x0: 3, y0: 5, x1: 3, y1: 10, color: 1, line_width: 1, filled: true }
    );
    assert_eq!(
        commands[3],
        DrawCommand::Text { x: 3, y: 0, text: "A".to_string(), font: Font::Font12, fg: 2, bg: 1 }
    );
}

#[test]
fn text_colour_overrides_theme() {
    let widget = Widget::Text(karsus_ui::Text::new("c").color(99));
    let frame = build_layout(&widget, Rect { x: 0, y: 0, width: 10, height: 10 }).unwrap();
    let commands = render(&frame, theme(), None, "");
    assert_eq!(
        commands[1],
        DrawCommand::Text { x: 0, y: 0, text: "c".to_string(), font: Font::Font12, fg: 99, bg: 1 }
    );
}

#[test]
fn unstyled_buttons_take_the_application_theme() {
    let widget = Widget::button(1, "A");
    let frame = build_layout(&widget, Rect { x: 0, y: 0, width: 20, height: 20 }).unwrap();
    let commands = render(&frame, theme(), Some(1), "");
    // focused palette of the theme: secondary background, on_secondary text, primary border
    assert_eq!(
        commands[1],
        DrawCommand::Rect { x0: 0, y0: 0, x1: 19, y1: 19, color: 5, line_width: 1, filled: true }
    );
    assert_eq!(
        commands[2],
        DrawCommand::Rect { x0: 0, y0: 0, x1: 19, y1: 19, color: 3, line_width: 1, filled: false }
    );
    assert_eq!(
        commands[3],
        DrawCommand::Text { x: 4, y: 4, text: "A".to_string(), font: Font::Font12, fg: 6, bg: 5 }
    );
}
