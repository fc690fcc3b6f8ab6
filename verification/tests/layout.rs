use karsus_ui::{
    build_layout, initial_focus, move_focus, try_build_layout, Button, ButtonLayout,
    ButtonStyle, Column, FocusDirection, Font, LayoutFrame, Rect, Row, Text, Theme, UiError,
    Widget,
};

fn bounds() -> Rect {
    Rect {
        x: 0,
        y: 0,
        width: 128,
        height: 128,
    }
}

fn style() -> ButtonStyle {
    ButtonStyle::themed(Theme::default())
}

#[test]
fn row_layout_splits_width() {
    let widget = Widget::Row(Row::new(vec![
        Widget::Button(Button::new(1, "A", style())),
        Widget::Button(Button::new(2, "B", style())),
    ]));

    let frame = build_layout(&widget, bounds()).expect("row layout should work");
    assert_eq!(frame.buttons.len(), 2);
    assert_eq!(
        frame.buttons[0].rect.width + frame.buttons[1].rect.width,
        128
    );
}

#[test]
fn column_layout_splits_height() {
    let widget = Widget::Column(Column::new(vec![
        Widget::Button(Button::new(1, "A", style())),
        Widget::Button(Button::new(2, "B", style())),
    ]));

    let frame = build_layout(&widget, bounds()).expect("column layout should work");
    assert_eq!(frame.buttons.len(), 2);
    assert_eq!(
        frame.buttons[0].rect.height + frame.buttons[1].rect.height,
        128
    );
}

#[test]
fn detects_duplicate_widget_id() {
    let widget = Widget::Column(Column::new(vec![
        Widget::Button(Button::new(1, "A", style())),
        Widget::Button(Button::new(1, "B", style())),
    ]));

    let result = build_layout(&widget, bounds());
    assert!(matches!(result, Err(UiError::DuplicateWidgetId(1))));
}

#[test]
fn initial_focus_picks_first_button() {
    let widget = Widget::Column(Column::new(vec![
        Widget::Button(Button::new(10, "A", style())),
        Widget::Button(Button::new(20, "B", style())),
    ]));

    let frame = build_layout(&widget, bounds()).expect("column layout should work");
    assert_eq!(initial_focus(&frame), Some(10));
}

#[test]
fn geo_focus_moves_in_all_directions() {
    let widget = Widget::Column(Column::new(vec![
        Widget::Row(Row::new(vec![
            Widget::Button(Button::new(1, "TL", style())),
            Widget::Button(Button::new(2, "TR", style())),
        ])),
        Widget::Row(Row::new(vec![
            Widget::Button(Button::new(3, "BL", style())),
            Widget::Button(Button::new(4, "BR", style())),
        ])),
    ]));

    let frame = build_layout(&widget, bounds()).expect("grid layout should work");

    assert_eq!(move_focus(&frame, Some(1), FocusDirection::Right), Some(2));
    assert_eq!(move_focus(&frame, Some(1), FocusDirection::Down), Some(3));
    assert_eq!(move_focus(&frame, Some(4), FocusDirection::Left), Some(3));
    assert_eq!(move_focus(&frame, Some(4), FocusDirection::Up), Some(2));
}

#[test]
fn focus_keeps_current_when_no_candidate() {
    let widget = Widget::Button(Button::new(1, "Only", style()));
    let frame = build_layout(&widget, bounds()).expect("single button layout should work");

    assert_eq!(move_focus(&frame, Some(1), FocusDirection::Up), Some(1));
}

#[test]
fn uneven_split_gives_leading_cells_the_extra_pixels() {
    let widget = Widget::Row(
        Row::new(vec![
            Widget::Button(Button::new(1, "A", style())),
            Widget::Button(Button::new(2, "B", style())),
            Widget::Button(Button::new(3, "C", style())),
        ])
        .spacing(4),
    );
    let frame = build_layout(&widget, Rect { x: 10, y: 20, width: 100, height: 30 }).unwrap();
    // 100 - 2 * 4 = 92 = 3 * 30 + 2
    let widths: Vec<u16> = frame.buttons.iter().map(|b| b.rect.width).collect();
    assert_eq!(widths, vec![31, 31, 30]);
    let xs: Vec<u16> = frame.buttons.iter().map(|b| b.rect.x).collect();
    assert_eq!(xs, vec![10, 45, 80]);
    for b in &frame.buttons {
        assert_eq!(b.rect.y, 20);
        assert_eq!(b.rect.height, 30);
    }
    assert_eq!(widths.iter().sum::<u16>() + 2 * 4, 100);
}

#[test]
fn spacing_that_takes_the_whole_extent_is_refused() {
    let row = Widget::Row(
        Row::new(vec![Widget::text("a"), Widget::text("b")]).spacing(128),
    );
    assert!(matches!(
        build_layout(&row, bounds()),
        Err(UiError::InvalidLayout("row spacing exceeds available width"))
    ));
    let column = Widget::Column(
        Column::new(vec![Widget::text("a"), Widget::text("b"), Widget::text("c")]).spacing(64),
    );
    assert!(matches!(
        build_layout(&column, bounds()),
        Err(UiError::InvalidLayout("column spacing exceeds available height"))
    ));
    let fits = Widget::Column(
        Column::new(vec![Widget::text("a"), Widget::text("b"), Widget::text("c")]).spacing(63),
    );
    assert!(build_layout(&fits, bounds()).is_ok());
}

#[test]
fn texts_take_one_line_at_the_top_of_their_cell() {
    let widget = Widget::Column(
        Column::new(vec![
            Widget::Text(Text::new("big").font(Font::Font24).color(5)),
            Widget::text("small"),
        ])
        .spacing(8),
    );
    let frame = build_layout(&widget, bounds()).unwrap();
    assert!(frame.buttons.is_empty());
    assert_eq!(frame.texts.len(), 2);
    assert_eq!(frame.texts[0].rect, Rect { x: 0, y: 0, width: 128, height: 24 });
    assert_eq!(frame.texts[0].text, "big");
    assert_eq!(frame.texts[0].color, Some(5));
    assert_eq!(frame.texts[1].rect, Rect { x: 0, y: 68, width: 128, height: 12 });
    assert_eq!(frame.texts[1].font, Font::Font12);
}

#[test]
fn empty_containers_place_nothing() {
    let widget = Widget::Row(Row::new(vec![]).spacing(500));
    let frame = build_layout(&widget, bounds()).unwrap();
    assert_eq!(frame, LayoutFrame::default());
    assert_eq!(initial_focus(&frame), None);
    assert_eq!(move_focus(&frame, Some(1), FocusDirection::Up), None);
}

#[test]
fn duplicate_in_nested_rows_is_found_in_walk_order() {
    let widget = Widget::Column(Column::new(vec![
        Widget::Row(Row::new(vec![
            Widget::Button(Button::new(5, "a", style())),
            Widget::Button(Button::new(6, "b", style())),
        ])),
        Widget::Row(Row::new(vec![
            Widget::Button(Button::new(6, "c", style())),
            Widget::Button(Button::new(5, "d", style())),
        ])),
    ]));
    assert!(matches!(build_layout(&widget, bounds()), Err(UiError::DuplicateWidgetId(6))));
}

#[test]
fn buttons_keep_label_style_and_action() {
    let other = ButtonStyle { padding: 1, ..style() };
    let widget = Widget::Row(Row::new(vec![
        Widget::Button(Button::new(1, "One", style()).on_press(100)),
        Widget::Button(Button::new(2, "Two", other)),
    ]));
    let frame = build_layout(&widget, bounds()).unwrap();
    assert_eq!(frame.buttons[0].label, "One");
    assert_eq!(frame.buttons[0].action, Some(100));
    assert_eq!(frame.buttons[1].style, Some(other));
    assert_eq!(frame.buttons[1].action, None);
    assert!(frame.button_by_id(2).is_some());
    assert_eq!(frame.button_by_id(2).unwrap().label, "Two");
    assert!(frame.button_by_id(3).is_none());
}

fn button_at(id: u32, x: u16, y: u16) -> ButtonLayout {
    ButtonLayout {
        rect: Rect { x, y, width: 10, height: 10 },
        id,
        label: String::new(),
        style: Some(ButtonStyle::themed(Theme::default())),
        action: None,
    }
}

#[test]
fn focus_prefers_the_axis_then_the_first_on_ties() {
    let frame = LayoutFrame {
        texts: vec![],
        buttons: vec![
            button_at(1, 50, 50),
            // straight right, 40 px away
            button_at(2, 90, 50),
            // diagonal, 30 px right and 30 px down: 3000 + 30 beats 4000
            button_at(3, 80, 80),
            // the same score as button 3, placed later
            button_at(4, 80, 20),
        ],
    };
    assert_eq!(move_focus(&frame, Some(1), FocusDirection::Right), Some(3));
    assert_eq!(move_focus(&frame, Some(1), FocusDirection::Left), Some(1));
    assert_eq!(move_focus(&frame, Some(2), FocusDirection::Left), Some(3));
    // nothing focused: moves from the first button, and stays unfocused when nothing lies there
    assert_eq!(move_focus(&frame, None, FocusDirection::Down), Some(3));
    assert_eq!(move_focus(&frame, None, FocusDirection::Left), None);
    // a focused id that is not in the frame
    assert_eq!(move_focus(&frame, Some(99), FocusDirection::Down), None);
}

#[test]
fn layout_is_undefined_only_where_it_divides_by_zero() {
    let small = Widget::Column(Column::new(vec![Widget::Row(Row::new(vec![Widget::text("a")]))]));
    assert!(matches!(try_build_layout(&small, bounds()), Some(Ok(_))));

    let many = || {
        let mut children = Vec::new();
        for _ in 0..65536 {
            children.push(Widget::text(""));
        }
        Widget::Row(Row::new(children))
    };
    // the 16-bit counter of 65536 children is zero: undefined where there is room
    assert!(try_build_layout(&many(), bounds()).is_none());
    // no room at all: the spacing check fails first
    let flat = Rect { x: 0, y: 0, width: 0, height: 128 };
    assert!(matches!(
        try_build_layout(&many(), flat),
        Some(Err(UiError::InvalidLayout("row spacing exceeds available width")))
    ));
    // an earlier duplicate stops the layout before the row is reached
    let dup_first = Widget::Column(Column::new(vec![
        Widget::Row(Row::new(vec![
            Widget::Button(Button::new(1, "a", style())),
            Widget::Button(Button::new(1, "b", style())),
        ])),
        many(),
    ]));
    assert!(matches!(
        try_build_layout(&dup_first, bounds()),
        Some(Err(UiError::DuplicateWidgetId(1)))
    ));
}
