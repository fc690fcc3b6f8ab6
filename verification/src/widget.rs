use crate::config::Theme;
use crate::lcd_types::Font;
use vstd::prelude::*;

verus! {

/// Identifies a button within one page view.
pub type WidgetId = u32;

/// The action a button reports when pressed.
pub type ButtonActionId = u32;

/// The three colours of a button in one state.
#[derive(Debug, Clone, Copy, PartialEq, Eq, Structural)]
pub struct ButtonPalette {
    pub background: u16,
    pub foreground: u16,
    pub border: u16,
}

/// How a button looks, unfocused and focused.
#[derive(Debug, Clone, Copy, PartialEq, Eq, Structural)]
pub struct ButtonStyle {
    pub normal: ButtonPalette,
    pub focused: ButtonPalette,
    pub border_width: u8,
    pub padding: u16,
}

/// The style that a theme gives a button: plain on the background when
/// unfocused, the secondary colour with its foreground when focused, bordered
/// with the primary colour.
pub open spec fn spec_themed(theme: Theme) -> ButtonStyle {
    ButtonStyle {
        normal: ButtonPalette {
            background: theme.background,
            foreground: theme.on_background,
            border: theme.primary,
        },
        focused: ButtonPalette {
            background: theme.secondary,
            foreground: theme.on_secondary,
            border: theme.primary,
        },
        border_width: 1,
        padding: 4,
    }
}

impl ButtonStyle {
    /// The style of a button under `theme`.
    pub fn themed(theme: Theme) -> (r: Self)
        ensures
            r == spec_themed(theme),
    {
        ButtonStyle {
            normal: ButtonPalette {
                background: theme.background,
                foreground: theme.on_background,
                border: theme.primary,
            },
            focused: ButtonPalette {
                background: theme.secondary,
                foreground: theme.on_secondary,
                border: theme.primary,
            },
            border_width: 1,
            padding: 4,
        }
    }
}

/// A line of text.
#[derive(Debug, Clone, PartialEq, Eq)]
pub struct Text {
    pub text: String,
    /// The text colour; the theme's text colour where absent.
    pub color: Option<u16>,
    pub font: Font,
}

impl Text {
    /// A text in the theme's colour and the 12 pixel font.
    pub fn new(text: &str) -> (r: Self)
        ensures
            r.text@ == text@,
            r.color is None,
            r.font == Font::Font12,
    {
        Text { text: String::from_str(text), color: None, font: Font::Font12 }
    }

    /// The same text in another colour.
    pub fn color(self, color: u16) -> (r: Self)
        ensures
            r.text == self.text,
            r.color == Some(color),
            r.font == self.font,
    {
        let mut t = self;
        t.color = Some(color);
        t
    }

    /// The same text in another font.
    pub fn font(self, font: Font) -> (r: Self)
        ensures
            r.text == self.text,
            r.color == self.color,
            r.font == font,
    {
        let mut t = self;
        t.font = font;
        t
    }
}

/// A focusable button.
#[derive(Debug, Clone, PartialEq, Eq)]
pub struct Button {
    pub id: WidgetId,
    pub label: String,
    /// The button's own style; the application theme's style where absent.
    pub style: Option<ButtonStyle>,
    pub on_press: Option<ButtonActionId>,
}

impl Button {
    /// A button in `style`, without an action.
    pub fn new(id: WidgetId, label: &str, style: ButtonStyle) -> (r: Self)
        ensures
            r.id == id,
            r.label@ == label@,
            r.style == Some(style),
            r.on_press is None,
    {
        Button { id, label: String::from_str(label), style: Some(style), on_press: None }
    }

    /// The same button in another style.
    pub fn with_style(self, style: ButtonStyle) -> (r: Self)
        ensures
            r.id == self.id,
            r.label == self.label,
            r.style == Some(style),
            r.on_press == self.on_press,
    {
        let mut b = self;
        b.style = Some(style);
        b
    }

    /// The same button in the style of `theme`.
    pub fn with_theme(self, theme: Theme) -> (r: Self)
        ensures
            r.id == self.id,
            r.label == self.label,
            r.style == Some(spec_themed(theme)),
            r.on_press == self.on_press,
    {
        self.with_style(ButtonStyle::themed(theme))
    }

    /// The same button reporting `action` when pressed.
    pub fn on_press(self, action: ButtonActionId) -> (r: Self)
        ensures
            r.id == self.id,
            r.label == self.label,
            r.style == self.style,
            r.on_press == Some(action),
    {
        let mut b = self;
        b.on_press = Some(action);
        b
    }
}

/// Children side by side, sharing the width.
#[derive(Debug, PartialEq, Eq)]
pub struct Row {
    pub children: Vec<Widget>,
    pub spacing: u16,
}

impl Row {
    /// A row without spacing.
    pub fn new(children: Vec<Widget>) -> (r: Self)
        ensures
            r.children == children,
            r.spacing == 0,
    {
        Row { children, spacing: 0 }
    }

    /// The same row with `spacing` pixels between children.
    pub fn spacing(self, spacing: u16) -> (r: Self)
        ensures
            r.children == self.children,
            r.spacing == spacing,
    {
        let mut row = self;
        row.spacing = spacing;
        row
    }
}

/// Children one above the other, sharing the height.
#[derive(Debug, PartialEq, Eq)]
pub struct Column {
    pub children: Vec<Widget>,
    pub spacing: u16,
}

impl Column {
    /// A column without spacing.
    pub fn new(children: Vec<Widget>) -> (r: Self)
        ensures
            r.children == children,
            r.spacing == 0,
    {
        Column { children, spacing: 0 }
    }

    /// The same column with `spacing` pixels between children.
    pub fn spacing(self, spacing: u16) -> (r: Self)
        ensures
            r.children == self.children,
            r.spacing == spacing,
    {
        let mut column = self;
        column.spacing = spacing;
        column
    }
}

/// A node of a page's view.
#[derive(Debug, PartialEq, Eq)]
pub enum Widget {
    Text(Text),
    Button(Button),
    Row(Row),
    Column(Column),
}

impl Widget {
    /// A text node.
    pub fn text(text: &str) -> (r: Self)
        ensures
            r matches Widget::Text(t) && t.text@ == text@ && t.color is None && t.font
                == Font::Font12,
    {
        Widget::Text(Text::new(text))
    }

    /// A button node in the style of the application's theme.
    pub fn button(id: WidgetId, label: &str) -> (r: Self)
        ensures
            r matches Widget::Button(b) && b.id == id && b.label@ == label@ && b.style is None
                && b.on_press is None,
    {
        Widget::Button(
            Button { id, label: String::from_str(label), style: None, on_press: None },
        )
    }

    /// A button node in the given style.
    pub fn button_with_style(id: WidgetId, label: &str, style: ButtonStyle) -> (r: Self)
        ensures
            r matches Widget::Button(b) && b.id == id && b.label@ == label@ && b.style == Some(
                style,
            ) && b.on_press is None,
    {
        Widget::Button(Button::new(id, label, style))
    }

    /// A row node without spacing.
    pub fn row(children: Vec<Widget>) -> (r: Self)
        ensures
            r matches Widget::Row(row) && row.children == children && row.spacing == 0,
    {
        Widget::Row(Row::new(children))
    }

    /// A column node without spacing.
    pub fn column(children: Vec<Widget>) -> (r: Self)
        ensures
            r matches Widget::Column(column) && column.children == children && column.spacing == 0,
    {
        Widget::Column(Column::new(children))
    }
}

} // verus!
