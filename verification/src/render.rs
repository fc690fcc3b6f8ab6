use crate::config::Theme;
use crate::layout::{sat_add, sat_sub, spec_text_height, text_height, ButtonLayout, FrameView, LayoutFrame, TextLayout};
use crate::lcd_types::Font;
use crate::widget::{spec_themed, ButtonStyle, WidgetId};
use vstd::prelude::*;

verus! {

/// One drawing call of the display, in the order they are to be made.
#[derive(Debug, Clone, PartialEq, Eq)]
pub enum DrawCommand {
    /// Fill the whole frame buffer.
    Clear { color: u16 },
    /// Draw a line of text with its top-left corner at `(x, y)`.
    Text { x: u16, y: u16, text: String, font: Font, fg: u16, bg: u16 },
    /// Draw the rectangle from `(x0, y0)` to `(x1, y1)`, filled or as an outline.
    Rect { x0: u16, y0: u16, x1: u16, y1: u16, color: u16, line_width: u8, filled: bool },
    /// Show the frame buffer.
    Present,
}

/// A drawing call, with its text as characters.
pub enum DrawOp {
    Clear { color: u16 },
    Text { x: u16, y: u16, text: Seq<char>, font: Font, fg: u16, bg: u16 },
    Rect { x0: u16, y0: u16, x1: u16, y1: u16, color: u16, line_width: u8, filled: bool },
    Present,
}

impl View for DrawCommand {
    type V = DrawOp;

    open spec fn view(&self) -> DrawOp {
        match self {
            DrawCommand::Clear { color } => DrawOp::Clear { color: *color },
            DrawCommand::Text { x, y, text, font, fg, bg } => DrawOp::Text {
                x: *x,
                y: *y,
                text: text@,
                font: *font,
                fg: *fg,
                bg: *bg,
            },
            DrawCommand::Rect { x0, y0, x1, y1, color, line_width, filled } => DrawOp::Rect {
                x0: *x0,
                y0: *y0,
                x1: *x1,
                y1: *y1,
                color: *color,
                line_width: *line_width,
                filled: *filled,
            },
            DrawCommand::Present => DrawOp::Present,
        }
    }
}

/// The drawing calls as operations.
pub open spec fn ops_of(commands: Seq<DrawCommand>) -> Seq<DrawOp> {
    commands.map_values(|c: DrawCommand| c@)
}

/// The smaller of two values.
pub open spec fn min16(a: u16, b: u16) -> u16 {
    if a <= b {
        a
    } else {
        b
    }
}

/// A placed text, in its own colour or else the theme's text colour.
pub open spec fn text_op(t: TextLayout, theme: Theme) -> DrawOp {
    DrawOp::Text {
        x: t.rect.x,
        y: t.rect.y,
        text: t.text@,
        font: t.font,
        fg: match t.color {
            Some(c) => c,
            None => theme.on_background,
        },
        bg: theme.background,
    }
}

/// The style a button is drawn in: its own, else the theme's.
pub open spec fn style_of(b: ButtonLayout, theme: Theme) -> ButtonStyle {
    match b.style {
        Some(style) => style,
        None => spec_themed(theme),
    }
}

/// A button: its rectangle filled with the palette's background, its
/// border, and its label in the 12 pixel font, inset by the padding but kept
/// inside the rectangle; the focused palette exactly when it has the focus.
pub open spec fn button_ops(b: ButtonLayout, theme: Theme, is_focused: bool) -> Seq<DrawOp> {
    let style = style_of(b, theme);
    let palette = if is_focused {
        style.focused
    } else {
        style.normal
    };
    let x0 = b.rect.x;
    let y0 = b.rect.y;
    let x1 = sat_add(x0, sat_sub(b.rect.width, 1));
    let y1 = sat_add(y0, sat_sub(b.rect.height, 1));
    let text_y = min16(sat_add(y0, style.padding), sat_sub(y1, spec_text_height(Font::Font12)));
    let text_x = min16(sat_add(x0, style.padding), x1);
    seq![
        DrawOp::Rect { x0, y0, x1, y1, color: palette.background, line_width: 1, filled: true },
        DrawOp::Rect {
            x0,
            y0,
            x1,
            y1,
            color: palette.border,
            line_width: style.border_width,
            filled: false,
        },
        DrawOp::Text {
            x: text_x,
            y: text_y,
            text: b.label@,
            font: Font::Font12,
            fg: palette.foreground,
            bg: palette.background,
        },
    ]
}

/// All buttons in order.
pub open spec fn buttons_ops(
    buttons: Seq<ButtonLayout>,
    theme: Theme,
    focused: Option<WidgetId>,
) -> Seq<DrawOp>
    decreases buttons.len(),
{
    if buttons.len() == 0 {
        Seq::empty()
    } else {
        buttons_ops(buttons.drop_last(), theme, focused) + button_ops(
            buttons.last(),
            theme,
            focused == Some(buttons.last().id),
        )
    }
}

/// The title line, where there is a title.
pub open spec fn title_ops(title: Seq<char>, theme: Theme) -> Seq<DrawOp> {
    if title.len() == 0 {
        Seq::empty()
    } else {
        seq![
            DrawOp::Text {
                x: 2,
                y: 2,
                text: title,
                font: Font::Font12,
                fg: theme.on_background,
                bg: theme.background,
            },
        ]
    }
}

/// A full redraw: clear to the background, the title, the texts, the
/// buttons, then show the result.
pub open spec fn spec_render(
    frame: FrameView,
    theme: Theme,
    focused: Option<WidgetId>,
    title: Seq<char>,
) -> Seq<DrawOp> {
    seq![DrawOp::Clear { color: theme.background }] + title_ops(title, theme)
        + frame.texts.map_values(|t: TextLayout| text_op(t, theme)) + buttons_ops(
        frame.buttons,
        theme,
        focused,
    ) + seq![DrawOp::Present]
}

proof fn lemma_buttons_ops(buttons: Seq<ButtonLayout>, theme: Theme, focused: Option<WidgetId>)
    ensures
        buttons_ops(buttons, theme, focused).len() == 3 * buttons.len(),
        forall|k: int|
            0 <= k < buttons.len() ==> #[trigger] buttons_ops(buttons, theme, focused).subrange(
                3 * k,
                3 * k + 3,
            ) == button_ops(buttons[k], theme, focused == Some(buttons[k].id)),
    decreases buttons.len(),
{
    if buttons.len() > 0 {
        let rest = buttons.drop_last();
        lemma_buttons_ops(rest, theme, focused);
        let all = buttons_ops(buttons, theme, focused);
        let head = buttons_ops(rest, theme, focused);
        let last = button_ops(buttons.last(), theme, focused == Some(buttons.last().id));
        assert(all == head + last);
        assert forall|k: int| 0 <= k < buttons.len() implies #[trigger] all.subrange(3 * k, 3 * k + 3)
            == button_ops(buttons[k], theme, focused == Some(buttons[k].id)) by {
            if k < rest.len() {
                assert(rest[k] == buttons[k]);
                assert(head.subrange(3 * k, 3 * k + 3) == button_ops(
                    rest[k],
                    theme,
                    focused == Some(rest[k].id),
                ));
                assert(all.subrange(3 * k, 3 * k + 3) =~= head.subrange(3 * k, 3 * k + 3));
            } else {
                assert(k == rest.len());
                assert(all.subrange(3 * k, 3 * k + 3) =~= last);
            }
        }
    }
}

/// Every button is drawn as a fill, an outline and its label, in that order
/// and in the order the buttons were placed, after the clear, the title and
/// the texts and before the frame is shown. All three take their colours
/// from one palette of the button's own style (the theme's where it has
/// none): the focused palette exactly when the button has the focus.
pub proof fn lemma_button_drawn_in_its_palette(
    frame: FrameView,
    theme: Theme,
    focused: Option<WidgetId>,
    title: Seq<char>,
    k: int,
)
    requires
        0 <= k < frame.buttons.len(),
    ensures
        ({
            let ops = spec_render(frame, theme, focused, title);
            let b = frame.buttons[k];
            let style = match b.style {
                Some(own) => own,
                None => spec_themed(theme),
            };
            let palette = if focused == Some(b.id) {
                style.focused
            } else {
                style.normal
            };
            let base = 1 + (if title.len() == 0 {
                0int
            } else {
                1int
            }) + frame.texts.len() + 3 * k;
            &&& ops.len() == 2 + (if title.len() == 0 {
                0int
            } else {
                1int
            }) + frame.texts.len() + 3 * frame.buttons.len()
            &&& ops[0] == DrawOp::Clear { color: theme.background }
            &&& ops[ops.len() - 1] == DrawOp::Present
            &&& ops[base] matches DrawOp::Rect { color, filled, line_width, .. } && color
                == palette.background && filled && line_width == 1
            &&& ops[base + 1] matches DrawOp::Rect { color, filled, line_width, .. } && color
                == palette.border && !filled && line_width == style.border_width
            &&& ops[base + 2] matches DrawOp::Text { fg, bg, text, font, .. } && fg
                == palette.foreground && bg == palette.background && text == b.label@ && font
                == Font::Font12
        }),
{
    lemma_buttons_ops(frame.buttons, theme, focused);
    let ops = spec_render(frame, theme, focused, title);
    let head = seq![DrawOp::Clear { color: theme.background }] + title_ops(title, theme)
        + frame.texts.map_values(|t: TextLayout| text_op(t, theme));
    let bops = buttons_ops(frame.buttons, theme, focused);
    assert(ops == head + bops + seq![DrawOp::Present]);
    let seg = bops.subrange(3 * k, 3 * k + 3);
    assert(seg == button_ops(frame.buttons[k], theme, focused == Some(frame.buttons[k].id)));
    let base = head.len() + 3 * k;
    assert(ops[base] == seg[0]);
    assert(ops[base + 1] == seg[1]);
    assert(ops[base + 2] == seg[2]);
}

/// The title, where there is one, is drawn right after the clear at
/// `(2, 2)` in the theme's text colour; then each text at its place, in its
/// own colour or else the theme's text colour, on the theme's background.
pub proof fn lemma_title_and_texts_drawn(
    frame: FrameView,
    theme: Theme,
    focused: Option<WidgetId>,
    title: Seq<char>,
    i: int,
)
    requires
        0 <= i < frame.texts.len(),
    ensures
        ({
            let ops = spec_render(frame, theme, focused, title);
            let offset = if title.len() == 0 {
                0int
            } else {
                1int
            };
            let t = frame.texts[i];
            &&& title.len() > 0 ==> ops[1] == DrawOp::Text {
                x: 2,
                y: 2,
                text: title,
                font: Font::Font12,
                fg: theme.on_background,
                bg: theme.background,
            }
            &&& ops[1 + offset + i] == DrawOp::Text {
                x: t.rect.x,
                y: t.rect.y,
                text: t.text@,
                font: t.font,
                fg: match t.color {
                    Some(c) => c,
                    None => theme.on_background,
                },
                bg: theme.background,
            }
        }),
{
    let ops = spec_render(frame, theme, focused, title);
    let texts = frame.texts.map_values(|t: TextLayout| text_op(t, theme));
    let head = seq![DrawOp::Clear { color: theme.background }] + title_ops(title, theme);
    assert(ops == head + texts + buttons_ops(frame.buttons, theme, focused) + seq![DrawOp::Present]);
    assert(ops[head.len() + i] == texts[i]);
    if title.len() > 0 {
        assert(ops[1] == head[1]);
    }
}

fn draw_button(
    commands: &mut Vec<DrawCommand>,
    button: &ButtonLayout,
    theme: Theme,
    is_focused: bool,
)
    ensures
        ops_of(final(commands)@) == ops_of(old(commands)@) + button_ops(*button, theme, is_focused),
{
    let style = match button.style {
        Some(style) => style,
        None => ButtonStyle::themed(theme),
    };
    let palette = if is_focused {
        style.focused
    } else {
        style.normal
    };
    let x0 = button.rect.x;
    let y0 = button.rect.y;
    let x1 = x0.saturating_add(button.rect.width.saturating_sub(1));
    let y1 = y0.saturating_add(button.rect.height.saturating_sub(1));
    let top = y0.saturating_add(style.padding);
    let lowest = y1.saturating_sub(text_height(Font::Font12));
    let text_y = if top <= lowest {
        top
    } else {
        lowest
    };
    let left = x0.saturating_add(style.padding);
    let text_x = if left <= x1 {
        left
    } else {
        x1
    };
    let ghost before = commands@;
    commands.push(
        DrawCommand::Rect { x0, y0, x1, y1, color: palette.background, line_width: 1, filled: true },
    );
    commands.push(
        DrawCommand::Rect {
            x0,
            y0,
            x1,
            y1,
            color: palette.border,
            line_width: style.border_width,
            filled: false,
        },
    );
    commands.push(
        DrawCommand::Text {
            x: text_x,
            y: text_y,
            text: button.label.clone(),
            font: Font::Font12,
            fg: palette.foreground,
            bg: palette.background,
        },
    );
    assert(ops_of(commands@) =~= ops_of(before) + button_ops(*button, theme, is_focused));
}

/// The drawing calls that show `frame` with `focused` highlighted and
/// `title` in the top-left corner.
pub fn render(frame: &LayoutFrame, theme: Theme, focused: Option<WidgetId>, title: &str) -> (r: Vec<
    DrawCommand,
>)
    ensures
        ops_of(r@) == spec_render(frame@, theme, focused, title@),
{
    let mut commands: Vec<DrawCommand> = Vec::new();
    commands.push(DrawCommand::Clear { color: theme.background });
    if !title.is_empty() {
        commands.push(
            DrawCommand::Text {
                x: 2,
                y: 2,
                text: String::from_str(title),
                font: Font::Font12,
                fg: theme.on_background,
                bg: theme.background,
            },
        );
    }
    let ghost head = seq![DrawOp::Clear { color: theme.background }] + title_ops(title@, theme);
    assert(ops_of(commands@) =~= head);
    let n = frame.texts.len();
    let mut i: usize = 0;
    while i < n
        invariant
            n == frame.texts@.len(),
            0 <= i <= n,
            ops_of(commands@) =~= head + frame.texts@.take(i as int).map_values(
                |t: TextLayout| text_op(t, theme),
            ),
        decreases n - i,
    {
        let text = &frame.texts[i];
        let fg = match text.color {
            Some(c) => c,
            None => theme.on_background,
        };
        let ghost before = commands@;
        commands.push(
            DrawCommand::Text {
                x: text.rect.x,
                y: text.rect.y,
                text: text.text.clone(),
                font: text.font,
                fg,
                bg: theme.background,
            },
        );
        assert(frame.texts@.take(i + 1) =~= frame.texts@.take(i as int).push(frame.texts@[i as int]));
        assert(ops_of(commands@) =~= ops_of(before).push(text_op(frame.texts@[i as int], theme)));
        i = i + 1;
    }
    assert(frame.texts@.take(n as int) =~= frame.texts@);
    let ghost middle = ops_of(commands@);
    let m = frame.buttons.len();
    let mut j: usize = 0;
    while j < m
        invariant
            m == frame.buttons@.len(),
            0 <= j <= m,
            ops_of(commands@) =~= middle + buttons_ops(frame.buttons@.take(j as int), theme, focused),
        decreases m - j,
    {
        let button = &frame.buttons[j];
        let is_focused = match focused {
            Some(id) => id == button.id,
            None => false,
        };
        draw_button(&mut commands, button, theme, is_focused);
        proof {
            let taken = frame.buttons@.take(j + 1);
            assert(taken.drop_last() =~= frame.buttons@.take(j as int));
            assert(taken.last() == frame.buttons@[j as int]);
            assert(is_focused == (focused == Some(taken.last().id)));
        }
        j = j + 1;
    }
    assert(frame.buttons@.take(m as int) =~= frame.buttons@);
    let ghost before = commands@;
    commands.push(DrawCommand::Present);
    assert(ops_of(commands@) =~= ops_of(before).push(DrawOp::Present));
    commands
}

} // verus!
