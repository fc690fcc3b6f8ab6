use crate::error::{UiError, UiResult};
use crate::lcd_types::Font;
use crate::widget::{Button, ButtonActionId, ButtonStyle, Text, Widget, WidgetId};
use std::collections::HashSet;
use vstd::prelude::*;

verus! {

broadcast use vstd::std_specs::hash::group_hash_axioms;

/// An axis-aligned rectangle in screen pixels.
#[derive(Debug, Clone, Copy, PartialEq, Eq, Structural)]
pub struct Rect {
    pub x: u16,
    pub y: u16,
    pub width: u16,
    pub height: u16,
}

/// A direction of the joystick.
#[derive(Debug, Clone, Copy, PartialEq, Eq, Structural)]
pub enum FocusDirection {
    Up,
    Down,
    Left,
    Right,
}

/// A text placed on the screen.
#[derive(Debug, Clone, PartialEq, Eq)]
pub struct TextLayout {
    pub rect: Rect,
    pub text: String,
    pub color: Option<u16>,
    pub font: Font,
}

/// A button placed on the screen.
#[derive(Debug, Clone, PartialEq, Eq)]
pub struct ButtonLayout {
    pub rect: Rect,
    pub id: WidgetId,
    pub label: String,
    /// The button's own style; the application theme's style where absent.
    pub style: Option<ButtonStyle>,
    pub action: Option<ButtonActionId>,
}

/// Everything a view places on the screen, texts and buttons each in the
/// order of a depth-first walk of the view.
#[derive(Debug, Clone, PartialEq, Eq)]
pub struct LayoutFrame {
    pub texts: Vec<TextLayout>,
    pub buttons: Vec<ButtonLayout>,
}

/// The contents of a frame.
pub struct FrameView {
    pub texts: Seq<TextLayout>,
    pub buttons: Seq<ButtonLayout>,
}

impl View for LayoutFrame {
    type V = FrameView;

    open spec fn view(&self) -> FrameView {
        FrameView { texts: self.texts@, buttons: self.buttons@ }
    }
}

/// The frame with nothing placed.
pub open spec fn empty_frame() -> FrameView {
    FrameView { texts: Seq::empty(), buttons: Seq::empty() }
}

impl Default for LayoutFrame {
    fn default() -> (r: Self)
        ensures
            r@ == empty_frame(),
    {
        LayoutFrame { texts: Vec::new(), buttons: Vec::new() }
    }
}

/// The line height of each font.
pub open spec fn spec_text_height(font: Font) -> u16 {
    match font {
        Font::Font8 => 8,
        Font::Font12 => 12,
        Font::Font16 => 16,
        Font::Font20 => 20,
        Font::Font24 => 24,
    }
}

/// The line height of a font.
pub fn text_height(font: Font) -> (r: u16)
    ensures
        r == spec_text_height(font),
{
    match font {
        Font::Font8 => 8,
        Font::Font12 => 12,
        Font::Font16 => 16,
        Font::Font20 => 20,
        Font::Font24 => 24,
    }
}

/// A text is one line of its font high: 8, 12, 16, 20 or 24 pixels, as
/// the font's name says.
pub proof fn lemma_text_is_one_line_high(t: Text, bounds: Rect)
    ensures
        spec_layout_widget(Widget::Text(t), bounds, empty_frame()) matches Some(Ok(f)) && f.texts.len()
            == 1 && f.buttons.len() == 0 && f.texts[0].rect == (Rect {
            x: bounds.x,
            y: bounds.y,
            width: bounds.width,
            height: match t.font {
                Font::Font8 => 8u16,
                Font::Font12 => 12u16,
                Font::Font16 => 16u16,
                Font::Font20 => 20u16,
                Font::Font24 => 24u16,
            },
        }),
        t.font == Font::Font8 ==> spec_text_height(t.font) == 8,
        t.font == Font::Font12 ==> spec_text_height(t.font) == 12,
        t.font == Font::Font16 ==> spec_text_height(t.font) == 16,
        t.font == Font::Font20 ==> spec_text_height(t.font) == 20,
        t.font == Font::Font24 ==> spec_text_height(t.font) == 24,
{
}

/// Some placed button carries `id`.
pub open spec fn has_button_id(buttons: Seq<ButtonLayout>, id: WidgetId) -> bool {
    exists|i: int| 0 <= i < buttons.len() && buttons[i].id == id
}

/// The set of ids seen so far is exactly the set of ids of the placed buttons.
pub open spec fn seen_matches(seen: Set<WidgetId>, buttons: Seq<ButtonLayout>) -> bool {
    forall|id: WidgetId| seen.contains(id) <==> has_button_id(buttons, id)
}

/// `a + b`, capped at `u16::MAX`.
pub open spec fn sat_add(a: u16, b: u16) -> u16 {
    if a + b > u16::MAX {
        u16::MAX
    } else {
        (a + b) as u16
    }
}

/// `a * b`, capped at `u16::MAX`.
pub open spec fn sat_mul(a: u16, b: u16) -> u16 {
    if a * b > u16::MAX {
        u16::MAX
    } else {
        (a * b) as u16
    }
}

/// `a - b`, floored at zero.
pub open spec fn sat_sub(a: u16, b: u16) -> u16 {
    if a < b {
        0
    } else {
        (a - b) as u16
    }
}

/// A child count as the 16-bit counter that the layout keeps of it.
pub open spec fn count16(n: nat) -> u16 {
    (n % 0x10000) as u16
}

/// The error of a container whose spacing leaves no room.
pub open spec fn spacing_error(horizontal: bool) -> UiError {
    if horizontal {
        UiError::InvalidLayout("row spacing exceeds available width")
    } else {
        UiError::InvalidLayout("column spacing exceeds available height")
    }
}

/// How a container of `n > 0` children divides `extent`: the common cell
/// size and the number of leading cells that get one pixel more; an error
/// where the spacing takes all of it; nothing where the counter of children
/// is zero (a division by zero).
pub open spec fn spec_split(n: nat, spacing: u16, extent: u16, horizontal: bool) -> Option<
    Result<(u16, u16), UiError>,
> {
    let count = count16(n);
    let total = sat_mul(spacing, sat_sub(count, 1));
    if total >= extent {
        Some(Err(spacing_error(horizontal)))
    } else if count == 0 {
        None
    } else {
        let available = (extent - total) as u16;
        Some(Ok(((available / count) as u16, (available % count) as u16)))
    }
}

/// The size along the axis of child `i`.
pub open spec fn cell_extent(cell: u16, rem: u16, i: int) -> u16 {
    if i % 0x10000 < rem {
        (cell + 1) as u16
    } else {
        cell
    }
}

/// The rectangle of a child that starts at `pos` along the axis.
pub open spec fn cell_rect(bounds: Rect, horizontal: bool, pos: u16, size: u16) -> Rect {
    if horizontal {
        Rect { x: pos, y: bounds.y, width: size, height: bounds.height }
    } else {
        Rect { x: bounds.x, y: pos, width: bounds.width, height: size }
    }
}

/// Where a text goes: the top of its bounds, one line high.
pub open spec fn text_layout_of(t: Text, bounds: Rect) -> TextLayout {
    TextLayout {
        rect: Rect {
            x: bounds.x,
            y: bounds.y,
            width: bounds.width,
            height: spec_text_height(t.font),
        },
        text: t.text,
        color: t.color,
        font: t.font,
    }
}

/// Where a button goes: all of its bounds.
pub open spec fn button_layout_of(b: Button, bounds: Rect) -> ButtonLayout {
    ButtonLayout { rect: bounds, id: b.id, label: b.label, style: b.style, action: b.on_press }
}

/// Lays out `w` inside `bounds`, appending to `f`: the frame after it, the
/// first error met, or nothing where the layout divides by zero.
pub open spec fn spec_layout_widget(w: Widget, bounds: Rect, f: FrameView) -> Option<
    Result<FrameView, UiError>,
>
    decreases w, 0int,
{
    match w {
        Widget::Text(t) => Some(
            Ok(FrameView { texts: f.texts.push(text_layout_of(t, bounds)), buttons: f.buttons }),
        ),
        Widget::Button(b) => if has_button_id(f.buttons, b.id) {
            Some(Err(UiError::DuplicateWidgetId(b.id)))
        } else {
            Some(
                Ok(
                    FrameView {
                        texts: f.texts,
                        buttons: f.buttons.push(button_layout_of(b, bounds)),
                    },
                ),
            )
        },
        Widget::Row(r) => spec_layout_children(r.children@, r.spacing, bounds, true, f),
        Widget::Column(c) => spec_layout_children(c.children@, c.spacing, bounds, false, f),
    }
}

/// Lays out the children of a row (`horizontal`) or a column in `bounds`.
pub open spec fn spec_layout_children(
    ws: Seq<Widget>,
    spacing: u16,
    bounds: Rect,
    horizontal: bool,
    f: FrameView,
) -> Option<Result<FrameView, UiError>>
    decreases ws, ws.len() + 1,
{
    if ws.len() == 0 {
        Some(Ok(f))
    } else {
        let extent = if horizontal {
            bounds.width
        } else {
            bounds.height
        };
        match spec_split(ws.len(), spacing, extent, horizontal) {
            Some(Ok((cell, rem))) => spec_layout_cells(
                ws,
                0,
                spacing,
                bounds,
                horizontal,
                cell,
                rem,
                f,
            ),
            Some(Err(e)) => Some(Err(e)),
            None => None,
        }
    }
}

/// Where a container's first child starts along its axis.
pub open spec fn axis_start(bounds: Rect, horizontal: bool) -> u16 {
    if horizontal {
        bounds.x
    } else {
        bounds.y
    }
}

/// Where child `i` starts along the axis: the start of child `i - 1`, plus
/// its size, plus the spacing, each sum capped at `u16::MAX`.
pub open spec fn cell_start(start: u16, cell: u16, rem: u16, spacing: u16, i: int) -> u16
    decreases i,
{
    if i <= 0 {
        start
    } else {
        sat_add(
            sat_add(cell_start(start, cell, rem, spacing, i - 1), cell_extent(cell, rem, i - 1)),
            spacing,
        )
    }
}

/// Lays out children `i..` of a container.
pub open spec fn spec_layout_cells(
    ws: Seq<Widget>,
    i: int,
    spacing: u16,
    bounds: Rect,
    horizontal: bool,
    cell: u16,
    rem: u16,
    f: FrameView,
) -> Option<Result<FrameView, UiError>>
    decreases ws, ws.len() - i,
{
    if i < 0 || i >= ws.len() {
        Some(Ok(f))
    } else {
        let size = cell_extent(cell, rem, i);
        let pos = cell_start(axis_start(bounds, horizontal), cell, rem, spacing, i);
        match spec_layout_widget(ws[i], cell_rect(bounds, horizontal, pos, size), f) {
            Some(Ok(next)) => spec_layout_cells(
                ws,
                i + 1,
                spacing,
                bounds,
                horizontal,
                cell,
                rem,
                next,
            ),
            other => other,
        }
    }
}

/// The frame of a whole view.
pub open spec fn spec_build_layout(root: Widget, bounds: Rect) -> Option<Result<FrameView, UiError>> {
    spec_layout_widget(root, bounds, empty_frame())
}

/// The ids of the buttons of `w`, in depth-first order.
pub open spec fn widget_button_ids(w: Widget) -> Seq<WidgetId>
    decreases w, 0int,
{
    match w {
        Widget::Text(_) => Seq::empty(),
        Widget::Button(b) => seq![b.id],
        Widget::Row(r) => children_button_ids(r.children@, 0),
        Widget::Column(c) => children_button_ids(c.children@, 0),
    }
}

/// The ids of the buttons of children `i..`.
pub open spec fn children_button_ids(ws: Seq<Widget>, i: int) -> Seq<WidgetId>
    decreases ws, ws.len() - i,
{
    if i < 0 || i >= ws.len() {
        Seq::empty()
    } else {
        widget_button_ids(ws[i]) + children_button_ids(ws, i + 1)
    }
}

/// The ids of placed buttons.
pub open spec fn ids_of(buttons: Seq<ButtonLayout>) -> Seq<WidgetId> {
    buttons.map_values(|b: ButtonLayout| b.id)
}

proof fn lemma_ids_push(buttons: Seq<ButtonLayout>, b: ButtonLayout)
    ensures
        ids_of(buttons.push(b)) == ids_of(buttons).push(b.id),
        ids_of(buttons).contains(b.id) <==> has_button_id(buttons, b.id),
{
    assert(ids_of(buttons.push(b)) =~= ids_of(buttons).push(b.id));
    if has_button_id(buttons, b.id) {
        let i = choose|i: int| 0 <= i < buttons.len() && buttons[i].id == b.id;
        assert(ids_of(buttons)[i] == b.id);
    }
    if ids_of(buttons).contains(b.id) {
        let i = choose|i: int| 0 <= i < ids_of(buttons).len() && ids_of(buttons)[i] == b.id;
        assert(buttons[i].id == b.id);
    }
}

proof fn lemma_layout_widget_ids(w: Widget, bounds: Rect, f: FrameView)
    ensures
        spec_layout_widget(w, bounds, f) matches Some(Ok(g)) ==> ids_of(g.buttons) == ids_of(
            f.buttons,
        ) + widget_button_ids(w) && (ids_of(f.buttons).no_duplicates() ==> ids_of(
            g.buttons,
        ).no_duplicates()),
    decreases w, 0int,
{
    match w {
        Widget::Text(_) => {
            assert(ids_of(f.buttons) + widget_button_ids(w) =~= ids_of(f.buttons));
        },
        Widget::Button(b) => {
            lemma_ids_push(f.buttons, button_layout_of(b, bounds));
            assert(ids_of(f.buttons).push(b.id) =~= ids_of(f.buttons) + seq![b.id]);
        },
        Widget::Row(r) => {
            lemma_layout_children_ids(r.children@, r.spacing, bounds, true, f);
        },
        Widget::Column(c) => {
            lemma_layout_children_ids(c.children@, c.spacing, bounds, false, f);
        },
    }
}

proof fn lemma_layout_children_ids(
    ws: Seq<Widget>,
    spacing: u16,
    bounds: Rect,
    horizontal: bool,
    f: FrameView,
)
    ensures
        spec_layout_children(ws, spacing, bounds, horizontal, f) matches Some(Ok(g)) ==> ids_of(
            g.buttons,
        ) == ids_of(f.buttons) + children_button_ids(ws, 0) && (ids_of(
            f.buttons,
        ).no_duplicates() ==> ids_of(g.buttons).no_duplicates()),
    decreases ws, ws.len() + 1,
{
    if ws.len() == 0 {
        assert(ids_of(f.buttons) + children_button_ids(ws, 0) =~= ids_of(f.buttons));
    } else {
        let extent = if horizontal {
            bounds.width
        } else {
            bounds.height
        };
        let start = if horizontal {
            bounds.x
        } else {
            bounds.y
        };
        if let Some(Ok((cell, rem))) = spec_split(ws.len(), spacing, extent, horizontal) {
            lemma_layout_cells_ids(ws, 0, spacing, bounds, horizontal, cell, rem, f);
        }
    }
}

proof fn lemma_layout_cells_ids(
    ws: Seq<Widget>,
    i: int,
    spacing: u16,
    bounds: Rect,
    horizontal: bool,
    cell: u16,
    rem: u16,
    f: FrameView,
)
    requires
        0 <= i,
    ensures
        spec_layout_cells(ws, i, spacing, bounds, horizontal, cell, rem, f) matches Some(
            Ok(g),
        ) ==> ids_of(g.buttons) == ids_of(f.buttons) + children_button_ids(ws, i) && (ids_of(
            f.buttons,
        ).no_duplicates() ==> ids_of(g.buttons).no_duplicates()),
    decreases ws, ws.len() - i,
{
    if i >= ws.len() {
        assert(ids_of(f.buttons) + children_button_ids(ws, i) =~= ids_of(f.buttons));
    } else {
        let size = cell_extent(cell, rem, i);
        let pos = cell_start(axis_start(bounds, horizontal), cell, rem, spacing, i);
        let rect = cell_rect(bounds, horizontal, pos, size);
        lemma_layout_widget_ids(ws[i], rect, f);
        if let Some(Ok(next)) = spec_layout_widget(ws[i], rect, f) {
            lemma_layout_cells_ids(ws, i + 1, spacing, bounds, horizontal, cell, rem, next);
            assert(ids_of(f.buttons) + widget_button_ids(ws[i]) + children_button_ids(ws, i + 1)
                =~= ids_of(f.buttons) + children_button_ids(ws, i));
        }
    }
}

/// A laid out view holds exactly the view's buttons, in depth-first order,
/// and no two of them share an id; so a view in which two buttons share an
/// id is never laid out.
pub proof fn lemma_layout_places_each_button_once(root: Widget, bounds: Rect)
    ensures
        spec_build_layout(root, bounds) matches Some(Ok(f)) ==> ids_of(f.buttons)
            == widget_button_ids(root) && ids_of(f.buttons).no_duplicates(),
        !widget_button_ids(root).no_duplicates() ==> !(spec_build_layout(root, bounds) matches Some(
            Ok(_),
        )),
{
    lemma_layout_widget_ids(root, bounds, empty_frame());
    assert(ids_of(empty_frame().buttons) =~= Seq::<WidgetId>::empty());
    assert(Seq::<WidgetId>::empty() + widget_button_ids(root) =~= widget_button_ids(root));
}

/// The sizes of the first `k` cells added up.
pub open spec fn cells_total(cell: u16, rem: u16, k: nat) -> int
    decreases k,
{
    if k == 0 {
        0
    } else {
        cells_total(cell, rem, (k - 1) as nat) + cell_extent(cell, rem, k - 1)
    }
}

proof fn lemma_cells_total(cell: u16, rem: u16, k: nat, count: nat)
    requires
        k <= count < 0x10000,
        rem < count,
        rem > 0 ==> cell + 1 <= u16::MAX,
    ensures
        cells_total(cell, rem, k) == cell * k + if k <= rem {
            k as int
        } else {
            rem as int
        },
    decreases k,
{
    if k == 0 {
        assert(cell * k == 0) by (nonlinear_arith)
            requires
                k == 0,
        ;
    } else {
        lemma_cells_total(cell, rem, (k - 1) as nat, count);
        assert(cell * k == cell * (k - 1) + cell) by (nonlinear_arith);
        assert((k - 1) % 0x10000 == k - 1);
        if k - 1 < rem {
            assert(cell_extent(cell, rem, k - 1) == cell + 1);
        } else {
            assert(cell_extent(cell, rem, k - 1) == cell);
        }
        assert(cells_total(cell, rem, k) == cells_total(cell, rem, (k - 1) as nat) + cell_extent(
            cell,
            rem,
            k - 1,
        ));
    }
}

/// A row (or column) of fewer than 65536 children whose spacing fits is cut
/// into cells that differ by at most one pixel, and the cells with the
/// spacing between them fill the row's width (the column's height) exactly.
pub proof fn lemma_split_fills_extent(n: nat, spacing: u16, extent: u16, horizontal: bool)
    requires
        1 <= n < 0x10000,
        spec_split(n, spacing, extent, horizontal) is Some,
        spec_split(n, spacing, extent, horizontal).unwrap() is Ok,
    ensures
        ({
            let (cell, rem) = spec_split(n, spacing, extent, horizontal).unwrap().unwrap();
            &&& cells_total(cell, rem, n) + spacing * (n - 1) == extent
            &&& rem < n
            &&& (rem > 0 ==> cell + 1 <= u16::MAX)
            &&& forall|i: int|
                0 <= i < n ==> cell_extent(cell, rem, i) == cell || cell_extent(cell, rem, i) == cell
                    + 1
        }),
{
    let (cell, rem) = spec_split(n, spacing, extent, horizontal).unwrap().unwrap();
    let count = count16(n);
    assert(count == n);
    let total = sat_mul(spacing, sat_sub(count, 1));
    assert(total < extent);
    assert(spacing * (n - 1) <= u16::MAX);
    let available = (extent - total) as u16;
    assert(cell * count + rem == available && rem < count && cell + rem <= available) by (nonlinear_arith)
        requires
            count >= 1,
            cell == available / count,
            rem == available % count,
    ;
    if rem > 0 {
        assert(cell + 1 <= u16::MAX);
    }
    lemma_cells_total(cell, rem, n, count as nat);
    assert forall|i: int| 0 <= i < n implies cell_extent(cell, rem, i) == cell || cell_extent(
        cell,
        rem,
        i,
    ) == cell + 1 by {
        assert(i % 0x10000 == i);
    }
}

/// The pixels that do not divide evenly go to the leading cells: along a
/// row (column) of fewer than 65536 children, no cell is wider (taller) than
/// one before it.
pub proof fn lemma_leading_cells_are_wider(
    n: nat,
    spacing: u16,
    extent: u16,
    horizontal: bool,
    i: int,
    j: int,
)
    requires
        1 <= n < 0x10000,
        spec_split(n, spacing, extent, horizontal) is Some,
        spec_split(n, spacing, extent, horizontal).unwrap() is Ok,
        0 <= i <= j < n,
    ensures
        ({
            let (cell, rem) = spec_split(n, spacing, extent, horizontal).unwrap().unwrap();
            cell_extent(cell, rem, i) >= cell_extent(cell, rem, j)
        }),
{
    lemma_split_fills_extent(n, spacing, extent, horizontal);
    assert(i % 0x10000 == i);
    assert(j % 0x10000 == j);
}

/// In a container of fewer than 65536 children whose spacing fits and that
/// ends within the screen's coordinates, child `i` starts exactly where the
/// children before it and their spacing end: at the container's start, plus
/// the sizes of children `0..i`, plus `i` times the spacing.
pub proof fn lemma_cell_start_closed_form(
    n: nat,
    spacing: u16,
    start: u16,
    extent: u16,
    horizontal: bool,
    i: int,
)
    requires
        1 <= n < 0x10000,
        spec_split(n, spacing, extent, horizontal) is Some,
        spec_split(n, spacing, extent, horizontal).unwrap() is Ok,
        start + extent <= u16::MAX,
        0 <= i < n,
    ensures
        ({
            let (cell, rem) = spec_split(n, spacing, extent, horizontal).unwrap().unwrap();
            cell_start(start, cell, rem, spacing, i) == start + cells_total(cell, rem, i as nat)
                + spacing * i
        }),
    decreases i,
{
    let (cell, rem) = spec_split(n, spacing, extent, horizontal).unwrap().unwrap();
    lemma_split_fills_extent(n, spacing, extent, horizontal);
    if i == 0 {
        assert(spacing * i == 0) by (nonlinear_arith)
            requires
                i == 0,
        ;
    } else {
        lemma_cell_start_closed_form(n, spacing, start, extent, horizontal, i - 1);
        lemma_cells_total(cell, rem, i as nat, n);
        lemma_cells_total(cell, rem, n, n);
        let ti = cells_total(cell, rem, i as nat);
        let tn = cells_total(cell, rem, n);
        assert(ti <= tn) by (nonlinear_arith)
            requires
                ti == cell * i + if i <= rem {
                    i
                } else {
                    rem as int
                },
                tn == cell * n + if n <= rem {
                    n as int
                } else {
                    rem as int
                },
                0 < i < n,
                cell >= 0,
        ;
        assert(spacing * i <= spacing * (n - 1)) by (nonlinear_arith)
            requires
                0 < i < n,
                spacing >= 0,
        ;
        assert(spacing * i == spacing * (i - 1) + spacing) by (nonlinear_arith);
        assert(cells_total(cell, rem, i as nat) == cells_total(cell, rem, (i - 1) as nat)
            + cell_extent(cell, rem, i - 1));
    }
}

/// Why a layout stopped early.
enum LayoutStop {
    /// The layout fails with this error.
    Failed(UiError),
    /// The layout divides by zero.
    Undefined,
}

/// The executed layout agrees with the outcome `o`.
spec fn outcome_matches(o: Option<Result<FrameView, UiError>>, r: Result<(), LayoutStop>, f: FrameView) -> bool {
    match o {
        Some(Ok(g)) => r is Ok && f == g,
        Some(Err(e)) => r matches Err(LayoutStop::Failed(e2)) && e2 == e,
        None => r matches Err(LayoutStop::Undefined),
    }
}

/// The extent of `bounds` along a container's axis.
pub open spec fn axis_extent(bounds: Rect, horizontal: bool) -> u16 {
    if horizontal {
        bounds.width
    } else {
        bounds.height
    }
}

/// Lays out `root` where that is defined: `None` exactly where the layout
/// divides by zero (a row or column whose 16-bit child counter is zero and
/// whose spacing leaves room), else the outcome of `build_layout`.
pub fn try_build_layout(root: &Widget, bounds: Rect) -> (r: Option<UiResult<LayoutFrame>>)
    ensures
        match spec_build_layout(*root, bounds) {
            Some(Ok(f)) => r matches Some(Ok(frame)) && frame@ == f,
            Some(Err(e)) => r matches Some(Err(e2)) && e2 == e,
            None => r is None,
        },
{
    let mut frame = LayoutFrame::default();
    let mut seen: HashSet<WidgetId> = HashSet::new();
    match layout_widget(root, bounds, &mut frame, &mut seen) {
        Ok(()) => Some(Ok(frame)),
        Err(LayoutStop::Failed(e)) => Some(Err(e)),
        Err(LayoutStop::Undefined) => None,
    }
}

/// Places every text and button of `root` inside `bounds`: rows split the
/// width and columns the height into equal cells (the first cells one pixel
/// wider where it does not divide), with `spacing` pixels between cells.
/// Fails on the first row or column whose spacing takes the whole extent and
/// on the first button whose id was already placed.
pub fn build_layout(root: &Widget, bounds: Rect) -> (r: UiResult<LayoutFrame>)
    requires
        spec_build_layout(*root, bounds) is Some,
    ensures
        match spec_build_layout(*root, bounds) {
            Some(Ok(f)) => r matches Ok(frame) && frame@ == f,
            Some(Err(e)) => r matches Err(e2) && e2 == e,
            None => false,
        },
{
    match try_build_layout(root, bounds) {
        Some(r) => r,
        None => vstd::pervasive::unreached(),
    }
}

fn layout_widget(
    widget: &Widget,
    bounds: Rect,
    frame: &mut LayoutFrame,
    seen: &mut HashSet<WidgetId>,
) -> (r: Result<(), LayoutStop>)
    requires
        seen_matches(old(seen)@, old(frame)@.buttons),
    ensures
        outcome_matches(spec_layout_widget(*widget, bounds, old(frame)@), r, final(frame)@),
        r is Ok ==> seen_matches(final(seen)@, final(frame)@.buttons),
        (*widget matches Widget::Button(b) && has_button_id(old(frame)@.buttons, b.id)) ==> (
        final(frame)@ == old(frame)@ && final(seen)@ == old(seen)@),
    decreases widget,
{
    match widget {
        Widget::Text(text) => {
            let height = text_height(text.font);
            frame.texts.push(
                TextLayout {
                    rect: Rect { x: bounds.x, y: bounds.y, width: bounds.width, height },
                    text: text.text.clone(),
                    color: text.color,
                    font: text.font,
                },
            );
            Ok(())
        },
        Widget::Button(button) => {
            if !seen.insert(button.id) {
                assert(seen@ =~= old(seen)@);
                return Err(LayoutStop::Failed(UiError::DuplicateWidgetId(button.id)));
            }
            frame.buttons.push(
                ButtonLayout {
                    rect: bounds,
                    id: button.id,
                    label: button.label.clone(),
                    style: button.style,
                    action: button.on_press,
                },
            );
            proof {
                let old_buttons = old(frame)@.buttons;
                let new_buttons = frame@.buttons;
                assert forall|id: WidgetId| seen@.contains(id) <==> has_button_id(new_buttons, id) by {
                    if has_button_id(new_buttons, id) {
                        let i = choose|i: int| 0 <= i < new_buttons.len() && new_buttons[i].id == id;
                        if i < old_buttons.len() {
                            assert(old_buttons[i].id == id);
                        }
                    }
                    if seen@.contains(id) && id != button.id {
                        let i = choose|i: int| 0 <= i < old_buttons.len() && old_buttons[i].id == id;
                        assert(new_buttons[i] == old_buttons[i]);
                    }
                    if id == button.id {
                        assert(new_buttons[old_buttons.len() as int].id == id);
                    }
                }
            }
            Ok(())
        },
        Widget::Row(row) => layout_children(&row.children, row.spacing, bounds, true, frame, seen),
        Widget::Column(column) => layout_children(
            &column.children,
            column.spacing,
            bounds,
            false,
            frame,
            seen,
        ),
    }
}

fn layout_children(
    children: &Vec<Widget>,
    spacing: u16,
    bounds: Rect,
    horizontal: bool,
    frame: &mut LayoutFrame,
    seen: &mut HashSet<WidgetId>,
) -> (r: Result<(), LayoutStop>)
    requires
        seen_matches(old(seen)@, old(frame)@.buttons),
    ensures
        outcome_matches(
            spec_layout_children(children@, spacing, bounds, horizontal, old(frame)@),
            r,
            final(frame)@,
        ),
        r is Ok ==> seen_matches(final(seen)@, final(frame)@.buttons),
        (children@.len() > 0 && spec_split(
            children@.len(),
            spacing,
            axis_extent(bounds, horizontal),
            horizontal,
        ) matches Some(Err(_))) ==> (final(frame)@ == old(frame)@ && final(seen)@ == old(seen)@),
    decreases children@,
{
    let n = children.len();
    if n == 0 {
        return Ok(());
    }
    let ghost target = spec_layout_children(children@, spacing, bounds, horizontal, frame@);
    let count: u16 = (n % 0x10000) as u16;
    let count_less: u16 = count.saturating_sub(1);
    assert((spacing as u32) * (count_less as u32) <= 0xffff * 0xffff) by (nonlinear_arith)
        requires
            spacing <= 0xffff,
            count_less <= 0xffff,
    ;
    let product: u32 = (spacing as u32) * (count_less as u32);
    let total_spacing: u16 = if product > 0xffff {
        0xffff
    } else {
        product as u16
    };
    let extent = if horizontal {
        bounds.width
    } else {
        bounds.height
    };
    if total_spacing >= extent {
        if horizontal {
            return Err(
                LayoutStop::Failed(UiError::InvalidLayout("row spacing exceeds available width")),
            );
        } else {
            return Err(
                LayoutStop::Failed(
                    UiError::InvalidLayout("column spacing exceeds available height"),
                ),
            );
        }
    }
    if count == 0 {
        return Err(LayoutStop::Undefined);
    }
    let available = extent - total_spacing;
    let cell = available / count;
    let remainder = available % count;
    assert(cell * count + remainder == available && remainder < count && cell + remainder
        <= available) by (nonlinear_arith)
        requires
            count >= 1,
            cell == available / count,
            remainder == available % count,
    ;
    let mut pos = if horizontal {
        bounds.x
    } else {
        bounds.y
    };
    let mut index: usize = 0;
    while index < n
        invariant
            n == children@.len(),
            0 <= index <= n,
            count >= 1,
            remainder < count,
            cell + remainder <= available,
            spec_split(n as nat, spacing, axis_extent(bounds, horizontal), horizontal) == Some(
                Ok::<(u16, u16), UiError>((cell, remainder)),
            ),
            pos == cell_start(
                axis_start(bounds, horizontal),
                cell,
                remainder,
                spacing,
                index as int,
            ),
            target == spec_layout_cells(
                children@,
                index as int,
                spacing,
                bounds,
                horizontal,
                cell,
                remainder,
                frame@,
            ),
            target == spec_layout_children(children@, spacing, bounds, horizontal, old(frame)@),
            seen_matches(seen@, frame@.buttons),
        decreases n - index,
    {
        let extra: u16 = if ((index % 0x10000) as u16) < remainder {
            1
        } else {
            0
        };
        let size = cell + extra;
        let rect = if horizontal {
            Rect { x: pos, y: bounds.y, width: size, height: bounds.height }
        } else {
            Rect { x: bounds.x, y: pos, width: bounds.width, height: size }
        };
        assert(size == cell_extent(cell, remainder, index as int));
        assert(rect == cell_rect(bounds, horizontal, pos, size));
        let ghost before = frame@;
        let ghost step = spec_layout_widget(children@[index as int], rect, before);
        assert(target == match step {
            Some(Ok(next)) => spec_layout_cells(
                children@,
                index + 1,
                spacing,
                bounds,
                horizontal,
                cell,
                remainder,
                next,
            ),
            other => other,
        });
        match layout_widget(&children[index], rect, frame, seen) {
            Ok(()) => {},
            Err(stop) => {
                return Err(stop);
            },
        }
        pos = pos.saturating_add(size).saturating_add(spacing);
        index = index + 1;
    }
    Ok(())
}

/// The position of the first button at or after `i` carrying `id`; the
/// length where there is none.
pub open spec fn first_index_from(buttons: Seq<ButtonLayout>, id: WidgetId, i: int) -> int
    decreases buttons.len() - i,
{
    if i < 0 || i >= buttons.len() {
        buttons.len() as int
    } else if buttons[i].id == id {
        i
    } else {
        first_index_from(buttons, id, i + 1)
    }
}

/// The position of the first button carrying `id`.
pub open spec fn first_index_of(buttons: Seq<ButtonLayout>, id: WidgetId) -> int {
    first_index_from(buttons, id, 0)
}

proof fn lemma_first_index_from(buttons: Seq<ButtonLayout>, id: WidgetId, i: int)
    requires
        0 <= i <= buttons.len(),
    ensures
        i <= first_index_from(buttons, id, i) <= buttons.len(),
        forall|j: int| i <= j < first_index_from(buttons, id, i) ==> buttons[j].id != id,
        first_index_from(buttons, id, i) < buttons.len() ==> buttons[first_index_from(
            buttons,
            id,
            i,
        )].id == id,
    decreases buttons.len() - i,
{
    if i < buttons.len() && buttons[i].id != id {
        lemma_first_index_from(buttons, id, i + 1);
    }
}

/// The first button carrying `id`, where there is one, is at `first_index_of`.
pub proof fn lemma_first_index_of(buttons: Seq<ButtonLayout>, id: WidgetId)
    ensures
        has_button_id(buttons, id) <==> first_index_of(buttons, id) < buttons.len(),
        0 <= first_index_of(buttons, id) <= buttons.len(),
        has_button_id(buttons, id) ==> buttons[first_index_of(buttons, id)].id == id,
        forall|j: int| 0 <= j < first_index_of(buttons, id) ==> buttons[j].id != id,
{
    lemma_first_index_from(buttons, id, 0);
}

impl LayoutFrame {
    /// The first button carrying `id`.
    pub fn button_by_id(&self, id: WidgetId) -> (r: Option<&ButtonLayout>)
        ensures
            r is Some <==> has_button_id(self@.buttons, id),
            r matches Some(b) ==> *b == self@.buttons[first_index_of(self@.buttons, id)],
    {
        proof {
            lemma_first_index_of(self@.buttons, id);
        }
        let n = self.buttons.len();
        let mut i: usize = 0;
        while i < n
            invariant
                n == self.buttons@.len(),
                0 <= i <= n,
                first_index_of(self@.buttons, id) == first_index_from(self@.buttons, id, i as int),
            decreases n - i,
        {
            if self.buttons[i].id == id {
                proof {
                    assert(has_button_id(self@.buttons, id));
                }
                return Some(&self.buttons[i]);
            }
            i = i + 1;
        }
        None
    }
}

/// The first button's id.
pub open spec fn spec_initial_focus(frame: FrameView) -> Option<WidgetId> {
    if frame.buttons.len() > 0 {
        Some(frame.buttons[0].id)
    } else {
        None
    }
}

/// The button that takes the focus first: the first one placed.
pub fn initial_focus(frame: &LayoutFrame) -> (r: Option<WidgetId>)
    ensures
        r == spec_initial_focus(frame@),
{
    if frame.buttons.len() > 0 {
        Some(frame.buttons[0].id)
    } else {
        None
    }
}

/// The centre of a rectangle, rounded towards its top-left corner.
pub open spec fn spec_center(r: Rect) -> (int, int) {
    (r.x + r.width / 2, r.y + r.height / 2)
}

fn center(rect: Rect) -> (r: (i32, i32))
    ensures
        r.0 == spec_center(rect).0,
        r.1 == spec_center(rect).1,
{
    ((rect.x as i32) + ((rect.width / 2) as i32), (rect.y as i32) + ((rect.height / 2) as i32))
}

/// `|a|`.
pub open spec fn abs(a: int) -> int {
    if a < 0 {
        -a
    } else {
        a
    }
}

/// How far `to` lies from `from` along `direction`, and how far off that axis.
pub open spec fn offsets(direction: FocusDirection, from: (int, int), to: (int, int)) -> (int, int) {
    match direction {
        FocusDirection::Up => (from.1 - to.1, abs(from.0 - to.0)),
        FocusDirection::Down => (to.1 - from.1, abs(from.0 - to.0)),
        FocusDirection::Left => (from.0 - to.0, abs(from.1 - to.1)),
        FocusDirection::Right => (to.0 - from.0, abs(from.1 - to.1)),
    }
}

/// The centre of `to` lies strictly beyond the centre of `from` in `direction`.
pub open spec fn lies_towards(direction: FocusDirection, from: Rect, to: Rect) -> bool {
    offsets(direction, spec_center(from), spec_center(to)).0 > 0
}

/// The distance used to pick the next button: the axis offset weighs a
/// hundred times the off-axis offset.
pub open spec fn focus_score(direction: FocusDirection, from: Rect, to: Rect) -> int {
    let o = offsets(direction, spec_center(from), spec_center(to));
    o.0 * 100 + o.1
}

/// Button `j` may take the focus from the button `current_id` at `from`.
pub open spec fn is_candidate(
    buttons: Seq<ButtonLayout>,
    current_id: WidgetId,
    from: Rect,
    direction: FocusDirection,
    j: int,
) -> bool {
    0 <= j < buttons.len() && buttons[j].id != current_id && lies_towards(
        direction,
        from,
        buttons[j].rect,
    )
}

/// Button `k` is the candidate of least score, the first such one on ties.
pub open spec fn is_best_candidate(
    buttons: Seq<ButtonLayout>,
    current_id: WidgetId,
    from: Rect,
    direction: FocusDirection,
    k: int,
) -> bool {
    &&& is_candidate(buttons, current_id, from, direction, k)
    &&& forall|j: int|
        #![trigger is_candidate(buttons, current_id, from, direction, j)]
        is_candidate(buttons, current_id, from, direction, j) ==> focus_score(
            direction,
            from,
            buttons[k].rect,
        ) <= focus_score(direction, from, buttons[j].rect) && (j < k ==> focus_score(
            direction,
            from,
            buttons[k].rect,
        ) < focus_score(direction, from, buttons[j].rect))
}

/// At most one candidate is the best.
pub proof fn lemma_best_candidate_unique(
    buttons: Seq<ButtonLayout>,
    current_id: WidgetId,
    from: Rect,
    direction: FocusDirection,
    k1: int,
    k2: int,
)
    requires
        is_best_candidate(buttons, current_id, from, direction, k1),
        is_best_candidate(buttons, current_id, from, direction, k2),
    ensures
        k1 == k2,
{
    assert(is_candidate(buttons, current_id, from, direction, k1));
    assert(is_candidate(buttons, current_id, from, direction, k2));
}

/// The id the focus moves from: the focused one, else the first button's.
pub open spec fn focus_anchor(buttons: Seq<ButtonLayout>, current: Option<WidgetId>) -> WidgetId {
    match current {
        Some(focused) => focused,
        None => buttons[0].id,
    }
}

/// Some button may take the focus.
pub open spec fn has_best_candidate(
    buttons: Seq<ButtonLayout>,
    current_id: WidgetId,
    from: Rect,
    direction: FocusDirection,
) -> bool {
    exists|k: int| is_best_candidate(buttons, current_id, from, direction, k)
}

/// `r` is the id of the best candidate.
pub open spec fn is_best_choice(
    buttons: Seq<ButtonLayout>,
    current_id: WidgetId,
    from: Rect,
    direction: FocusDirection,
    r: Option<WidgetId>,
) -> bool {
    exists|k: int|
        is_best_candidate(buttons, current_id, from, direction, k) && r == Some(buttons[k].id)
}

/// `r` is where the focus goes from `current` when the joystick is pushed
/// in `direction`: no focus without buttons; no focus when the focused id
/// (the first button where nothing is focused) is not in the frame; else the
/// id of the best candidate, and where there is none, `current` unchanged.
/// (The best candidate is unique: `lemma_best_candidate_unique`.)
pub open spec fn is_focus_move(
    frame: FrameView,
    current: Option<WidgetId>,
    direction: FocusDirection,
    r: Option<WidgetId>,
) -> bool {
    let buttons = frame.buttons;
    if buttons.len() == 0 {
        r is None
    } else if !has_button_id(buttons, focus_anchor(buttons, current)) {
        r is None
    } else {
        let current_id = focus_anchor(buttons, current);
        let from = buttons[first_index_of(buttons, current_id)].rect;
        if has_best_candidate(buttons, current_id, from, direction) {
            is_best_choice(buttons, current_id, from, direction, r)
        } else {
            r == current
        }
    }
}

/// What each direction means on the screen, judged from the rectangles'
/// centres (`y` grows downwards): up is a smaller `y`, down a larger `y`,
/// left a smaller `x`, right a larger `x`; and the distance used to pick
/// among the buttons that way is a hundred times the distance along the
/// direction plus the distance across it.
pub proof fn lemma_direction_geometry(direction: FocusDirection, from: Rect, to: Rect)
    ensures
        ({
            let fx = from.x + from.width / 2;
            let fy = from.y + from.height / 2;
            let tx = to.x + to.width / 2;
            let ty = to.y + to.height / 2;
            let dx = if fx >= tx {
                fx - tx
            } else {
                tx - fx
            };
            let dy = if fy >= ty {
                fy - ty
            } else {
                ty - fy
            };
            &&& direction == FocusDirection::Up ==> (lies_towards(direction, from, to) <==> ty < fy)
                && focus_score(direction, from, to) == 100 * (fy - ty) + dx
            &&& direction == FocusDirection::Down ==> (lies_towards(direction, from, to) <==> ty
                > fy) && focus_score(direction, from, to) == 100 * (ty - fy) + dx
            &&& direction == FocusDirection::Left ==> (lies_towards(direction, from, to) <==> tx
                < fx) && focus_score(direction, from, to) == 100 * (fx - tx) + dy
            &&& direction == FocusDirection::Right ==> (lies_towards(direction, from, to) <==> tx
                > fx) && focus_score(direction, from, to) == 100 * (tx - fx) + dy
        }),
{
}

/// The focus never leaves the frame: it stays where it was, goes away when
/// the frame has nothing to focus, or moves to another button of the frame
/// whose centre lies strictly in the pushed direction.
pub proof fn lemma_focus_moves_towards(
    frame: FrameView,
    current: Option<WidgetId>,
    direction: FocusDirection,
    r: Option<WidgetId>,
)
    requires
        is_focus_move(frame, current, direction, r),
    ensures
        r is None || r == current || (r matches Some(id) && frame.buttons.len() > 0 && exists|
            k: int,
        |
            0 <= k < frame.buttons.len() && frame.buttons[k].id == id && id != focus_anchor(
                frame.buttons,
                current,
            ) && lies_towards(
                direction,
                frame.buttons[first_index_of(
                    frame.buttons,
                    focus_anchor(frame.buttons, current),
                )].rect,
                frame.buttons[k].rect,
            )),
{
    let buttons = frame.buttons;
    if buttons.len() > 0 && has_button_id(buttons, focus_anchor(buttons, current)) {
        let current_id = focus_anchor(buttons, current);
        let from = buttons[first_index_of(buttons, current_id)].rect;
        if has_best_candidate(buttons, current_id, from, direction) {
            let k = choose|k: int|
                is_best_candidate(buttons, current_id, from, direction, k) && r == Some(
                    buttons[k].id,
                );
            assert(is_candidate(buttons, current_id, from, direction, k));
        }
    }
}

/// Moves the focus to the nearest button lying in `direction` from the
/// focused one, judged from the centres of the buttons.
pub fn move_focus(frame: &LayoutFrame, current: Option<WidgetId>, direction: FocusDirection) -> (r:
    Option<WidgetId>)
    ensures
        is_focus_move(frame@, current, direction, r),
{
    if frame.buttons.len() == 0 {
        return None;
    }
    let current_id = match current {
        Some(id) => id,
        None => match initial_focus(frame) {
            Some(id) => id,
            None => {
                return None;
            },
        },
    };
    let current_button = match frame.button_by_id(current_id) {
        Some(b) => b,
        None => {
            return None;
        },
    };
    let ghost buttons = frame@.buttons;
    let ghost from = current_button.rect;
    let (cx, cy) = center(current_button.rect);
    let n = frame.buttons.len();
    let mut best: Option<(i32, WidgetId)> = None;
    let ghost mut best_index: int = -1;
    let mut i: usize = 0;
    while i < n
        invariant
            n == buttons.len(),
            buttons == frame@.buttons,
            0 <= i <= n,
            cx == spec_center(from).0,
            cy == spec_center(from).1,
            match best {
                None => forall|j: int|
                    0 <= j < i ==> !is_candidate(buttons, current_id, from, direction, j),
                Some((score, id)) => {
                    &&& 0 <= best_index < i
                    &&& is_candidate(buttons, current_id, from, direction, best_index)
                    &&& id == buttons[best_index].id
                    &&& score == focus_score(direction, from, buttons[best_index].rect)
                    &&& forall|j: int|
                        #![trigger is_candidate(buttons, current_id, from, direction, j)]
                        0 <= j < i && is_candidate(buttons, current_id, from, direction, j)
                            ==> score <= focus_score(direction, from, buttons[j].rect) && (j
                            < best_index ==> score < focus_score(
                            direction,
                            from,
                            buttons[j].rect,
                        ))
                },
            },
        decreases n - i,
    {
        let candidate = &frame.buttons[i];
        if candidate.id != current_id {
            let (tx, ty) = center(candidate.rect);
            let (axis, ortho) = match direction {
                FocusDirection::Up => (cy - ty, if cx >= tx { cx - tx } else { tx - cx }),
                FocusDirection::Down => (ty - cy, if cx >= tx { cx - tx } else { tx - cx }),
                FocusDirection::Left => (cx - tx, if cy >= ty { cy - ty } else { ty - cy }),
                FocusDirection::Right => (tx - cx, if cy >= ty { cy - ty } else { ty - cy }),
            };
            assert(axis == offsets(direction, spec_center(from), spec_center(candidate.rect)).0);
            assert(ortho == offsets(direction, spec_center(from), spec_center(candidate.rect)).1);
            if axis > 0 {
                let score = axis * 100 + ortho;
                assert(score == focus_score(direction, from, candidate.rect));
                let better = match best {
                    None => true,
                    Some((best_score, _)) => score < best_score,
                };
                if better {
                    best = Some((score, candidate.id));
                    proof {
                        best_index = i as int;
                    }
                }
            }
        }
        i = i + 1;
    }
    proof {
        lemma_first_index_of(buttons, current_id);
    }
    match best {
        Some((_, id)) => {
            assert(is_best_candidate(buttons, current_id, from, direction, best_index));
            assert(is_best_choice(buttons, current_id, from, direction, Some(id)));
            Some(id)
        },
        None => {
            proof {
                assert forall|k: int|
                    !is_best_candidate(buttons, current_id, from, direction, k) by {
                    if is_best_candidate(buttons, current_id, from, direction, k) {
                        assert(is_candidate(buttons, current_id, from, direction, k));
                    }
                }
                assert(current_id == focus_anchor(buttons, current));
                assert(from == buttons[first_index_of(buttons, current_id)].rect);
                assert(!has_best_candidate(buttons, current_id, from, direction));
            }
            current
        },
    }
}

} // verus!
