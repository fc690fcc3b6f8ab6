use crate::config::{AppConfig, LastPagePolicy};
use crate::error::{UiError, UiResult};
use crate::event::UiEvent;
use crate::layout::{
    first_index_of, has_button_id, initial_focus, is_focus_move, move_focus, spec_initial_focus,
    FocusDirection, FrameView, LayoutFrame,
};
use crate::lcd_types::{Key, KeyEvent};
use crate::widget::WidgetId;
use vstd::prelude::*;

verus! {

/// What a page asks of the navigation after handling an event.
pub enum PageCommand<P> {
    /// Stay on the shown page.
    Stay,
    /// Open a page on top.
    Push(P),
    /// Go back one page.
    Pop,
    /// Swap the top page for another.
    Replace(P),
    /// Leave the run loop.
    Exit,
}

/// The navigation state of an application whose pages are of type `P`:
/// the page stack (the last page is shown), the focused button of the shown
/// page, and whether a redraw or the end of the run loop was asked for.
pub struct App<P> {
    config: AppConfig,
    pages: Vec<P>,
    focused_button: Option<WidgetId>,
    redraw_requested: bool,
    should_exit: bool,
}

/// The state of an application.
pub struct AppView<P> {
    pub config: AppConfig,
    pub pages: Seq<P>,
    pub focused: Option<WidgetId>,
    pub redraw: bool,
    pub exit: bool,
}

impl<P> View for App<P> {
    type V = AppView<P>;

    closed spec fn view(&self) -> AppView<P> {
        AppView {
            config: self.config,
            pages: self.pages@,
            focused: self.focused_button,
            redraw: self.redraw_requested,
            exit: self.should_exit,
        }
    }
}

/// A state showing a new top page: no focus yet, and a redraw asked for.
pub open spec fn shown_anew<P>(s: AppView<P>, pages: Seq<P>) -> AppView<P> {
    AppView { config: s.config, pages, focused: None, redraw: true, exit: s.exit }
}

/// Opening `page` on top.
pub open spec fn spec_push<P>(s: AppView<P>, page: P) -> AppView<P> {
    shown_anew(s, s.pages.push(page))
}

/// Swapping the top page for `page` (opening it where there is none).
pub open spec fn spec_replace<P>(s: AppView<P>, page: P) -> AppView<P> {
    if s.pages.len() == 0 {
        shown_anew(s, s.pages.push(page))
    } else {
        shown_anew(s, s.pages.drop_last().push(page))
    }
}

/// Closing the top page, never the last one; the flag says whether a page closed.
pub open spec fn spec_pop<P>(s: AppView<P>) -> (AppView<P>, bool) {
    if s.pages.len() > 1 {
        (shown_anew(s, s.pages.drop_last()), true)
    } else {
        (s, false)
    }
}

/// What "back" does when one page or none is left: exit or nothing, by policy.
pub open spec fn spec_last_page_back<P>(s: AppView<P>) -> (AppView<P>, bool) {
    match s.config.last_page_policy {
        LastPagePolicy::ExitApp => (AppView { exit: true, ..s }, false),
        LastPagePolicy::IgnoreBack => (s, false),
    }
}

/// The K1 key: close the top page, or apply the last page policy; the flag
/// says whether the screen changed. (A redraw is asked for by the run loop
/// when the flag is set.)
pub open spec fn spec_back<P>(s: AppView<P>) -> (AppView<P>, bool) {
    if s.pages.len() > 1 {
        (AppView { pages: s.pages.drop_last(), focused: None, ..s }, true)
    } else {
        spec_last_page_back(s)
    }
}

/// Carrying out a page's command; the flag says whether the screen changed.
pub open spec fn spec_apply<P>(s: AppView<P>, command: PageCommand<P>) -> (AppView<P>, bool) {
    match command {
        PageCommand::Stay => (s, true),
        PageCommand::Push(page) => (AppView { pages: s.pages.push(page), focused: None, ..s }, true),
        PageCommand::Pop => spec_back(s),
        PageCommand::Replace(page) => (
            AppView {
                pages: if s.pages.len() == 0 {
                    s.pages.push(page)
                } else {
                    s.pages.drop_last().push(page)
                },
                focused: None,
                ..s
            },
            true,
        ),
        PageCommand::Exit => (AppView { exit: true, ..s }, false),
    }
}

/// After a key edge: a redraw is asked for when the edge changed the screen,
/// and nothing else changes.
pub open spec fn spec_after_key<P>(s: AppView<P>, changed: bool) -> AppView<P> {
    if changed {
        AppView { redraw: true, ..s }
    } else {
        s
    }
}

/// The focus a freshly laid out frame keeps: the focused button where the
/// frame still has it, else the frame's first button.
pub open spec fn spec_synced_focus(focused: Option<WidgetId>, frame: FrameView) -> Option<WidgetId> {
    match focused {
        Some(id) => if has_button_id(frame.buttons, id) {
            Some(id)
        } else {
            spec_initial_focus(frame)
        },
        None => spec_initial_focus(frame),
    }
}

/// The event that pressing the joystick gives: none without focus, the
/// focused button's id and action where the frame has it, else an error.
pub open spec fn spec_press_event(focused: Option<WidgetId>, frame: FrameView) -> UiResult<
    Option<UiEvent>,
> {
    match focused {
        None => Ok(None),
        Some(id) => if has_button_id(frame.buttons, id) {
            Ok(
                Some(
                    UiEvent::Press {
                        focused: id,
                        action: frame.buttons[first_index_of(frame.buttons, id)].action,
                    },
                ),
            )
        } else {
            Err(UiError::FocusedWidgetNotFound(id))
        },
    }
}

/// The event pressing the joystick sends to the shown page.
pub fn press_event(focused: Option<WidgetId>, frame: &LayoutFrame) -> (r: UiResult<Option<UiEvent>>)
    ensures
        r == spec_press_event(focused, frame@),
{
    let focused_id = match focused {
        Some(id) => id,
        None => {
            return Ok(None);
        },
    };
    match frame.button_by_id(focused_id) {
        Some(button) => Ok(Some(UiEvent::Press { focused: focused_id, action: button.action })),
        None => Err(UiError::FocusedWidgetNotFound(focused_id)),
    }
}

/// What the run loop does with a key edge.
#[derive(Debug, Clone, Copy, PartialEq, Eq, Structural)]
pub enum KeyAction {
    /// Releases are ignored.
    Ignore,
    /// A joystick direction moves the focus.
    Move(FocusDirection),
    /// The joystick press presses the focused button.
    Press,
    /// K1 goes back.
    Back,
    /// K2 and K3 go to the shown page as they are.
    PageEvent(UiEvent),
}

/// The action of each key edge.
pub open spec fn spec_key_action(event: KeyEvent) -> KeyAction {
    if !event.pressed {
        KeyAction::Ignore
    } else {
        match event.key {
            Key::Up => KeyAction::Move(FocusDirection::Up),
            Key::Down => KeyAction::Move(FocusDirection::Down),
            Key::Left => KeyAction::Move(FocusDirection::Left),
            Key::Right => KeyAction::Move(FocusDirection::Right),
            Key::Press => KeyAction::Press,
            Key::K1 => KeyAction::Back,
            Key::K2 => KeyAction::PageEvent(UiEvent::K2),
            Key::K3 => KeyAction::PageEvent(UiEvent::K3),
        }
    }
}

/// Decides what a key edge does.
pub fn key_action(event: KeyEvent) -> (r: KeyAction)
    ensures
        r == spec_key_action(event),
{
    if !event.pressed {
        return KeyAction::Ignore;
    }
    match event.key {
        Key::Up => KeyAction::Move(FocusDirection::Up),
        Key::Down => KeyAction::Move(FocusDirection::Down),
        Key::Left => KeyAction::Move(FocusDirection::Left),
        Key::Right => KeyAction::Move(FocusDirection::Right),
        Key::Press => KeyAction::Press,
        Key::K1 => KeyAction::Back,
        Key::K2 => KeyAction::PageEvent(UiEvent::K2),
        Key::K3 => KeyAction::PageEvent(UiEvent::K3),
    }
}

impl<P> App<P> {
    /// An application with no page, nothing focused, a redraw pending.
    pub fn new(config: AppConfig) -> (r: Self)
        ensures
            r@ == (AppView::<P> {
                config,
                pages: Seq::empty(),
                focused: None,
                redraw: true,
                exit: false,
            }),
    {
        App {
            config,
            pages: Vec::new(),
            focused_button: None,
            redraw_requested: true,
            should_exit: false,
        }
    }

    /// The settings.
    pub fn config(&self) -> (r: AppConfig)
        ensures
            r == self@.config,
    {
        self.config
    }

    /// The number of pages on the stack.
    pub fn page_count(&self) -> (r: usize)
        ensures
            r == self@.pages.len(),
    {
        self.pages.len()
    }

    /// The shown page.
    pub fn current_page(&self) -> (r: Option<&P>)
        ensures
            self@.pages.len() == 0 ==> r is None,
            self@.pages.len() > 0 ==> (r matches Some(p) && *p == self@.pages.last()),
    {
        let n = self.pages.len();
        if n == 0 {
            None
        } else {
            Some(&self.pages[n - 1])
        }
    }

    /// The shown page, to hand it an event.
    pub fn current_page_mut(&mut self) -> (r: Option<&mut P>)
        ensures
            old(self)@.pages.len() == 0 ==> r is None && final(self)@ == old(self)@,
            old(self)@.pages.len() > 0 ==> (r matches Some(p) && *p == old(self)@.pages.last()
                && final(self)@ == (AppView {
                pages: old(self)@.pages.update(old(self)@.pages.len() - 1, *final(p)),
                ..old(self)@
            })),
    {
        let n = self.pages.len();
        if n == 0 {
            None
        } else {
            Some(&mut self.pages[n - 1])
        }
    }

    /// The focused button.
    pub fn focused_button(&self) -> (r: Option<WidgetId>)
        ensures
            r == self@.focused,
    {
        self.focused_button
    }

    /// Whether the run loop should redraw before the next key.
    pub fn redraw_requested(&self) -> (r: bool)
        ensures
            r == self@.redraw,
    {
        self.redraw_requested
    }

    /// Whether the run loop should end.
    pub fn should_exit(&self) -> (r: bool)
        ensures
            r == self@.exit,
    {
        self.should_exit
    }

    /// Opens `page` on top of the stack.
    pub fn push_page(&mut self, page: P)
        ensures
            final(self)@ == spec_push(old(self)@, page),
    {
        self.pages.push(page);
        self.focused_button = None;
        self.request_redraw();
    }

    /// Swaps the top page for `page`, or opens it on an empty stack.
    pub fn replace_page(&mut self, page: P)
        ensures
            final(self)@ == spec_replace(old(self)@, page),
    {
        if self.pages.len() == 0 {
            self.pages.push(page);
        } else {
            self.pages.pop();
            self.pages.push(page);
        }
        self.focused_button = None;
        self.request_redraw();
    }

    /// Closes the top page unless it is the only one; says whether it did.
    pub fn pop_page(&mut self) -> (r: bool)
        ensures
            (final(self)@, r) == spec_pop(old(self)@),
    {
        if self.pages.len() > 1 {
            self.pages.pop();
            self.focused_button = None;
            self.request_redraw();
            return true;
        }
        false
    }

    /// Asks for a redraw before the next key.
    pub fn request_redraw(&mut self)
        ensures
            final(self)@ == (AppView { redraw: true, ..old(self)@ }),
    {
        self.redraw_requested = true;
    }

    /// Checks that there is a page to run: `NoPages` exactly on an empty stack.
    pub fn ready_to_run(&self) -> (r: UiResult<()>)
        ensures
            self@.pages.len() == 0 ==> r == Err::<(), UiError>(UiError::NoPages),
            self@.pages.len() > 0 ==> r is Ok,
    {
        if self.pages.len() == 0 {
            return Err(UiError::NoPages);
        }
        Ok(())
    }

    /// Records what a key edge did (see `spec_after_key`).
    pub fn after_key(&mut self, changed: bool)
        ensures
            final(self)@ == spec_after_key(old(self)@, changed),
    {
        if changed {
            self.request_redraw();
        }
    }

    /// Records that the screen was redrawn.
    pub fn finish_redraw(&mut self)
        ensures
            final(self)@ == (AppView { redraw: false, ..old(self)@ }),
    {
        self.redraw_requested = false;
    }

    /// Keeps the focus on a freshly laid out frame (see `spec_synced_focus`);
    /// `Ok(true)` when it changed and the shown page is to be told, and
    /// `NoPages` when it changed with no page to tell.
    pub fn sync_focus(&mut self, frame: &LayoutFrame) -> (r: UiResult<bool>)
        ensures
            final(self)@ == (AppView {
                focused: spec_synced_focus(old(self)@.focused, frame@),
                ..old(self)@
            }),
            spec_synced_focus(old(self)@.focused, frame@) == old(self)@.focused ==> r == Ok::<
                bool,
                UiError,
            >(false),
            spec_synced_focus(old(self)@.focused, frame@) != old(self)@.focused ==> if old(
                self,
            )@.pages.len() > 0 {
                r == Ok::<bool, UiError>(true)
            } else {
                r == Err::<bool, UiError>(UiError::NoPages)
            },
    {
        let old_focus = self.focused_button;
        self.focused_button = match self.focused_button {
            Some(id) => {
                if frame.button_by_id(id).is_some() {
                    Some(id)
                } else {
                    initial_focus(frame)
                }
            },
            None => initial_focus(frame),
        };
        if old_focus != self.focused_button {
            if self.pages.len() > 0 {
                return Ok(true);
            }
            return Err(UiError::NoPages);
        }
        Ok(false)
    }

    /// Moves the focus in `direction` (see `move_focus`); says whether it
    /// changed, in which case the shown page is to be told.
    pub fn handle_direction(&mut self, frame: &LayoutFrame, direction: FocusDirection) -> (r:
        bool)
        ensures
            is_focus_move(frame@, old(self)@.focused, direction, final(self)@.focused),
            final(self)@ == (AppView { focused: final(self)@.focused, ..old(self)@ }),
            r == (final(self)@.focused != old(self)@.focused),
    {
        let old_focus = self.focused_button;
        self.focused_button = move_focus(frame, self.focused_button, direction);
        old_focus != self.focused_button
    }

    /// The event that pressing the joystick sends to the shown page.
    pub fn handle_press(&self, frame: &LayoutFrame) -> (r: UiResult<Option<UiEvent>>)
        ensures
            r == spec_press_event(self@.focused, frame@),
    {
        press_event(self.focused_button, frame)
    }

    /// Goes back (see `spec_back`).
    pub fn handle_back(&mut self) -> (r: bool)
        ensures
            (final(self)@, r) == spec_back(old(self)@),
    {
        if self.pages.len() > 1 {
            self.pages.pop();
            self.focused_button = None;
            return true;
        }
        match self.config.last_page_policy {
            LastPagePolicy::ExitApp => {
                self.should_exit = true;
                false
            },
            LastPagePolicy::IgnoreBack => false,
        }
    }

    /// Carries out a page's command (see `spec_apply`).
    pub fn apply_page_command(&mut self, command: PageCommand<P>) -> (r: bool)
        ensures
            (final(self)@, r) == spec_apply(old(self)@, command),
    {
        match command {
            PageCommand::Stay => true,
            PageCommand::Push(page) => {
                self.pages.push(page);
                self.focused_button = None;
                true
            },
            PageCommand::Pop => self.handle_back(),
            PageCommand::Replace(page) => {
                if self.pages.len() == 0 {
                    self.pages.push(page);
                } else {
                    self.pages.pop();
                    self.pages.push(page);
                }
                self.focused_button = None;
                true
            },
            PageCommand::Exit => {
                self.should_exit = true;
                false
            },
        }
    }
}

/// Opening a page and going back restores the stack below it.
pub proof fn lemma_push_then_pop_restores<P>(s: AppView<P>, page: P)
    requires
        s.pages.len() >= 1,
    ensures
        spec_pop(spec_push(s, page)).1,
        spec_pop(spec_push(s, page)).0.pages == s.pages,
        spec_back(spec_push(s, page)).1,
        spec_back(spec_push(s, page)).0.pages == s.pages,
{
    assert(s.pages.push(page).drop_last() == s.pages);
}

/// A page's `Pop` command does exactly what the K1 key does.
pub proof fn lemma_pop_command_is_back<P>(s: AppView<P>)
    ensures
        spec_apply(s, PageCommand::Pop) == spec_back(s),
{
}

/// No navigation empties a stack that holds a page.
pub proof fn lemma_stack_stays_nonempty<P>(s: AppView<P>, page: P, command: PageCommand<P>)
    requires
        s.pages.len() >= 1,
    ensures
        spec_push(s, page).pages.len() >= 1,
        spec_replace(s, page).pages.len() == s.pages.len(),
        spec_replace(s, page).pages.last() == page,
        spec_pop(s).0.pages.len() >= 1,
        spec_back(s).0.pages.len() >= 1,
        spec_apply(s, command).0.pages.len() >= 1,
{
}

/// Once the application is to exit, no navigation takes that back.
pub proof fn lemma_exit_is_final<P>(s: AppView<P>, page: P, command: PageCommand<P>)
    requires
        s.exit,
    ensures
        spec_push(s, page).exit,
        spec_replace(s, page).exit,
        spec_pop(s).0.exit,
        spec_back(s).0.exit,
        spec_apply(s, command).0.exit,
{
}

/// Back on the last page follows the policy: exit without a change of
/// screen, or nothing at all.
pub proof fn lemma_back_on_last_page<P>(s: AppView<P>)
    requires
        s.pages.len() == 1,
    ensures
        s.config.last_page_policy == LastPagePolicy::ExitApp ==> spec_back(s).0.exit && !spec_back(
            s,
        ).1 && spec_back(s).0.pages == s.pages,
        s.config.last_page_policy == LastPagePolicy::IgnoreBack ==> spec_back(s) == (s, false),
{
}

/// After a redraw the focus is on a button of the frame, and there is
/// focus whenever the frame has a button.
pub proof fn lemma_synced_focus_in_frame(focused: Option<WidgetId>, frame: FrameView)
    ensures
        spec_synced_focus(focused, frame) is None <==> frame.buttons.len() == 0,
        spec_synced_focus(focused, frame) matches Some(id) ==> has_button_id(frame.buttons, id),
{
    if frame.buttons.len() > 0 {
        assert(frame.buttons[0].id == frame.buttons[0].id);
        assert(has_button_id(frame.buttons, frame.buttons[0].id));
    }
    if let Some(id) = focused {
        if has_button_id(frame.buttons, id) {
            assert(frame.buttons.len() > 0);
        }
    }
}

/// Pressing does nothing without focus, and presses only the focused button.
pub proof fn lemma_press_needs_focus(focused: Option<WidgetId>, frame: FrameView)
    ensures
        focused is None ==> spec_press_event(focused, frame) == Ok::<Option<UiEvent>, UiError>(
            None,
        ),
        spec_press_event(focused, frame) matches Ok(Some(e)) ==> focused matches Some(id) && e
            matches UiEvent::Press { focused: pressed, .. } && pressed == id,
{
}

/// Every change of the shown page is reported: opening, swapping and
/// closing pages ask for a redraw themselves, and going back or carrying
/// out a command that changes the stack says so in its flag.
pub proof fn lemma_page_change_is_reported<P>(s: AppView<P>, page: P, command: PageCommand<P>)
    ensures
        spec_push(s, page).redraw,
        spec_replace(s, page).redraw,
        spec_pop(s).0.pages != s.pages ==> spec_pop(s).1 && spec_pop(s).0.redraw,
        spec_back(s).0.pages != s.pages ==> spec_back(s).1,
        spec_apply(s, command).0.pages != s.pages ==> spec_apply(s, command).1,
{
}

/// A page event whose command changes the screen is followed by a redraw of
/// the (new) shown page before the next key: carrying out the command and
/// recording the key edge leaves a redraw pending, on the stack the command
/// left.
pub proof fn lemma_page_event_redraws_on_change<P>(s: AppView<P>, command: PageCommand<P>)
    ensures
        spec_after_key(spec_apply(s, command).0, spec_apply(s, command).1).pages == spec_apply(
            s,
            command,
        ).0.pages,
        spec_apply(s, command).1 ==> spec_after_key(
            spec_apply(s, command).0,
            spec_apply(s, command).1,
        ).redraw,
{
}

/// A redraw keeps the focus where it is whenever the focused button is still
/// in the frame, so it neither changes nor has to be reported; a focus that
/// left the frame goes to the first button placed.
pub proof fn lemma_synced_focus_stays_on_present_button(id: WidgetId, frame: FrameView)
    ensures
        has_button_id(frame.buttons, id) ==> spec_synced_focus(Some(id), frame) == Some(id),
        !has_button_id(frame.buttons, id) && frame.buttons.len() > 0 ==> spec_synced_focus(
            Some(id),
            frame,
        ) == Some(frame.buttons[0].id),
        frame.buttons.len() > 0 ==> spec_synced_focus(None, frame) == Some(frame.buttons[0].id),
{
}

/// A press reports the action of the button that carries the focused id,
/// the first such button where several do.
pub proof fn lemma_press_reports_focused_action(id: WidgetId, frame: FrameView)
    ensures
        spec_press_event(Some(id), frame) is Ok <==> has_button_id(frame.buttons, id),
        spec_press_event(Some(id), frame) matches Ok(ev) ==> ev matches Some(
            UiEvent::Press { focused, action },
        ) && focused == id && exists|i: int|
            0 <= i < frame.buttons.len() && frame.buttons[i].id == id && frame.buttons[i].action
                == action && forall|j: int| 0 <= j < i ==> frame.buttons[j].id != id,
{
    crate::layout::lemma_first_index_of(frame.buttons, id);
    if has_button_id(frame.buttons, id) {
        let i = first_index_of(frame.buttons, id);
        assert(0 <= i < frame.buttons.len() && frame.buttons[i].id == id);
    }
}

/// Only key-down edges do anything: every release is ignored, and every
/// press of a key does something.
pub proof fn lemma_releases_are_ignored(event: KeyEvent)
    ensures
        !event.pressed ==> spec_key_action(event) == KeyAction::Ignore,
        event.pressed ==> spec_key_action(event) != KeyAction::Ignore,
        event.pressed ==> (spec_key_action(event) == KeyAction::Press <==> event.key == Key::Press),
        event.pressed ==> (spec_key_action(event) == KeyAction::Back <==> event.key == Key::K1),
{
}

/// Swapping the top page, or going back, touches only the top of the stack:
/// the pages below stay as they were, and focus starts afresh.
pub proof fn lemma_navigation_touches_only_the_top<P>(s: AppView<P>, page: P)
    requires
        s.pages.len() >= 1,
    ensures
        spec_replace(s, page).pages.len() == s.pages.len(),
        spec_replace(s, page).pages[s.pages.len() - 1] == page,
        forall|i: int|
            0 <= i < s.pages.len() - 1 ==> #[trigger] spec_replace(s, page).pages[i] == s.pages[i],
        spec_replace(s, page).focused is None,
        s.pages.len() > 1 ==> spec_back(s).0.pages.len() == s.pages.len() - 1 && spec_back(s).1
            && spec_back(s).0.focused is None && !spec_back(s).0.exit == !s.exit,
        forall|i: int|
            0 <= i < s.pages.len() - 1 ==> #[trigger] spec_back(s).0.pages[i] == s.pages[i],
{
}

} // verus!
