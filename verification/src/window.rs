use vstd::prelude::*;

use crate::fn_utils::FnCell;
use crate::geo::{Point, Size};
use crate::native::{
    frame_request, frame_request_spec, title_style_command, title_style_command_spec,
    vibrancy_command, vibrancy_command_spec, FrameRequest, TitleStyleCommand, VibrancyCommand,
};

verus! {

/// Where a window is placed: centered on its screen, or at an exact position.
#[derive(Clone, Copy, Debug, PartialEq, Eq, Structural)]
pub enum Location {
    Center,
    Exact(Point),
}

/// What the native window reports.
#[derive(Clone, Copy, Debug, PartialEq, Eq, Structural)]
pub enum Event {
    Blur,
    Focus,
    Move,
    Resize,
    Close,
}

/// The look of the title bar.
#[derive(Clone, Copy, Debug, PartialEq, Eq, Structural)]
pub enum TitleStyle {
    Visible,
    Hidden { traffic_light_position: Option<Point> },
}

/// The size of a visual-effect view along one edge of the window.
#[derive(Clone, Copy, Debug, PartialEq, Eq, Structural)]
pub struct VibrancyConfig {
    pub size: u32,
}

/// Which edges get a visual-effect view, and how large.
#[derive(Clone, Copy, Debug, PartialEq, Eq, Structural)]
pub struct VibrancyUpdate {
    pub top: Option<VibrancyConfig>,
    pub left: Option<VibrancyConfig>,
    pub bottom: Option<VibrancyConfig>,
    pub right: Option<VibrancyConfig>,
}

impl Default for VibrancyUpdate {
    fn default() -> (r: Self)
        ensures
            r == (VibrancyUpdate { top: None, left: None, bottom: None, right: None }),
    {
        VibrancyUpdate { top: None, left: None, bottom: None, right: None }
    }
}

} // verus!

verus! {

/// A native call that a window's setter issues. The platform backend takes
/// the pending commands with [`WindowRef::take_commands`] and applies them in
/// order to the native window.
#[derive(Debug)]
pub enum WindowCommand {
    SetVisible(bool),
    SetMinimizable(bool),
    SetResizable(bool),
    SetClosable(bool),
    SetFrame(FrameRequest),
    SetMinSize(Size),
    SetMaxSize(Size),
    SetTitle(String),
    SetTrafficLightVisible(bool),
    SetTitleStyle(TitleStyleCommand),
    UpdateVibrancy(VibrancyCommand),
}

/// The properties of a window that can be read back.
pub struct WindowState {
    pub visible: bool,
    pub minimizable: bool,
    pub resizable: bool,
    pub closable: bool,
    /// The position, when it is known: set exactly, or reported by the
    /// platform. A new window and a window asked to center do not know it
    /// until the platform reports where it put them.
    pub position: Option<Point>,
    pub size: Size,
    pub min_size: Size,
    pub max_size: Size,
    pub title: Seq<char>,
}

impl WindowState {
    /// The state after the native window has applied a command. Commands that
    /// change nothing readable (traffic lights, title style, vibrancy) leave the
    /// state as it is; centering makes the position unknown until the
    /// platform reports it.
    pub open spec fn after(self, command: WindowCommand) -> WindowState {
        match command {
            WindowCommand::SetVisible(v) => WindowState { visible: v, ..self },
            WindowCommand::SetMinimizable(v) => WindowState { minimizable: v, ..self },
            WindowCommand::SetResizable(v) => WindowState { resizable: v, ..self },
            WindowCommand::SetClosable(v) => WindowState { closable: v, ..self },
            WindowCommand::SetFrame(req) => WindowState {
                position: match req.position {
                    Some(p) => Some(p),
                    None => if req.center {
                        None
                    } else {
                        self.position
                    },
                },
                size: match req.size {
                    Some(s) => s,
                    None => self.size,
                },
                ..self
            },
            WindowCommand::SetMinSize(s) => WindowState { min_size: s, ..self },
            WindowCommand::SetMaxSize(s) => WindowState { max_size: s, ..self },
            WindowCommand::SetTitle(t) => WindowState { title: t@, ..self },
            _ => self,
        }
    }
}

/// The size a new window gets.
pub open spec fn default_size() -> Size {
    Size { width: 800, height: 600 }
}

/// The minimum size a new window gets.
pub open spec fn default_min_size() -> Size {
    Size { width: 32, height: 32 }
}

/// The maximum size a new window gets: unbounded in both directions.
pub open spec fn default_max_size() -> Size {
    Size { width: u32::MAX, height: u32::MAX }
}

/// The state of a window just created, before the platform has reported
/// where it centered it.
pub open spec fn initial_window_state() -> WindowState {
    WindowState {
        visible: false,
        minimizable: true,
        resizable: true,
        closable: true,
        position: None,
        size: default_size(),
        min_size: default_min_size(),
        max_size: default_max_size(),
        title: Seq::empty(),
    }
}

/// The calls a new window issues to configure its native counterpart.
pub open spec fn initial_commands() -> Seq<WindowCommand> {
    seq![
        WindowCommand::SetResizable(true),
        WindowCommand::SetClosable(true),
        WindowCommand::SetMinimizable(true),
        WindowCommand::SetMinSize(default_min_size()),
        WindowCommand::SetMaxSize(default_max_size()),
        WindowCommand::SetFrame(frame_request_spec(None, Some(default_size()))),
        WindowCommand::SetFrame(frame_request_spec(Some(Location::Center), None)),
    ]
}

/// A window: its readable properties, and the native calls not yet applied.
#[derive(Debug)]
pub struct WindowRef {
    id: u64,
    visible: bool,
    minimizable: bool,
    resizable: bool,
    closable: bool,
    position: Point,
    position_known: bool,
    size: Size,
    min_size: Size,
    max_size: Size,
    title: String,
    commands: Vec<WindowCommand>,
}

impl View for WindowRef {
    type V = WindowState;

    closed spec fn view(&self) -> WindowState {
        WindowState {
            visible: self.visible,
            minimizable: self.minimizable,
            resizable: self.resizable,
            closable: self.closable,
            position: if self.position_known {
                Some(self.position)
            } else {
                None
            },
            size: self.size,
            min_size: self.min_size,
            max_size: self.max_size,
            title: self.title@,
        }
    }
}

impl WindowRef {
    /// The identifier the window was created with.
    pub closed spec fn window_id(&self) -> u64 {
        self.id
    }

    /// The native calls issued and not yet taken by the backend.
    pub closed spec fn pending(&self) -> Seq<WindowCommand> {
        self.commands@
    }

    /// The effect of one setter: the command is queued and the state moves on
    /// as the native window applies it.
    pub open spec fn issued(old: WindowRef, new: WindowRef, command: WindowCommand) -> bool {
        &&& new.window_id() == old.window_id()
        &&& new.pending() == old.pending().push(command)
        &&& new@ == old@.after(command)
    }

    /// Creates a window with the identifier `id`: visible no, resizable,
    /// closable and minimizable yes, 800 by 600, at least 32 by 32, unbounded
    /// above, with an empty title, and queues the calls that configure it and
    /// center it on the screen.
    pub fn new(id: u64) -> (r: WindowRef)
        ensures
            r.window_id() == id,
            r@ == initial_window_state(),
            r.pending() == initial_commands(),
    {
        let mut w = WindowRef {
            id,
            visible: false,
            minimizable: false,
            resizable: false,
            closable: false,
            position: Point { x: 0, y: 0 },
            position_known: false,
            size: Size { width: 0, height: 0 },
            min_size: Size { width: 0, height: 0 },
            max_size: Size { width: 0, height: 0 },
            title: String::new(),
            commands: Vec::new(),
        };
        w.set_resizable(true);
        w.set_closable(true);
        w.set_minimizable(true);
        w.set_min_size(Size { width: 32, height: 32 });
        w.set_max_size(Size { width: u32::MAX, height: u32::MAX });
        w.set_size(Size { width: 800, height: 600 });
        w.set_location(Location::Center);
        assert(w.pending() =~= initial_commands());
        w
    }

    fn issue(&mut self, command: WindowCommand)
        ensures
            final(self).window_id() == old(self).window_id(),
            final(self).pending() == old(self).pending().push(command),
            final(self)@ == old(self)@,
    {
        self.commands.push(command);
    }

    /// The identifier the window was created with.
    pub fn id(&self) -> (r: u64)
        ensures
            r == self.window_id(),
    {
        self.id
    }

    /// Hands the pending native calls to the backend, oldest first.
    pub fn take_commands(&mut self) -> (r: Vec<WindowCommand>)
        ensures
            r@ == old(self).pending(),
            final(self).pending() == Seq::<WindowCommand>::empty(),
            final(self)@ == old(self)@,
            final(self).window_id() == old(self).window_id(),
    {
        let mut taken = Vec::new();
        std::mem::swap(&mut taken, &mut self.commands);
        taken
    }

    /// Records the frame the platform reports after it moved or resized the
    /// window; issues no call.
    pub fn sync_frame(&mut self, position: Point, size: Size)
        ensures
            final(self)@ == (WindowState { position: Some(position), size, ..old(self)@ }),
            final(self).pending() == old(self).pending(),
            final(self).window_id() == old(self).window_id(),
    {
        self.position = position;
        self.position_known = true;
        self.size = size;
    }

    pub fn visible(&self) -> (r: bool)
        ensures
            r == self@.visible,
    {
        self.visible
    }

    pub fn set_visible(&mut self, visible: bool)
        ensures
            WindowRef::issued(*old(self), *final(self), WindowCommand::SetVisible(visible)),
    {
        self.visible = visible;
        self.issue(WindowCommand::SetVisible(visible));
    }

    pub fn minimizable(&self) -> (r: bool)
        ensures
            r == self@.minimizable,
    {
        self.minimizable
    }

    pub fn set_minimizable(&mut self, minimizable: bool)
        ensures
            WindowRef::issued(*old(self), *final(self), WindowCommand::SetMinimizable(minimizable)),
    {
        self.minimizable = minimizable;
        self.issue(WindowCommand::SetMinimizable(minimizable));
    }

    pub fn resizable(&self) -> (r: bool)
        ensures
            r == self@.resizable,
    {
        self.resizable
    }

    pub fn set_resizable(&mut self, resizable: bool)
        ensures
            WindowRef::issued(*old(self), *final(self), WindowCommand::SetResizable(resizable)),
    {
        self.resizable = resizable;
        self.issue(WindowCommand::SetResizable(resizable));
    }

    pub fn closable(&self) -> (r: bool)
        ensures
            r == self@.closable,
    {
        self.closable
    }

    pub fn set_closable(&mut self, closable: bool)
        ensures
            WindowRef::issued(*old(self), *final(self), WindowCommand::SetClosable(closable)),
    {
        self.closable = closable;
        self.issue(WindowCommand::SetClosable(closable));
    }

    /// Moves the window to an exact position, or asks the platform to center
    /// it (the position is then known once the platform reports it).
    pub fn set_location(&mut self, location: Location)
        ensures
            WindowRef::issued(
                *old(self),
                *final(self),
                WindowCommand::SetFrame(frame_request_spec(Some(location), None)),
            ),
    {
        let req = frame_request(Some(location), None);
        if let Some(p) = req.position {
            self.position = p;
            self.position_known = true;
        } else if req.center {
            self.position_known = false;
        }
        self.issue(WindowCommand::SetFrame(req));
    }

    /// The position, once it is known: set exactly, or reported by the
    /// platform with [`WindowRef::sync_frame`]. Where a new or centered
    /// window lands depends on its screen, so it is not known until the
    /// platform reports it, and nothing is promised of the result before.
    pub fn position(&self) -> (r: Point)
        ensures
            self@.position matches Some(p) ==> r == p,
    {
        self.position
    }

    pub fn set_size(&mut self, size: Size)
        ensures
            WindowRef::issued(
                *old(self),
                *final(self),
                WindowCommand::SetFrame(frame_request_spec(None, Some(size))),
            ),
    {
        let req = frame_request(None, Some(size));
        self.size = size;
        self.issue(WindowCommand::SetFrame(req));
    }

    pub fn size(&self) -> (r: Size)
        ensures
            r == self@.size,
    {
        self.size
    }

    pub fn set_min_size(&mut self, size: Size)
        ensures
            WindowRef::issued(*old(self), *final(self), WindowCommand::SetMinSize(size)),
    {
        self.min_size = size;
        self.issue(WindowCommand::SetMinSize(size));
    }

    pub fn min_size(&self) -> (r: Size)
        ensures
            r == self@.min_size,
    {
        self.min_size
    }

    pub fn set_max_size(&mut self, size: Size)
        ensures
            WindowRef::issued(*old(self), *final(self), WindowCommand::SetMaxSize(size)),
    {
        self.max_size = size;
        self.issue(WindowCommand::SetMaxSize(size));
    }

    pub fn max_size(&self) -> (r: Size)
        ensures
            r == self@.max_size,
    {
        self.max_size
    }

    pub fn set_title(&mut self, title: &str)
        ensures
            final(self).window_id() == old(self).window_id(),
            final(self).pending().len() == old(self).pending().len() + 1,
            final(self).pending().drop_last() == old(self).pending(),
            final(self).pending().last() matches WindowCommand::SetTitle(t) && t@ == title@,
            final(self)@ == (WindowState { title: title@, ..old(self)@ }),
    {
        self.title = title.to_owned();
        self.issue(WindowCommand::SetTitle(title.to_owned()));
        assert(final(self).pending().drop_last() =~= old(self).pending());
    }

    pub fn title(&self) -> (r: String)
        ensures
            r@ == self@.title,
    {
        self.title.clone()
    }

    pub fn set_title_style(&mut self, title_style: TitleStyle)
        ensures
            WindowRef::issued(
                *old(self),
                *final(self),
                WindowCommand::SetTitleStyle(title_style_command_spec(title_style)),
            ),
    {
        let cmd = title_style_command(title_style);
        self.issue(WindowCommand::SetTitleStyle(cmd));
    }

    pub fn set_traffic_light_visible(&mut self, visible: bool)
        ensures
            WindowRef::issued(*old(self), *final(self), WindowCommand::SetTrafficLightVisible(visible)),
    {
        self.issue(WindowCommand::SetTrafficLightVisible(visible));
    }

    pub fn update_vibrancy(&mut self, update: VibrancyUpdate)
        ensures
            WindowRef::issued(
                *old(self),
                *final(self),
                WindowCommand::UpdateVibrancy(vibrancy_command_spec(update)),
            ),
    {
        let cmd = vibrancy_command(update);
        self.issue(WindowCommand::UpdateVibrancy(cmd));
    }
}

} // verus!

verus! {

/// Which window has the keyboard focus, by identifier.
#[derive(Debug)]
pub struct FocusTracker {
    focused: Option<u64>,
}

/// The focused window after window `window` reported `event`: a window that
/// gains the focus becomes the focused one; a window that loses it clears the
/// focus only if it was the focused one; other events change nothing.
pub open spec fn focus_after(focused: Option<u64>, window: u64, event: Event) -> Option<u64> {
    match event {
        Event::Focus => Some(window),
        Event::Blur => if focused == Some(window) {
            None
        } else {
            focused
        },
        _ => focused,
    }
}

impl FocusTracker {
    pub closed spec fn focused_window(&self) -> Option<u64> {
        self.focused
    }

    /// No window focused.
    pub fn new() -> (r: Self)
        ensures
            r.focused_window() is None,
    {
        FocusTracker { focused: None }
    }

    /// The identifier of the focused window, if any.
    pub fn focused(&self) -> (r: Option<u64>)
        ensures
            r == self.focused_window(),
    {
        self.focused
    }

    /// Records that window `window` reported `event`.
    pub fn handle_event(&mut self, window: u64, event: Event)
        ensures
            final(self).focused_window() == focus_after(old(self).focused_window(), window, event),
    {
        match event {
            Event::Focus => {
                self.focused = Some(window);
            },
            Event::Blur => {
                if self.focused == Some(window) {
                    self.focused = None;
                }
            },
            _ => {},
        }
    }
}

impl WindowRef {
    /// Passes an event of this window to the focus tracker.
    pub fn handle_event(&self, focus: &mut FocusTracker, event: Event)
        ensures
            final(focus).focused_window() == focus_after(
                old(focus).focused_window(),
                self.window_id(),
                event,
            ),
    {
        focus.handle_event(self.id, event);
    }
}

/// A window with an event callback and an auto-hide switch: with auto-hide
/// on, closing the window hides it instead.
pub struct Window<F> {
    win_ref: WindowRef,
    auto_hide: bool,
    handle_event_fn: FnCell<F>,
}

impl<F> Window<F> {
    pub closed spec fn win(&self) -> WindowRef {
        self.win_ref
    }

    pub closed spec fn auto_hide_on(&self) -> bool {
        self.auto_hide
    }

    pub closed spec fn handler(&self) -> Option<F> {
        self.handle_event_fn.callback()
    }

    /// How many events have been passed to an event callback of this window.
    pub closed spec fn callback_calls(&self) -> nat {
        self.handle_event_fn.deliveries()
    }

    /// Whether the event callback accepts being called with `w` and `event`.
    pub open spec fn handler_accepts(&self, w: &WindowRef, event: Event) -> bool
        where F: Fn(&WindowRef, Event)
    {
        match self.handler() {
            None => true,
            Some(f) => call_requires(f, (w, event)),
        }
    }

    /// A new window with identifier `id` (see [`WindowRef::new`]), auto-hide
    /// off and no event callback.
    pub fn new(id: u64) -> (r: Self)
        ensures
            r.win().window_id() == id,
            r.win()@ == initial_window_state(),
            r.win().pending() == initial_commands(),
            !r.auto_hide_on(),
            r.handler() is None,
            r.callback_calls() == 0,
    {
        Window { win_ref: WindowRef::new(id), auto_hide: false, handle_event_fn: FnCell::new() }
    }

    /// The window's properties.
    pub fn window(&self) -> (r: &WindowRef)
        ensures
            *r == self.win(),
    {
        &self.win_ref
    }

    /// The window's properties, for changing them.
    pub fn window_mut(&mut self) -> (r: &mut WindowRef)
        ensures
            *r == old(self).win(),
            final(self).win() == *final(r),
            final(self).auto_hide_on() == old(self).auto_hide_on(),
            final(self).handler() == old(self).handler(),
            final(self).callback_calls() == old(self).callback_calls(),
    {
        &mut self.win_ref
    }

    /// Replaces the event callback.
    pub fn set_event_callback(&mut self, callback: F)
        ensures
            final(self).handler() == Some(callback),
            final(self).win() == old(self).win(),
            final(self).auto_hide_on() == old(self).auto_hide_on(),
            final(self).callback_calls() == old(self).callback_calls(),
    {
        self.handle_event_fn.update(callback);
    }

    pub fn set_auto_hide(&mut self, auto_hide: bool)
        ensures
            final(self).auto_hide_on() == auto_hide,
            final(self).win() == old(self).win(),
            final(self).handler() == old(self).handler(),
            final(self).callback_calls() == old(self).callback_calls(),
    {
        self.auto_hide = auto_hide;
    }

    pub fn auto_hide(&self) -> (r: bool)
        ensures
            r == self.auto_hide_on(),
    {
        self.auto_hide
    }

    /// Handles an event that the native window reported: updates the focus,
    /// hides the window when it is closed with auto-hide on, then calls the
    /// event callback, once, with the window as it is then.
    pub fn handle_event(&mut self, focus: &mut FocusTracker, event: Event)
        where F: Fn(&WindowRef, Event)
        requires
            forall|w: WindowRef| #[trigger] old(self).handler_accepts(&w, event),
        ensures
            final(focus).focused_window() == focus_after(
                old(focus).focused_window(),
                old(self).win().window_id(),
                event,
            ),
            if event == Event::Close && old(self).auto_hide_on() {
                WindowRef::issued(old(self).win(), final(self).win(), WindowCommand::SetVisible(false))
            } else {
                final(self).win() == old(self).win()
            },
            final(self).win()@ == window_after_event(
                old(self).win()@,
                old(self).auto_hide_on(),
                event,
            ),
            final(self).auto_hide_on() == old(self).auto_hide_on(),
            final(self).handler() == old(self).handler(),
            final(self).handler() matches Some(f) ==> call_ensures(f, (&final(self).win(), event), ()),
            final(self).callback_calls() == old(self).callback_calls() + if old(self).handler() is Some {
                1nat
            } else {
                0nat
            },
    {
        self.win_ref.handle_event(focus, event);
        if event == Event::Close && self.auto_hide {
            self.win_ref.set_visible(false);
        }
        assert(old(self).handler_accepts(&self.win_ref, event));
        self.handle_event_fn.call(&self.win_ref, event);
    }
}

} // verus!

verus! {

/// Every setter of a readable property reads back the value it set: the
/// state after the command holds that value.
pub proof fn lemma_window_read_back(s: WindowState, b: bool, size: Size, p: Point, title: String)
    ensures
        s.after(WindowCommand::SetVisible(b)).visible == b,
        s.after(WindowCommand::SetMinimizable(b)).minimizable == b,
        s.after(WindowCommand::SetResizable(b)).resizable == b,
        s.after(WindowCommand::SetClosable(b)).closable == b,
        s.after(WindowCommand::SetFrame(frame_request_spec(None, Some(size)))).size == size,
        s.after(
            WindowCommand::SetFrame(frame_request_spec(Some(Location::Exact(p)), None)),
        ).position == Some(p),
        s.after(WindowCommand::SetMinSize(size)).min_size == size,
        s.after(WindowCommand::SetMaxSize(size)).max_size == size,
        s.after(WindowCommand::SetTitle(title)).title == title@,
{
}

/// Resizing a window leaves its position as it was, and moving it (to an
/// exact position or to the center) leaves its size as it was.
pub proof fn lemma_frame_changes_independent(s: WindowState, size: Size, location: Location)
    ensures
        s.after(WindowCommand::SetFrame(frame_request_spec(None, Some(size)))).position
            == s.position,
        s.after(WindowCommand::SetFrame(frame_request_spec(Some(location), None))).size == s.size,
{
}

/// Issuing the same command twice leaves the window as issuing it once.
pub proof fn lemma_command_idempotent(s: WindowState, c: WindowCommand)
    ensures
        s.after(c).after(c) == s.after(c),
{
}

/// A window that gains the focus is the focused one; a window that loses the
/// focus leaves no window focused if it had it, and leaves the focus as it was
/// otherwise; moving, resizing and closing change no focus.
pub proof fn lemma_focus_rules(focused: Option<u64>, w: u64, other: u64)
    requires
        w != other,
    ensures
        focus_after(focused, w, Event::Focus) == Some(w),
        focus_after(focus_after(focused, w, Event::Focus), w, Event::Blur) is None,
        focus_after(focus_after(focused, w, Event::Focus), other, Event::Blur) == Some(w),
        focus_after(focused, w, Event::Move) == focused,
        focus_after(focused, w, Event::Resize) == focused,
        focus_after(focused, w, Event::Close) == focused,
{
}

} // verus!

verus! {

impl<F> core::ops::Deref for Window<F> {
    type Target = WindowRef;

    fn deref(&self) -> (r: &WindowRef)
        ensures
            *r == self.win(),
    {
        &self.win_ref
    }
}

} // verus!

verus! {

impl FocusTracker {
    /// The first of `windows` whose identifier is the focused one, if any.
    pub fn focused_window_in<'a>(&self, windows: &'a Vec<WindowRef>) -> (r: Option<&'a WindowRef>)
        ensures
            match r {
                Some(w) => self.focused_window() == Some(w.window_id()) && exists|i: int|
                    0 <= i < windows@.len() && windows@[i] == *w && forall|j: int|
                        0 <= j < i ==> #[trigger] windows@[j].window_id() != w.window_id(),
                None => self.focused_window() is None || forall|i: int|
                    0 <= i < windows@.len() ==> #[trigger] windows@[i].window_id()
                        != self.focused_window()->0,
            },
    {
        let id = match self.focused {
            None => return None,
            Some(id) => id,
        };
        let mut i: usize = 0;
        while i < windows.len()
            invariant
                i <= windows@.len(),
                self.focused_window() == Some(id),
                forall|j: int| 0 <= j < i ==> #[trigger] windows@[j].window_id() != id,
            decreases windows@.len() - i,
        {
            if windows[i].id() == id {
                return Some(&windows[i]);
            }
            i += 1;
        }
        None
    }

    /// Calls `func` with the focused window among `windows`, if any, and
    /// returns what it returns.
    pub fn with_focused_window<T, G: FnOnce(Option<&WindowRef>) -> T>(
        &self,
        windows: &Vec<WindowRef>,
        func: G,
    ) -> (r: T)
        requires
            forall|w: Option<&WindowRef>| call_requires(func, (w,)),
        ensures
            match self.focused_window() {
                Some(id) => if exists|i: int| 0 <= i < windows@.len() && #[trigger] windows@[i].window_id() == id {
                    exists|i: int|
                        0 <= i < windows@.len() && #[trigger] windows@[i].window_id() == id && (forall|j: int|
                            0 <= j < i ==> #[trigger] windows@[j].window_id() != id) && call_ensures(
                            func,
                            (Some(&windows@[i]),),
                            r,
                        )
                } else {
                    call_ensures(func, (None,), r)
                },
                None => call_ensures(func, (None,), r),
            },
    {
        let w = self.focused_window_in(windows);
        func(w)
    }
}

} // verus!

verus! {

/// A readable property of a window.
#[derive(Clone, Copy, Debug, PartialEq, Eq, Structural)]
pub enum WindowProperty {
    Visible,
    Minimizable,
    Resizable,
    Closable,
    Position,
    Size,
    MinSize,
    MaxSize,
    Title,
}

/// The readable properties a command changes.
pub open spec fn touches(c: WindowCommand) -> Set<WindowProperty> {
    match c {
        WindowCommand::SetVisible(_) => set![WindowProperty::Visible],
        WindowCommand::SetMinimizable(_) => set![WindowProperty::Minimizable],
        WindowCommand::SetResizable(_) => set![WindowProperty::Resizable],
        WindowCommand::SetClosable(_) => set![WindowProperty::Closable],
        WindowCommand::SetFrame(req) => {
            let p = if req.position is Some || req.center {
                set![WindowProperty::Position]
            } else {
                Set::empty()
            };
            let s = if req.size is Some {
                set![WindowProperty::Size]
            } else {
                Set::empty()
            };
            p + s
        },
        WindowCommand::SetMinSize(_) => set![WindowProperty::MinSize],
        WindowCommand::SetMaxSize(_) => set![WindowProperty::MaxSize],
        WindowCommand::SetTitle(_) => set![WindowProperty::Title],
        _ => Set::empty(),
    }
}

/// Commands that change different properties can be issued in either order
/// with the same result.
pub proof fn lemma_independent_commands_commute(s: WindowState, c1: WindowCommand, c2: WindowCommand)
    requires
        touches(c1).disjoint(touches(c2)),
    ensures
        s.after(c1).after(c2) == s.after(c2).after(c1),
{
    match (c1, c2) {
        (WindowCommand::SetFrame(r1), WindowCommand::SetFrame(r2)) => {
            if (r1.position is Some || r1.center) && (r2.position is Some || r2.center) {
                assert(touches(c1).contains(WindowProperty::Position));
                assert(touches(c2).contains(WindowProperty::Position));
            }
            if r1.size is Some && r2.size is Some {
                assert(touches(c1).contains(WindowProperty::Size));
                assert(touches(c2).contains(WindowProperty::Size));
            }
        },
        _ => {
            lemma_touches_own_property(c1);
            lemma_touches_own_property(c2);
        },
    }
}

proof fn lemma_touches_own_property(c: WindowCommand)
    ensures
        c is SetVisible ==> touches(c).contains(WindowProperty::Visible),
        c is SetMinimizable ==> touches(c).contains(WindowProperty::Minimizable),
        c is SetResizable ==> touches(c).contains(WindowProperty::Resizable),
        c is SetClosable ==> touches(c).contains(WindowProperty::Closable),
        c is SetMinSize ==> touches(c).contains(WindowProperty::MinSize),
        c is SetMaxSize ==> touches(c).contains(WindowProperty::MaxSize),
        c is SetTitle ==> touches(c).contains(WindowProperty::Title),
{
}

} // verus!

verus! {

/// The state of a window after it handled `event`: closing a window with
/// auto-hide on hides it; nothing else changes it.
pub open spec fn window_after_event(s: WindowState, auto_hide: bool, event: Event) -> WindowState {
    if event == Event::Close && auto_hide {
        s.after(WindowCommand::SetVisible(false))
    } else {
        s
    }
}

/// How a window handles the events of its native counterpart, before its
/// event callback sees them. A new window has auto-hide off, so no event
/// changes its state; with auto-hide on, closing hides it and other events
/// change nothing. Focus gives the window the focus; blur takes it away only
/// from the focused window; other events leave the focus alone.
pub proof fn lemma_window_event_rules(s: WindowState, id: u64, other: u64, focused: Option<u64>)
    requires
        id != other,
    ensures
        forall|e: Event| #[trigger] window_after_event(initial_window_state(), false, e)
            == initial_window_state(),
        window_after_event(s, true, Event::Close) == (WindowState { visible: false, ..s }),
        forall|e: Event| e != Event::Close ==> #[trigger] window_after_event(s, true, e) == s,
        forall|e: Event| #[trigger] window_after_event(s, false, e) == s,
        focus_after(focused, id, Event::Focus) == Some(id),
        focus_after(Some(id), id, Event::Blur) is None,
        focus_after(Some(id), other, Event::Blur) == Some(id),
        forall|e: Event|
            e != Event::Focus && e != Event::Blur ==> #[trigger] focus_after(focused, id, e)
                == focused,
{
}

} // verus!

verus! {

/// Asking the platform to center a window leaves its position unknown until
/// the platform reports it; a reported frame is then what the window holds.
pub proof fn lemma_centering_forgets_position(s: WindowState, p: Point, size: Size)
    ensures
        s.after(WindowCommand::SetFrame(frame_request_spec(Some(Location::Center), None))).position
            is None,
        (WindowState { position: Some(p), size, ..s }).position == Some(p),
{
}

/// Hands out window identifiers, each at most once.
#[derive(Debug)]
pub struct WindowIds {
    next: u64,
}

impl WindowIds {
    /// The identifiers handed out so far.
    pub closed spec fn issued(&self) -> Set<u64> {
        Set::new(|i: u64| i < self.next)
    }

    /// Whether every identifier has been handed out.
    pub closed spec fn exhausted(&self) -> bool {
        self.next == u64::MAX
    }

    /// No identifier handed out yet.
    pub fn new() -> (r: Self)
        ensures
            r.issued() == Set::<u64>::empty(),
            !r.exhausted(),
    {
        let r = WindowIds { next: 0 };
        assert(r.issued() =~= Set::<u64>::empty());
        r
    }

    /// A fresh identifier, one not handed out before; none once they are
    /// all used up.
    pub fn allocate(&mut self) -> (r: Option<u64>)
        ensures
            match r {
                Some(id) => !old(self).issued().contains(id) && final(self).issued() == old(
                    self,
                ).issued().insert(id),
                None => old(self).exhausted() && final(self).issued() == old(self).issued(),
            },
    {
        if self.next == u64::MAX {
            None
        } else {
            let id = self.next;
            self.next = self.next + 1;
            assert(final(self).issued() =~= old(self).issued().insert(id));
            Some(id)
        }
    }
}

/// Identifiers from the same allocator differ: one handed out is never
/// handed out again.
pub proof fn lemma_ids_unique(before: Set<u64>, after: Set<u64>, id: u64, earlier: u64)
    requires
        !before.contains(id),
        after == before.insert(id),
        before.contains(earlier),
    ensures
        id != earlier,
        after.contains(id),
        after.contains(earlier),
{
}

impl FocusTracker {
    /// The first position in `ids` of the focused window, if any.
    pub fn focused_index(&self, ids: &Vec<u64>) -> (r: Option<usize>)
        ensures
            match r {
                Some(i) => i < ids@.len() && self.focused_window() == Some(ids@[i as int])
                    && forall|j: int| 0 <= j < i ==> ids@[j] != ids@[i as int],
                None => self.focused_window() is None || !ids@.contains(
                    self.focused_window()->0,
                ),
            },
    {
        let id = match self.focused {
            None => return None,
            Some(id) => id,
        };
        let mut i: usize = 0;
        while i < ids.len()
            invariant
                i <= ids@.len(),
                self.focused_window() == Some(id),
                forall|j: int| 0 <= j < i ==> ids@[j] != id,
            decreases ids@.len() - i,
        {
            if ids[i] == id {
                return Some(i);
            }
            i += 1;
        }
        None
    }
}

} // verus!
