//! Touch input delivered as window messages: the configuration, the state
//! kept between touches, and the decisions of a touch-down as a step
//! function whose actions the caller carries out against the window system.
use vstd::prelude::*;
use crate::input_utils::{Contact, activation_of, mouse_down_message_of, mouse_move_message_of};
use crate::win32::{SWP_NOACTIVATE, SWP_NOSIZE, SWP_NOZORDER};
use crate::window::{Delivery, DeliveryMethod, Point, Rect, WindowHandle};
use crate::winuser::{lparam_of, make_lparam};

verus! {

/// How messages reach the window.
#[derive(Clone, Copy, Debug, PartialEq, Eq, Structural)]
pub enum Mode {
    SendMessage,
    PostMessage,
}

/// The delivery method that a mode stands for.
pub open spec fn method_of(mode: Mode) -> DeliveryMethod {
    match mode {
        Mode::SendMessage => DeliveryMethod::Send,
        Mode::PostMessage => DeliveryMethod::Post,
    }
}

impl Mode {
    /// The delivery method that this mode stands for.
    pub fn delivery_method(&self) -> (r: DeliveryMethod)
        ensures
            r == method_of(*self),
    {
        match self {
            Mode::SendMessage => DeliveryMethod::Send,
            Mode::PostMessage => DeliveryMethod::Post,
        }
    }
}

/// How a `MessageInput` delivers its messages.
#[derive(Clone, Copy, Debug, PartialEq, Eq, Structural)]
pub struct Config {
    pub mode: Mode,
    /// Move the real cursor to the touch point (and save it first).
    pub with_cursor_pos: bool,
    /// Save the window position before the first touch.
    pub with_window_pos: bool,
    /// Block user input while touching.
    pub block_input: bool,
}

/// The default configuration: sent messages, nothing else.
pub open spec fn default_config() -> Config {
    Config { mode: Mode::SendMessage, with_cursor_pos: false, with_window_pos: false, block_input: false }
}

impl Default for Config {
    fn default() -> (r: Self)
        ensures
            r == default_config(),
            r.mode == Mode::SendMessage,
            !r.with_cursor_pos,
            !r.with_window_pos,
            !r.block_input,
    {
        Config { mode: Mode::SendMessage, with_cursor_pos: false, with_window_pos: false, block_input: false }
    }
}

/// A configuration that the touch logic handles: moving the window without
/// moving the cursor has no implementation.
pub open spec fn supported_config(config: Config) -> bool {
    !(config.with_window_pos && !config.with_cursor_pos)
}

/// What a `MessageInput` holds, as plain values.
#[derive(Clone, Copy, Debug)]
pub struct InputState {
    pub hwnd: WindowHandle,
    pub config: Config,
    /// Where the last touch went down.
    pub last_pos: Option<(i32, i32)>,
    /// The cursor position saved before moving the cursor.
    pub saved_cursor_pos: Option<Point>,
    /// The window rectangle saved before the first touch of a session.
    pub saved_window_rect: Option<Rect>,
}

/// Touch input into one window through window messages.
pub struct MessageInput {
    hwnd: WindowHandle,
    config: Config,
    last_pos: Option<(i32, i32)>,
    saved_cursor_pos: Option<Point>,
    saved_window_rect: Option<Rect>,
}

impl Default for MessageInput {
    /// An input for the null window with the default configuration, with
    /// nothing saved and no touch yet.
    fn default() -> (r: Self)
        ensures
            r@ == (InputState {
                hwnd: WindowHandle { raw: 0 },
                config: default_config(),
                last_pos: None,
                saved_cursor_pos: None,
                saved_window_rect: None,
            }),
    {
        MessageInput {
            hwnd: WindowHandle::null(),
            config: Config::default(),
            last_pos: None,
            saved_cursor_pos: None,
            saved_window_rect: None,
        }
    }
}

impl View for MessageInput {
    type V = InputState;

    closed spec fn view(&self) -> InputState {
        InputState {
            hwnd: self.hwnd,
            config: self.config,
            last_pos: self.last_pos,
            saved_cursor_pos: self.saved_cursor_pos,
            saved_window_rect: self.saved_window_rect,
        }
    }
}

/// Why a touch failed.
#[derive(Clone, Copy, Debug, PartialEq, Eq, Structural)]
pub enum InputError {
    /// The target window is null or no longer a window.
    InvalidTarget,
    /// `PostMessageW` reported a failure.
    DeliveryFailed,
}

/// The pause between the move and the press of a touch, in milliseconds.
pub const TOUCH_PAUSE_MS: u64 = 10;

/// The pause after moving the real cursor, in milliseconds.
pub const CURSOR_PAUSE_MS: u64 = 1;

/// The flags with which a saved window position is restored.
pub const RESTORE_WINDOW_FLAGS: u32 = SWP_NOSIZE | SWP_NOZORDER | SWP_NOACTIVATE;

impl MessageInput {
    /// An input for the given window, with nothing saved and no touch yet.
    pub fn new(hwnd: WindowHandle, config: Config) -> (r: MessageInput)
        ensures
            r@ == (InputState {
                hwnd,
                config,
                last_pos: None,
                saved_cursor_pos: None,
                saved_window_rect: None,
            }),
    {
        MessageInput { hwnd, config, last_pos: None, saved_cursor_pos: None, saved_window_rect: None }
    }

    /// The window that the input goes to.
    pub fn hwnd(&self) -> (r: WindowHandle)
        ensures
            r == self@.hwnd,
    {
        self.hwnd
    }

    /// The configuration.
    pub fn config(&self) -> (r: Config)
        ensures
            r == self@.config,
    {
        self.config
    }

    /// Where the last touch went down.
    pub fn last_pos(&self) -> (r: Option<(i32, i32)>)
        ensures
            r == self@.last_pos,
    {
        self.last_pos
    }

    /// The saved cursor position.
    pub fn saved_cursor_pos(&self) -> (r: Option<Point>)
        ensures
            r == self@.saved_cursor_pos,
    {
        self.saved_cursor_pos
    }

    /// The saved window rectangle.
    pub fn saved_window_rect(&self) -> (r: Option<Rect>)
        ensures
            r == self@.saved_window_rect,
    {
        self.saved_window_rect
    }

    /// Whether input is blocked while touching, and so must be unblocked
    /// afterwards.
    pub fn blocks_input(&self) -> (r: bool)
        ensures
            r == self@.config.block_input,
    {
        self.config.block_input
    }

    /// Hands out the saved cursor position to put the cursor back, and
    /// forgets it.
    pub fn take_saved_cursor_pos(&mut self) -> (r: Option<Point>)
        ensures
            r == old(self)@.saved_cursor_pos,
            final(self)@ == (InputState { saved_cursor_pos: None, ..old(self)@ }),
    {
        let r = self.saved_cursor_pos;
        self.saved_cursor_pos = None;
        r
    }

    /// Hands out the saved window rectangle to put the window back, and
    /// forgets it; for a null window nothing is handed out or forgotten.
    pub fn take_saved_window_rect(&mut self) -> (r: Option<Rect>)
        ensures
            old(self)@.hwnd.spec_is_invalid() ==> r is None && final(self)@ == old(self)@,
            !old(self)@.hwnd.spec_is_invalid() ==> r == old(self)@.saved_window_rect && final(self)@
                == (InputState { saved_window_rect: None, ..old(self)@ }),
    {
        if self.hwnd.is_invalid() {
            return None;
        }
        let r = self.saved_window_rect;
        self.saved_window_rect = None;
        r
    }

    /// The `LPARAM` of a mouse message for `target`: the point itself when
    /// the target is this window; otherwise the point converted from this
    /// window's client area to the target's (`converted`, which is `None`
    /// when either conversion failed), falling back to the point itself.
    pub fn make_mouse_lparam(&self, target: WindowHandle, x: i32, y: i32, converted: Option<Point>) -> (r: isize)
        ensures
            r == (if target == self@.hwnd || converted is None {
                lparam_of(x, y)
            } else {
                lparam_of(converted->0.x, converted->0.y)
            }),
    {
        if target == self.hwnd {
            return make_lparam(x, y);
        }
        match converted {
            Some(pt) => make_lparam(pt.x, pt.y),
            None => make_lparam(x, y),
        }
    }
}

/// Where a saved window goes back to: its saved top-left corner, or the
/// origin when that rectangle lies on no monitor.
pub open spec fn restore_origin_of(rect: Rect, on_monitor: bool) -> Point {
    if on_monitor {
        Point { x: rect.left, y: rect.top }
    } else {
        Point { x: 0, y: 0 }
    }
}

/// Where a saved window goes back to; `on_monitor` tells whether
/// `MonitorFromRect(rect, MONITOR_DEFAULTTONULL)` found a monitor.
pub fn window_restore_origin(rect: Rect, on_monitor: bool) -> (r: Point)
    ensures
        r == restore_origin_of(rect, on_monitor),
        on_monitor ==> r.x == rect.left && r.y == rect.top,
        !on_monitor ==> r.x == 0 && r.y == 0,
{
    if on_monitor {
        Point { x: rect.left, y: rect.top }
    } else {
        Point { x: 0, y: 0 }
    }
}

/// Where a touch-down stands.
#[derive(Clone, Copy, Debug, PartialEq, Eq, Structural)]
pub enum TouchStage {
    Start,
    AwaitRoot,
    AwaitPopup,
    AwaitPopupVisible { popup: WindowHandle },
    AwaitActivated,
    AwaitActivationPause,
    AwaitBlock,
    AwaitCursorPos,
    AwaitWindowRect,
    AwaitScreenPoint,
    AwaitCursorMoved,
    AwaitCursorPause,
    AwaitMoveTargetCheck,
    AwaitMoveDelivered,
    AwaitMovePause,
    AwaitDownTargetCheck,
    AwaitDownDelivered,
    Done,
}

/// What the caller reports back after carrying out an action.
#[derive(Clone, Copy, Debug, PartialEq, Eq, Structural)]
pub enum InputEvent {
    /// The action was carried out (or, at the start, nothing has been done yet).
    Completed,
    /// The window that a query returned.
    Handle(WindowHandle),
    /// The yes/no answer of a query, or whether a delivery succeeded.
    Answer(bool),
    /// The cursor position, or `None` when it could not be read.
    CursorAt(Option<Point>),
    /// The window rectangle, or `None` when it could not be read.
    WindowArea(Option<Rect>),
    /// The point after the client-to-screen conversion.
    Converted(Point),
}

/// The outside work that a touch-down asks for.
#[derive(Clone, Copy, Debug, PartialEq, Eq)]
pub enum InputAction {
    /// `GetAncestor(hwnd, GA_ROOTOWNER)`; report `Handle`.
    QueryRootOwner(WindowHandle),
    /// `GetLastActivePopup(root)`; report `Handle`.
    QueryLastActivePopup(WindowHandle),
    /// `IsWindowVisible(popup)`; report `Answer`.
    QueryVisible(WindowHandle),
    /// Send or post the message; report `Answer` (whether posting succeeded;
    /// a sent message always reports `true`).
    Deliver(Delivery),
    /// Pause for the given number of milliseconds; report `Completed`.
    Sleep(u64),
    /// `BlockInput(block)`; report `Completed`.
    BlockInput(bool),
    /// `GetCursorPos`; report `CursorAt`.
    QueryCursorPos,
    /// `GetWindowRect(hwnd)`; report `WindowArea`.
    QueryWindowRect(WindowHandle),
    /// `ClientToScreen(hwnd, &mut point)`; report `Converted` with the point
    /// as the call left it.
    ClientToScreen(WindowHandle, Point),
    /// `SetCursorPos(x, y)`; report `Completed`.
    SetCursorPos(Point),
    /// `IsWindow(hwnd)`; report `Answer`.
    QueryIsWindow(WindowHandle),
    /// The touch-down is over, with this outcome.
    Finish(Result<(), InputError>),
}

/// A touch-down of `contact` at client point (`x`, `y`), in progress: find
/// the window that is active on behalf of the input's window (its last
/// active visible popup, if any), tell the input's window that it is
/// activated, block input and save positions as configured, move the cursor
/// there when so configured, then deliver the contact's move message and,
/// after a pause, its press message, both carrying the point; on success
/// the point becomes the last position.
#[derive(Clone, Copy, Debug, PartialEq, Eq, Structural)]
pub struct TouchDownTask {
    pub contact: Contact,
    pub x: i32,
    pub y: i32,
    pub target: WindowHandle,
    pub stage: TouchStage,
}

/// The result of one step: the task, the input's state and the action.
pub type TouchStep = (TouchDownTask, InputState, InputAction);

/// Whether the event is the kind of report that the stage waits for.
pub open spec fn touch_accepts(stage: TouchStage, event: InputEvent) -> bool {
    match stage {
        TouchStage::AwaitRoot | TouchStage::AwaitPopup => event is Handle,
        TouchStage::AwaitPopupVisible { .. } => event is Answer,
        TouchStage::AwaitActivated => event is Answer,
        TouchStage::AwaitCursorPos => event is CursorAt,
        TouchStage::AwaitWindowRect => event is WindowArea,
        TouchStage::AwaitScreenPoint => event is Converted,
        TouchStage::AwaitMoveTargetCheck | TouchStage::AwaitMoveDelivered => event is Answer,
        TouchStage::AwaitDownTargetCheck | TouchStage::AwaitDownDelivered => event is Answer,
        TouchStage::Done => false,
        _ => event is Completed,
    }
}

/// The message of one half of the touch: the contact's move message or its
/// press message, to the target, carrying the touch point.
pub open spec fn touch_delivery(t: TouchDownTask, s: InputState, press: bool) -> Delivery {
    let info = if press { mouse_down_message_of(t.contact) } else { mouse_move_message_of(t.contact) };
    Delivery {
        method: method_of(s.config.mode),
        target: t.target,
        message: info.message,
        w_param: info.w_param,
        l_param: lparam_of(t.x, t.y),
    }
}

/// Delivering the move (or press) message: a null target fails at once,
/// else ask whether the target is still a window.
pub open spec fn touch_go_send(t: TouchDownTask, s: InputState, press: bool) -> TouchStep {
    if t.target.spec_is_invalid() {
        (TouchDownTask { stage: TouchStage::Done, ..t }, s, InputAction::Finish(Err(InputError::InvalidTarget)))
    } else if press {
        (TouchDownTask { stage: TouchStage::AwaitDownTargetCheck, ..t }, s, InputAction::QueryIsWindow(t.target))
    } else {
        (TouchDownTask { stage: TouchStage::AwaitMoveTargetCheck, ..t }, s, InputAction::QueryIsWindow(t.target))
    }
}

/// Placing the cursor: with cursor moving on, convert the point to screen
/// coordinates (for a non-null window) and move the cursor there; else go
/// straight to the move message.
pub open spec fn touch_go_prepare(t: TouchDownTask, s: InputState) -> TouchStep {
    if s.config.with_cursor_pos {
        if !s.hwnd.spec_is_invalid() {
            (
                TouchDownTask { stage: TouchStage::AwaitScreenPoint, ..t },
                s,
                InputAction::ClientToScreen(s.hwnd, Point { x: t.x, y: t.y }),
            )
        } else {
            (
                TouchDownTask { stage: TouchStage::AwaitCursorMoved, ..t },
                s,
                InputAction::SetCursorPos(Point { x: t.x, y: t.y }),
            )
        }
    } else {
        touch_go_send(t, s, false)
    }
}

/// Saving the window position: only with window saving on, for a non-null
/// window, and when no position is saved yet.
pub open spec fn touch_go_save_window(t: TouchDownTask, s: InputState) -> TouchStep {
    if s.config.with_window_pos && !s.hwnd.spec_is_invalid() && s.saved_window_rect is None {
        (TouchDownTask { stage: TouchStage::AwaitWindowRect, ..t }, s, InputAction::QueryWindowRect(s.hwnd))
    } else {
        touch_go_prepare(t, s)
    }
}

/// Saving positions: the cursor first when cursor moving is on.
pub open spec fn touch_go_save(t: TouchDownTask, s: InputState) -> TouchStep {
    if s.config.with_cursor_pos {
        (TouchDownTask { stage: TouchStage::AwaitCursorPos, ..t }, s, InputAction::QueryCursorPos)
    } else {
        touch_go_save_window(t, s)
    }
}

/// Blocking input, when so configured.
pub open spec fn touch_go_block(t: TouchDownTask, s: InputState) -> TouchStep {
    if s.config.block_input {
        (TouchDownTask { stage: TouchStage::AwaitBlock, ..t }, s, InputAction::BlockInput(true))
    } else {
        touch_go_save(t, s)
    }
}

/// Activating the input's window (not the target), unless it is null.
pub open spec fn touch_go_activate(t: TouchDownTask, s: InputState) -> TouchStep {
    if s.hwnd.spec_is_invalid() {
        touch_go_block(t, s)
    } else {
        (
            TouchDownTask { stage: TouchStage::AwaitActivated, ..t },
            s,
            InputAction::Deliver(activation_of(s.hwnd, s.config.mode is PostMessage)),
        )
    }
}

/// Whether a delivery report ends the touch with a failure: only a failed
/// post does.
pub open spec fn delivery_failed(s: InputState, ok: bool) -> bool {
    s.config.mode is PostMessage && !ok
}

/// One step of a touch-down.
pub open spec fn touch_next(t: TouchDownTask, s: InputState, e: InputEvent) -> TouchStep {
    match t.stage {
        TouchStage::Start => (TouchDownTask { stage: TouchStage::AwaitRoot, ..t }, s, InputAction::QueryRootOwner(s.hwnd)),
        TouchStage::AwaitRoot => match e {
            InputEvent::Handle(root) => if root.spec_is_invalid() {
                touch_go_activate(TouchDownTask { target: s.hwnd, ..t }, s)
            } else {
                (TouchDownTask { stage: TouchStage::AwaitPopup, ..t }, s, InputAction::QueryLastActivePopup(root))
            },
            _ => touch_go_activate(TouchDownTask { target: s.hwnd, ..t }, s),
        },
        TouchStage::AwaitPopup => match e {
            InputEvent::Handle(popup) => if !popup.spec_is_invalid() && popup != s.hwnd {
                (TouchDownTask { stage: TouchStage::AwaitPopupVisible { popup }, ..t }, s, InputAction::QueryVisible(popup))
            } else {
                touch_go_activate(TouchDownTask { target: s.hwnd, ..t }, s)
            },
            _ => touch_go_activate(TouchDownTask { target: s.hwnd, ..t }, s),
        },
        TouchStage::AwaitPopupVisible { popup } => match e {
            InputEvent::Answer(visible) => touch_go_activate(
                TouchDownTask { target: if visible { popup } else { s.hwnd }, ..t },
                s,
            ),
            _ => touch_go_activate(TouchDownTask { target: s.hwnd, ..t }, s),
        },
        TouchStage::AwaitActivated => (
            TouchDownTask { stage: TouchStage::AwaitActivationPause, ..t },
            s,
            InputAction::Sleep(10),
        ),
        TouchStage::AwaitActivationPause => touch_go_block(t, s),
        TouchStage::AwaitBlock => touch_go_save(t, s),
        TouchStage::AwaitCursorPos => match e {
            InputEvent::CursorAt(Some(p)) => touch_go_save_window(t, InputState { saved_cursor_pos: Some(p), ..s }),
            _ => touch_go_prepare(t, s),
        },
        TouchStage::AwaitWindowRect => match e {
            InputEvent::WindowArea(Some(r)) => if s.saved_window_rect is None {
                touch_go_prepare(t, InputState { saved_window_rect: Some(r), ..s })
            } else {
                touch_go_prepare(t, s)
            },
            _ => touch_go_prepare(t, s),
        },
        TouchStage::AwaitScreenPoint => match e {
            InputEvent::Converted(p) => (
                TouchDownTask { stage: TouchStage::AwaitCursorMoved, ..t },
                s,
                InputAction::SetCursorPos(p),
            ),
            _ => (
                TouchDownTask { stage: TouchStage::AwaitCursorMoved, ..t },
                s,
                InputAction::SetCursorPos(Point { x: t.x, y: t.y }),
            ),
        },
        TouchStage::AwaitCursorMoved => (
            TouchDownTask { stage: TouchStage::AwaitCursorPause, ..t },
            s,
            InputAction::Sleep(1),
        ),
        TouchStage::AwaitCursorPause => touch_go_send(t, s, false),
        TouchStage::AwaitMoveTargetCheck => if e == InputEvent::Answer(true) {
            (
                TouchDownTask { stage: TouchStage::AwaitMoveDelivered, ..t },
                s,
                InputAction::Deliver(touch_delivery(t, s, false)),
            )
        } else {
            (TouchDownTask { stage: TouchStage::Done, ..t }, s, InputAction::Finish(Err(InputError::InvalidTarget)))
        },
        TouchStage::AwaitMoveDelivered => if delivery_failed(s, e == InputEvent::Answer(true)) {
            (TouchDownTask { stage: TouchStage::Done, ..t }, s, InputAction::Finish(Err(InputError::DeliveryFailed)))
        } else {
            (TouchDownTask { stage: TouchStage::AwaitMovePause, ..t }, s, InputAction::Sleep(10))
        },
        TouchStage::AwaitMovePause => touch_go_send(t, s, true),
        TouchStage::AwaitDownTargetCheck => if e == InputEvent::Answer(true) {
            (
                TouchDownTask { stage: TouchStage::AwaitDownDelivered, ..t },
                s,
                InputAction::Deliver(touch_delivery(t, s, true)),
            )
        } else {
            (TouchDownTask { stage: TouchStage::Done, ..t }, s, InputAction::Finish(Err(InputError::InvalidTarget)))
        },
        TouchStage::AwaitDownDelivered => if delivery_failed(s, e == InputEvent::Answer(true)) {
            (TouchDownTask { stage: TouchStage::Done, ..t }, s, InputAction::Finish(Err(InputError::DeliveryFailed)))
        } else {
            (
                TouchDownTask { stage: TouchStage::Done, ..t },
                InputState { last_pos: Some((t.x, t.y)), ..s },
                InputAction::Finish(Ok(())),
            )
        },
        TouchStage::Done => (t, s, InputAction::Finish(Ok(()))),
    }
}

/// How many steps at most remain before a touch-down finishes.
pub open spec fn touch_steps_left(stage: TouchStage) -> nat {
    match stage {
        TouchStage::Start => 20,
        TouchStage::AwaitRoot => 19,
        TouchStage::AwaitPopup => 18,
        TouchStage::AwaitPopupVisible { .. } => 17,
        TouchStage::AwaitActivated => 16,
        TouchStage::AwaitActivationPause => 15,
        TouchStage::AwaitBlock => 14,
        TouchStage::AwaitCursorPos => 13,
        TouchStage::AwaitWindowRect => 12,
        TouchStage::AwaitScreenPoint => 11,
        TouchStage::AwaitCursorMoved => 10,
        TouchStage::AwaitCursorPause => 9,
        TouchStage::AwaitMoveTargetCheck => 8,
        TouchStage::AwaitMoveDelivered => 7,
        TouchStage::AwaitMovePause => 6,
        TouchStage::AwaitDownTargetCheck => 5,
        TouchStage::AwaitDownDelivered => 4,
        TouchStage::Done => 0,
    }
}

fn go_send(t: TouchDownTask, input: &MessageInput, press: bool) -> (r: (TouchDownTask, InputAction))
    ensures
        (r.0, input@, r.1) == touch_go_send(t, input@, press),
{
    if t.target.is_invalid() {
        (TouchDownTask { stage: TouchStage::Done, ..t }, InputAction::Finish(Err(InputError::InvalidTarget)))
    } else if press {
        (TouchDownTask { stage: TouchStage::AwaitDownTargetCheck, ..t }, InputAction::QueryIsWindow(t.target))
    } else {
        (TouchDownTask { stage: TouchStage::AwaitMoveTargetCheck, ..t }, InputAction::QueryIsWindow(t.target))
    }
}

fn go_prepare(t: TouchDownTask, input: &MessageInput) -> (r: (TouchDownTask, InputAction))
    ensures
        (r.0, input@, r.1) == touch_go_prepare(t, input@),
{
    if input.config.with_cursor_pos {
        if !input.hwnd.is_invalid() {
            (
                TouchDownTask { stage: TouchStage::AwaitScreenPoint, ..t },
                InputAction::ClientToScreen(input.hwnd, Point { x: t.x, y: t.y }),
            )
        } else {
            (TouchDownTask { stage: TouchStage::AwaitCursorMoved, ..t }, InputAction::SetCursorPos(Point { x: t.x, y: t.y }))
        }
    } else {
        go_send(t, input, false)
    }
}

fn go_save_window(t: TouchDownTask, input: &MessageInput) -> (r: (TouchDownTask, InputAction))
    ensures
        (r.0, input@, r.1) == touch_go_save_window(t, input@),
{
    if input.config.with_window_pos && !input.hwnd.is_invalid() && input.saved_window_rect.is_none() {
        (TouchDownTask { stage: TouchStage::AwaitWindowRect, ..t }, InputAction::QueryWindowRect(input.hwnd))
    } else {
        go_prepare(t, input)
    }
}

fn go_save(t: TouchDownTask, input: &MessageInput) -> (r: (TouchDownTask, InputAction))
    ensures
        (r.0, input@, r.1) == touch_go_save(t, input@),
{
    if input.config.with_cursor_pos {
        (TouchDownTask { stage: TouchStage::AwaitCursorPos, ..t }, InputAction::QueryCursorPos)
    } else {
        go_save_window(t, input)
    }
}

fn go_block(t: TouchDownTask, input: &MessageInput) -> (r: (TouchDownTask, InputAction))
    ensures
        (r.0, input@, r.1) == touch_go_block(t, input@),
{
    if input.config.block_input {
        (TouchDownTask { stage: TouchStage::AwaitBlock, ..t }, InputAction::BlockInput(true))
    } else {
        go_save(t, input)
    }
}

fn go_activate(t: TouchDownTask, input: &MessageInput) -> (r: (TouchDownTask, InputAction))
    ensures
        (r.0, input@, r.1) == touch_go_activate(t, input@),
{
    if input.hwnd.is_invalid() {
        go_block(t, input)
    } else {
        let use_post = match input.config.mode {
            Mode::PostMessage => true,
            Mode::SendMessage => false,
        };
        let method = if use_post { DeliveryMethod::Post } else { DeliveryMethod::Send };
        let d = Delivery {
            method,
            target: input.hwnd,
            message: crate::win32::WM_ACTIVATE,
            w_param: crate::win32::WA_ACTIVE as usize,
            l_param: 0,
        };
        (TouchDownTask { stage: TouchStage::AwaitActivated, ..t }, InputAction::Deliver(d))
    }
}

fn deliver_half(t: TouchDownTask, input: &MessageInput, press: bool) -> (d: Delivery)
    ensures
        d == touch_delivery(t, input@, press),
{
    let info = if press { t.contact.to_mouse_down_message() } else { t.contact.to_mouse_move_message() };
    Delivery {
        method: input.config.mode.delivery_method(),
        target: t.target,
        message: info.message,
        w_param: info.w_param,
        l_param: make_lparam(t.x, t.y),
    }
}

fn is_yes(e: InputEvent) -> (r: bool)
    ensures
        r == (e == InputEvent::Answer(true)),
{
    match e {
        InputEvent::Answer(b) => b,
        _ => false,
    }
}

impl TouchDownTask {
    /// A touch-down of `contact` at client point (`x`, `y`), before any step.
    pub fn new(contact: Contact, x: i32, y: i32) -> (t: TouchDownTask)
        ensures
            t.contact == contact,
            t.x == x,
            t.y == y,
            t.stage == TouchStage::Start,
    {
        TouchDownTask { contact, x, y, target: WindowHandle::null(), stage: TouchStage::Start }
    }

    /// Takes the report of the last action (`Completed` for the first step)
    /// and returns the next action; the caller carries it out and reports
    /// back, until the action is `Finish`.
    pub fn step(&mut self, input: &mut MessageInput, event: InputEvent) -> (action: InputAction)
        requires
            touch_accepts(old(self).stage, event),
            supported_config(old(input)@.config),
        ensures
            (*final(self), final(input)@, action) == touch_next(*old(self), old(input)@, event),
            final(input)@.hwnd == old(input)@.hwnd,
            final(input)@.config == old(input)@.config,
            final(self).contact == old(self).contact,
            final(self).x == old(self).x,
            final(self).y == old(self).y,
            final(input)@.last_pos != old(input)@.last_pos ==> action == InputAction::Finish(Ok(()))
                && final(input)@.last_pos == Some((old(self).x, old(self).y)),
            old(input)@.saved_window_rect is Some ==> final(input)@.saved_window_rect
                == old(input)@.saved_window_rect,
            action is Finish <==> final(self).stage is Done,
            !(action is Finish) ==> touch_steps_left(final(self).stage) < touch_steps_left(old(self).stage),
    {
        let t = *self;
        let (nt, action) = match self.stage {
            TouchStage::Start => (TouchDownTask { stage: TouchStage::AwaitRoot, ..t }, InputAction::QueryRootOwner(input.hwnd)),
            TouchStage::AwaitRoot => match event {
                InputEvent::Handle(root) => if root.is_invalid() {
                    go_activate(TouchDownTask { target: input.hwnd, ..t }, input)
                } else {
                    (TouchDownTask { stage: TouchStage::AwaitPopup, ..t }, InputAction::QueryLastActivePopup(root))
                },
                _ => go_activate(TouchDownTask { target: input.hwnd, ..t }, input),
            },
            TouchStage::AwaitPopup => match event {
                InputEvent::Handle(popup) => if !popup.is_invalid() && popup != input.hwnd {
                    (
                        TouchDownTask { stage: TouchStage::AwaitPopupVisible { popup }, ..t },
                        InputAction::QueryVisible(popup),
                    )
                } else {
                    go_activate(TouchDownTask { target: input.hwnd, ..t }, input)
                },
                _ => go_activate(TouchDownTask { target: input.hwnd, ..t }, input),
            },
            TouchStage::AwaitPopupVisible { popup } => match event {
                InputEvent::Answer(visible) => {
                    let target = if visible { popup } else { input.hwnd };
                    go_activate(TouchDownTask { target, ..t }, input)
                },
                _ => go_activate(TouchDownTask { target: input.hwnd, ..t }, input),
            },
            TouchStage::AwaitActivated => (
                TouchDownTask { stage: TouchStage::AwaitActivationPause, ..t },
                InputAction::Sleep(10),
            ),
            TouchStage::AwaitActivationPause => go_block(t, input),
            TouchStage::AwaitBlock => go_save(t, input),
            TouchStage::AwaitCursorPos => match event {
                InputEvent::CursorAt(Some(p)) => {
                    input.saved_cursor_pos = Some(p);
                    go_save_window(t, input)
                },
                _ => go_prepare(t, input),
            },
            TouchStage::AwaitWindowRect => match event {
                InputEvent::WindowArea(Some(r)) => {
                    if input.saved_window_rect.is_none() {
                        input.saved_window_rect = Some(r);
                    }
                    go_prepare(t, input)
                },
                _ => go_prepare(t, input),
            },
            TouchStage::AwaitScreenPoint => match event {
                InputEvent::Converted(p) => (
                    TouchDownTask { stage: TouchStage::AwaitCursorMoved, ..t },
                    InputAction::SetCursorPos(p),
                ),
                _ => (
                    TouchDownTask { stage: TouchStage::AwaitCursorMoved, ..t },
                    InputAction::SetCursorPos(Point { x: t.x, y: t.y }),
                ),
            },
            TouchStage::AwaitCursorMoved => (
                TouchDownTask { stage: TouchStage::AwaitCursorPause, ..t },
                InputAction::Sleep(1),
            ),
            TouchStage::AwaitCursorPause => go_send(t, input, false),
            TouchStage::AwaitMoveTargetCheck => if is_yes(event) {
                let d = deliver_half(t, input, false);
                (TouchDownTask { stage: TouchStage::AwaitMoveDelivered, ..t }, InputAction::Deliver(d))
            } else {
                (TouchDownTask { stage: TouchStage::Done, ..t }, InputAction::Finish(Err(InputError::InvalidTarget)))
            },
            TouchStage::AwaitMoveDelivered => {
                let failed = match input.config.mode {
                    Mode::PostMessage => !is_yes(event),
                    Mode::SendMessage => false,
                };
                if failed {
                    (TouchDownTask { stage: TouchStage::Done, ..t }, InputAction::Finish(Err(InputError::DeliveryFailed)))
                } else {
                    (TouchDownTask { stage: TouchStage::AwaitMovePause, ..t }, InputAction::Sleep(10))
                }
            },
            TouchStage::AwaitMovePause => go_send(t, input, true),
            TouchStage::AwaitDownTargetCheck => if is_yes(event) {
                let d = deliver_half(t, input, true);
                (TouchDownTask { stage: TouchStage::AwaitDownDelivered, ..t }, InputAction::Deliver(d))
            } else {
                (TouchDownTask { stage: TouchStage::Done, ..t }, InputAction::Finish(Err(InputError::InvalidTarget)))
            },
            TouchStage::AwaitDownDelivered => {
                let failed = match input.config.mode {
                    Mode::PostMessage => !is_yes(event),
                    Mode::SendMessage => false,
                };
                if failed {
                    (TouchDownTask { stage: TouchStage::Done, ..t }, InputAction::Finish(Err(InputError::DeliveryFailed)))
                } else {
                    input.last_pos = Some((t.x, t.y));
                    (TouchDownTask { stage: TouchStage::Done, ..t }, InputAction::Finish(Ok(())))
                }
            },
            TouchStage::Done => (t, InputAction::Finish(Ok(()))),
        };
        *self = nt;
        action
    }
}

/// The task, the input's state and the actions after a series of reports.
pub open spec fn touch_run(t: TouchDownTask, s: InputState, events: Seq<InputEvent>) -> (
    TouchDownTask,
    InputState,
    Seq<InputAction>,
)
    decreases events.len(),
{
    if events.len() == 0 {
        (t, s, Seq::empty())
    } else {
        let first = touch_next(t, s, events[0]);
        let rest = touch_run(first.0, first.1, events.drop_first());
        (rest.0, rest.1, seq![first.2] + rest.2)
    }
}

/// A touch-down into a window that has no owner, with the default
/// configuration, where the window stays a window: the input's window is
/// asked for its owner, told that it is activated, and after 10 ms given the
/// contact's move message and, 10 ms later, its press message, both at the
/// touch point; the touch succeeds and its point becomes the last position,
/// with nothing saved.
pub proof fn lemma_plain_touch_down(contact: Contact, x: i32, y: i32, s: InputState)
    requires
        !s.hwnd.spec_is_invalid(),
        s.config == default_config(),
    ensures
        ({
            let t = TouchDownTask { contact, x, y, target: WindowHandle { raw: 0 }, stage: TouchStage::Start };
            let events = seq![
                InputEvent::Completed,
                InputEvent::Handle(WindowHandle { raw: 0 }),
                InputEvent::Answer(true),
                InputEvent::Completed,
                InputEvent::Answer(true),
                InputEvent::Answer(true),
                InputEvent::Completed,
                InputEvent::Answer(true),
                InputEvent::Answer(true),
            ];
            let move_info = mouse_move_message_of(contact);
            let down_info = mouse_down_message_of(contact);
            let run = touch_run(t, s, events);
            &&& run.2 == seq![
                InputAction::QueryRootOwner(s.hwnd),
                InputAction::Deliver(activation_of(s.hwnd, false)),
                InputAction::Sleep(10),
                InputAction::QueryIsWindow(s.hwnd),
                InputAction::Deliver(Delivery {
                    method: DeliveryMethod::Send,
                    target: s.hwnd,
                    message: move_info.message,
                    w_param: move_info.w_param,
                    l_param: lparam_of(x, y),
                }),
                InputAction::Sleep(10),
                InputAction::QueryIsWindow(s.hwnd),
                InputAction::Deliver(Delivery {
                    method: DeliveryMethod::Send,
                    target: s.hwnd,
                    message: down_info.message,
                    w_param: down_info.w_param,
                    l_param: lparam_of(x, y),
                }),
                InputAction::Finish(Ok(())),
            ]
            &&& run.1 == InputState { last_pos: Some((x, y)), ..s }
        }),
{
    reveal_with_fuel(touch_run, 10);
    let t = TouchDownTask { contact, x, y, target: WindowHandle { raw: 0 }, stage: TouchStage::Start };
    let events = seq![
        InputEvent::Completed,
        InputEvent::Handle(WindowHandle { raw: 0 }),
        InputEvent::Answer(true),
        InputEvent::Completed,
        InputEvent::Answer(true),
        InputEvent::Answer(true),
        InputEvent::Completed,
        InputEvent::Answer(true),
        InputEvent::Answer(true),
    ];
    assert(events.drop_first().drop_first().drop_first().drop_first().drop_first().drop_first()
        .drop_first().drop_first().drop_first() =~= Seq::<InputEvent>::empty());
    let run = touch_run(t, s, events);
    assert(run.1 == InputState { last_pos: Some((x, y)), ..s });
}

/// With cursor moving on, once positions are saved the cursor is put over
/// the touch point: the point is converted from the window's client area
/// to the screen (for a non-null window), whether or not the window
/// position is saved too.
pub proof fn lemma_cursor_conversion_follows_saving(t: TouchDownTask, s: InputState, e: InputEvent)
    requires
        s.config.with_cursor_pos,
        !s.hwnd.spec_is_invalid(),
        (t.stage is AwaitWindowRect && e is WindowArea) || (t.stage is AwaitCursorPos && e
            == InputEvent::CursorAt(None)) || (t.stage is AwaitCursorPos && e is CursorAt && !(
        s.config.with_window_pos && s.saved_window_rect is None)),
    ensures
        touch_next(t, s, e).2 == InputAction::ClientToScreen(s.hwnd, Point { x: t.x, y: t.y }),
        touch_next(t, s, e).0.stage == TouchStage::AwaitScreenPoint,
{
}

/// For a null window the cursor is put over the touch point as it stands,
/// without a conversion.
pub proof fn lemma_cursor_without_window(t: TouchDownTask, s: InputState, e: InputEvent)
    requires
        s.config.with_cursor_pos,
        s.hwnd.spec_is_invalid(),
        (t.stage is AwaitWindowRect && e is WindowArea) || (t.stage is AwaitCursorPos && e is CursorAt),
    ensures
        touch_next(t, s, e).2 == InputAction::SetCursorPos(Point { x: t.x, y: t.y }),
{
}

/// The converted point is where the cursor goes, after which the touch
/// pauses 1 ms and then checks its target before the move message.
pub proof fn lemma_cursor_moves_to_converted_point(t: TouchDownTask, s: InputState, q: Point)
    requires
        t.stage is AwaitScreenPoint,
    ensures
        touch_next(t, s, InputEvent::Converted(q)).2 == InputAction::SetCursorPos(q),
        touch_next(touch_next(t, s, InputEvent::Converted(q)).0, s, InputEvent::Completed).2
            == InputAction::Sleep(1),
        !t.target.spec_is_invalid() ==> touch_next(
            touch_next(touch_next(t, s, InputEvent::Converted(q)).0, s, InputEvent::Completed).0,
            s,
            InputEvent::Completed,
        ).2 == InputAction::QueryIsWindow(t.target),
{
}

/// Without cursor moving, the cursor is never read, converted or moved:
/// after saving, the touch goes to its target check.
pub proof fn lemma_no_cursor_work_without_cursor_mode(t: TouchDownTask, s: InputState, e: InputEvent)
    requires
        !s.config.with_cursor_pos,
        !s.config.with_window_pos,
        !(t.stage is AwaitCursorPos || t.stage is AwaitScreenPoint || t.stage is AwaitCursorMoved
            || t.stage is AwaitCursorPause || t.stage is AwaitWindowRect),
    ensures
        !(touch_next(t, s, e).2 is QueryCursorPos),
        !(touch_next(t, s, e).2 is ClientToScreen),
        !(touch_next(t, s, e).2 is SetCursorPos),
        !(touch_next(t, s, e).2 is QueryWindowRect),
{
}

/// A touch-down with cursor moving on (and window saving off), into a
/// window without owner, where every call succeeds: after activation the
/// cursor position is read and saved, the touch point is converted to the
/// screen and the cursor put there, and after a 1 ms pause the move and
/// press messages are delivered; the saved cursor position is the one read.
pub proof fn lemma_cursor_touch_down(contact: Contact, x: i32, y: i32, s: InputState, saved: Point, screen: Point)
    requires
        !s.hwnd.spec_is_invalid(),
        s.config.with_cursor_pos,
        !s.config.with_window_pos,
        !s.config.block_input,
    ensures
        ({
            let t = TouchDownTask { contact, x, y, target: WindowHandle { raw: 0 }, stage: TouchStage::Start };
            let yes = InputEvent::Answer(true);
            let events = seq![
                InputEvent::Completed,
                InputEvent::Handle(WindowHandle { raw: 0 }),
                yes,
                InputEvent::Completed,
                InputEvent::CursorAt(Some(saved)),
                InputEvent::Converted(screen),
                InputEvent::Completed,
                InputEvent::Completed,
                yes,
                yes,
                InputEvent::Completed,
                yes,
                yes,
            ];
            let move_info = mouse_move_message_of(contact);
            let down_info = mouse_down_message_of(contact);
            let method = method_of(s.config.mode);
            let run = touch_run(t, s, events);
            &&& run.2 == seq![
                InputAction::QueryRootOwner(s.hwnd),
                InputAction::Deliver(activation_of(s.hwnd, s.config.mode is PostMessage)),
                InputAction::Sleep(10),
                InputAction::QueryCursorPos,
                InputAction::ClientToScreen(s.hwnd, Point { x, y }),
                InputAction::SetCursorPos(screen),
                InputAction::Sleep(1),
                InputAction::QueryIsWindow(s.hwnd),
                InputAction::Deliver(Delivery {
                    method,
                    target: s.hwnd,
                    message: move_info.message,
                    w_param: move_info.w_param,
                    l_param: lparam_of(x, y),
                }),
                InputAction::Sleep(10),
                InputAction::QueryIsWindow(s.hwnd),
                InputAction::Deliver(Delivery {
                    method,
                    target: s.hwnd,
                    message: down_info.message,
                    w_param: down_info.w_param,
                    l_param: lparam_of(x, y),
                }),
                InputAction::Finish(Ok(())),
            ]
            &&& run.1.saved_cursor_pos == Some(saved)
            &&& run.1.last_pos == Some((x, y))
        }),
{
    reveal_with_fuel(touch_run, 14);
    let yes = InputEvent::Answer(true);
    let events = seq![
        InputEvent::Completed,
        InputEvent::Handle(WindowHandle { raw: 0 }),
        yes,
        InputEvent::Completed,
        InputEvent::CursorAt(Some(saved)),
        InputEvent::Converted(screen),
        InputEvent::Completed,
        InputEvent::Completed,
        yes,
        yes,
        InputEvent::Completed,
        yes,
        yes,
    ];
    assert(events.drop_first().drop_first().drop_first().drop_first().drop_first().drop_first()
        .drop_first().drop_first().drop_first().drop_first().drop_first().drop_first().drop_first()
        =~= Seq::<InputEvent>::empty());
}

/// A failed post leaves the last position as it was.
pub proof fn lemma_failed_post_keeps_last_pos(t: TouchDownTask, s: InputState, e: InputEvent)
    requires
        touch_next(t, s, e).2 == InputAction::Finish(Err(InputError::DeliveryFailed)),
    ensures
        touch_next(t, s, e).1.last_pos == s.last_pos,
{
}

/// The window position saved first in a session is kept by every later
/// step until it is handed out for restoring.
pub proof fn lemma_first_saved_window_rect_kept(t: TouchDownTask, s: InputState, e: InputEvent)
    requires
        s.saved_window_rect is Some,
    ensures
        touch_next(t, s, e).1.saved_window_rect == s.saved_window_rect,
{
}

/// A cursor position read while touching is the one saved, and so the one
/// that `take_saved_cursor_pos` hands out to restore the cursor.
pub proof fn lemma_cursor_read_is_saved(t: TouchDownTask, s: InputState, p: Point)
    requires
        t.stage is AwaitCursorPos,
    ensures
        touch_next(t, s, InputEvent::CursorAt(Some(p))).1.saved_cursor_pos == Some(p),
{
}

/// The window a touch goes to: the last active popup of the window's root
/// owner when there is one that is not null, not the window itself, and
/// visible; the window itself otherwise.
pub proof fn lemma_touch_target(t: TouchDownTask, s: InputState, root: WindowHandle, popup: WindowHandle, visible: bool)
    ensures
        t.stage is AwaitRoot && root.spec_is_invalid() ==> touch_next(t, s, InputEvent::Handle(root)).0.target
            == s.hwnd,
        t.stage is AwaitRoot && !root.spec_is_invalid() ==> touch_next(t, s, InputEvent::Handle(root)).2
            == InputAction::QueryLastActivePopup(root),
        t.stage is AwaitPopup && (popup.spec_is_invalid() || popup == s.hwnd) ==> touch_next(
            t,
            s,
            InputEvent::Handle(popup),
        ).0.target == s.hwnd,
        t.stage is AwaitPopup && !popup.spec_is_invalid() && popup != s.hwnd ==> touch_next(
            t,
            s,
            InputEvent::Handle(popup),
        ).2 == InputAction::QueryVisible(popup),
        t.stage == (TouchStage::AwaitPopupVisible { popup }) ==> touch_next(t, s, InputEvent::Answer(visible)).0.target
            == (if visible { popup } else { s.hwnd }),
{
}

} // verus!
