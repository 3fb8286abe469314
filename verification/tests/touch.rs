use genshin_assistant::input_utils::Contact;
use genshin_assistant::message_input::{
    window_restore_origin, Config, InputAction, InputError, InputEvent, MessageInput, Mode,
    TouchDownTask, RESTORE_WINDOW_FLAGS,
};
use genshin_assistant::window::{Delivery, DeliveryMethod, Point, Rect, WindowHandle};
use genshin_assistant::winuser::make_lparam;

/// A scripted window system.
struct World {
    root: WindowHandle,
    popup: WindowHandle,
    popup_visible: bool,
    is_window: bool,
    post_ok: bool,
    cursor: Option<Point>,
    window_rect: Option<Rect>,
    screen_offset: (i32, i32),
}

impl World {
    fn plain() -> World {
        World {
            root: WindowHandle::null(),
            popup: WindowHandle::null(),
            popup_visible: false,
            is_window: true,
            post_ok: true,
            cursor: Some(Point { x: 5, y: 6 }),
            window_rect: Some(Rect { left: 10, top: 20, right: 810, bottom: 620 }),
            screen_offset: (1000, 2000),
        }
    }

    fn answer(&self, action: &InputAction) -> InputEvent {
        match action {
            InputAction::QueryRootOwner(_) => InputEvent::Handle(self.root),
            InputAction::QueryLastActivePopup(_) => InputEvent::Handle(self.popup),
            InputAction::QueryVisible(_) => InputEvent::Answer(self.popup_visible),
            InputAction::Deliver(d) => InputEvent::Answer(d.method == DeliveryMethod::Send || self.post_ok),
            InputAction::QueryCursorPos => InputEvent::CursorAt(self.cursor),
            InputAction::QueryWindowRect(_) => InputEvent::WindowArea(self.window_rect),
            InputAction::ClientToScreen(_, p) => InputEvent::Converted(Point {
                x: p.x + self.screen_offset.0,
                y: p.y + self.screen_offset.1,
            }),
            InputAction::QueryIsWindow(_) => InputEvent::Answer(self.is_window),
            _ => InputEvent::Completed,
        }
    }
}

fn touch(world: &World, input: &mut MessageInput, contact: Contact, x: i32, y: i32) -> Vec<InputAction> {
    let mut task = TouchDownTask::new(contact, x, y);
    let mut event = InputEvent::Completed;
    let mut actions = Vec::new();
    for _ in 0..40 {
        let action = task.step(input, event);
        actions.push(action);
        if let InputAction::Finish(_) = action {
            return actions;
        }
        event = world.answer(&action);
    }
    panic!("the touch did not finish");
}

fn delivery(method: DeliveryMethod, target: WindowHandle, message: u32, w_param: usize, l_param: isize) -> InputAction {
    InputAction::Deliver(Delivery { method, target, message, w_param, l_param })
}

#[test]
fn default_config_sends_and_saves_nothing() {
    let c = Config::default();
    assert_eq!(c.mode, Mode::SendMessage);
    assert!(!c.with_cursor_pos && !c.with_window_pos && !c.block_input);
}

#[test]
fn new_input_holds_nothing() {
    let w = WindowHandle::new(3);
    let input = MessageInput::new(w, Config::default());
    assert_eq!(input.hwnd(), w);
    assert_eq!(input.last_pos(), None);
    assert_eq!(input.saved_cursor_pos(), None);
    assert_eq!(input.saved_window_rect(), None);
}

#[test]
fn plain_touch_down_moves_then_presses() {
    let w = WindowHandle::new(3);
    let mut input = MessageInput::new(w, Config::default());
    let actions = touch(&World::plain(), &mut input, Contact::Left, 100, 200);
    let l = make_lparam(100, 200);
    assert_eq!(
        actions,
        vec![
            InputAction::QueryRootOwner(w),
            delivery(DeliveryMethod::Send, w, 0x0006, 1, 0),
            InputAction::Sleep(10),
            InputAction::QueryIsWindow(w),
            delivery(DeliveryMethod::Send, w, 0x0200, 0x0001, l),
            InputAction::Sleep(10),
            InputAction::QueryIsWindow(w),
            delivery(DeliveryMethod::Send, w, 0x0201, 0x0001, l),
            InputAction::Finish(Ok(())),
        ]
    );
    assert_eq!(input.last_pos(), Some((100, 200)));
}

#[test]
fn visible_popup_receives_the_touch() {
    let w = WindowHandle::new(3);
    let popup = WindowHandle::new(4);
    let world = World { root: WindowHandle::new(2), popup, popup_visible: true, ..World::plain() };
    let mut input = MessageInput::new(w, Config { mode: Mode::PostMessage, ..Config::default() });
    let actions = touch(&world, &mut input, Contact::X1, 1, 2);
    let l = make_lparam(1, 2);
    assert_eq!(
        actions,
        vec![
            InputAction::QueryRootOwner(w),
            InputAction::QueryLastActivePopup(WindowHandle::new(2)),
            InputAction::QueryVisible(popup),
            delivery(DeliveryMethod::Post, w, 0x0006, 1, 0),
            InputAction::Sleep(10),
            InputAction::QueryIsWindow(popup),
            delivery(DeliveryMethod::Post, popup, 0x0200, 0x0020, l),
            InputAction::Sleep(10),
            InputAction::QueryIsWindow(popup),
            delivery(DeliveryMethod::Post, popup, 0x020B, 0x0001_0020, l),
            InputAction::Finish(Ok(())),
        ]
    );
}

#[test]
fn hidden_popup_or_self_popup_leaves_the_window_as_target() {
    let w = WindowHandle::new(3);
    for world in [
        World { root: WindowHandle::new(2), popup: WindowHandle::new(4), popup_visible: false, ..World::plain() },
        World { root: WindowHandle::new(2), popup: w, popup_visible: true, ..World::plain() },
        World { root: WindowHandle::new(2), popup: WindowHandle::null(), popup_visible: true, ..World::plain() },
    ] {
        let mut input = MessageInput::new(w, Config::default());
        let actions = touch(&world, &mut input, Contact::Right, 7, 8);
        assert!(actions.contains(&delivery(DeliveryMethod::Send, w, 0x0204, 0x0002, make_lparam(7, 8))));
    }
}

#[test]
fn target_that_is_no_window_fails_without_a_message() {
    let w = WindowHandle::new(3);
    let world = World { is_window: false, ..World::plain() };
    let mut input = MessageInput::new(w, Config::default());
    let actions = touch(&world, &mut input, Contact::Left, 1, 1);
    assert_eq!(actions.last(), Some(&InputAction::Finish(Err(InputError::InvalidTarget))));
    assert_eq!(actions.len(), 5);
    assert_eq!(input.last_pos(), None);
}

#[test]
fn null_window_is_an_invalid_target() {
    let mut input = MessageInput::new(WindowHandle::null(), Config::default());
    let actions = touch(&World::plain(), &mut input, Contact::Left, 1, 1);
    assert_eq!(
        actions,
        vec![
            InputAction::QueryRootOwner(WindowHandle::null()),
            InputAction::Finish(Err(InputError::InvalidTarget)),
        ]
    );
}

#[test]
fn failed_post_keeps_last_position() {
    let w = WindowHandle::new(3);
    let world = World { post_ok: false, ..World::plain() };
    let mut input = MessageInput::new(w, Config { mode: Mode::PostMessage, ..Config::default() });
    let actions = touch(&world, &mut input, Contact::Left, 1, 1);
    assert_eq!(actions.last(), Some(&InputAction::Finish(Err(InputError::DeliveryFailed))));
    assert_eq!(input.last_pos(), None);
}

#[test]
fn cursor_mode_saves_and_moves_the_cursor() {
    let w = WindowHandle::new(3);
    let config = Config { mode: Mode::SendMessage, with_cursor_pos: true, with_window_pos: true, block_input: true };
    let mut input = MessageInput::new(w, config);
    let actions = touch(&World::plain(), &mut input, Contact::Middle, 30, 40);
    assert_eq!(
        &actions[3..10],
        &[
            InputAction::BlockInput(true),
            InputAction::QueryCursorPos,
            InputAction::QueryWindowRect(w),
            InputAction::ClientToScreen(w, Point { x: 30, y: 40 }),
            InputAction::SetCursorPos(Point { x: 1030, y: 2040 }),
            InputAction::Sleep(1),
            InputAction::QueryIsWindow(w),
        ]
    );
    assert_eq!(input.saved_cursor_pos(), Some(Point { x: 5, y: 6 }));
    assert_eq!(input.saved_window_rect(), Some(Rect { left: 10, top: 20, right: 810, bottom: 620 }));
    assert_eq!(input.last_pos(), Some((30, 40)));
}

#[test]
fn first_saved_window_rect_is_kept() {
    let w = WindowHandle::new(3);
    let config = Config { mode: Mode::SendMessage, with_cursor_pos: true, with_window_pos: true, block_input: false };
    let mut input = MessageInput::new(w, config);
    touch(&World::plain(), &mut input, Contact::Left, 1, 1);
    let moved = World { window_rect: Some(Rect { left: 0, top: 0, right: 1, bottom: 1 }), ..World::plain() };
    let actions = touch(&moved, &mut input, Contact::Left, 2, 2);
    assert!(!actions.iter().any(|a| matches!(a, InputAction::QueryWindowRect(_))));
    assert_eq!(input.saved_window_rect(), Some(Rect { left: 10, top: 20, right: 810, bottom: 620 }));
}

#[test]
fn unreadable_cursor_skips_window_saving() {
    let w = WindowHandle::new(3);
    let config = Config { mode: Mode::SendMessage, with_cursor_pos: true, with_window_pos: true, block_input: false };
    let world = World { cursor: None, ..World::plain() };
    let mut input = MessageInput::new(w, config);
    let actions = touch(&world, &mut input, Contact::Left, 1, 1);
    assert!(!actions.iter().any(|a| matches!(a, InputAction::QueryWindowRect(_))));
    assert_eq!(input.saved_cursor_pos(), None);
    assert_eq!(input.saved_window_rect(), None);
}

#[test]
fn restoring_hands_out_and_forgets_saved_positions() {
    let w = WindowHandle::new(3);
    let config = Config { mode: Mode::SendMessage, with_cursor_pos: true, with_window_pos: true, block_input: true };
    let mut input = MessageInput::new(w, config);
    touch(&World::plain(), &mut input, Contact::Left, 1, 1);
    assert!(input.blocks_input());
    assert_eq!(input.take_saved_cursor_pos(), Some(Point { x: 5, y: 6 }));
    assert_eq!(input.take_saved_cursor_pos(), None);
    assert_eq!(input.take_saved_window_rect(), Some(Rect { left: 10, top: 20, right: 810, bottom: 620 }));
    assert_eq!(input.take_saved_window_rect(), None);
}

#[test]
fn window_restore_origin_falls_back_to_origin_off_monitor() {
    let r = Rect { left: -3000, top: 50, right: -2000, bottom: 500 };
    assert_eq!(window_restore_origin(r, true), Point { x: -3000, y: 50 });
    assert_eq!(window_restore_origin(r, false), Point { x: 0, y: 0 });
    assert_eq!(RESTORE_WINDOW_FLAGS, 0x0015);
}

#[test]
fn mouse_lparam_for_other_targets_uses_the_converted_point() {
    let w = WindowHandle::new(3);
    let input = MessageInput::new(w, Config::default());
    let p = Some(Point { x: 11, y: 12 });
    assert_eq!(input.make_mouse_lparam(w, 1, 2, p), make_lparam(1, 2));
    assert_eq!(input.make_mouse_lparam(WindowHandle::new(4), 1, 2, p), make_lparam(11, 12));
    assert_eq!(input.make_mouse_lparam(WindowHandle::new(4), 1, 2, None), make_lparam(1, 2));
}

#[test]
fn default_input_is_for_the_null_window() {
    let input = MessageInput::default();
    assert_eq!(input.hwnd(), WindowHandle::null());
    assert_eq!(input.config(), Config::default());
    assert_eq!(input.last_pos(), None);
    assert_eq!(input.saved_cursor_pos(), None);
    assert_eq!(input.saved_window_rect(), None);
}
