use genshin_assistant::assistant::{
    activation_for, is_supported_title, on_key_press, round_click, skip_click_point, Announcement,
    ClickAction, ClickError, ClickEvent, ClickTask, Mode,
};
use genshin_assistant::scale_coordinate;
use genshin_assistant::window::{Delivery, DeliveryMethod, Point, Rect, WindowHandle};
use genshin_assistant::winuser::make_lparam;

#[test]
fn scale_to_same_resolution_is_identity() {
    assert_eq!(scale_coordinate((1407, 802), (1920, 1080), (1920, 1080)), (1407, 802));
}

#[test]
fn scale_to_larger_resolution() {
    assert_eq!(scale_coordinate((1407, 802), (1920, 1080), (2560, 1440)), (1876, 1069));
    assert_eq!(scale_coordinate((1407, 802), (1920, 1080), (3840, 2160)), (2814, 1604));
}

#[test]
fn scale_to_smaller_resolution_rounds_toward_zero() {
    assert_eq!(scale_coordinate((1407, 802), (1920, 1080), (1280, 720)), (938, 534));
    assert_eq!(scale_coordinate((-7, -7), (2, 2), (1, 1)), (-3, -3));
}

#[test]
fn scale_with_non_positive_resolution_keeps_point() {
    assert_eq!(scale_coordinate((1407, 802), (1920, 1080), (0, 1080)), (1407, 802));
    assert_eq!(scale_coordinate((1407, 802), (1920, 1080), (1920, -1)), (1407, 802));
    assert_eq!(scale_coordinate((1407, 802), (0, 1080), (1920, 1080)), (1407, 802));
    assert_eq!(scale_coordinate((1407, 802), (1920, 0), (1920, 1080)), (1407, 802));
}

#[test]
fn scale_saturates_at_i32_bounds() {
    assert_eq!(scale_coordinate((i32::MAX, i32::MIN), (1, 1), (i32::MAX, i32::MAX)), (i32::MAX, i32::MIN));
}

#[test]
fn skip_point_in_a_window() {
    assert_eq!(skip_click_point(Rect { left: 0, top: 0, right: 2560, bottom: 1440 }), (1876, 1069));
    assert_eq!(skip_click_point(Rect { left: 0, top: 0, right: 0, bottom: 0 }), (1407, 802));
}

#[test]
fn round_clicks_only_when_running_in_a_game_window() {
    let r = Some(Rect { left: 0, top: 0, right: 1920, bottom: 1080 });
    assert_eq!(round_click(true, true, r), Some((1407, 802)));
    assert_eq!(round_click(false, true, r), None);
    assert_eq!(round_click(true, false, r), None);
    assert_eq!(round_click(true, true, None), None);
}

#[test]
fn supported_titles_are_recognised() {
    assert!(is_supported_title("原神"));
    assert!(is_supported_title("崩坏：星穹铁道"));
    assert!(is_supported_title("Genshin Impact"));
    assert!(!is_supported_title("genshin impact"));
    assert!(!is_supported_title("Genshin Impact "));
    assert!(!is_supported_title(""));
}

#[test]
fn toggle_key_switches_and_announces() {
    assert_eq!(on_key_press(false, true, true), (true, Some(Announcement::Enabled)));
    assert_eq!(on_key_press(true, true, true), (false, Some(Announcement::Disabled)));
    assert_eq!(on_key_press(true, false, true), (true, None));
    assert_eq!(on_key_press(false, true, false), (false, None));
    let (once, _) = on_key_press(false, true, true);
    let (twice, _) = on_key_press(once, true, true);
    assert!(!twice);
}

#[test]
fn activation_follows_mode() {
    let w = WindowHandle::new(8);
    assert_eq!(activation_for(WindowHandle::null(), Mode::SendMessage), None);
    assert_eq!(
        activation_for(w, Mode::PostMessage),
        Some(Delivery { method: DeliveryMethod::Post, target: w, message: 6, w_param: 1, l_param: 0 })
    );
}

fn click(hwnd: WindowHandle, mode: Mode, screen: Option<Point>, cursor_ok: bool, post_ok: bool) -> Vec<ClickAction> {
    let mut task = ClickTask::new(hwnd, 1407, 802, mode);
    let mut event = ClickEvent::Completed;
    let mut actions = Vec::new();
    for _ in 0..20 {
        let action = task.step(event);
        actions.push(action);
        event = match action {
            ClickAction::Finish(_) => return actions,
            ClickAction::ClientToScreen(_) => ClickEvent::Converted(screen),
            ClickAction::SetCursorPos(_) => ClickEvent::Answer(cursor_ok),
            ClickAction::Deliver(d) => ClickEvent::Answer(d.method == DeliveryMethod::Send || post_ok),
            ClickAction::Sleep(_) => ClickEvent::Completed,
        };
    }
    panic!("the click did not finish");
}

#[test]
fn left_click_sends_move_down_up() {
    let w = WindowHandle::new(8);
    let screen = Point { x: 1500, y: 900 };
    let l = make_lparam(1407, 802);
    let at = |message: u32, w_param: usize| {
        ClickAction::Deliver(Delivery { method: DeliveryMethod::Send, target: w, message, w_param, l_param: l })
    };
    assert_eq!(
        click(w, Mode::SendMessage, Some(screen), true, true),
        vec![
            ClickAction::Deliver(Delivery { method: DeliveryMethod::Send, target: w, message: 6, w_param: 1, l_param: 0 }),
            ClickAction::Sleep(10),
            ClickAction::ClientToScreen(Point { x: 1407, y: 802 }),
            ClickAction::SetCursorPos(screen),
            at(0x0200, 1),
            ClickAction::Sleep(10),
            at(0x0201, 1),
            ClickAction::Sleep(10),
            at(0x0202, 0),
            ClickAction::Finish(Ok(())),
        ]
    );
}

#[test]
fn left_click_stops_at_failures() {
    let w = WindowHandle::new(8);
    let screen = Some(Point { x: 0, y: 0 });
    assert_eq!(
        click(w, Mode::SendMessage, None, true, true).last(),
        Some(&ClickAction::Finish(Err(ClickError::ClientToScreen)))
    );
    assert_eq!(
        click(w, Mode::SendMessage, screen, false, true).last(),
        Some(&ClickAction::Finish(Err(ClickError::SetCursorPos)))
    );
    let failed_post = click(w, Mode::PostMessage, screen, true, false);
    assert_eq!(failed_post.len(), 6);
    assert_eq!(failed_post.last(), Some(&ClickAction::Finish(Err(ClickError::DeliveryFailed))));
    assert_eq!(click(w, Mode::SendMessage, screen, true, false).last(), Some(&ClickAction::Finish(Ok(()))));
}

#[test]
fn left_click_into_null_window_skips_activation() {
    let actions = click(WindowHandle::null(), Mode::SendMessage, None, true, true);
    assert_eq!(
        actions,
        vec![
            ClickAction::ClientToScreen(Point { x: 1407, y: 802 }),
            ClickAction::Finish(Err(ClickError::ClientToScreen)),
        ]
    );
}
