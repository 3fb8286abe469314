use genshin_assistant::input_utils::{
    activation_delivery, ForegroundAction, ForegroundEvent, ForegroundStage, ForegroundTask,
};
use genshin_assistant::window::{Delivery, DeliveryMethod, WindowHandle};

/// Runs the task against a window system whose foreground window is given
/// by `foreground` (one answer per query) and returns the actions.
fn run(hwnd: WindowHandle, foreground: &[WindowHandle]) -> Vec<ForegroundAction> {
    let mut task = ForegroundTask::new(hwnd);
    let mut answers = foreground.iter();
    let mut event = ForegroundEvent::Completed;
    let mut actions = Vec::new();
    for _ in 0..20 {
        let action = task.step(event);
        actions.push(action);
        event = match action {
            ForegroundAction::QueryForeground => ForegroundEvent::Foreground(*answers.next().unwrap()),
            ForegroundAction::Finish => return actions,
            _ => ForegroundEvent::Completed,
        };
    }
    panic!("the task did not finish");
}

#[test]
fn null_window_is_left_alone() {
    assert_eq!(run(WindowHandle::null(), &[]), vec![ForegroundAction::Finish]);
}

#[test]
fn foreground_window_is_left_alone() {
    let w = WindowHandle::new(0x42);
    assert_eq!(run(w, &[w]), vec![ForegroundAction::QueryForeground, ForegroundAction::Finish]);
}

#[test]
fn background_window_is_raised_and_focused() {
    let w = WindowHandle::new(0x42);
    assert_eq!(
        run(w, &[WindowHandle::new(7), w]),
        vec![
            ForegroundAction::QueryForeground,
            ForegroundAction::Raise { flags: 0x0002 | 0x0001 | 0x0040 },
            ForegroundAction::Sleep { millis: 5 },
            ForegroundAction::Focus,
            ForegroundAction::Sleep { millis: 10 },
            ForegroundAction::QueryForeground,
            ForegroundAction::Finish,
        ]
    );
}

#[test]
fn window_that_stays_behind_is_raised_again() {
    let w = WindowHandle::new(0x42);
    let other = WindowHandle::new(7);
    assert_eq!(
        run(w, &[other, other]),
        vec![
            ForegroundAction::QueryForeground,
            ForegroundAction::Raise { flags: 0x0043 },
            ForegroundAction::Sleep { millis: 5 },
            ForegroundAction::Focus,
            ForegroundAction::Sleep { millis: 10 },
            ForegroundAction::QueryForeground,
            ForegroundAction::Raise { flags: 0x0003 },
            ForegroundAction::Sleep { millis: 5 },
            ForegroundAction::Finish,
        ]
    );
}

#[test]
fn finished_task_stays_done() {
    let mut task = ForegroundTask::new(WindowHandle::null());
    assert_eq!(task.step(ForegroundEvent::Completed), ForegroundAction::Finish);
    assert_eq!(task.stage, ForegroundStage::Done);
}

#[test]
fn activation_of_a_window() {
    let w = WindowHandle::new(9);
    assert_eq!(activation_delivery(WindowHandle::null(), true), None);
    assert_eq!(
        activation_delivery(w, false),
        Some(Delivery { method: DeliveryMethod::Send, target: w, message: 0x0006, w_param: 1, l_param: 0 })
    );
    assert_eq!(
        activation_delivery(w, true),
        Some(Delivery { method: DeliveryMethod::Post, target: w, message: 0x0006, w_param: 1, l_param: 0 })
    );
}
