use genshin_assistant::print_window::{
    bitmap_header, BitmapHeader, CaptureAction, CaptureError, CaptureEvent, CaptureTask, GdiResource,
    PrintWindowScreencap,
};
use genshin_assistant::window::{Rect, WindowHandle};

/// Runs a capture against a window system whose client rectangle is
/// `client` and in which the call named by `failing` (if any) fails.
fn run(hwnd: WindowHandle, client: Option<Rect>, failing: Option<&str>) -> Vec<CaptureAction> {
    let mut task = PrintWindowScreencap::new(hwnd).screencap();
    let mut event = CaptureEvent::Completed;
    let mut actions = Vec::new();
    for _ in 0..30 {
        let action = task.step(event);
        actions.push(action);
        let name = match action {
            CaptureAction::GetClientRect => {
                event = CaptureEvent::ClientRect(client);
                continue;
            }
            CaptureAction::Finish(_) => return actions,
            CaptureAction::Release(_) => {
                event = CaptureEvent::Completed;
                continue;
            }
            CaptureAction::GetDc => "GetDC",
            CaptureAction::CreateCompatibleDc => "CreateCompatibleDC",
            CaptureAction::CreateCompatibleBitmap { .. } => "CreateCompatibleBitmap",
            CaptureAction::SelectBitmap => "SelectObject",
            CaptureAction::PrintWindow { .. } => "PrintWindow",
            CaptureAction::AllocateImage { .. } => "Mat::zeros",
            CaptureAction::CopyBits { .. } => "GetDIBits",
        };
        event = CaptureEvent::Succeeded(failing != Some(name));
    }
    panic!("the capture did not finish");
}

fn client(width: i32, height: i32) -> Option<Rect> {
    Some(Rect { left: 0, top: 0, right: width, bottom: height })
}

#[test]
fn capturer_keeps_its_window() {
    let w = WindowHandle::new(5);
    assert_eq!(PrintWindowScreencap::new(w).hwnd(), w);
}

#[test]
fn successful_capture_releases_in_reverse_order() {
    let w = WindowHandle::new(5);
    let header = BitmapHeader { width: 800, height: -600, planes: 1, bit_count: 32, compression: 0 };
    assert_eq!(
        run(w, client(800, 600), None),
        vec![
            CaptureAction::GetClientRect,
            CaptureAction::GetDc,
            CaptureAction::CreateCompatibleDc,
            CaptureAction::CreateCompatibleBitmap { width: 800, height: 600 },
            CaptureAction::SelectBitmap,
            CaptureAction::PrintWindow { flags: 3 },
            CaptureAction::AllocateImage { width: 800, height: 600 },
            CaptureAction::CopyBits { header, lines: 600 },
            CaptureAction::Release(GdiResource::Selection),
            CaptureAction::Release(GdiResource::Bitmap),
            CaptureAction::Release(GdiResource::MemoryDc),
            CaptureAction::Release(GdiResource::WindowDc),
            CaptureAction::Finish(Ok(())),
        ]
    );
}

#[test]
fn null_window_is_refused() {
    assert_eq!(
        run(WindowHandle::null(), client(800, 600), None),
        vec![CaptureAction::Finish(Err(CaptureError::NullWindow))]
    );
}

#[test]
fn unreadable_client_area_is_refused() {
    assert_eq!(
        run(WindowHandle::new(5), None, None),
        vec![CaptureAction::GetClientRect, CaptureAction::Finish(Err(CaptureError::ClientRect))]
    );
}

#[test]
fn empty_client_area_is_refused_with_its_size() {
    assert_eq!(
        run(WindowHandle::new(5), client(0, 600), None),
        vec![
            CaptureAction::GetClientRect,
            CaptureAction::Finish(Err(CaptureError::InvalidSize { width: 0, height: 600 })),
        ]
    );
    let offset = Some(Rect { left: 10, top: 10, right: 5, bottom: 20 });
    assert_eq!(
        run(WindowHandle::new(5), offset, None).last(),
        Some(&CaptureAction::Finish(Err(CaptureError::InvalidSize { width: -5, height: 10 })))
    );
}

#[test]
fn each_failure_releases_what_was_acquired() {
    let w = WindowHandle::new(5);
    let cases = [
        ("GetDC", CaptureError::GetDc, vec![]),
        ("CreateCompatibleDC", CaptureError::CreateCompatibleDc, vec![GdiResource::WindowDc]),
        (
            "CreateCompatibleBitmap",
            CaptureError::CreateCompatibleBitmap,
            vec![GdiResource::MemoryDc, GdiResource::WindowDc],
        ),
        (
            "SelectObject",
            CaptureError::SelectObject,
            vec![GdiResource::Bitmap, GdiResource::MemoryDc, GdiResource::WindowDc],
        ),
        (
            "PrintWindow",
            CaptureError::PrintWindow,
            vec![GdiResource::Selection, GdiResource::Bitmap, GdiResource::MemoryDc, GdiResource::WindowDc],
        ),
        (
            "Mat::zeros",
            CaptureError::AllocateImage,
            vec![GdiResource::Selection, GdiResource::Bitmap, GdiResource::MemoryDc, GdiResource::WindowDc],
        ),
        (
            "GetDIBits",
            CaptureError::GetDiBits,
            vec![GdiResource::Selection, GdiResource::Bitmap, GdiResource::MemoryDc, GdiResource::WindowDc],
        ),
    ];
    for (failing, error, released) in cases {
        let actions = run(w, client(64, 32), Some(failing));
        let releases: Vec<GdiResource> = actions
            .iter()
            .filter_map(|a| match a {
                CaptureAction::Release(r) => Some(*r),
                _ => None,
            })
            .collect();
        assert_eq!(releases, released, "failing {}", failing);
        assert_eq!(actions.last(), Some(&CaptureAction::Finish(Err(error))));
    }
}

#[test]
fn bitmap_header_is_top_down_32_bit() {
    assert_eq!(
        bitmap_header(1920, 1080),
        BitmapHeader { width: 1920, height: -1080, planes: 1, bit_count: 32, compression: 0 }
    );
}

#[test]
fn new_task_holds_nothing() {
    let t = CaptureTask::new(WindowHandle::new(1));
    assert_eq!(t.held, 0);
}
