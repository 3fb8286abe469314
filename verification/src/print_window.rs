//! Capturing a window's client area with `PrintWindow`: the checks, the
//! bitmap description, and the order in which the GDI objects are created
//! and released, as a step function whose actions the caller carries out.
use vstd::prelude::*;
use crate::win32::{BI_RGB, PW_CLIENTONLY, PW_RENDERFULLCONTENT};
use crate::window::{Rect, WindowHandle};

verus! {

/// Captures the client area of one window.
pub struct PrintWindowScreencap {
    hwnd: WindowHandle,
}

impl PrintWindowScreencap {
    /// A capturer for the given window.
    pub fn new(hwnd: WindowHandle) -> (r: PrintWindowScreencap)
        ensures
            r.spec_hwnd() == hwnd,
    {
        PrintWindowScreencap { hwnd }
    }

    /// The window that is captured.
    pub closed spec fn spec_hwnd(&self) -> WindowHandle {
        self.hwnd
    }

    /// The window that is captured.
    pub fn hwnd(&self) -> (r: WindowHandle)
        ensures
            r == self.spec_hwnd(),
    {
        self.hwnd
    }

    /// A capture of the window, before any step.
    pub fn screencap(&self) -> (t: CaptureTask)
        ensures
            t == CaptureTask::spec_start(self.spec_hwnd()),
    {
        CaptureTask::new(self.hwnd)
    }
}

/// Why a capture failed.
#[derive(Clone, Copy, Debug, PartialEq, Eq, Structural)]
pub enum CaptureError {
    /// The window handle is null.
    NullWindow,
    /// `GetClientRect` failed.
    ClientRect,
    /// The client area is empty.
    InvalidSize { width: i32, height: i32 },
    /// `GetDC` failed.
    GetDc,
    /// `CreateCompatibleDC` failed.
    CreateCompatibleDc,
    /// `CreateCompatibleBitmap` failed.
    CreateCompatibleBitmap,
    /// `SelectObject` failed.
    SelectObject,
    /// `PrintWindow` failed.
    PrintWindow,
    /// The image buffer could not be made.
    AllocateImage,
    /// `GetDIBits` copied no lines.
    GetDiBits,
}

/// A GDI object that a capture holds, in the order of acquiring them.
#[derive(Clone, Copy, Debug, PartialEq, Eq, Structural)]
pub enum GdiResource {
    /// The window's device context, from `GetDC`; `ReleaseDC` frees it.
    WindowDc,
    /// The memory device context, from `CreateCompatibleDC`; `DeleteDC` frees it.
    MemoryDc,
    /// The bitmap, from `CreateCompatibleBitmap`; `DeleteObject` frees it.
    Bitmap,
    /// The bitmap's selection into the memory context; selecting the old
    /// object back undoes it.
    Selection,
}

/// The `i`-th resource that a capture acquires.
pub open spec fn resource_at(i: int) -> GdiResource {
    if i == 0 {
        GdiResource::WindowDc
    } else if i == 1 {
        GdiResource::MemoryDc
    } else if i == 2 {
        GdiResource::Bitmap
    } else {
        GdiResource::Selection
    }
}

/// The header of the device-independent bitmap that receives the pixels:
/// top-down (negative height), one plane, 32 bits per pixel, uncompressed.
/// The header's size field is the size of `BITMAPINFOHEADER`.
#[derive(Clone, Copy, Debug, PartialEq, Eq, Structural)]
pub struct BitmapHeader {
    pub width: i32,
    pub height: i32,
    pub planes: u16,
    pub bit_count: u16,
    pub compression: u32,
}

/// The bitmap header for a client area of the given size.
pub open spec fn bitmap_header_of(width: i32, height: i32) -> BitmapHeader {
    BitmapHeader { width, height: -height as i32, planes: 1, bit_count: 32, compression: BI_RGB }
}

/// The bitmap header for a client area of the given size.
pub fn bitmap_header(width: i32, height: i32) -> (r: BitmapHeader)
    requires
        height > i32::MIN,
    ensures
        r == bitmap_header_of(width, height),
        r.width == width,
        r.height == -height,
        r.planes == 1,
        r.bit_count == 32,
        r.compression == 0,
{
    BitmapHeader { width, height: -height, planes: 1, bit_count: 32, compression: BI_RGB }
}

/// The `PrintWindow` flags of a capture: client area only, and rendering of
/// windows in the background.
pub open spec fn print_flags() -> u32 {
    PW_CLIENTONLY | PW_RENDERFULLCONTENT
}

/// Where a capture stands.
#[derive(Clone, Copy, Debug, PartialEq, Eq, Structural)]
pub enum CaptureStage {
    Start,
    AwaitClientRect,
    AwaitDc,
    AwaitMemoryDc,
    AwaitBitmap,
    AwaitSelect,
    AwaitPrint,
    AwaitImage,
    AwaitBits,
    Releasing,
    Done,
}

/// What the caller reports back after carrying out an action.
#[derive(Clone, Copy, Debug, PartialEq, Eq, Structural)]
pub enum CaptureEvent {
    /// The action was carried out (or, at the start, nothing has been done yet).
    Completed,
    /// The client rectangle, or `None` when `GetClientRect` failed.
    ClientRect(Option<Rect>),
    /// Whether the call succeeded (a handle that is not null, a `TRUE`
    /// result, a non-zero line count, an image buffer).
    Succeeded(bool),
}

/// The outside work that a capture asks for.
#[derive(Clone, Copy, Debug, PartialEq, Eq)]
pub enum CaptureAction {
    /// `GetClientRect(hwnd)`; report `ClientRect`.
    GetClientRect,
    /// `GetDC(hwnd)`; report `Succeeded`.
    GetDc,
    /// `CreateCompatibleDC(window_dc)`; report `Succeeded`.
    CreateCompatibleDc,
    /// `CreateCompatibleBitmap(window_dc, width, height)`; report `Succeeded`.
    CreateCompatibleBitmap { width: i32, height: i32 },
    /// `SelectObject(memory_dc, bitmap)`; report `Succeeded`.
    SelectBitmap,
    /// `PrintWindow(hwnd, memory_dc, flags)`; report `Succeeded`.
    PrintWindow { flags: u32 },
    /// Make a zeroed 4-channel 8-bit image of `height` rows and `width`
    /// columns; report `Succeeded`.
    AllocateImage { width: i32, height: i32 },
    /// `GetDIBits(memory_dc, bitmap, 0, lines, image, header, DIB_RGB_COLORS)`;
    /// report `Succeeded` (whether any line was copied).
    CopyBits { header: BitmapHeader, lines: u32 },
    /// Free the resource; report `Completed`.
    Release(GdiResource),
    /// The capture is over with this outcome; on success the image holds
    /// the window's client area.
    Finish(Result<(), CaptureError>),
}

/// A capture in progress. `held` is how many resources are held: always
/// the first `held` of `WindowDc`, `MemoryDc`, `Bitmap`, `Selection`.
#[derive(Clone, Copy, Debug, PartialEq, Eq)]
pub struct CaptureTask {
    pub hwnd: WindowHandle,
    pub stage: CaptureStage,
    pub width: i32,
    pub height: i32,
    pub held: u8,
    pub outcome: Result<(), CaptureError>,
}

/// Whether the event is the kind of report that the stage waits for; a
/// client rectangle must have a width and height that `i32` can hold.
pub open spec fn capture_accepts(stage: CaptureStage, event: CaptureEvent) -> bool {
    match stage {
        CaptureStage::AwaitClientRect => match event {
            CaptureEvent::ClientRect(Some(r)) => i32::MIN <= r.right - r.left <= i32::MAX && i32::MIN
                <= r.bottom - r.top <= i32::MAX,
            CaptureEvent::ClientRect(None) => true,
            _ => false,
        },
        CaptureStage::Start | CaptureStage::Releasing => event is Completed,
        CaptureStage::Done => false,
        _ => event is Succeeded,
    }
}

/// Whether a task is consistent: at most the four resources are held, none
/// before the client area is known, and all of them while copying.
pub open spec fn capture_wf(t: CaptureTask) -> bool {
    &&& t.held <= 4
    &&& (t.stage is Start || t.stage is AwaitClientRect || t.stage is AwaitDc || t.stage is Done) ==> t.held == 0
    &&& t.stage is AwaitMemoryDc ==> t.held == 1
    &&& t.stage is AwaitBitmap ==> t.held == 2
    &&& t.stage is AwaitSelect ==> t.held == 3
    &&& (t.stage is AwaitPrint || t.stage is AwaitImage || t.stage is AwaitBits) ==> t.held == 4
    &&& !(t.stage is Start || t.stage is AwaitClientRect || t.stage is Releasing || t.stage is Done)
        ==> t.width > 0 && t.height > 0
}

/// Ending the capture with `outcome`: release the most recently acquired
/// resource still held, or finish once none is held.
pub open spec fn capture_go_release(t: CaptureTask, outcome: Result<(), CaptureError>) -> (CaptureTask, CaptureAction) {
    if t.held > 0 {
        (
            CaptureTask { stage: CaptureStage::Releasing, held: (t.held - 1) as u8, outcome, ..t },
            CaptureAction::Release(resource_at(t.held - 1)),
        )
    } else {
        (CaptureTask { stage: CaptureStage::Done, outcome, ..t }, CaptureAction::Finish(outcome))
    }
}

/// One step of a capture.
pub open spec fn capture_next(t: CaptureTask, e: CaptureEvent) -> (CaptureTask, CaptureAction) {
    let ok = e == CaptureEvent::Succeeded(true);
    match t.stage {
        CaptureStage::Start => if t.hwnd.spec_is_invalid() {
            capture_go_release(t, Err(CaptureError::NullWindow))
        } else {
            (CaptureTask { stage: CaptureStage::AwaitClientRect, ..t }, CaptureAction::GetClientRect)
        },
        CaptureStage::AwaitClientRect => match e {
            CaptureEvent::ClientRect(Some(r)) => {
                let width = (r.right - r.left) as i32;
                let height = (r.bottom - r.top) as i32;
                if width <= 0 || height <= 0 {
                    capture_go_release(t, Err(CaptureError::InvalidSize { width, height }))
                } else {
                    (CaptureTask { stage: CaptureStage::AwaitDc, width, height, ..t }, CaptureAction::GetDc)
                }
            },
            _ => capture_go_release(t, Err(CaptureError::ClientRect)),
        },
        CaptureStage::AwaitDc => if ok {
            (CaptureTask { stage: CaptureStage::AwaitMemoryDc, held: 1, ..t }, CaptureAction::CreateCompatibleDc)
        } else {
            capture_go_release(t, Err(CaptureError::GetDc))
        },
        CaptureStage::AwaitMemoryDc => if ok {
            (
                CaptureTask { stage: CaptureStage::AwaitBitmap, held: 2, ..t },
                CaptureAction::CreateCompatibleBitmap { width: t.width, height: t.height },
            )
        } else {
            capture_go_release(t, Err(CaptureError::CreateCompatibleDc))
        },
        CaptureStage::AwaitBitmap => if ok {
            (CaptureTask { stage: CaptureStage::AwaitSelect, held: 3, ..t }, CaptureAction::SelectBitmap)
        } else {
            capture_go_release(t, Err(CaptureError::CreateCompatibleBitmap))
        },
        CaptureStage::AwaitSelect => if ok {
            (
                CaptureTask { stage: CaptureStage::AwaitPrint, held: 4, ..t },
                CaptureAction::PrintWindow { flags: print_flags() },
            )
        } else {
            capture_go_release(t, Err(CaptureError::SelectObject))
        },
        CaptureStage::AwaitPrint => if ok {
            (
                CaptureTask { stage: CaptureStage::AwaitImage, ..t },
                CaptureAction::AllocateImage { width: t.width, height: t.height },
            )
        } else {
            capture_go_release(t, Err(CaptureError::PrintWindow))
        },
        CaptureStage::AwaitImage => if ok {
            (
                CaptureTask { stage: CaptureStage::AwaitBits, ..t },
                CaptureAction::CopyBits { header: bitmap_header_of(t.width, t.height), lines: t.height as u32 },
            )
        } else {
            capture_go_release(t, Err(CaptureError::AllocateImage))
        },
        CaptureStage::AwaitBits => if ok {
            capture_go_release(t, Ok(()))
        } else {
            capture_go_release(t, Err(CaptureError::GetDiBits))
        },
        CaptureStage::Releasing => capture_go_release(t, t.outcome),
        CaptureStage::Done => (t, CaptureAction::Finish(t.outcome)),
    }
}

/// How many steps at most remain before a capture finishes.
pub open spec fn capture_steps_left(t: CaptureTask) -> nat {
    match t.stage {
        CaptureStage::Start => 14,
        CaptureStage::AwaitClientRect => 13,
        CaptureStage::AwaitDc => 12,
        CaptureStage::AwaitMemoryDc => 11,
        CaptureStage::AwaitBitmap => 10,
        CaptureStage::AwaitSelect => 9,
        CaptureStage::AwaitPrint => 8,
        CaptureStage::AwaitImage => 7,
        CaptureStage::AwaitBits => 6,
        CaptureStage::Releasing => t.held as nat + 1,
        CaptureStage::Done => 0,
    }
}

impl CaptureTask {
    /// A capture of the given window, before any step.
    pub open spec fn spec_start(hwnd: WindowHandle) -> CaptureTask {
        CaptureTask { hwnd, stage: CaptureStage::Start, width: 0, height: 0, held: 0, outcome: Ok(()) }
    }

    /// A capture of the given window, before any step.
    pub fn new(hwnd: WindowHandle) -> (t: CaptureTask)
        ensures
            t == Self::spec_start(hwnd),
            capture_wf(t),
    {
        CaptureTask { hwnd, stage: CaptureStage::Start, width: 0, height: 0, held: 0, outcome: Ok(()) }
    }

    fn go_release(&mut self, outcome: Result<(), CaptureError>) -> (action: CaptureAction)
        requires
            old(self).held <= 4,
        ensures
            (*final(self), action) == capture_go_release(*old(self), outcome),
    {
        if self.held > 0 {
            let r = if self.held == 1 {
                GdiResource::WindowDc
            } else if self.held == 2 {
                GdiResource::MemoryDc
            } else if self.held == 3 {
                GdiResource::Bitmap
            } else {
                GdiResource::Selection
            };
            self.stage = CaptureStage::Releasing;
            self.held = self.held - 1;
            self.outcome = outcome;
            CaptureAction::Release(r)
        } else {
            self.stage = CaptureStage::Done;
            self.outcome = outcome;
            CaptureAction::Finish(outcome)
        }
    }

    /// Takes the report of the last action (`Completed` for the first step)
    /// and returns the next action; the caller carries it out and reports
    /// back, until the action is `Finish`.
    pub fn step(&mut self, event: CaptureEvent) -> (action: CaptureAction)
        requires
            capture_wf(*old(self)),
            capture_accepts(old(self).stage, event),
        ensures
            (*final(self), action) == capture_next(*old(self), event),
            capture_wf(*final(self)),
            final(self).hwnd == old(self).hwnd,
            action is Finish <==> final(self).stage is Done,
            action is Finish ==> final(self).held == 0,
            action matches CaptureAction::Release(r) ==> r == resource_at(old(self).held - 1)
                && final(self).held == old(self).held - 1,
            final(self).held > old(self).held ==> final(self).held == old(self).held + 1,
            !(action is Finish) ==> capture_steps_left(*final(self)) < capture_steps_left(*old(self)),
    {
        let ok = match event {
            CaptureEvent::Succeeded(b) => b,
            _ => false,
        };
        match self.stage {
            CaptureStage::Start => if self.hwnd.is_invalid() {
                self.go_release(Err(CaptureError::NullWindow))
            } else {
                self.stage = CaptureStage::AwaitClientRect;
                CaptureAction::GetClientRect
            },
            CaptureStage::AwaitClientRect => match event {
                CaptureEvent::ClientRect(Some(r)) => {
                    let width = r.right - r.left;
                    let height = r.bottom - r.top;
                    if width <= 0 || height <= 0 {
                        self.go_release(Err(CaptureError::InvalidSize { width, height }))
                    } else {
                        self.stage = CaptureStage::AwaitDc;
                        self.width = width;
                        self.height = height;
                        CaptureAction::GetDc
                    }
                },
                _ => self.go_release(Err(CaptureError::ClientRect)),
            },
            CaptureStage::AwaitDc => if ok {
                self.stage = CaptureStage::AwaitMemoryDc;
                self.held = 1;
                CaptureAction::CreateCompatibleDc
            } else {
                self.go_release(Err(CaptureError::GetDc))
            },
            CaptureStage::AwaitMemoryDc => if ok {
                self.stage = CaptureStage::AwaitBitmap;
                self.held = 2;
                CaptureAction::CreateCompatibleBitmap { width: self.width, height: self.height }
            } else {
                self.go_release(Err(CaptureError::CreateCompatibleDc))
            },
            CaptureStage::AwaitBitmap => if ok {
                self.stage = CaptureStage::AwaitSelect;
                self.held = 3;
                CaptureAction::SelectBitmap
            } else {
                self.go_release(Err(CaptureError::CreateCompatibleBitmap))
            },
            CaptureStage::AwaitSelect => if ok {
                self.stage = CaptureStage::AwaitPrint;
                self.held = 4;
                CaptureAction::PrintWindow { flags: PW_CLIENTONLY | PW_RENDERFULLCONTENT }
            } else {
                self.go_release(Err(CaptureError::SelectObject))
            },
            CaptureStage::AwaitPrint => if ok {
                self.stage = CaptureStage::AwaitImage;
                CaptureAction::AllocateImage { width: self.width, height: self.height }
            } else {
                self.go_release(Err(CaptureError::PrintWindow))
            },
            CaptureStage::AwaitImage => if ok {
                self.stage = CaptureStage::AwaitBits;
                let header = bitmap_header(self.width, self.height);
                CaptureAction::CopyBits { header, lines: self.height as u32 }
            } else {
                self.go_release(Err(CaptureError::AllocateImage))
            },
            CaptureStage::AwaitBits => if ok {
                self.go_release(Ok(()))
            } else {
                self.go_release(Err(CaptureError::GetDiBits))
            },
            CaptureStage::Releasing => {
                let outcome = self.outcome;
                self.go_release(outcome)
            },
            CaptureStage::Done => CaptureAction::Finish(self.outcome),
        }
    }
}

/// The bitmap that receives the pixels is top-down for every size: its
/// height is the negated client height, its width the client width, with
/// one plane of 32-bit uncompressed pixels.
pub proof fn lemma_bitmap_header_top_down(width: i32, height: i32)
    requires
        height > 0,
    ensures
        bitmap_header_of(width, height).height == -height,
        bitmap_header_of(width, height).height < 0,
        bitmap_header_of(width, height).width == width,
        bitmap_header_of(width, height).planes == 1,
        bitmap_header_of(width, height).bit_count == 32,
        bitmap_header_of(width, height).compression == 0,
{
}

/// Once the image is made, the pixels are copied as a top-down 32-bit
/// bitmap of the client size, all of its rows.
pub proof fn lemma_copy_bits_request(t: CaptureTask)
    requires
        t.stage is AwaitImage,
        capture_wf(t),
    ensures
        capture_next(t, CaptureEvent::Succeeded(true)).1 == (CaptureAction::CopyBits {
            header: BitmapHeader {
                width: t.width,
                height: -t.height as i32,
                planes: 1,
                bit_count: 32,
                compression: 0,
            },
            lines: t.height as u32,
        }),
        -t.height < 0,
{
}

/// The task and the actions after a series of reports.
pub open spec fn capture_run(t: CaptureTask, events: Seq<CaptureEvent>) -> (CaptureTask, Seq<CaptureAction>)
    decreases events.len(),
{
    if events.len() == 0 {
        (t, Seq::empty())
    } else {
        let first = capture_next(t, events[0]);
        let rest = capture_run(first.0, events.drop_first());
        (rest.0, seq![first.1] + rest.1)
    }
}

/// A capture in which every call succeeds: the client area is read, the
/// window DC, memory DC and bitmap are created and the bitmap selected, the
/// window is printed with `PW_CLIENTONLY | PW_RENDERFULLCONTENT`, the image
/// is made and filled from a top-down 32-bit bitmap, and the four resources
/// are then released in the reverse order of acquiring them before the
/// capture finishes successfully.
pub proof fn lemma_capture_success(hwnd: WindowHandle, r: Rect)
    requires
        !hwnd.spec_is_invalid(),
        0 < r.right - r.left <= i32::MAX,
        0 < r.bottom - r.top <= i32::MAX,
    ensures
        ({
            let w = (r.right - r.left) as i32;
            let h = (r.bottom - r.top) as i32;
            let yes = CaptureEvent::Succeeded(true);
            let events = seq![
                CaptureEvent::Completed,
                CaptureEvent::ClientRect(Some(r)),
                yes, yes, yes, yes, yes, yes, yes,
                CaptureEvent::Completed,
                CaptureEvent::Completed,
                CaptureEvent::Completed,
                CaptureEvent::Completed,
            ];
            let run = capture_run(CaptureTask::spec_start(hwnd), events);
            &&& run.1 == seq![
                CaptureAction::GetClientRect,
                CaptureAction::GetDc,
                CaptureAction::CreateCompatibleDc,
                CaptureAction::CreateCompatibleBitmap { width: w, height: h },
                CaptureAction::SelectBitmap,
                CaptureAction::PrintWindow { flags: print_flags() },
                CaptureAction::AllocateImage { width: w, height: h },
                CaptureAction::CopyBits { header: bitmap_header_of(w, h), lines: h as u32 },
                CaptureAction::Release(GdiResource::Selection),
                CaptureAction::Release(GdiResource::Bitmap),
                CaptureAction::Release(GdiResource::MemoryDc),
                CaptureAction::Release(GdiResource::WindowDc),
                CaptureAction::Finish(Ok(())),
            ]
            &&& run.0.held == 0
        }),
{
    reveal_with_fuel(capture_run, 14);
    let yes = CaptureEvent::Succeeded(true);
    let events = seq![
        CaptureEvent::Completed,
        CaptureEvent::ClientRect(Some(r)),
        yes, yes, yes, yes, yes, yes, yes,
        CaptureEvent::Completed,
        CaptureEvent::Completed,
        CaptureEvent::Completed,
        CaptureEvent::Completed,
    ];
    assert(events.drop_first().drop_first().drop_first().drop_first().drop_first().drop_first().drop_first()
        .drop_first().drop_first().drop_first().drop_first().drop_first().drop_first() =~= Seq::<
        CaptureEvent,
    >::empty());
}

/// The seven calls of a capture after the client area is read, in order.
pub open spec fn capture_calls(w: i32, h: i32) -> Seq<CaptureAction> {
    seq![
        CaptureAction::GetDc,
        CaptureAction::CreateCompatibleDc,
        CaptureAction::CreateCompatibleBitmap { width: w, height: h },
        CaptureAction::SelectBitmap,
        CaptureAction::PrintWindow { flags: print_flags() },
        CaptureAction::AllocateImage { width: w, height: h },
        CaptureAction::CopyBits { header: bitmap_header_of(w, h), lines: h as u32 },
    ]
}

/// The error that the failure of the `k`-th of those calls reports.
pub open spec fn capture_call_error(k: int) -> CaptureError {
    if k == 0 {
        CaptureError::GetDc
    } else if k == 1 {
        CaptureError::CreateCompatibleDc
    } else if k == 2 {
        CaptureError::CreateCompatibleBitmap
    } else if k == 3 {
        CaptureError::SelectObject
    } else if k == 4 {
        CaptureError::PrintWindow
    } else if k == 5 {
        CaptureError::AllocateImage
    } else {
        CaptureError::GetDiBits
    }
}

/// How many resources are held when the `k`-th call is made.
pub open spec fn held_before_call(k: int) -> nat {
    if k < 4 {
        k as nat
    } else {
        4
    }
}

/// Releasing the first `held` resources, the most recent first.
pub open spec fn releases_of(held: nat) -> Seq<CaptureAction> {
    Seq::new(held, |i: int| CaptureAction::Release(resource_at(held - 1 - i)))
}

/// The reports of a capture whose `k`-th call fails after the client area
/// was read as `r`: the earlier calls succeed, and each release completes.
pub open spec fn failing_capture_events(r: Rect, k: nat) -> Seq<CaptureEvent> {
    seq![CaptureEvent::Completed, CaptureEvent::ClientRect(Some(r))] + Seq::new(
        k,
        |i: int| CaptureEvent::Succeeded(true),
    ) + seq![CaptureEvent::Succeeded(false)] + Seq::new(held_before_call(k as int), |i: int| CaptureEvent::Completed)
}

/// A capture whose `k`-th call fails (counting from `GetDC`): the calls up
/// to the failing one are made, then exactly the resources acquired before
/// it are released, the most recent first, and the capture reports the
/// failing call's error.
pub proof fn lemma_capture_failure(hwnd: WindowHandle, r: Rect, k: nat)
    requires
        !hwnd.spec_is_invalid(),
        0 < r.right - r.left <= i32::MAX,
        0 < r.bottom - r.top <= i32::MAX,
        k < 7,
    ensures
        ({
            let w = (r.right - r.left) as i32;
            let h = (r.bottom - r.top) as i32;
            capture_run(CaptureTask::spec_start(hwnd), failing_capture_events(r, k)).1 == seq![
                CaptureAction::GetClientRect,
            ] + capture_calls(w, h).take((k + 1) as int) + releases_of(held_before_call(k as int)) + seq![
                CaptureAction::Finish(Err(capture_call_error(k as int))),
            ]
        }),
{
    reveal_with_fuel(capture_run, 14);
    let w = (r.right - r.left) as i32;
    let h = (r.bottom - r.top) as i32;
    let t = CaptureTask::spec_start(hwnd);
    let c = CaptureEvent::Completed;
    let rect = CaptureEvent::ClientRect(Some(r));
    let yes = CaptureEvent::Succeeded(true);
    let no = CaptureEvent::Succeeded(false);
    let calls = capture_calls(w, h);
    let events = failing_capture_events(r, k);
    let expected = seq![CaptureAction::GetClientRect] + calls.take((k + 1) as int) + releases_of(
        held_before_call(k as int),
    ) + seq![CaptureAction::Finish(Err(capture_call_error(k as int)))];
    let rel = |x: GdiResource| CaptureAction::Release(x);
    let fin = CaptureAction::Finish(Err(capture_call_error(k as int)));
    if k == 0 {
        assert(events =~= seq![c, rect, no]);
        assert(expected =~= seq![CaptureAction::GetClientRect, calls[0], fin]);
    } else if k == 1 {
        assert(events =~= seq![c, rect, yes, no, c]);
        assert(expected =~= seq![CaptureAction::GetClientRect, calls[0], calls[1], rel(GdiResource::WindowDc), fin]);
    } else if k == 2 {
        assert(events =~= seq![c, rect, yes, yes, no, c, c]);
        assert(expected =~= seq![
            CaptureAction::GetClientRect,
            calls[0],
            calls[1],
            calls[2],
            rel(GdiResource::MemoryDc),
            rel(GdiResource::WindowDc),
            fin,
        ]);
    } else if k == 3 {
        assert(events =~= seq![c, rect, yes, yes, yes, no, c, c, c]);
        assert(expected =~= seq![
            CaptureAction::GetClientRect,
            calls[0],
            calls[1],
            calls[2],
            calls[3],
            rel(GdiResource::Bitmap),
            rel(GdiResource::MemoryDc),
            rel(GdiResource::WindowDc),
            fin,
        ]);
    } else if k == 4 {
        assert(events =~= seq![c, rect, yes, yes, yes, yes, no, c, c, c, c]);
        assert(expected =~= seq![
            CaptureAction::GetClientRect,
            calls[0],
            calls[1],
            calls[2],
            calls[3],
            calls[4],
            rel(GdiResource::Selection),
            rel(GdiResource::Bitmap),
            rel(GdiResource::MemoryDc),
            rel(GdiResource::WindowDc),
            fin,
        ]);
    } else if k == 5 {
        assert(events =~= seq![c, rect, yes, yes, yes, yes, yes, no, c, c, c, c]);
        assert(expected =~= seq![
            CaptureAction::GetClientRect,
            calls[0],
            calls[1],
            calls[2],
            calls[3],
            calls[4],
            calls[5],
            rel(GdiResource::Selection),
            rel(GdiResource::Bitmap),
            rel(GdiResource::MemoryDc),
            rel(GdiResource::WindowDc),
            fin,
        ]);
    } else {
        assert(events =~= seq![c, rect, yes, yes, yes, yes, yes, yes, no, c, c, c, c]);
        assert(expected =~= seq![
            CaptureAction::GetClientRect,
            calls[0],
            calls[1],
            calls[2],
            calls[3],
            calls[4],
            calls[5],
            calls[6],
            rel(GdiResource::Selection),
            rel(GdiResource::Bitmap),
            rel(GdiResource::MemoryDc),
            rel(GdiResource::WindowDc),
            fin,
        ]);
    }
}

/// A window whose client area is empty is not captured: no resource is
/// acquired and the capture reports the size it found.
pub proof fn lemma_empty_client_area(t: CaptureTask, r: Rect)
    requires
        t.stage is AwaitClientRect,
        t.held == 0,
        capture_accepts(t.stage, CaptureEvent::ClientRect(Some(r))),
        r.right - r.left <= 0 || r.bottom - r.top <= 0,
    ensures
        capture_next(t, CaptureEvent::ClientRect(Some(r))).1 == CaptureAction::Finish(
            Err(CaptureError::InvalidSize {
                width: (r.right - r.left) as i32,
                height: (r.bottom - r.top) as i32,
            }),
        ),
        capture_next(t, CaptureEvent::ClientRect(Some(r))).0.held == 0,
{
}

/// A failure after some resources were acquired releases exactly those, the
/// most recent first, and then reports that failure.
pub proof fn lemma_failure_releases_held(t: CaptureTask, e: CaptureError)
    requires
        1 <= t.held <= 4,
    ensures
        capture_go_release(t, Err(e)).1 == CaptureAction::Release(resource_at(t.held - 1)),
        capture_go_release(t, Err(e)).0.outcome == Err::<(), CaptureError>(e),
        capture_go_release(t, Err(e)).0.stage is Releasing,
{
}

} // verus!
