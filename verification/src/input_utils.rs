//! Mouse-button contacts and the window messages, `SendInput` flags and
//! keyboard `LPARAM`s that stand for them, plus the decisions behind
//! window activation and bringing a window to the foreground.
use vstd::prelude::*;
use crate::winuser::{make_wparam, wparam_of};
use crate::window::{Delivery, DeliveryMethod, WindowHandle};
use crate::win32::{
    SWP_NOMOVE, SWP_NOSIZE, SWP_SHOWWINDOW, WA_ACTIVE, WM_ACTIVATE,
    MK_LBUTTON, MK_MBUTTON, MK_RBUTTON, MK_XBUTTON1, MK_XBUTTON2, MOUSEEVENTF_LEFTDOWN,
    MOUSEEVENTF_LEFTUP, MOUSEEVENTF_MIDDLEDOWN, MOUSEEVENTF_MIDDLEUP, MOUSEEVENTF_RIGHTDOWN,
    MOUSEEVENTF_RIGHTUP, MOUSEEVENTF_XDOWN, MOUSEEVENTF_XUP, WM_LBUTTONDOWN, WM_LBUTTONUP,
    WM_MBUTTONDOWN, WM_MBUTTONUP, WM_MOUSEMOVE, WM_RBUTTONDOWN, WM_RBUTTONUP, WM_XBUTTONDOWN,
    WM_XBUTTONUP, XBUTTON1, XBUTTON2,
};

verus! {

/// A mouse button that a touch is carried out with.
#[derive(Clone, Copy, Debug, PartialEq, Eq, Structural)]
pub enum Contact {
    Left,
    Right,
    Middle,
    X1,
    X2,
}

/// A window message for a contact: its number and its `WPARAM`.
#[derive(Clone, Copy, Debug, PartialEq, Eq, Structural)]
pub struct MouseMessageInfo {
    pub message: u32,
    pub w_param: usize,
}

/// The `MOUSEEVENTF_*` flags and the button data of a contact, as
/// `SendInput` and `mouse_event` take them.
#[derive(Clone, Copy, Debug, PartialEq, Eq, Structural)]
pub struct MouseEventFlags {
    pub flags: u32,
    pub button_data: u32,
}

/// Whether the contact is one of the two extra buttons.
pub open spec fn is_extra_button(c: Contact) -> bool {
    c is X1 || c is X2
}

/// The `MK_*` key-state bit of the contact's button.
pub open spec fn button_state_bit(c: Contact) -> u32 {
    match c {
        Contact::Left => MK_LBUTTON,
        Contact::Right => MK_RBUTTON,
        Contact::Middle => MK_MBUTTON,
        Contact::X1 => MK_XBUTTON1,
        Contact::X2 => MK_XBUTTON2,
    }
}

/// The `XBUTTON*` number of an extra button; 0 for the other buttons.
pub open spec fn extra_button_number(c: Contact) -> u16 {
    match c {
        Contact::X1 => XBUTTON1,
        Contact::X2 => XBUTTON2,
        _ => 0,
    }
}

/// The `WM_*BUTTONDOWN` message of the contact's button.
pub open spec fn button_down_message(c: Contact) -> u32 {
    match c {
        Contact::Left => WM_LBUTTONDOWN,
        Contact::Right => WM_RBUTTONDOWN,
        Contact::Middle => WM_MBUTTONDOWN,
        Contact::X1 | Contact::X2 => WM_XBUTTONDOWN,
    }
}

/// The `WM_*BUTTONUP` message of the contact's button.
pub open spec fn button_up_message(c: Contact) -> u32 {
    match c {
        Contact::Left => WM_LBUTTONUP,
        Contact::Right => WM_RBUTTONUP,
        Contact::Middle => WM_MBUTTONUP,
        Contact::X1 | Contact::X2 => WM_XBUTTONUP,
    }
}

/// The `MOUSEEVENTF_*DOWN` flag of the contact's button.
pub open spec fn button_down_flag(c: Contact) -> u32 {
    match c {
        Contact::Left => MOUSEEVENTF_LEFTDOWN,
        Contact::Right => MOUSEEVENTF_RIGHTDOWN,
        Contact::Middle => MOUSEEVENTF_MIDDLEDOWN,
        Contact::X1 | Contact::X2 => MOUSEEVENTF_XDOWN,
    }
}

/// The `MOUSEEVENTF_*UP` flag of the contact's button.
pub open spec fn button_up_flag(c: Contact) -> u32 {
    match c {
        Contact::Left => MOUSEEVENTF_LEFTUP,
        Contact::Right => MOUSEEVENTF_RIGHTUP,
        Contact::Middle => MOUSEEVENTF_MIDDLEUP,
        Contact::X1 | Contact::X2 => MOUSEEVENTF_XUP,
    }
}

/// The press message: the button-down message with the button's key-state
/// bit, and for an extra button its number in the high word.
pub open spec fn mouse_down_message_of(c: Contact) -> MouseMessageInfo {
    MouseMessageInfo {
        message: button_down_message(c),
        w_param: if is_extra_button(c) {
            wparam_of(button_state_bit(c), extra_button_number(c) as u32)
        } else {
            button_state_bit(c) as usize
        },
    }
}

/// The move message: `WM_MOUSEMOVE` with the button's key-state bit.
pub open spec fn mouse_move_message_of(c: Contact) -> MouseMessageInfo {
    MouseMessageInfo { message: WM_MOUSEMOVE, w_param: button_state_bit(c) as usize }
}

/// The release message: the button-up message with no key-state bits, and
/// for an extra button its number in the high word.
pub open spec fn mouse_up_message_of(c: Contact) -> MouseMessageInfo {
    MouseMessageInfo {
        message: button_up_message(c),
        w_param: if is_extra_button(c) {
            wparam_of(0, extra_button_number(c) as u32)
        } else {
            0
        },
    }
}

/// The press flags: the button-down flag, with the extra button's number as
/// button data (0 for the other buttons).
pub open spec fn mouse_down_flags_of(c: Contact) -> MouseEventFlags {
    MouseEventFlags { flags: button_down_flag(c), button_data: extra_button_number(c) as u32 }
}

/// The release flags: the button-up flag, with the extra button's number as
/// button data (0 for the other buttons).
pub open spec fn mouse_up_flags_of(c: Contact) -> MouseEventFlags {
    MouseEventFlags { flags: button_up_flag(c), button_data: extra_button_number(c) as u32 }
}

/// The window message that presses the contact's button.
pub fn contact_to_mouse_down_message(contact: &Contact) -> (r: MouseMessageInfo)
    ensures
        r == mouse_down_message_of(*contact),
{
    match contact {
        Contact::Left => MouseMessageInfo { message: WM_LBUTTONDOWN, w_param: MK_LBUTTON as usize },
        Contact::Right => MouseMessageInfo { message: WM_RBUTTONDOWN, w_param: MK_RBUTTON as usize },
        Contact::Middle => MouseMessageInfo {
            message: WM_MBUTTONDOWN,
            w_param: MK_MBUTTON as usize,
        },
        Contact::X1 => MouseMessageInfo {
            message: WM_XBUTTONDOWN,
            w_param: make_wparam(MK_XBUTTON1, XBUTTON1 as u32),
        },
        Contact::X2 => MouseMessageInfo {
            message: WM_XBUTTONDOWN,
            w_param: make_wparam(MK_XBUTTON2, XBUTTON2 as u32),
        },
    }
}

/// The window message that moves the pointer with the contact's button held.
pub fn contact_to_mouse_move_message(contact: &Contact) -> (r: MouseMessageInfo)
    ensures
        r == mouse_move_message_of(*contact),
{
    match contact {
        Contact::Left => MouseMessageInfo { message: WM_MOUSEMOVE, w_param: MK_LBUTTON as usize },
        Contact::Right => MouseMessageInfo { message: WM_MOUSEMOVE, w_param: MK_RBUTTON as usize },
        Contact::Middle => MouseMessageInfo { message: WM_MOUSEMOVE, w_param: MK_MBUTTON as usize },
        Contact::X1 => MouseMessageInfo { message: WM_MOUSEMOVE, w_param: MK_XBUTTON1 as usize },
        Contact::X2 => MouseMessageInfo { message: WM_MOUSEMOVE, w_param: MK_XBUTTON2 as usize },
    }
}

/// The window message that releases the contact's button.
pub fn contact_to_mouse_up_message(contact: &Contact) -> (r: MouseMessageInfo)
    ensures
        r == mouse_up_message_of(*contact),
{
    match contact {
        Contact::Left => MouseMessageInfo { message: WM_LBUTTONUP, w_param: 0 },
        Contact::Right => MouseMessageInfo { message: WM_RBUTTONUP, w_param: 0 },
        Contact::Middle => MouseMessageInfo { message: WM_MBUTTONUP, w_param: 0 },
        Contact::X1 => MouseMessageInfo {
            message: WM_XBUTTONUP,
            w_param: make_wparam(0u32, XBUTTON1 as u32),
        },
        Contact::X2 => MouseMessageInfo {
            message: WM_XBUTTONUP,
            w_param: make_wparam(0u32, XBUTTON2 as u32),
        },
    }
}

/// The `SendInput` flags that press the contact's button.
pub fn contact_to_mouse_down_flags(contact: &Contact) -> (r: MouseEventFlags)
    ensures
        r == mouse_down_flags_of(*contact),
{
    match contact {
        Contact::Left => MouseEventFlags { flags: MOUSEEVENTF_LEFTDOWN, button_data: 0 },
        Contact::Right => MouseEventFlags { flags: MOUSEEVENTF_RIGHTDOWN, button_data: 0 },
        Contact::Middle => MouseEventFlags { flags: MOUSEEVENTF_MIDDLEDOWN, button_data: 0 },
        Contact::X1 => MouseEventFlags { flags: MOUSEEVENTF_XDOWN, button_data: XBUTTON1 as u32 },
        Contact::X2 => MouseEventFlags { flags: MOUSEEVENTF_XDOWN, button_data: XBUTTON2 as u32 },
    }
}

/// The `SendInput` flags that release the contact's button.
pub fn contact_to_mouse_up_flags(contact: &Contact) -> (r: MouseEventFlags)
    ensures
        r == mouse_up_flags_of(*contact),
{
    match contact {
        Contact::Left => MouseEventFlags { flags: MOUSEEVENTF_LEFTUP, button_data: 0 },
        Contact::Right => MouseEventFlags { flags: MOUSEEVENTF_RIGHTUP, button_data: 0 },
        Contact::Middle => MouseEventFlags { flags: MOUSEEVENTF_MIDDLEUP, button_data: 0 },
        Contact::X1 => MouseEventFlags { flags: MOUSEEVENTF_XUP, button_data: XBUTTON1 as u32 },
        Contact::X2 => MouseEventFlags { flags: MOUSEEVENTF_XUP, button_data: XBUTTON2 as u32 },
    }
}

impl Contact {
    /// The window message that presses this contact's button.
    pub fn to_mouse_down_message(&self) -> (r: MouseMessageInfo)
        ensures
            r == mouse_down_message_of(*self),
    {
        contact_to_mouse_down_message(self)
    }

    /// The window message that moves the pointer with this button held.
    pub fn to_mouse_move_message(&self) -> (r: MouseMessageInfo)
        ensures
            r == mouse_move_message_of(*self),
    {
        contact_to_mouse_move_message(self)
    }

    /// The window message that releases this contact's button.
    pub fn to_mouse_up_message(&self) -> (r: MouseMessageInfo)
        ensures
            r == mouse_up_message_of(*self),
    {
        contact_to_mouse_up_message(self)
    }

    /// The `SendInput` flags that press this contact's button.
    pub fn to_mouse_down_flags(&self) -> (r: MouseEventFlags)
        ensures
            r == mouse_down_flags_of(*self),
    {
        contact_to_mouse_down_flags(self)
    }

    /// The `SendInput` flags that release this contact's button.
    pub fn to_mouse_up_flags(&self) -> (r: MouseEventFlags)
        ensures
            r == mouse_up_flags_of(*self),
    {
        contact_to_mouse_up_flags(self)
    }
}

/// The press message carries, in its low word, the same key-state bits as
/// the move message of the same contact.
pub proof fn lemma_press_reports_button_state(c: Contact)
    ensures
        mouse_down_message_of(c).w_param as int % 0x10000 == mouse_move_message_of(c).w_param as int,
{
}

/// For an extra button, press and release name the same button in the high
/// word; for the other buttons the release carries no `WPARAM` at all.
pub proof fn lemma_release_names_pressed_button(c: Contact)
    ensures
        is_extra_button(c) ==> mouse_up_message_of(c).w_param as int / 0x10000
            == mouse_down_message_of(c).w_param as int / 0x10000,
        is_extra_button(c) ==> mouse_up_message_of(c).w_param as int / 0x10000
            == extra_button_number(c) as int,
        !is_extra_button(c) ==> mouse_up_message_of(c).w_param == 0,
{
}

/// Every release message directly follows its press message in the
/// numbering of window messages.
pub proof fn lemma_release_message_follows_press(c: Contact)
    ensures
        button_up_message(c) == button_down_message(c) + 1,
{
}

/// Every release flag is the press flag of the same button shifted left by
/// one, and press and release carry the same button data.
pub proof fn lemma_release_flag_pairs_press_flag(c: Contact)
    ensures
        mouse_up_flags_of(c).flags == mouse_down_flags_of(c).flags * 2,
        mouse_up_flags_of(c).button_data == mouse_down_flags_of(c).button_data,
{
}

/// Distinct contacts are pressed with distinct messages: the contact can be
/// told from its press message.
pub proof fn lemma_press_message_identifies_contact(a: Contact, b: Contact)
    requires
        mouse_down_message_of(a) == mouse_down_message_of(b),
    ensures
        a == b,
{
}

/// The `LPARAM` bits of a key press: repeat count 1 in bits 0-15 and the
/// low 16 bits of the scan code from bit 16 on.
pub open spec fn keydown_bits(scan_code: u32) -> u32 {
    (1 + (scan_code % 0x10000) * 0x10000) as u32
}

/// The `LPARAM` bits of a key release: repeat count 1 in bits 0-15, the low
/// 14 bits of the scan code in bits 16-29, and the previous-state (30) and
/// transition-state (31) bits set.
pub open spec fn keyup_bits(scan_code: u32) -> u32 {
    (1 + (scan_code % 0x4000) * 0x10000 + 0xC000_0000) as u32
}

/// The `LPARAM` of a `WM_KEYDOWN` for a key whose scan code (as
/// `MapVirtualKeyW(key, MAPVK_VK_TO_VSC)` gives it) is `scan_code`:
/// `1 | (scan_code << 16)`, widened to `isize` without sign extension.
pub fn make_keydown_lparam(scan_code: u32) -> (r: isize)
    ensures
        r == keydown_bits(scan_code) as isize,
{
    let bits: u32 = 1u32 | (scan_code << 16u32);
    assert(1u32 | (scan_code << 16u32) == 1 + (scan_code % 0x10000) * 0x10000) by (bit_vector);
    bits as isize
}

/// The `LPARAM` of a `WM_KEYUP` for a key whose scan code is `scan_code`:
/// `1 | (scan_code << 16) | (1 << 30) | (1 << 31)`, widened to `isize`
/// without sign extension.
pub fn make_keyup_lparam(scan_code: u32) -> (r: isize)
    ensures
        r == keyup_bits(scan_code) as isize,
{
    let bits: u32 = 1u32 | (scan_code << 16u32) | (1u32 << 30u32) | (1u32 << 31u32);
    assert(1u32 | (scan_code << 16u32) | (1u32 << 30u32) | (1u32 << 31u32)
        == 1 + (scan_code % 0x4000) * 0x10000 + 0xC000_0000) by (bit_vector);
    bits as isize
}

/// A key release differs from the press of the same key exactly in the
/// previous-state and transition-state bits, which it sets.
pub proof fn lemma_keyup_is_keydown_with_state_bits(scan_code: u32)
    ensures
        keyup_bits(scan_code) == keydown_bits(scan_code) | 0xC000_0000,
{
    let d: u32 = keydown_bits(scan_code);
    let u: u32 = keyup_bits(scan_code);
    assert(d as int == 1 + (scan_code % 0x10000) * 0x10000 ==> u as int == 1 + (scan_code % 0x4000)
        * 0x10000 + 0xC000_0000 ==> u == d | 0xC000_0000) by (bit_vector);
}

/// For a one-byte scan code, both `LPARAM`s hold repeat count 1 and the
/// scan code in bits 16-23, with bits 24-29 clear; the press leaves bits 30
/// and 31 clear and the release sets them.
pub proof fn lemma_key_lparam_fields(scan_code: u32)
    requires
        scan_code < 0x100,
    ensures
        keydown_bits(scan_code) % 0x10000 == 1,
        keyup_bits(scan_code) % 0x10000 == 1,
        (keydown_bits(scan_code) / 0x10000) % 0x4000 == scan_code,
        (keyup_bits(scan_code) / 0x10000) % 0x4000 == scan_code,
        keydown_bits(scan_code) / 0x4000_0000 == 0,
        keyup_bits(scan_code) / 0x4000_0000 == 3,
{
}

/// The message that tells a window it has been activated: `WM_ACTIVATE`
/// with `WA_ACTIVE` and no previous window, sent or posted.
pub open spec fn activation_of(hwnd: WindowHandle, use_post: bool) -> Delivery {
    Delivery {
        method: if use_post { DeliveryMethod::Post } else { DeliveryMethod::Send },
        target: hwnd,
        message: WM_ACTIVATE,
        w_param: WA_ACTIVE as usize,
        l_param: 0,
    }
}

/// What `send_activate_message` hands to the window: nothing for a null
/// handle, else `WM_ACTIVATE`/`WA_ACTIVE`, posted when `use_post` holds and
/// sent otherwise. The caller pauses 10 ms after handing it over.
pub fn activation_delivery(hwnd: WindowHandle, use_post: bool) -> (r: Option<Delivery>)
    ensures
        r == (if hwnd.spec_is_invalid() { None } else { Some(activation_of(hwnd, use_post)) }),
        r is None <==> hwnd.raw == 0,
        r matches Some(d) ==> d.target == hwnd && d.message == 6 && d.w_param == 1 && d.l_param == 0
            && (d.method == DeliveryMethod::Post <==> use_post),
{
    if hwnd.is_invalid() {
        return None;
    }
    let method = if use_post { DeliveryMethod::Post } else { DeliveryMethod::Send };
    Some(Delivery { method, target: hwnd, message: WM_ACTIVATE, w_param: WA_ACTIVE as usize, l_param: 0 })
}

/// The pause after activating a window, in milliseconds.
pub const ACTIVATION_PAUSE_MS: u64 = 10;

/// Where bringing a window to the foreground stands.
#[derive(Clone, Copy, Debug, PartialEq, Eq, Structural)]
pub enum ForegroundStage {
    Start,
    AwaitFirstCheck,
    AwaitRaise,
    AwaitRaisePause,
    AwaitFocus,
    AwaitFocusPause,
    AwaitSecondCheck,
    AwaitReraise,
    AwaitReraisePause,
    Done,
}

/// What the caller reports back after carrying out an action.
#[derive(Clone, Copy, Debug, PartialEq, Eq, Structural)]
pub enum ForegroundEvent {
    /// The action was carried out (or, at the start, nothing has been done yet).
    Completed,
    /// `GetForegroundWindow` returned this handle.
    Foreground(WindowHandle),
}

/// The outside work that bringing a window to the foreground asks for.
#[derive(Clone, Copy, Debug, PartialEq, Eq, Structural)]
pub enum ForegroundAction {
    /// Call `GetForegroundWindow` and report its result.
    QueryForeground,
    /// Call `SetWindowPos(hwnd, HWND_TOP, 0, 0, 0, 0, flags)`.
    Raise { flags: u32 },
    /// Pause for the given number of milliseconds.
    Sleep { millis: u64 },
    /// Call `SetForegroundWindow(hwnd)`.
    Focus,
    /// Nothing is left to do.
    Finish,
}

/// The steps of `ensure_foreground_and_topmost`: if the window is not in
/// the foreground, raise it to the top of the Z order, make it the
/// foreground window, and raise it once more if that did not take.
#[derive(Clone, Copy, Debug, PartialEq, Eq, Structural)]
pub struct ForegroundTask {
    pub hwnd: WindowHandle,
    pub stage: ForegroundStage,
}

/// Whether the event is the kind of report that the stage waits for.
pub open spec fn foreground_accepts(stage: ForegroundStage, event: ForegroundEvent) -> bool {
    if stage is AwaitFirstCheck || stage is AwaitSecondCheck {
        event is Foreground
    } else {
        event is Completed
    }
}

/// The next stage and the action it asks for.
pub open spec fn foreground_next(task: ForegroundTask, event: ForegroundEvent) -> (
    ForegroundStage,
    ForegroundAction,
) {
    match task.stage {
        ForegroundStage::Start => if task.hwnd.spec_is_invalid() {
            (ForegroundStage::Done, ForegroundAction::Finish)
        } else {
            (ForegroundStage::AwaitFirstCheck, ForegroundAction::QueryForeground)
        },
        ForegroundStage::AwaitFirstCheck => match event {
            ForegroundEvent::Foreground(f) => if f == task.hwnd {
                (ForegroundStage::Done, ForegroundAction::Finish)
            } else {
                (
                    ForegroundStage::AwaitRaise,
                    ForegroundAction::Raise { flags: SWP_NOMOVE | SWP_NOSIZE | SWP_SHOWWINDOW },
                )
            },
            ForegroundEvent::Completed => (ForegroundStage::Done, ForegroundAction::Finish),
        },
        ForegroundStage::AwaitRaise => (ForegroundStage::AwaitRaisePause, ForegroundAction::Sleep { millis: 5 }),
        ForegroundStage::AwaitRaisePause => (ForegroundStage::AwaitFocus, ForegroundAction::Focus),
        ForegroundStage::AwaitFocus => (ForegroundStage::AwaitFocusPause, ForegroundAction::Sleep { millis: 10 }),
        ForegroundStage::AwaitFocusPause => (ForegroundStage::AwaitSecondCheck, ForegroundAction::QueryForeground),
        ForegroundStage::AwaitSecondCheck => match event {
            ForegroundEvent::Foreground(f) => if f == task.hwnd {
                (ForegroundStage::Done, ForegroundAction::Finish)
            } else {
                (ForegroundStage::AwaitReraise, ForegroundAction::Raise { flags: SWP_NOMOVE | SWP_NOSIZE })
            },
            ForegroundEvent::Completed => (ForegroundStage::Done, ForegroundAction::Finish),
        },
        ForegroundStage::AwaitReraise => (ForegroundStage::AwaitReraisePause, ForegroundAction::Sleep { millis: 5 }),
        ForegroundStage::AwaitReraisePause => (ForegroundStage::Done, ForegroundAction::Finish),
        ForegroundStage::Done => (ForegroundStage::Done, ForegroundAction::Finish),
    }
}

/// How many steps at most remain before the task finishes.
pub open spec fn foreground_steps_left(stage: ForegroundStage) -> nat {
    match stage {
        ForegroundStage::Start => 9,
        ForegroundStage::AwaitFirstCheck => 8,
        ForegroundStage::AwaitRaise => 7,
        ForegroundStage::AwaitRaisePause => 6,
        ForegroundStage::AwaitFocus => 5,
        ForegroundStage::AwaitFocusPause => 4,
        ForegroundStage::AwaitSecondCheck => 3,
        ForegroundStage::AwaitReraise => 2,
        ForegroundStage::AwaitReraisePause => 1,
        ForegroundStage::Done => 0,
    }
}

impl ForegroundTask {
    /// A task for the given window, before any step.
    pub fn new(hwnd: WindowHandle) -> (t: ForegroundTask)
        ensures
            t.hwnd == hwnd,
            t.stage == ForegroundStage::Start,
    {
        ForegroundTask { hwnd, stage: ForegroundStage::Start }
    }

    /// Takes the report of the last action (`Completed` for the first step)
    /// and returns the next action; the caller carries it out and reports
    /// back, until the action is `Finish`.
    pub fn step(&mut self, event: ForegroundEvent) -> (action: ForegroundAction)
        requires
            foreground_accepts(old(self).stage, event),
        ensures
            final(self).hwnd == old(self).hwnd,
            (final(self).stage, action) == foreground_next(*old(self), event),
            action is Finish <==> final(self).stage is Done,
            !(action is Finish) ==> foreground_steps_left(final(self).stage) < foreground_steps_left(
                old(self).stage,
            ),
    {
        let (stage, action) = match self.stage {
            ForegroundStage::Start => if self.hwnd.is_invalid() {
                (ForegroundStage::Done, ForegroundAction::Finish)
            } else {
                (ForegroundStage::AwaitFirstCheck, ForegroundAction::QueryForeground)
            },
            ForegroundStage::AwaitFirstCheck => match event {
                ForegroundEvent::Foreground(f) => if f == self.hwnd {
                    (ForegroundStage::Done, ForegroundAction::Finish)
                } else {
                    (
                        ForegroundStage::AwaitRaise,
                        ForegroundAction::Raise { flags: SWP_NOMOVE | SWP_NOSIZE | SWP_SHOWWINDOW },
                    )
                },
                ForegroundEvent::Completed => (ForegroundStage::Done, ForegroundAction::Finish),
            },
            ForegroundStage::AwaitRaise => (ForegroundStage::AwaitRaisePause, ForegroundAction::Sleep { millis: 5 }),
            ForegroundStage::AwaitRaisePause => (ForegroundStage::AwaitFocus, ForegroundAction::Focus),
            ForegroundStage::AwaitFocus => (ForegroundStage::AwaitFocusPause, ForegroundAction::Sleep { millis: 10 }),
            ForegroundStage::AwaitFocusPause => (ForegroundStage::AwaitSecondCheck, ForegroundAction::QueryForeground),
            ForegroundStage::AwaitSecondCheck => match event {
                ForegroundEvent::Foreground(f) => if f == self.hwnd {
                    (ForegroundStage::Done, ForegroundAction::Finish)
                } else {
                    (ForegroundStage::AwaitReraise, ForegroundAction::Raise { flags: SWP_NOMOVE | SWP_NOSIZE })
                },
                ForegroundEvent::Completed => (ForegroundStage::Done, ForegroundAction::Finish),
            },
            ForegroundStage::AwaitReraise => (ForegroundStage::AwaitReraisePause, ForegroundAction::Sleep { millis: 5 }),
            ForegroundStage::AwaitReraisePause => (ForegroundStage::Done, ForegroundAction::Finish),
            ForegroundStage::Done => (ForegroundStage::Done, ForegroundAction::Finish),
        };
        self.stage = stage;
        action
    }
}

/// A window that is already the foreground window is left untouched: the
/// task asks once who is in the foreground and then finishes.
pub proof fn lemma_foreground_window_left_alone(hwnd: WindowHandle)
    requires
        !hwnd.spec_is_invalid(),
    ensures
        foreground_next(ForegroundTask { hwnd, stage: ForegroundStage::Start }, ForegroundEvent::Completed)
            == (ForegroundStage::AwaitFirstCheck, ForegroundAction::QueryForeground),
        foreground_next(
            ForegroundTask { hwnd, stage: ForegroundStage::AwaitFirstCheck },
            ForegroundEvent::Foreground(hwnd),
        ) == (ForegroundStage::Done, ForegroundAction::Finish),
{
}

/// For a null handle nothing is done at all.
pub proof fn lemma_foreground_null_window(hwnd: WindowHandle, event: ForegroundEvent)
    requires
        hwnd.spec_is_invalid(),
    ensures
        foreground_next(ForegroundTask { hwnd, stage: ForegroundStage::Start }, event)
            == (ForegroundStage::Done, ForegroundAction::Finish),
{
}

/// The window is raised a second time only when the second check finds it
/// still not in the foreground, and then without `SWP_SHOWWINDOW`.
pub proof fn lemma_foreground_second_raise(task: ForegroundTask, event: ForegroundEvent)
    requires
        task.stage is AwaitSecondCheck,
        foreground_accepts(task.stage, event),
    ensures
        foreground_next(task, event).1 is Raise <==> event != ForegroundEvent::Foreground(task.hwnd),
        foreground_next(task, event).1 is Raise ==> foreground_next(task, event).1
            == (ForegroundAction::Raise { flags: SWP_NOMOVE | SWP_NOSIZE }),
{
}

/// The messages and flags of every contact, by number: press, move and
/// release messages with their `WPARAM`s, and the `SendInput` press and
/// release flags with their button data.
pub proof fn lemma_contact_numbers(c: Contact)
    ensures
        c == Contact::Left ==> mouse_down_message_of(c) == (MouseMessageInfo { message: 0x0201, w_param: 0x0001 })
            && mouse_move_message_of(c) == (MouseMessageInfo { message: 0x0200, w_param: 0x0001 })
            && mouse_up_message_of(c) == (MouseMessageInfo { message: 0x0202, w_param: 0 })
            && mouse_down_flags_of(c) == (MouseEventFlags { flags: 0x0002, button_data: 0 })
            && mouse_up_flags_of(c) == (MouseEventFlags { flags: 0x0004, button_data: 0 }),
        c == Contact::Right ==> mouse_down_message_of(c) == (MouseMessageInfo { message: 0x0204, w_param: 0x0002 })
            && mouse_move_message_of(c) == (MouseMessageInfo { message: 0x0200, w_param: 0x0002 })
            && mouse_up_message_of(c) == (MouseMessageInfo { message: 0x0205, w_param: 0 })
            && mouse_down_flags_of(c) == (MouseEventFlags { flags: 0x0008, button_data: 0 })
            && mouse_up_flags_of(c) == (MouseEventFlags { flags: 0x0010, button_data: 0 }),
        c == Contact::Middle ==> mouse_down_message_of(c) == (MouseMessageInfo { message: 0x0207, w_param: 0x0010 })
            && mouse_move_message_of(c) == (MouseMessageInfo { message: 0x0200, w_param: 0x0010 })
            && mouse_up_message_of(c) == (MouseMessageInfo { message: 0x0208, w_param: 0 })
            && mouse_down_flags_of(c) == (MouseEventFlags { flags: 0x0020, button_data: 0 })
            && mouse_up_flags_of(c) == (MouseEventFlags { flags: 0x0040, button_data: 0 }),
        c == Contact::X1 ==> mouse_down_message_of(c) == (MouseMessageInfo { message: 0x020B, w_param: 0x0001_0020 })
            && mouse_move_message_of(c) == (MouseMessageInfo { message: 0x0200, w_param: 0x0020 })
            && mouse_up_message_of(c) == (MouseMessageInfo { message: 0x020C, w_param: 0x0001_0000 })
            && mouse_down_flags_of(c) == (MouseEventFlags { flags: 0x0080, button_data: 1 })
            && mouse_up_flags_of(c) == (MouseEventFlags { flags: 0x0100, button_data: 1 }),
        c == Contact::X2 ==> mouse_down_message_of(c) == (MouseMessageInfo { message: 0x020B, w_param: 0x0002_0040 })
            && mouse_move_message_of(c) == (MouseMessageInfo { message: 0x0200, w_param: 0x0040 })
            && mouse_up_message_of(c) == (MouseMessageInfo { message: 0x020C, w_param: 0x0002_0000 })
            && mouse_down_flags_of(c) == (MouseEventFlags { flags: 0x0080, button_data: 2 })
            && mouse_up_flags_of(c) == (MouseEventFlags { flags: 0x0100, button_data: 2 }),
{
}

/// The raising calls by number: the first raise keeps position and size and
/// shows the window (`0x43`), the second only keeps position and size (`3`).
pub proof fn lemma_raise_flags(task: ForegroundTask, f: WindowHandle)
    requires
        f != task.hwnd,
    ensures
        task.stage is AwaitFirstCheck ==> foreground_next(task, ForegroundEvent::Foreground(f)).1
            == (ForegroundAction::Raise { flags: 0x43 }),
        task.stage is AwaitSecondCheck ==> foreground_next(task, ForegroundEvent::Foreground(f)).1
            == (ForegroundAction::Raise { flags: 0x03 }),
{
    assert(0x0002u32 | 0x0001u32 | 0x0040u32 == 0x43u32) by (bit_vector);
    assert(0x0002u32 | 0x0001u32 == 0x03u32) by (bit_vector);
}

} // verus!
