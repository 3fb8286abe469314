//! The Win32 message numbers and flag values that the input logic uses,
//! with the values that the Windows SDK headers give them.
use vstd::prelude::*;

verus! {

/// `WM_ACTIVATE`: sent when a window is being activated.
pub const WM_ACTIVATE: u32 = 0x0006;
/// `WA_ACTIVE`: the `WM_ACTIVATE` state "activated by some method other than a click".
pub const WA_ACTIVE: u32 = 1;
/// `WM_MOUSEMOVE`.
pub const WM_MOUSEMOVE: u32 = 0x0200;
/// `WM_LBUTTONDOWN`.
pub const WM_LBUTTONDOWN: u32 = 0x0201;
/// `WM_LBUTTONUP`.
pub const WM_LBUTTONUP: u32 = 0x0202;
/// `WM_RBUTTONDOWN`.
pub const WM_RBUTTONDOWN: u32 = 0x0204;
/// `WM_RBUTTONUP`.
pub const WM_RBUTTONUP: u32 = 0x0205;
/// `WM_MBUTTONDOWN`.
pub const WM_MBUTTONDOWN: u32 = 0x0207;
/// `WM_MBUTTONUP`.
pub const WM_MBUTTONUP: u32 = 0x0208;
/// `WM_XBUTTONDOWN`.
pub const WM_XBUTTONDOWN: u32 = 0x020B;
/// `WM_XBUTTONUP`.
pub const WM_XBUTTONUP: u32 = 0x020C;

/// `MK_LBUTTON`: the key-state bit of the left button.
pub const MK_LBUTTON: u32 = 0x0001;
/// `MK_RBUTTON`: the key-state bit of the right button.
pub const MK_RBUTTON: u32 = 0x0002;
/// `MK_MBUTTON`: the key-state bit of the middle button.
pub const MK_MBUTTON: u32 = 0x0010;
/// `MK_XBUTTON1`: the key-state bit of the first extra button.
pub const MK_XBUTTON1: u32 = 0x0020;
/// `MK_XBUTTON2`: the key-state bit of the second extra button.
pub const MK_XBUTTON2: u32 = 0x0040;

/// `XBUTTON1`: names the first extra button in the high word of a `WPARAM`.
pub const XBUTTON1: u16 = 0x0001;
/// `XBUTTON2`: names the second extra button in the high word of a `WPARAM`.
pub const XBUTTON2: u16 = 0x0002;

/// `MOUSEEVENTF_LEFTDOWN`.
pub const MOUSEEVENTF_LEFTDOWN: u32 = 0x0002;
/// `MOUSEEVENTF_LEFTUP`.
pub const MOUSEEVENTF_LEFTUP: u32 = 0x0004;
/// `MOUSEEVENTF_RIGHTDOWN`.
pub const MOUSEEVENTF_RIGHTDOWN: u32 = 0x0008;
/// `MOUSEEVENTF_RIGHTUP`.
pub const MOUSEEVENTF_RIGHTUP: u32 = 0x0010;
/// `MOUSEEVENTF_MIDDLEDOWN`.
pub const MOUSEEVENTF_MIDDLEDOWN: u32 = 0x0020;
/// `MOUSEEVENTF_MIDDLEUP`.
pub const MOUSEEVENTF_MIDDLEUP: u32 = 0x0040;
/// `MOUSEEVENTF_XDOWN`.
pub const MOUSEEVENTF_XDOWN: u32 = 0x0080;
/// `MOUSEEVENTF_XUP`.
pub const MOUSEEVENTF_XUP: u32 = 0x0100;

/// `SWP_NOSIZE`: keep the current size.
pub const SWP_NOSIZE: u32 = 0x0001;
/// `SWP_NOMOVE`: keep the current position.
pub const SWP_NOMOVE: u32 = 0x0002;
/// `SWP_NOZORDER`: keep the current Z order.
pub const SWP_NOZORDER: u32 = 0x0004;
/// `SWP_NOACTIVATE`: do not activate the window.
pub const SWP_NOACTIVATE: u32 = 0x0010;
/// `SWP_SHOWWINDOW`: show the window.
pub const SWP_SHOWWINDOW: u32 = 0x0040;

/// `PW_CLIENTONLY`: `PrintWindow` copies only the client area.
pub const PW_CLIENTONLY: u32 = 0x0001;
/// `PW_RENDERFULLCONTENT`: `PrintWindow` also renders windows that are in the background.
pub const PW_RENDERFULLCONTENT: u32 = 0x0002;

/// `BI_RGB`: an uncompressed bitmap.
pub const BI_RGB: u32 = 0;

} // verus!
