//! Plain values for the window handles, points, rectangles and message
//! deliveries that the input logic decides on.
use vstd::prelude::*;

verus! {

/// A window handle, held as the address that the `HWND` wraps.
#[derive(Clone, Copy, Debug, PartialEq, Eq, Structural)]
pub struct WindowHandle {
    pub raw: usize,
}

impl WindowHandle {
    /// Whether the handle is null, which is what `HWND::is_invalid` tests.
    pub open spec fn spec_is_invalid(self) -> bool {
        self.raw == 0
    }

    /// Wraps an address.
    pub fn new(raw: usize) -> (h: WindowHandle)
        ensures
            h.raw == raw,
    {
        WindowHandle { raw }
    }

    /// The null handle.
    pub fn null() -> (h: WindowHandle)
        ensures
            h.raw == 0,
            h.spec_is_invalid(),
    {
        WindowHandle { raw: 0 }
    }

    /// Whether the handle is null.
    pub fn is_invalid(&self) -> (r: bool)
        ensures
            r == self.spec_is_invalid(),
    {
        self.raw == 0
    }
}

/// A point, as the Win32 `POINT`.
#[derive(Clone, Copy, Debug, PartialEq, Eq, Structural)]
pub struct Point {
    pub x: i32,
    pub y: i32,
}

/// A rectangle, as the Win32 `RECT`.
#[derive(Clone, Copy, Debug, PartialEq, Eq, Structural)]
pub struct Rect {
    pub left: i32,
    pub top: i32,
    pub right: i32,
    pub bottom: i32,
}

/// How a window message is handed to its window.
#[derive(Clone, Copy, Debug, PartialEq, Eq, Structural)]
pub enum DeliveryMethod {
    /// `SendMessageW`: wait for the window to process it.
    Send,
    /// `PostMessageW`: queue it and return.
    Post,
}

/// One window message, ready to be sent or posted.
#[derive(Clone, Copy, Debug, PartialEq, Eq, Structural)]
pub struct Delivery {
    pub method: DeliveryMethod,
    pub target: WindowHandle,
    pub message: u32,
    pub w_param: usize,
    pub l_param: isize,
}

} // verus!
