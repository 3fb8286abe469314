//! Window-message input helpers and a dialogue skipper, with the decisions
//! that drive the Win32 calls kept here as verified functions.
pub mod minwindef;
pub mod winuser;
pub mod win32;
pub mod window;
pub mod input_utils;
pub mod message_input;
pub mod print_window;
pub mod assistant;

pub use assistant::scale_coordinate;
