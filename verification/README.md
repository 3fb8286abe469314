# genshin_assistant

A dialogue skipper for Windows games, with helpers for delivering mouse
input to a window through window messages and for capturing a window's
client area.

`src/` is the verified library. The program's decisions stand there as
functions with contracts, apart from two one-line tests that stay beside
the calls they guard in `app/` (an empty window title reads as no title;
input is unblocked only when it was blocked). Where the program alternates calls into
the window system with decisions (touching, clicking, raising a window,
capturing), the library offers a task whose `step` takes the report of the
last call and returns the next call to make, so that each run is a sequence
of verified steps.

- `minwindef`, `winuser`: word packing (`MAKELONG`, `MAKEWPARAM`, `MAKELPARAM`).
- `win32`: the message numbers and flag values used.
- `window`: window handles, points, rectangles, message deliveries.
- `input_utils`: mouse contacts and their messages and `SendInput` flags,
  keyboard `LPARAM`s, window activation, bringing a window to the foreground.
- `message_input`: touch input through window messages.
- `print_window`: capturing a window with `PrintWindow`.
- `assistant`: scaling the skip button (with the `f64` roundings of the
  scaling formula reproduced in integer arithmetic), recognising the game windows,
  switching on and off, one left click.

`app/` is the program: it performs the Win32 calls, OpenCV allocation,
keyboard listening and sounds that the library's tasks ask for.
