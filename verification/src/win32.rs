//! What the window procedures and message loops of the Win32 programs
//! decide, message by message.

use vstd::prelude::*;

verus! {

/// `WM_CREATE`.
pub const WM_CREATE: u32 = 0x0001;

/// `WM_DESTROY`.
pub const WM_DESTROY: u32 = 0x0002;

/// `WM_PAINT`.
pub const WM_PAINT: u32 = 0x000F;

/// `WM_CLOSE`.
pub const WM_CLOSE: u32 = 0x0010;

/// `WM_QUIT`.
pub const WM_QUIT: u32 = 0x0012;

/// `WM_KEYDOWN`.
pub const WM_KEYDOWN: u32 = 0x0100;

/// `WM_KEYUP`.
pub const WM_KEYUP: u32 = 0x0101;

/// `ERROR_CLASS_ALREADY_EXISTS`.
pub const ERROR_CLASS_ALREADY_EXISTS: u32 = 0x582;

/// What a window procedure does about a message.
#[derive(Clone, Copy, Debug, PartialEq, Eq, Structural)]
pub enum MessageAction {
    /// Keep the pointer that was handed over when the window was created.
    Attach,
    /// Paint the window's contents.
    Paint,
    /// Post the quit message.
    Quit,
    /// Note that the window is closing and post the quit message.
    Close,
    /// Nothing is left to do; the message counts as handled.
    Done,
    /// Tell the sample that the key with this code went down.
    KeyDown(u8),
    /// Tell the sample that the key with this code came up.
    KeyUp(u8),
    /// Let the sample update itself and render a frame.
    Render,
    /// Leave the message to the system's default procedure.
    Default,
}

/// What a message loop does next.
#[derive(Clone, Copy, Debug, PartialEq, Eq, Structural)]
pub enum LoopStep {
    /// Leave the loop.
    Stop,
    /// Translate and dispatch the message, then go on.
    Dispatch,
    /// Translate and dispatch the message, then leave the loop.
    DispatchAndStop,
    /// No message is waiting: draw.
    Idle,
}

/// The window procedure of a program that draws from its message loop:
/// it only ends the program when the window is destroyed.
pub fn drawing_wndproc(message: u32) -> (action: MessageAction)
    ensures
        action == if message == WM_DESTROY {
            MessageAction::Quit
        } else {
            MessageAction::Default
        },
{
    if message == WM_DESTROY {
        MessageAction::Quit
    } else {
        MessageAction::Default
    }
}

/// The window procedure of a program that draws when it is asked to
/// paint.
pub fn painting_wndproc(message: u32) -> (action: MessageAction)
    ensures
        action == if message == WM_PAINT {
            MessageAction::Paint
        } else if message == WM_DESTROY {
            MessageAction::Quit
        } else {
            MessageAction::Default
        },
{
    if message == WM_PAINT {
        MessageAction::Paint
    } else if message == WM_DESTROY {
        MessageAction::Quit
    } else {
        MessageAction::Default
    }
}

/// The window procedure of a program that ends when its window is asked
/// to close, and has nothing to do on creation or destruction.
pub fn closing_wndproc(message: u32) -> (action: MessageAction)
    ensures
        action == if message == WM_CREATE || message == WM_DESTROY {
            MessageAction::Done
        } else if message == WM_CLOSE {
            MessageAction::Close
        } else {
            MessageAction::Default
        },
{
    if message == WM_CREATE {
        MessageAction::Done
    } else if message == WM_CLOSE {
        MessageAction::Close
    } else if message == WM_DESTROY {
        MessageAction::Done
    } else {
        MessageAction::Default
    }
}

/// The key code that a keyboard message carries: the lowest byte of its
/// first parameter.
pub open spec fn key_code(wparam: usize) -> u8 {
    (wparam % 256) as u8
}

/// What a sample does about a message: it hears of keys going down and
/// coming up and, where it `paints`, renders when asked to paint. Every
/// other message is left to the default procedure.
pub fn sample_wndproc(message: u32, wparam: usize, paints: bool) -> (action: MessageAction)
    ensures
        action == if message == WM_KEYDOWN {
            MessageAction::KeyDown(key_code(wparam))
        } else if message == WM_KEYUP {
            MessageAction::KeyUp(key_code(wparam))
        } else if message == WM_PAINT && paints {
            MessageAction::Render
        } else {
            MessageAction::Default
        },
{
    let key: u8 = (wparam & 0xFF) as u8;
    assert((wparam & 0xFF) as u8 == (wparam % 256) as u8) by (bit_vector);
    if message == WM_KEYDOWN {
        MessageAction::KeyDown(key)
    } else if message == WM_KEYUP {
        MessageAction::KeyUp(key)
    } else if message == WM_PAINT && paints {
        MessageAction::Render
    } else {
        MessageAction::Default
    }
}

/// The window procedure of the sample framework. On creation the sample
/// is attached to the window, on destruction the program ends, and in
/// between the sample gets the message, provided one is `attached`.
pub fn wndproc(message: u32, wparam: usize, attached: bool, paints: bool) -> (action:
    MessageAction)
    ensures
        action == if message == WM_CREATE {
            MessageAction::Attach
        } else if message == WM_DESTROY {
            MessageAction::Quit
        } else if attached && message == WM_KEYDOWN {
            MessageAction::KeyDown(key_code(wparam))
        } else if attached && message == WM_KEYUP {
            MessageAction::KeyUp(key_code(wparam))
        } else if attached && message == WM_PAINT && paints {
            MessageAction::Render
        } else {
            MessageAction::Default
        },
{
    if message == WM_CREATE {
        MessageAction::Attach
    } else if message == WM_DESTROY {
        MessageAction::Quit
    } else if attached {
        sample_wndproc(message, wparam, paints)
    } else {
        MessageAction::Default
    }
}

/// One turn of a message loop that looks for a message without waiting.
/// `message` is the message found, if any. A loop that `dispatches_quit`
/// hands the quit message on before it stops; the others stop at once.
pub fn message_loop_step(message: Option<u32>, dispatches_quit: bool) -> (step: LoopStep)
    ensures
        step == match message {
            None => LoopStep::Idle,
            Some(m) => if m != WM_QUIT {
                LoopStep::Dispatch
            } else if dispatches_quit {
                LoopStep::DispatchAndStop
            } else {
                LoopStep::Stop
            },
        },
{
    match message {
        None => LoopStep::Idle,
        Some(m) => {
            if m != WM_QUIT {
                LoopStep::Dispatch
            } else if dispatches_quit {
                LoopStep::DispatchAndStop
            } else {
                LoopStep::Stop
            }
        },
    }
}

/// Whether a window class can be used after an attempt to register it:
/// either the attempt gave an atom, or it failed only because the class
/// was there already. `last_error` is the system's error code after a
/// failed attempt.
pub fn class_is_usable(atom: u16, last_error: u32) -> (usable: bool)
    ensures
        usable == (atom != 0 || last_error == ERROR_CLASS_ALREADY_EXISTS),
{
    !(atom == 0 && last_error != ERROR_CLASS_ALREADY_EXISTS)
}

/// A rectangle in window coordinates.
#[derive(Clone, Copy, Debug, PartialEq, Eq, Structural)]
pub struct Rect {
    pub left: i32,
    pub top: i32,
    pub right: i32,
    pub bottom: i32,
}

/// The rectangle of a client area of the given size, with its corner at
/// the origin.
pub fn client_rect(width: u32, height: u32) -> (rect: Rect)
    requires
        width <= i32::MAX,
        height <= i32::MAX,
    ensures
        rect == (Rect { left: 0, top: 0, right: width as i32, bottom: height as i32 }),
{
    Rect { left: 0, top: 0, right: width as i32, bottom: height as i32 }
}

/// The width and height of a rectangle.
pub fn rect_size(rect: &Rect) -> (size: (i32, i32))
    requires
        i32::MIN <= rect.right - rect.left <= i32::MAX,
        i32::MIN <= rect.bottom - rect.top <= i32::MAX,
    ensures
        size.0 == rect.right - rect.left,
        size.1 == rect.bottom - rect.top,
{
    (rect.right - rect.left, rect.bottom - rect.top)
}

/// Which OpenGL context a program goes on with.
#[derive(Clone, Copy, Debug, PartialEq, Eq, Structural)]
pub struct ContextChoice {
    /// The handle of the context to use.
    pub context: usize,
    /// Whether the legacy context is to be given up for it.
    pub replaces_legacy: bool,
}

/// Chooses between the legacy context a program starts with and the
/// context it tried to create with the attributes it wants. `created` is
/// `None` where the system has no way to create such a context, and a
/// null handle where creating it failed; in both cases the legacy context
/// stays.
pub fn choose_context(legacy: usize, created: Option<usize>) -> (choice: ContextChoice)
    ensures
        choice.context == match created {
            Some(handle) if handle != 0 => handle,
            _ => legacy,
        },
        choice.replaces_legacy == (choice.context != legacy),
{
    let context: usize = match created {
        Some(handle) => if handle != 0 {
            handle
        } else {
            legacy
        },
        None => legacy,
    };
    ContextChoice { context, replaces_legacy: context != legacy }
}

} // verus!
