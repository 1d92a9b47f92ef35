use vstd::prelude::*;
use crate::input::{KeyCode, key_of};
use crate::platform::WindowStyle;
use crate::region::{HitRegion, Point, Rect, Region, extent, region_of};
use crate::render::Input;
use crate::utils::{GET_X_LPARAM, GET_Y_LPARAM, signed16};

verus! {

/// Whether a window object is associated with a platform window.
#[derive(Clone, Copy, Debug, PartialEq, Eq, Structural)]
pub enum Binding {
    /// No platform window yet: messages take the default path.
    Unbound,
    /// Bound to the platform window with this (non-null) handle.
    Bound(isize),
    /// The platform window was torn down: messages take the default path.
    Released,
}

/// The window object: the module it belongs to, its association with a
/// platform window, and whether a renderer is attached to it.
#[derive(Clone, Copy, Debug, PartialEq, Eq, Structural)]
pub struct Window {
    pub instance: isize,
    pub binding: Binding,
    pub renderer_attached: bool,
}

impl Window {
    /// A bound window's handle is never null.
    pub open spec fn wf(&self) -> bool {
        match self.binding {
            Binding::Bound(h) => h != 0,
            _ => true,
        }
    }
}

/// A platform message, with the values that its handling reads.
#[derive(Clone, Copy, Debug, PartialEq, Eq, Structural)]
pub enum Message {
    /// The platform window is about to be created and has this handle.
    NcCreate { handle: isize },
    Create,
    Destroy,
    /// The last message of a platform window.
    NcDestroy,
    Paint,
    /// The window was resized or is being resized; `rect` is its rectangle.
    Size { rect: Rect },
    NcCalcSize,
    /// A hit-test query for the cursor packed in `lparam`, with the window
    /// rectangle, border thickness and titlebar height at that moment.
    NcHitTest { lparam: isize, rect: Rect, border: Point, titlebar: i32 },
    LButtonDown { lparam: isize },
    MouseMove { lparam: isize },
    KeyDown { wparam: usize },
    Other,
}

/// Outside work that handling a message asks for.
#[derive(Clone, Copy, Debug, PartialEq, Eq)]
pub enum Effect {
    Nothing,
    /// Extend the frame into the client area in this style.
    ExtendFrame(WindowStyle),
    /// Post a quit request with this exit code.
    PostQuit(i32),
    /// Validate the window's area, and call the renderer's `render` if `render`.
    Paint { render: bool },
    /// Call the renderer's `resize` with this size.
    Resize((u32, u32)),
    /// Call the renderer's `input` with this event.
    Forward(Input),
}

/// What the window procedure returns for a message.
#[derive(Clone, Copy, Debug, PartialEq, Eq)]
pub enum Outcome {
    /// Not handled: the platform's default processing decides.
    Default,
    /// Handled, with this result value.
    Value(isize),
    /// Handled hit test, with this region.
    Hit(HitRegion),
}

/// The reply to one message.
#[derive(Clone, Copy, Debug, PartialEq, Eq)]
pub struct Response {
    pub effect: Effect,
    pub outcome: Outcome,
}

/// The cursor position packed in a message's `lparam`.
pub open spec fn cursor_of(lparam: isize) -> Point {
    let d = lparam as u32;
    Point { x: signed16((d % 0x10000) as int) as i32, y: signed16((d / 0x10000) as int) as i32 }
}

/// The coordinates handed to the renderer for a cursor position.
pub open spec fn coords_of(p: Point) -> (u32, u32) {
    (p.x as u32, p.y as u32)
}

pub open spec fn size_of_rect(r: Rect) -> (u32, u32) {
    (extent(r.left as int, r.right as int) as u32, extent(r.top as int, r.bottom as int) as u32)
}

pub open spec fn passed_on() -> Response {
    Response { effect: Effect::Nothing, outcome: Outcome::Default }
}

/// The effect `e` if a renderer is attached, no effect otherwise.
pub open spec fn to_renderer(w: Window, e: Effect) -> Effect {
    if w.renderer_attached {
        e
    } else {
        Effect::Nothing
    }
}

/// The window object after message `m`: a creation notification with a
/// non-null handle binds an unbound window; the final message releases a
/// bound one; nothing else changes it.
pub open spec fn next_window(w: Window, m: Message) -> Window {
    match m {
        Message::NcCreate { handle } => if w.binding == Binding::Unbound && handle != 0 {
            Window { binding: Binding::Bound(handle), ..w }
        } else {
            w
        },
        Message::NcDestroy => if w.binding is Bound {
            Window { binding: Binding::Released, ..w }
        } else {
            w
        },
        _ => w,
    }
}

/// The reply of window object `w` to message `m`. Unless the window is
/// bound, every message takes the default path.
pub open spec fn response_to(w: Window, m: Message) -> Response {
    if !(w.binding is Bound) {
        passed_on()
    } else {
        match m {
            Message::Create => Response {
                effect: Effect::ExtendFrame(WindowStyle::Borderless),
                outcome: Outcome::Default,
            },
            Message::Destroy => Response { effect: Effect::PostQuit(0), outcome: Outcome::Default },
            Message::Paint => Response {
                effect: Effect::Paint { render: w.renderer_attached },
                outcome: Outcome::Default,
            },
            Message::Size { rect } => Response {
                effect: to_renderer(w, Effect::Resize(size_of_rect(rect))),
                outcome: Outcome::Default,
            },
            Message::NcCalcSize => Response { effect: Effect::Nothing, outcome: Outcome::Value(0) },
            Message::NcHitTest { lparam, rect, border, titlebar } => Response {
                effect: Effect::Nothing,
                outcome: Outcome::Hit(region_of(cursor_of(lparam), rect, border, titlebar)),
            },
            Message::LButtonDown { lparam } => Response {
                effect: to_renderer(w, Effect::Forward(Input::LeftClick(coords_of(cursor_of(lparam))))),
                outcome: Outcome::Default,
            },
            Message::MouseMove { lparam } => Response {
                effect: to_renderer(w, Effect::Forward(Input::MouseMove(coords_of(cursor_of(lparam))))),
                outcome: Outcome::Default,
            },
            Message::KeyDown { wparam } => match key_of(wparam as int) {
                Some(KeyCode::Escape) => Response {
                    effect: Effect::PostQuit(0),
                    outcome: Outcome::Value(0),
                },
                Some(k) => Response {
                    effect: to_renderer(w, Effect::Forward(Input::KeyDown(k))),
                    outcome: Outcome::Default,
                },
                None => passed_on(),
            },
            _ => passed_on(),
        }
    }
}

impl Window {
    /// A window object of module `instance`, not yet bound to a platform
    /// window and with no renderer.
    pub fn new(instance: isize) -> (r: Window)
        ensures
            r.instance == instance,
            r.binding == Binding::Unbound,
            !r.renderer_attached,
            r.wf(),
    {
        Window { instance, binding: Binding::Unbound, renderer_attached: false }
    }

    /// Notes that a renderer is attached; attaching another replaces it.
    pub fn set_state(&mut self)
        ensures
            *final(self) == (Window { renderer_attached: true, ..*old(self) }),
    {
        self.renderer_attached = true;
    }

    /// The platform handle, while the window is bound.
    pub fn handle(&self) -> (r: Option<isize>)
        ensures
            r == (match self.binding {
                Binding::Bound(h) => Some(h),
                _ => None,
            }),
    {
        match self.binding {
            Binding::Bound(h) => Some(h),
            _ => None,
        }
    }

    /// Handles one message: binds the window on its creation notification,
    /// releases it on its final message, and otherwise, while bound, decides
    /// the outside work to do and the value to return.
    pub fn handle_message(&mut self, message: Message) -> (r: Response)
        ensures
            *final(self) == next_window(*old(self), message),
            r == response_to(*old(self), message),
            old(self).wf() ==> final(self).wf(),
    {
        match message {
            Message::NcCreate { handle } => {
                if self.binding == Binding::Unbound && handle != 0 {
                    self.binding = Binding::Bound(handle);
                }
                return Response { effect: Effect::Nothing, outcome: Outcome::Default };
            },
            Message::NcDestroy => {
                if let Binding::Bound(_) = self.binding {
                    self.binding = Binding::Released;
                }
                return Response { effect: Effect::Nothing, outcome: Outcome::Default };
            },
            _ => {},
        }
        if let Binding::Bound(_) = self.binding {
            self.wnd_proc(message)
        } else {
            Response { effect: Effect::Nothing, outcome: Outcome::Default }
        }
    }

    fn to_renderer(&self, e: Effect) -> (r: Effect)
        ensures
            r == to_renderer(*self, e),
    {
        if self.renderer_attached {
            e
        } else {
            Effect::Nothing
        }
    }

    fn wnd_proc(&self, message: Message) -> (r: Response)
        requires
            self.binding is Bound,
            !(message is NcCreate),
            !(message is NcDestroy),
        ensures
            r == response_to(*self, message),
    {
        let default = Response { effect: Effect::Nothing, outcome: Outcome::Default };
        match message {
            Message::Create => Response {
                effect: Effect::ExtendFrame(WindowStyle::Borderless),
                outcome: Outcome::Default,
            },
            Message::Destroy => Response { effect: Effect::PostQuit(0), outcome: Outcome::Default },
            Message::Paint => Response {
                effect: Effect::Paint { render: self.renderer_attached },
                outcome: Outcome::Default,
            },
            Message::Size { rect } => Response {
                effect: self.to_renderer(Effect::Resize(rect.size())),
                outcome: Outcome::Default,
            },
            Message::NcCalcSize => Response { effect: Effect::Nothing, outcome: Outcome::Value(0) },
            Message::NcHitTest { lparam, rect, border, titlebar } => {
                let cursor = cursor_from(lparam);
                Response {
                    effect: Effect::Nothing,
                    outcome: Outcome::Hit(Region::hit_test(cursor, rect, border, titlebar)),
                }
            },
            Message::LButtonDown { lparam } => {
                let p = cursor_from(lparam);
                Response {
                    effect: self.to_renderer(
                        Effect::Forward(Input::LeftClick((p.x as u32, p.y as u32))),
                    ),
                    outcome: Outcome::Default,
                }
            },
            Message::MouseMove { lparam } => {
                let p = cursor_from(lparam);
                Response {
                    effect: self.to_renderer(
                        Effect::Forward(Input::MouseMove((p.x as u32, p.y as u32))),
                    ),
                    outcome: Outcome::Default,
                }
            },
            Message::KeyDown { wparam } => match KeyCode::from_raw(wparam) {
                Some(key) => {
                    if key == KeyCode::Escape {
                        Response { effect: Effect::PostQuit(0), outcome: Outcome::Value(0) }
                    } else {
                        Response {
                            effect: self.to_renderer(Effect::Forward(Input::KeyDown(key))),
                            outcome: Outcome::Default,
                        }
                    }
                },
                None => default,
            },
            _ => default,
        }
    }
}

/// The cursor position packed in a message's `lparam`.
pub fn cursor_from(lparam: isize) -> (r: Point)
    ensures
        r == cursor_of(lparam),
{
    let d = lparam as u32;
    Point { x: GET_X_LPARAM(d), y: GET_Y_LPARAM(d) }
}

/// What the message loop does with the message it just fetched.
#[derive(Clone, Copy, Debug, PartialEq, Eq, Structural)]
pub enum LoopAction {
    /// End the process with this exit code; nothing more is dispatched.
    Exit(i32),
    /// Translate the message and dispatch it to the window procedure.
    Dispatch,
}

/// The message loop's decision for a fetched message: `fetched` is what the
/// fetch returned (zero when it fetched the quit message), `is_quit` whether
/// the message is the quit message, and `wparam` its first parameter, which
/// carries the exit code of a quit message.
pub fn loop_action(fetched: i32, is_quit: bool, wparam: usize) -> (r: LoopAction)
    ensures
        (fetched == 0 || is_quit) ==> r == LoopAction::Exit(wparam as i32),
        !(fetched == 0 || is_quit) ==> r == LoopAction::Dispatch,
{
    if fetched == 0 || is_quit {
        LoopAction::Exit(wparam as i32)
    } else {
        LoopAction::Dispatch
    }
}

/// Until a window is bound, and after it is released, every message takes
/// the default path with no outside work.
pub proof fn lemma_unbound_passes_on(w: Window, m: Message)
    requires
        !(w.binding is Bound),
    ensures
        response_to(w, m) == passed_on(),
{
}

/// A window is bound at most once: once bound, only its final message
/// changes the window object, and that releases it for good.
pub proof fn lemma_bound_once(w: Window, m: Message)
    requires
        w.binding is Bound,
    ensures
        !(m is NcDestroy) ==> next_window(w, m) == w,
        m is NcDestroy ==> next_window(w, m).binding == Binding::Released,
        next_window(w, m).instance == w.instance,
        next_window(next_window(w, m), m).binding != Binding::Unbound,
{
}

/// Pressing Escape in a bound window always asks to quit and returns zero,
/// whether or not a renderer is attached, and never forwards the key.
pub proof fn lemma_escape_quits(w: Window, wparam: usize)
    requires
        w.binding is Bound,
        key_of(wparam as int) == Some(KeyCode::Escape),
    ensures
        response_to(w, Message::KeyDown { wparam }) == (Response {
            effect: Effect::PostQuit(0),
            outcome: Outcome::Value(0),
        }),
{
}

} // verus!
