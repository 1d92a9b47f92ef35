use borderless::input::KeyCode;
use borderless::platform::{
    creation_result, ClassRegistry, ErrorKind, Margins, PlatformError, WindowStyle,
};
use borderless::region::{HitRegion, Point, Rect};
use borderless::render::{Input, Viewport};
use borderless::utils::str_to_utf16;
use borderless::window::{
    cursor_from, loop_action, Binding, Effect, LoopAction, Message, Outcome, Response, Window,
};

const HWND: isize = 0x1234;

fn passed_on() -> Response {
    Response { effect: Effect::Nothing, outcome: Outcome::Default }
}

fn bound(renderer: bool) -> Window {
    let mut w = Window::new(0x40_0000);
    w.handle_message(Message::NcCreate { handle: HWND });
    if renderer {
        w.set_state();
    }
    w
}

fn pack(x: i16, y: i16) -> isize {
    (((y as u16 as u32) << 16) | (x as u16 as u32)) as isize
}

#[test]
fn binding_on_creation() {
    let mut w = Window::new(7);
    assert_eq!(w.handle(), None);
    assert_eq!(w.binding, Binding::Unbound);
    assert_eq!(w.handle_message(Message::NcCreate { handle: HWND }), passed_on());
    assert_eq!(w.binding, Binding::Bound(HWND));
    assert_eq!(w.handle(), Some(HWND));
    assert_eq!(w.instance, 7);
    // Bound exactly once.
    w.handle_message(Message::NcCreate { handle: 99 });
    assert_eq!(w.handle(), Some(HWND));
}

#[test]
fn null_handle_does_not_bind() {
    let mut w = Window::new(7);
    w.handle_message(Message::NcCreate { handle: 0 });
    assert_eq!(w.binding, Binding::Unbound);
}

#[test]
fn messages_before_binding_pass_through() {
    let mut w = Window::new(7);
    assert_eq!(w.handle_message(Message::NcCalcSize), passed_on());
    assert_eq!(w.handle_message(Message::KeyDown { wparam: 27 }), passed_on());
    assert_eq!(w.handle_message(Message::Destroy), passed_on());
    assert_eq!(w.binding, Binding::Unbound);
}

#[test]
fn messages_after_release_pass_through() {
    let mut w = bound(true);
    assert_eq!(w.handle_message(Message::NcDestroy), passed_on());
    assert_eq!(w.binding, Binding::Released);
    assert_eq!(w.handle(), None);
    assert_eq!(w.handle_message(Message::Paint), passed_on());
    w.handle_message(Message::NcCreate { handle: HWND });
    assert_eq!(w.binding, Binding::Released);
}

#[test]
fn create_extends_frame() {
    let mut w = bound(false);
    assert_eq!(
        w.handle_message(Message::Create),
        Response { effect: Effect::ExtendFrame(WindowStyle::Borderless), outcome: Outcome::Default }
    );
}

#[test]
fn destroy_posts_quit_zero() {
    let mut w = bound(false);
    assert_eq!(
        w.handle_message(Message::Destroy),
        Response { effect: Effect::PostQuit(0), outcome: Outcome::Default }
    );
}

#[test]
fn paint_renders_only_with_renderer() {
    assert_eq!(bound(false).handle_message(Message::Paint).effect, Effect::Paint { render: false });
    assert_eq!(bound(true).handle_message(Message::Paint).effect, Effect::Paint { render: true });
}

#[test]
fn size_forwards_resize() {
    let rect = Rect { left: 10, top: 20, right: 810, bottom: 620 };
    assert_eq!(bound(true).handle_message(Message::Size { rect }).effect, Effect::Resize((800, 600)));
    assert_eq!(bound(false).handle_message(Message::Size { rect }).effect, Effect::Nothing);
}

#[test]
fn calc_size_is_swallowed() {
    assert_eq!(
        bound(false).handle_message(Message::NcCalcSize),
        Response { effect: Effect::Nothing, outcome: Outcome::Value(0) }
    );
}

#[test]
fn hit_test_message() {
    let rect = Rect { left: 0, top: 0, right: 800, bottom: 600 };
    let border = Point { x: 8, y: 8 };
    let mut w = bound(false);
    let msg = |x, y| Message::NcHitTest { lparam: pack(x, y), rect, border, titlebar: 30 };
    assert_eq!(w.handle_message(msg(400, 15)).outcome, Outcome::Hit(HitRegion::Caption));
    assert_eq!(w.handle_message(msg(2, 2)).outcome, Outcome::Hit(HitRegion::TopLeft));
    assert_eq!(w.handle_message(msg(795, 300)).outcome, Outcome::Hit(HitRegion::Right));
    assert_eq!(w.handle_message(msg(-5, 300)).outcome, Outcome::Hit(HitRegion::Left));
}

#[test]
fn pointer_events_are_forwarded() {
    let mut w = bound(true);
    assert_eq!(
        w.handle_message(Message::MouseMove { lparam: pack(12, 34) }).effect,
        Effect::Forward(Input::MouseMove((12, 34)))
    );
    assert_eq!(
        w.handle_message(Message::LButtonDown { lparam: pack(5, 6) }),
        Response { effect: Effect::Forward(Input::LeftClick((5, 6))), outcome: Outcome::Default }
    );
    assert_eq!(
        w.handle_message(Message::MouseMove { lparam: pack(-1, 2) }).effect,
        Effect::Forward(Input::MouseMove((u32::MAX, 2)))
    );
    assert_eq!(bound(false).handle_message(Message::MouseMove { lparam: pack(1, 2) }), passed_on());
}

#[test]
fn escape_always_quits() {
    for renderer in [false, true] {
        let mut w = bound(renderer);
        assert_eq!(
            w.handle_message(Message::KeyDown { wparam: 27 }),
            Response { effect: Effect::PostQuit(0), outcome: Outcome::Value(0) }
        );
    }
}

#[test]
fn other_keys_are_forwarded() {
    let mut w = bound(true);
    assert_eq!(
        w.handle_message(Message::KeyDown { wparam: 65 }),
        Response { effect: Effect::Forward(Input::KeyDown(KeyCode::A)), outcome: Outcome::Default }
    );
    assert_eq!(w.handle_message(Message::KeyDown { wparam: 3 }), passed_on());
    assert_eq!(bound(false).handle_message(Message::KeyDown { wparam: 65 }), passed_on());
}

#[test]
fn other_messages_pass_through() {
    assert_eq!(bound(true).handle_message(Message::Other), passed_on());
}

#[test]
fn cursor_unpacking() {
    assert_eq!(cursor_from(pack(400, 15)), Point { x: 400, y: 15 });
    assert_eq!(cursor_from(pack(-3, -4)), Point { x: -3, y: -4 });
}

#[test]
fn quit_carries_exit_code() {
    assert_eq!(loop_action(0, true, 5), LoopAction::Exit(5));
    assert_eq!(loop_action(0, false, 5), LoopAction::Exit(5));
    assert_eq!(loop_action(1, true, (-3i32) as usize), LoopAction::Exit(-3));
    assert_eq!(loop_action(1, false, 5), LoopAction::Dispatch);
    assert_eq!(loop_action(-1, false, 0), LoopAction::Dispatch);
}

#[test]
fn zero_resize_is_ignored() {
    let mut v = Viewport::new((800, 600));
    assert!(!v.resize((0, 600)));
    assert_eq!(v, Viewport { width: 800, height: 600 });
    assert!(!v.resize((800, 0)));
    assert!(!v.resize((0, 0)));
    assert_eq!(v, Viewport { width: 800, height: 600 });
    assert!(v.resize((1024, 768)));
    assert_eq!(v, Viewport { width: 1024, height: 768 });
}

#[test]
fn window_creation_result() {
    assert_eq!(creation_result(HWND, 0), Ok(HWND));
    let err = creation_result(0, 1407).unwrap_err();
    assert_eq!(err, PlatformError { code: 1407, kind: ErrorKind::CreateWindow });
    assert_eq!(err.hint(), "failed to create window");
}

#[test]
fn class_registration_is_idempotent() {
    let mut reg = ClassRegistry::new();
    let name = str_to_utf16("window class 01012");
    assert!(!reg.is_registered(&name));
    let err = reg.record(name.clone(), 0, 87).unwrap_err();
    assert_eq!(err, PlatformError { code: 87, kind: ErrorKind::RegisterClass });
    assert_eq!(err.hint(), "failed to register window class");
    assert!(!reg.is_registered(&name));
    assert_eq!(reg.record(name.clone(), 0xC001, 0), Ok(0xC001));
    assert!(reg.is_registered(&name));
    assert!(!reg.is_registered(&str_to_utf16("window class 01013")));
    assert!(!reg.is_registered(&str_to_utf16("window class 0101")));
}

#[test]
fn style_margins() {
    assert_eq!(WindowStyle::Borderless.margins(), Margins { left: 1, right: 1, top: 1, bottom: 1 });
    assert_eq!(
        WindowStyle::FlatBorderless.margins(),
        Margins { left: 0, right: 0, top: 0, bottom: 0 }
    );
}
