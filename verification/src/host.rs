//! The event loop's rules: what each window or device event makes the application do.

use vstd::prelude::*;

verus! {

/// An event of the window or of a device, or the result of something that was done for one.
#[derive(Clone, Copy, Debug, PartialEq, Eq, Structural)]
pub enum HostEvent {
    /// The window was created and a backend was set up for it, or could not be.
    Resumed { backend_ready: bool },
    CloseRequested,
    RedrawRequested,
    /// The backend has drawn a frame, or failed to.
    Rendered { ok: bool },
    Resized,
    /// A key went down or up; the code of a key may be unknown.
    Key { code: Option<u32>, pressed: bool },
    /// A mouse button went down or up.
    MouseButton { left: bool, pressed: bool },
    /// The wheel was turned by a number of lines, given as the word of a single-precision number.
    Wheel { lines: u32 },
    /// The mouse was moved, by distances given as the words of double-precision numbers.
    MouseMotion { dx: u64, dy: u64 },
    Other,
}

/// What the application does.
#[derive(Clone, Copy, Debug, PartialEq, Eq, Structural)]
pub enum HostAction {
    /// Keep the new backend.
    KeepBackend,
    ReportInitError,
    ReportRenderError,
    /// Leave the event loop.
    Exit,
    Render,
    RequestRedraw,
    HandleResize,
    HandleKey { code: u32, pressed: bool },
    HandleMouseButton { pressed: bool },
    HandleScroll { lines: u32 },
    HandleMouseMotion { dx: u64, dy: u64 },
}

/// The application.
#[derive(Clone, Copy, Debug, PartialEq, Eq, Structural)]
pub struct App {
    /// There is a backend to draw with.
    pub has_backend: bool,
}

/// What the application does for an event.
pub open spec fn response(app: App, event: HostEvent) -> Seq<HostAction> {
    match event {
        HostEvent::Resumed { backend_ready } => if backend_ready {
            seq![HostAction::KeepBackend, HostAction::RequestRedraw]
        } else {
            seq![HostAction::ReportInitError, HostAction::Exit]
        },
        HostEvent::CloseRequested => seq![HostAction::Exit],
        HostEvent::Other => seq![],
        _ => if app.has_backend {
            backend_response(event)
        } else {
            seq![]
        },
    }
}

/// What the application does with its backend for an event.
pub open spec fn backend_response(event: HostEvent) -> Seq<HostAction> {
    match event {
        HostEvent::RedrawRequested => seq![HostAction::Render],
        HostEvent::Rendered { ok } => if ok {
            seq![HostAction::RequestRedraw]
        } else {
            seq![HostAction::ReportRenderError, HostAction::Exit, HostAction::RequestRedraw]
        },
        HostEvent::Resized => seq![HostAction::HandleResize],
        HostEvent::Key { code, pressed } => match code {
            Some(code) => seq![HostAction::HandleKey { code, pressed }],
            None => seq![],
        },
        HostEvent::MouseButton { left, pressed } => if left {
            seq![HostAction::HandleMouseButton { pressed }]
        } else {
            seq![]
        },
        HostEvent::Wheel { lines } => seq![HostAction::HandleScroll { lines }],
        HostEvent::MouseMotion { dx, dy } => seq![HostAction::HandleMouseMotion { dx, dy }],
        _ => seq![],
    }
}

impl App {
    /// An application that has no backend yet.
    pub fn new() -> (app: App)
        ensures
            !app.has_backend,
    {
        App { has_backend: false }
    }

    /// Decides what to do for an event.
    pub fn handle(&mut self, event: HostEvent) -> (actions: Vec<HostAction>)
        ensures
            actions@ == response(*old(self), event),
            final(self).has_backend == (old(self).has_backend || event == (HostEvent::Resumed {
                backend_ready: true,
            })),
            event == HostEvent::CloseRequested ==> actions@ == seq![HostAction::Exit],
            event == HostEvent::Other ==> actions@.len() == 0,
            event == (HostEvent::Resumed { backend_ready: true }) ==> actions@ == seq![
                HostAction::KeepBackend,
                HostAction::RequestRedraw,
            ],
            event == (HostEvent::Resumed { backend_ready: false }) ==> actions@ == seq![
                HostAction::ReportInitError,
                HostAction::Exit,
            ],
            !old(self).has_backend && !(event is Resumed) && event != HostEvent::CloseRequested
                ==> actions@.len() == 0,
            old(self).has_backend ==> {
                &&& event == HostEvent::RedrawRequested ==> actions@ == seq![HostAction::Render]
                &&& event == (HostEvent::Rendered { ok: true }) ==> actions@ == seq![
                    HostAction::RequestRedraw,
                ]
                &&& event == (HostEvent::Rendered { ok: false }) ==> actions@ == seq![
                    HostAction::ReportRenderError,
                    HostAction::Exit,
                    HostAction::RequestRedraw,
                ]
                &&& event == HostEvent::Resized ==> actions@ == seq![HostAction::HandleResize]
                &&& event matches HostEvent::Key { code: Some(code), pressed } ==> actions@ == seq![
                    HostAction::HandleKey { code, pressed },
                ]
                &&& event matches HostEvent::Key { code: None, .. } ==> actions@.len() == 0
                &&& event matches HostEvent::MouseButton { left, pressed } ==> actions@ == (
                if left {
                    seq![HostAction::HandleMouseButton { pressed }]
                } else {
                    seq![]
                })
                &&& event matches HostEvent::Wheel { lines } ==> actions@ == seq![
                    HostAction::HandleScroll { lines },
                ]
                &&& event matches HostEvent::MouseMotion { dx, dy } ==> actions@ == seq![
                    HostAction::HandleMouseMotion { dx, dy },
                ]
            },
    {
        let mut actions: Vec<HostAction> = Vec::new();
        match event {
            HostEvent::Resumed { backend_ready } => {
                if backend_ready {
                    self.has_backend = true;
                    actions.push(HostAction::KeepBackend);
                    actions.push(HostAction::RequestRedraw);
                } else {
                    actions.push(HostAction::ReportInitError);
                    actions.push(HostAction::Exit);
                }
            },
            HostEvent::CloseRequested => {
                actions.push(HostAction::Exit);
            },
            HostEvent::RedrawRequested => {
                if self.has_backend {
                    actions.push(HostAction::Render);
                }
            },
            HostEvent::Rendered { ok } => {
                if self.has_backend {
                    if !ok {
                        actions.push(HostAction::ReportRenderError);
                        actions.push(HostAction::Exit);
                    }
                    actions.push(HostAction::RequestRedraw);
                }
            },
            HostEvent::Resized => {
                if self.has_backend {
                    actions.push(HostAction::HandleResize);
                }
            },
            HostEvent::Key { code, pressed } => {
                if let Some(code) = code {
                    if self.has_backend {
                        actions.push(HostAction::HandleKey { code, pressed });
                    }
                }
            },
            HostEvent::MouseButton { left, pressed } => {
                if left && self.has_backend {
                    actions.push(HostAction::HandleMouseButton { pressed });
                }
            },
            HostEvent::Wheel { lines } => {
                if self.has_backend {
                    actions.push(HostAction::HandleScroll { lines });
                }
            },
            HostEvent::MouseMotion { dx, dy } => {
                if self.has_backend {
                    actions.push(HostAction::HandleMouseMotion { dx, dy });
                }
            },
            HostEvent::Other => {},
        }
        assert(actions@ =~= response(*old(self), event));
        actions
    }
}

/// The render loop keeps going: a frame that was drawn, well or not, is followed by a request for
/// the next one.
pub proof fn law_redraw_follows_render(app: App, ok: bool)
    requires
        app.has_backend,
    ensures
        response(app, HostEvent::RedrawRequested).contains(HostAction::Render),
        response(app, HostEvent::Rendered { ok }).contains(HostAction::RequestRedraw),
{
    let actions = response(app, HostEvent::Rendered { ok });
    assert(response(app, HostEvent::RedrawRequested)[0] == HostAction::Render);
    assert(actions[actions.len() - 1] == HostAction::RequestRedraw);
}

/// Without a backend only closing the window and a failed start have an effect, and that effect is
/// to leave the event loop.
pub proof fn law_nothing_without_backend(app: App, event: HostEvent)
    requires
        !app.has_backend,
        event != (HostEvent::Resumed { backend_ready: true }),
        response(app, event).len() > 0,
    ensures
        event == HostEvent::CloseRequested || event == (HostEvent::Resumed {
            backend_ready: false,
        }),
        response(app, event).contains(HostAction::Exit),
{
    let actions = response(app, event);
    assert(actions[actions.len() - 1] == HostAction::Exit);
}

/// Every key that is known, pressed or released, is forwarded: with its own code and state, once,
/// and nothing else happens. Keys that are not known have no effect.
pub proof fn law_keys_are_forwarded(app: App, code: u32, pressed: bool)
    requires
        app.has_backend,
    ensures
        response(app, HostEvent::Key { code: Some(code), pressed }).len() == 1,
        response(app, HostEvent::Key { code: Some(code), pressed })[0] == (HostAction::HandleKey {
            code,
            pressed,
        }),
        response(app, HostEvent::Key { code: None, pressed }).len() == 0,
{
}

/// The left mouse button, pressed or released, is forwarded with its own state; other buttons have
/// no effect.
pub proof fn law_left_button_is_forwarded(app: App, pressed: bool)
    requires
        app.has_backend,
    ensures
        response(app, HostEvent::MouseButton { left: true, pressed }).len() == 1,
        response(app, HostEvent::MouseButton { left: true, pressed })[0]
            == (HostAction::HandleMouseButton { pressed }),
        response(app, HostEvent::MouseButton { left: false, pressed }).len() == 0,
{
}

/// Turns of the wheel and movements of the mouse are forwarded as they are.
pub proof fn law_wheel_and_motion_are_forwarded(app: App, lines: u32, dx: u64, dy: u64)
    requires
        app.has_backend,
    ensures
        response(app, HostEvent::Wheel { lines }).len() == 1,
        response(app, HostEvent::Wheel { lines })[0] == (HostAction::HandleScroll { lines }),
        response(app, HostEvent::MouseMotion { dx, dy }).len() == 1,
        response(app, HostEvent::MouseMotion { dx, dy })[0] == (HostAction::HandleMouseMotion {
            dx,
            dy,
        }),
{
}

/// Different input is told apart: what is forwarded for one event is forwarded for no other.
pub proof fn law_input_is_told_apart(app: App, a: HostEvent, b: HostEvent)
    requires
        app.has_backend,
        a is Key || a is MouseButton || a is Wheel || a is MouseMotion || a is Resized,
        response(app, a).len() > 0,
        response(app, a) == response(app, b),
    ensures
        a == b,
{
    let first = response(app, b)[0];
    assert(response(app, a)[0] == first);
    match b {
        HostEvent::Key { code: Some(code), pressed } => {
            assert(first == HostAction::HandleKey { code, pressed });
        },
        HostEvent::MouseButton { left: true, pressed } => {
            assert(first == HostAction::HandleMouseButton { pressed });
        },
        HostEvent::Wheel { lines } => {
            assert(first == HostAction::HandleScroll { lines });
        },
        HostEvent::MouseMotion { dx, dy } => {
            assert(first == HostAction::HandleMouseMotion { dx, dy });
        },
        _ => {},
    }
}

/// A request to redraw is answered by drawing once; a new size is passed on once. A frame that was
/// drawn is followed by nothing but the request for the next one; a failed frame is reported before
/// the event loop is left.
pub proof fn law_frames_and_sizes(app: App)
    requires
        app.has_backend,
    ensures
        response(app, HostEvent::RedrawRequested).len() == 1,
        response(app, HostEvent::RedrawRequested)[0] == HostAction::Render,
        response(app, HostEvent::Resized).len() == 1,
        response(app, HostEvent::Resized)[0] == HostAction::HandleResize,
        response(app, HostEvent::Rendered { ok: true }).len() == 1,
        response(app, HostEvent::Rendered { ok: true })[0] == HostAction::RequestRedraw,
        response(app, HostEvent::Rendered { ok: false }).len() == 3,
        response(app, HostEvent::Rendered { ok: false })[0] == HostAction::ReportRenderError,
        response(app, HostEvent::Rendered { ok: false })[1] == HostAction::Exit,
        response(app, HostEvent::Rendered { ok: false })[2] == HostAction::RequestRedraw,
{
}

/// A backend that could be set up is kept and asked for its first frame; one that could not is
/// reported, and the event loop is left. Closing the window only leaves the event loop. None of this
/// depends on whether there was a backend before.
pub proof fn law_start_and_end(app: App)
    ensures
        response(app, HostEvent::Resumed { backend_ready: true }).len() == 2,
        response(app, HostEvent::Resumed { backend_ready: true })[0] == HostAction::KeepBackend,
        response(app, HostEvent::Resumed { backend_ready: true })[1] == HostAction::RequestRedraw,
        response(app, HostEvent::Resumed { backend_ready: false }).len() == 2,
        response(app, HostEvent::Resumed { backend_ready: false })[0]
            == HostAction::ReportInitError,
        response(app, HostEvent::Resumed { backend_ready: false })[1] == HostAction::Exit,
        response(app, HostEvent::CloseRequested).len() == 1,
        response(app, HostEvent::CloseRequested)[0] == HostAction::Exit,
        response(app, HostEvent::Other).len() == 0,
{
}

/// The event loop is left when the window is closed, when no backend can be set up and when
/// drawing fails; never else.
pub proof fn law_reasons_to_exit(app: App, event: HostEvent)
    ensures
        response(app, event).contains(HostAction::Exit) <==> {
            ||| event == HostEvent::CloseRequested
            ||| event == (HostEvent::Resumed { backend_ready: false })
            ||| app.has_backend && event == (HostEvent::Rendered { ok: false })
        },
{
    let actions = response(app, event);
    if event == HostEvent::CloseRequested {
        assert(actions[0] == HostAction::Exit);
    } else if event == (HostEvent::Resumed { backend_ready: false }) {
        assert(actions[1] == HostAction::Exit);
    } else if app.has_backend && event == (HostEvent::Rendered { ok: false }) {
        assert(actions[1] == HostAction::Exit);
    }
}

} // verus!
