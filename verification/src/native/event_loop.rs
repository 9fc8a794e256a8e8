//! What the native event loop does in answer to each event it receives.
//!
//! The loop itself (the window system, the renderer and the widgets) runs
//! outside; it asks [`LoopState::step`] what to do and performs the
//! returned actions in order.

use vstd::prelude::*;

use super::UserEvent;

verus! {

/// The kind of a window event, as far as the loop tells them apart.
#[derive(Debug, Clone, Copy, PartialEq, Eq, Structural)]
pub enum WindowEventKind {
    /// The user asked to close the window.
    CloseRequested,
    /// The window was destroyed.
    Destroyed,
    /// The window should be drawn.
    RedrawRequested,
    /// The window changed size.
    Resized,
    /// Any other input, handed on to egui.
    Other,
}

/// An event of the native event loop.
#[derive(Debug, Clone, Copy, PartialEq, Eq, Structural)]
pub enum LoopEvent {
    /// The application may create windows (again).
    Resumed,
    /// The application must give up its windows.
    Suspended,
    /// A repaint timer set earlier ran out.
    ResumeTimeReached,
    /// An event sent through a [`Handle`](super::Handle) or by egui.
    User(UserEvent),
    /// An event of a window; `ours` tells whether it is the application's
    /// window.
    Window { ours: bool, kind: WindowEventKind },
    /// The event loop is about to end.
    Exiting,
}

/// How the loop waits after a frame.
#[derive(Debug, Clone, Copy, PartialEq, Eq, Structural)]
pub enum ControlFlowChoice {
    /// Draw again at once.
    Poll,
    /// Wait until this many nanoseconds from now (or, where the clock
    /// cannot count that far, for the next event).
    WaitFor(u64),
    /// Wait for the next event.
    Wait,
}

/// One thing the loop does.
#[derive(Debug, Clone, Copy, PartialEq, Eq, Structural)]
pub enum LoopAction {
    /// Create the window and its rendering surface, and mark it visible.
    CreateWindow,
    /// Destroy the window and its rendering surface.
    DestroyWindow,
    /// Mark the window hidden on the handle.
    MarkHidden,
    /// Leave the event loop.
    ExitLoop,
    /// Process queued widget messages and tick the widget tree, showing a
    /// failure in the error dialog.
    UpdateRoot,
    /// Ask the window to be drawn.
    RequestRedraw,
    /// Tell the root widget that the user asked to close the window.
    CloseRoot,
    /// Draw a frame, then wait as given.
    Redraw(ControlFlowChoice),
    /// Resize the rendering surface.
    ResizeSurface,
    /// Hand the event to egui, and ask for a redraw where egui wants one.
    ForwardToEgui,
    /// Shut the widget tree down.
    ShutdownRoot,
}

/// How the loop waits after drawing with this repaint delay: at once for
/// no delay, for the delay, or for the next event where the delay cannot be
/// counted.
pub open spec fn control_flow_for(delay: Option<u64>) -> ControlFlowChoice {
    match delay {
        Some(d) => if d == 0 { ControlFlowChoice::Poll } else { ControlFlowChoice::WaitFor(d) },
        None => ControlFlowChoice::Wait,
    }
}

/// The window after an event, and the actions the loop performs for it.
///
/// The window is `None` when there is none, and otherwise holds the repaint
/// delay that egui asked for last (`None` for none yet, which a new window
/// starts with).
pub open spec fn step_spec(window: Option<Option<u64>>, e: LoopEvent) -> (Option<Option<u64>>, Seq<LoopAction>) {
    match e {
        LoopEvent::Resumed | LoopEvent::User(UserEvent::Show) => match window {
            Some(_) => (window, Seq::empty()),
            None => (Some(None), seq![LoopAction::CreateWindow]),
        },
        LoopEvent::Suspended | LoopEvent::User(UserEvent::Hide) => match window {
            Some(_) => (None, seq![LoopAction::DestroyWindow, LoopAction::MarkHidden]),
            None => (None, seq![LoopAction::MarkHidden]),
        },
        LoopEvent::ResumeTimeReached => match window {
            Some(_) => (window, seq![LoopAction::RequestRedraw]),
            None => (window, Seq::empty()),
        },
        LoopEvent::User(UserEvent::Exit) => (window, seq![LoopAction::ExitLoop]),
        LoopEvent::User(UserEvent::RequestRepaint(d)) => match window {
            Some(_) => (Some(d), Seq::empty()),
            None => (window, Seq::empty()),
        },
        LoopEvent::User(UserEvent::MessageReady) => match window {
            Some(_) => (window, seq![LoopAction::UpdateRoot, LoopAction::RequestRedraw]),
            None => (window, seq![LoopAction::UpdateRoot]),
        },
        LoopEvent::Window { ours, kind } => match window {
            Some(delay) => if !ours {
                (window, Seq::empty())
            } else {
                match kind {
                    WindowEventKind::CloseRequested => (window, seq![LoopAction::CloseRoot]),
                    WindowEventKind::Destroyed => (None, seq![LoopAction::DestroyWindow, LoopAction::MarkHidden]),
                    WindowEventKind::RedrawRequested => (window, seq![LoopAction::Redraw(control_flow_for(delay))]),
                    WindowEventKind::Resized => (window, seq![LoopAction::ResizeSurface, LoopAction::ForwardToEgui]),
                    WindowEventKind::Other => (window, seq![LoopAction::ForwardToEgui]),
                }
            },
            None => (window, Seq::empty()),
        },
        LoopEvent::Exiting => match window {
            Some(_) => (None, seq![LoopAction::ShutdownRoot, LoopAction::DestroyWindow, LoopAction::MarkHidden]),
            None => (None, seq![LoopAction::ShutdownRoot, LoopAction::MarkHidden]),
        },
    }
}

/// The state that the loop's decisions depend on.
pub struct LoopState {
    window: Option<Option<u64>>,
}

impl LoopState {
    /// Whether there is a window, and the repaint delay it was last given.
    pub closed spec fn window(&self) -> Option<Option<u64>> {
        self.window
    }

    /// The state before any event: no window.
    pub fn new() -> (r: Self)
        ensures
            r.window() is None,
    {
        LoopState { window: None }
    }

    /// Whether a window exists.
    pub fn has_window(&self) -> (r: bool)
        ensures
            r == self.window() is Some,
    {
        self.window.is_some()
    }

    /// Decides what the loop does for `event` and moves to the next state
    /// (see [`step_spec`]).
    pub fn step(&mut self, event: LoopEvent) -> (r: Vec<LoopAction>)
        ensures
            (final(self).window(), r@) == step_spec(old(self).window(), event),
    {
        let mut out: Vec<LoopAction> = Vec::new();
        match event {
            LoopEvent::Resumed | LoopEvent::User(UserEvent::Show) => {
                if self.window.is_none() {
                    self.window = Some(None);
                    out.push(LoopAction::CreateWindow);
                }
            },
            LoopEvent::Suspended | LoopEvent::User(UserEvent::Hide) => {
                if self.window.is_some() {
                    out.push(LoopAction::DestroyWindow);
                }
                self.window = None;
                out.push(LoopAction::MarkHidden);
            },
            LoopEvent::ResumeTimeReached => {
                if self.window.is_some() {
                    out.push(LoopAction::RequestRedraw);
                }
            },
            LoopEvent::User(UserEvent::Exit) => {
                out.push(LoopAction::ExitLoop);
            },
            LoopEvent::User(UserEvent::RequestRepaint(d)) => {
                if self.window.is_some() {
                    self.window = Some(d);
                }
            },
            LoopEvent::User(UserEvent::MessageReady) => {
                out.push(LoopAction::UpdateRoot);
                if self.window.is_some() {
                    out.push(LoopAction::RequestRedraw);
                }
            },
            LoopEvent::Window { ours, kind } => {
                match self.window {
                    Some(delay) => {
                        if ours {
                            match kind {
                                WindowEventKind::CloseRequested => out.push(LoopAction::CloseRoot),
                                WindowEventKind::Destroyed => {
                                    self.window = None;
                                    out.push(LoopAction::DestroyWindow);
                                    out.push(LoopAction::MarkHidden);
                                },
                                WindowEventKind::RedrawRequested => {
                                    out.push(LoopAction::Redraw(control_flow(delay)));
                                },
                                WindowEventKind::Resized => {
                                    out.push(LoopAction::ResizeSurface);
                                    out.push(LoopAction::ForwardToEgui);
                                },
                                WindowEventKind::Other => out.push(LoopAction::ForwardToEgui),
                            }
                        }
                    },
                    None => {},
                }
            },
            LoopEvent::Exiting => {
                out.push(LoopAction::ShutdownRoot);
                if self.window.is_some() {
                    out.push(LoopAction::DestroyWindow);
                }
                self.window = None;
                out.push(LoopAction::MarkHidden);
            },
        }
        assert(out@ =~= step_spec(old(self).window(), event).1);
        out
    }
}

/// How the loop waits after drawing with this repaint delay (see
/// [`control_flow_for`]).
pub fn control_flow(delay: Option<u64>) -> (r: ControlFlowChoice)
    ensures
        r == control_flow_for(delay),
{
    match delay {
        Some(d) => if d == 0 { ControlFlowChoice::Poll } else { ControlFlowChoice::WaitFor(d) },
        None => ControlFlowChoice::Wait,
    }
}

/// Showing the window creates it once: after a `Show` a window exists, and
/// a second `Show` does nothing.
pub proof fn show_is_idempotent(window: Option<Option<u64>>)
    ensures
        step_spec(window, LoopEvent::User(UserEvent::Show)).0 is Some,
        step_spec(step_spec(window, LoopEvent::User(UserEvent::Show)).0, LoopEvent::User(UserEvent::Show))
            == (step_spec(window, LoopEvent::User(UserEvent::Show)).0, Seq::<LoopAction>::empty()),
{
}

/// Hiding destroys the window (where there is one) and marks it hidden
/// while the loop keeps running; showing it afterwards creates a new window
/// that has been given no repaint delay yet.
pub proof fn hide_then_show_recreates(window: Option<Option<u64>>)
    ensures
        step_spec(window, LoopEvent::User(UserEvent::Hide)).0 is None,
        step_spec(window, LoopEvent::User(UserEvent::Hide)).1.last() == LoopAction::MarkHidden,
        !step_spec(window, LoopEvent::User(UserEvent::Hide)).1.contains(LoopAction::ExitLoop),
        step_spec(step_spec(window, LoopEvent::User(UserEvent::Hide)).0, LoopEvent::User(UserEvent::Show))
            == (Some(None::<u64>), seq![LoopAction::CreateWindow]),
{
    let r = step_spec(window, LoopEvent::User(UserEvent::Hide)).1;
    if window is Some {
        assert(r =~= seq![LoopAction::DestroyWindow, LoopAction::MarkHidden]);
        assert(r[0] != LoopAction::ExitLoop && r[1] != LoopAction::ExitLoop);
    } else {
        assert(r =~= seq![LoopAction::MarkHidden]);
        assert(r[0] != LoopAction::ExitLoop);
    }
}

/// Every event but a user's request to leave keeps the loop running.
pub proof fn only_exit_leaves(window: Option<Option<u64>>, e: LoopEvent)
    ensures
        step_spec(window, e).1.contains(LoopAction::ExitLoop) <==> e == LoopEvent::User(UserEvent::Exit),
{
    let r = step_spec(window, e).1;
    if e == LoopEvent::User(UserEvent::Exit) {
        assert(r[0] == LoopAction::ExitLoop);
    } else {
        assert forall|i: int| 0 <= i < r.len() implies r[i] != LoopAction::ExitLoop by {}
    }
}

/// Suspending gives up the window: a window that exists is destroyed and
/// marked hidden, none is left, and resuming afterwards creates a new window
/// that has been given no repaint delay yet.
pub proof fn suspend_then_resume_recreates(window: Option<Option<u64>>)
    ensures
        step_spec(window, LoopEvent::Suspended).0 is None,
        window is Some ==> step_spec(window, LoopEvent::Suspended).1
            == seq![LoopAction::DestroyWindow, LoopAction::MarkHidden],
        window is None ==> step_spec(window, LoopEvent::Suspended).1 == seq![LoopAction::MarkHidden],
        step_spec(step_spec(window, LoopEvent::Suspended).0, LoopEvent::Resumed)
            == (Some(None::<u64>), seq![LoopAction::CreateWindow]),
{
}

/// Resuming creates the window only when there is none, and keeps an
/// existing one with its repaint delay.
pub proof fn resume_creates_a_missing_window(window: Option<Option<u64>>)
    ensures
        window is None ==> step_spec(window, LoopEvent::Resumed) == (Some(None::<u64>), seq![LoopAction::CreateWindow]),
        window is Some ==> step_spec(window, LoopEvent::Resumed) == (window, Seq::<LoopAction>::empty()),
{
}

/// Without a window, window events and repaint timers do nothing.
pub proof fn no_window_no_drawing(ours: bool, kind: WindowEventKind)
    ensures
        step_spec(None, LoopEvent::Window { ours, kind }) == (None::<Option<u64>>, Seq::<LoopAction>::empty()),
        step_spec(None, LoopEvent::ResumeTimeReached) == (None::<Option<u64>>, Seq::<LoopAction>::empty()),
{
}

/// A destroyed application window is gone: it is destroyed and marked
/// hidden, and none is left.
pub proof fn destroyed_window_is_gone(delay: Option<u64>)
    ensures
        step_spec(Some(delay), LoopEvent::Window { ours: true, kind: WindowEventKind::Destroyed })
            == (None::<Option<u64>>, seq![LoopAction::DestroyWindow, LoopAction::MarkHidden]),
{
}

/// Queued messages are always handled, and redrawn only where there is a
/// window; the window is left as it was.
pub proof fn messages_update_the_root(window: Option<Option<u64>>)
    ensures
        step_spec(window, LoopEvent::User(UserEvent::MessageReady)).0 == window,
        step_spec(window, LoopEvent::User(UserEvent::MessageReady)).1 == if window is Some {
            seq![LoopAction::UpdateRoot, LoopAction::RequestRedraw]
        } else {
            seq![LoopAction::UpdateRoot]
        },
{
}

/// A repaint request sets the delay of an existing window, which the next
/// redraw then waits for: at once for no delay, for the delay otherwise.
pub proof fn redraw_waits_as_requested(old_delay: Option<u64>, d: u64)
    ensures
        step_spec(Some(old_delay), LoopEvent::User(UserEvent::RequestRepaint(Some(d)))).0 == Some(Some(d)),
        step_spec(Some(Some(d)), LoopEvent::Window { ours: true, kind: WindowEventKind::RedrawRequested }).1
            == seq![LoopAction::Redraw(if d == 0 { ControlFlowChoice::Poll } else { ControlFlowChoice::WaitFor(d) })],
        step_spec(Some(None), LoopEvent::Window { ours: true, kind: WindowEventKind::RedrawRequested }).1
            == seq![LoopAction::Redraw(ControlFlowChoice::Wait)],
        step_spec(None, LoopEvent::User(UserEvent::RequestRepaint(Some(d)))).0 is None,
{
}

/// Exiting shuts the widget tree down first and leaves no window: an
/// existing one is destroyed, and the window is marked hidden last.
pub proof fn exiting_shuts_down(window: Option<Option<u64>>)
    ensures
        step_spec(window, LoopEvent::Exiting).0 is None,
        step_spec(window, LoopEvent::Exiting).1 == if window is Some {
            seq![LoopAction::ShutdownRoot, LoopAction::DestroyWindow, LoopAction::MarkHidden]
        } else {
            seq![LoopAction::ShutdownRoot, LoopAction::MarkHidden]
        },
{
}

/// With a window, events of other windows are ignored, and the
/// application window's events are answered: a close request goes to the
/// root widget, a resize resizes the surface before egui sees it, other
/// input goes to egui, and a repaint timer asks for a redraw; none of these
/// changes the window.
pub proof fn window_events_with_a_window(delay: Option<u64>, kind: WindowEventKind)
    ensures
        step_spec(Some(delay), LoopEvent::Window { ours: false, kind }) == (Some(delay), Seq::<LoopAction>::empty()),
        step_spec(Some(delay), LoopEvent::Window { ours: true, kind: WindowEventKind::CloseRequested })
            == (Some(delay), seq![LoopAction::CloseRoot]),
        step_spec(Some(delay), LoopEvent::Window { ours: true, kind: WindowEventKind::Resized })
            == (Some(delay), seq![LoopAction::ResizeSurface, LoopAction::ForwardToEgui]),
        step_spec(Some(delay), LoopEvent::Window { ours: true, kind: WindowEventKind::Other })
            == (Some(delay), seq![LoopAction::ForwardToEgui]),
        step_spec(Some(delay), LoopEvent::ResumeTimeReached) == (Some(delay), seq![LoopAction::RequestRedraw]),
        step_spec(Some(delay), LoopEvent::User(UserEvent::RequestRepaint(None))).0 == Some(None::<u64>),
{
}

} // verus!
