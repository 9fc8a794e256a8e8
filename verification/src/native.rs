//! Window handles, frame resources, and the decisions that drive the native
//! event loop.

use std::sync::Arc;
use std::sync::atomic::AtomicBool;
use std::sync::atomic::AtomicU64;
use std::time::Duration;
use std::time::Instant;
use std::sync::atomic::Ordering;
use std::sync::OnceLock;

use crossbeam_channel::Receiver as QueueRx;
use crossbeam_channel::Sender as QueueTx;
use egui_glow::glow::Context as GlContext;
use egui_winit::winit::window::Window;
use vstd::prelude::*;

pub mod event_loop;

use crate::channel::{queue_send, queue_try_recv, unbounded_queue};
use crate::window::toast::ActiveToast;
use crate::window::Sender;

verus! {

/// Renderer selection for the app.
///
/// `Glow` uses OpenGL via the `glow` crate. `Wgpu` names the `wgpu`
/// renderer, which this build does not include (see
/// [`crate::window::check_renderer`]).
#[derive(Debug, Clone, Copy, PartialEq, Eq)]
pub enum Renderer {
    /// OpenGL via the `glow` crate.
    Glow,
    /// `wgpu` via the `wgpu` crate.
    Wgpu,
}

/// Events delivered to the native event loop.
#[derive(Debug, Clone, Copy, PartialEq, Eq, Structural)]
pub enum UserEvent {
    /// Create the window if it does not exist.
    Show,
    /// Destroy the window while keeping the event loop alive.
    Hide,
    /// Leave the event loop.
    Exit,
    /// Repaint again after this many nanoseconds (`None` for a delay too long
    /// to count, as when egui asks for no further repaint).
    RequestRepaint(Option<u64>),
    /// Widget messages are waiting to be processed.
    MessageReady,
}

#[verifier::external_type_specification]
#[verifier::external_body]
#[verifier::reject_recursive_types(T)]
pub struct ExOnceLock<T>(std::sync::OnceLock<T>);

/// Creates an empty cell (`std::sync::OnceLock::new`).
#[verifier::external_body]
fn once_lock_new<T>() -> OnceLock<T> {
    OnceLock::new()
}

/// Reads the cell (`std::sync::OnceLock::get`).
///
/// Nothing is claimed of the result: another clone of the handle may fill
/// the cell at any time.
#[verifier::external_body]
fn once_lock_get<T>(cell: &OnceLock<T>) -> Option<&T> {
    cell.get()
}

/// Fills the cell unless it is already filled (`std::sync::OnceLock::set`);
/// returns whether this call filled it.
#[verifier::external_body]
fn once_lock_set<T>(cell: &OnceLock<T>, value: T) -> bool {
    cell.set(value).is_ok()
}

#[verifier::external_type_specification]
#[verifier::external_body]
pub struct ExInstant(Instant);

/// Reads the monotonic clock (`std::time::Instant::now`).
#[verifier::external_body]
fn instant_now() -> Instant {
    Instant::now()
}

/// The time elapsed since `origin` (`std::time::Instant::elapsed`).
///
/// Nothing is claimed of the result: it is the time.
#[verifier::external_body]
fn elapsed_since(origin: &Instant) -> Duration {
    origin.elapsed()
}

/// Converts a duration to nanoseconds (`Duration::as_nanos`).
#[verifier::external_body]
fn duration_nanos(duration: Duration) -> u128 {
    duration.as_nanos()
}

/// A cloneable, thread-safe handle to the application window.
///
/// Before an application starts, a handle has no event loop to notify and
/// its window-control methods do nothing. Once initialized by the
/// application, its methods may be called from worker tasks to wake, show,
/// hide, or close the window. Clones share the event-loop connection and the
/// visibility flag.
pub struct Handle {
    events: Arc<OnceLock<Sender<UserEvent>>>,
    visible: Arc<AtomicBool>,
    origin: Arc<Instant>,
    toast_ids: Arc<AtomicU64>,
    toast_tx: QueueTx<ActiveToast>,
    toast_rx: QueueRx<ActiveToast>,
}

impl Clone for Handle {
    /// A handle on the same window: clones share everything.
    fn clone(&self) -> (r: Self)
        ensures
            r == *self,
    {
        Handle {
            events: self.events.clone(),
            visible: self.visible.clone(),
            origin: self.origin.clone(),
            toast_ids: self.toast_ids.clone(),
            toast_tx: crate::channel::queue_sender_clone(&self.toast_tx),
            toast_rx: crate::channel::queue_receiver_clone(&self.toast_rx),
        }
    }
}

impl Default for Handle {
    fn default() -> (r: Self) {
        Handle::new()
    }
}

impl Handle {
    /// Creates a handle that is not yet connected to an event loop and that
    /// considers the window hidden.
    pub fn new() -> (r: Self) {
        let (toast_tx, toast_rx) = unbounded_queue();
        Handle {
            events: Arc::new(once_lock_new()),
            visible: Arc::new(AtomicBool::new(false)),
            origin: Arc::new(instant_now()),
            toast_ids: Arc::new(AtomicU64::new(1)),
            toast_tx,
            toast_rx,
        }
    }

    /// Connects this handle (and all of its clones) to the event loop.
    ///
    /// Returns `false`, connecting nothing, when the handle was already
    /// connected.
    pub fn init(&self, events: Sender<UserEvent>) -> (newly: bool) {
        once_lock_set(&*self.events, events)
    }

    fn send(&self, event: UserEvent) {
        match once_lock_get(&*self.events) {
            Some(events) => events.emit(event),
            None => {},
        }
    }

    /// Requests that the application process pending messages and repaint.
    ///
    /// This is a no-op until the application event loop has been initialized.
    pub fn request_repaint(&self) {
        self.send(UserEvent::MessageReady)
    }

    /// Hides and destroys the native window while keeping the event loop alive.
    ///
    /// Calling [`show`](Self::show) later creates a new native window. Before
    /// event-loop initialization, this does nothing.
    pub fn hide_window(&self) {
        self.send(UserEvent::Hide)
    }

    /// Shows the application window, recreating it when it was hidden.
    ///
    /// Before event-loop initialization, this does nothing.
    pub fn show(&self) {
        self.send(UserEvent::Show)
    }

    /// Requests termination of the application event loop.
    ///
    /// This is a no-op until the application event loop has been initialized.
    pub fn exit(&self) {
        self.send(UserEvent::Exit)
    }

    /// Returns whether this handle currently considers the window visible.
    pub fn is_visible(&self) -> bool {
        self.visible.load(Ordering::Relaxed)
    }

    /// Records whether the window currently exists; every clone sees it.
    pub fn set_visible(&self, visible: bool) {
        self.visible.store(visible, Ordering::Relaxed)
    }

    /// The nanoseconds elapsed since the first of these handles was created;
    /// toasts measure their lifetimes on this clock.
    pub fn clock_nanos(&self) -> u128 {
        duration_nanos(elapsed_since(&*self.origin))
    }

    /// A new toast identifier; the first is `1`.
    pub fn next_toast_id(&self) -> u64 {
        self.toast_ids.fetch_add(1, Ordering::Relaxed)
    }

    /// Queues a toast for display.
    pub fn push_toast(&self, toast: ActiveToast) {
        // Both ends live in this handle, so the queue stays connected.
        let _ = queue_send(&self.toast_tx, toast);
    }

    /// Takes every queued toast, oldest first.
    pub fn take_toasts(&self) -> Vec<ActiveToast> {
        let mut out: Vec<ActiveToast> = Vec::new();
        let mut budget: usize = usize::MAX;
        while budget > 0
            decreases budget,
        {
            match queue_try_recv(&self.toast_rx) {
                Some(t) => out.push(t),
                None => break,
            }
            budget = budget - 1;
        }
        out
    }
}


#[verifier::external_type_specification]
#[verifier::external_body]
pub struct ExGlContext(GlContext);

#[verifier::external_type_specification]
#[verifier::external_body]
pub struct ExWindow(Window);

/// Rendering resources and window controls for the current frame.
///
/// A mutable `Frame` is passed to widget rendering methods. It dereferences to
/// [`Handle`], allowing window-control methods such as [`Handle::exit`] to be
/// called directly on it.
pub struct Frame {
    handle: Handle,
    gl: Option<Arc<GlContext>>,
    window: Arc<Window>,
}

impl Frame {
    /// Bundles the resources of one rendered frame.
    pub fn new(handle: Handle, gl: Option<Arc<GlContext>>, window: Arc<Window>) -> (f: Self)
        ensures
            f.window_handle() == handle,
            f.gl_context() == gl,
            f.window() == window,
    {
        Frame { handle, gl, window }
    }

    /// The handle of the application window this frame belongs to.
    pub closed spec fn window_handle(&self) -> Handle {
        self.handle
    }

    /// The OpenGL context of this frame, if it was painted with OpenGL.
    pub closed spec fn gl_context(&self) -> Option<Arc<GlContext>> {
        self.gl
    }

    /// The native window of this frame.
    pub closed spec fn window(&self) -> Arc<Window> {
        self.window
    }

    /// Returns the OpenGL context used to paint the frame.
    ///
    /// Returns `None` if the frame was created without an OpenGL context.
    pub fn gl(&self) -> (r: Option<&Arc<GlContext>>)
        ensures
            r == match self.gl_context() {
                Some(g) => Some(&g),
                None => None::<&Arc<GlContext>>,
            },
    {
        match &self.gl {
            Some(g) => Some(g),
            None => None,
        }
    }

    /// Returns the native `winit` window associated with the frame.
    pub fn winit_window(&self) -> (w: &Arc<Window>)
        ensures
            *w == self.window(),
    {
        &self.window
    }

    /// Returns an owned handle for controlling the application window.
    pub fn handle(&self) -> (r: Handle)
        ensures
            r == self.window_handle(),
    {
        self.handle.clone()
    }
}

impl std::ops::Deref for Frame {
    type Target = Handle;

    fn deref(&self) -> (r: &Handle)
        ensures
            *r == self.window_handle(),
    {
        &self.handle
    }
}

} // verus!
