use std::sync::{Arc, Mutex};

use egelm::native::event_loop::{control_flow, ControlFlowChoice, LoopAction, LoopEvent, LoopState, WindowEventKind};
use egelm::native::{Handle, Renderer, UserEvent};
use egelm::window::check_renderer;

#[test]
fn default_handle_is_hidden() {
    assert!(!Handle::default().is_visible());
}

#[test]
fn cloned_handles_share_visibility_state() {
    let handle = Handle::default();
    let clone = handle.clone();

    handle.set_visible(true);

    assert!(clone.is_visible());
}

#[test]
fn uninitialized_handle_control_methods_are_no_ops() {
    let handle = Handle::default();

    handle.request_repaint();
    handle.exit();
    handle.show();
    handle.hide_window();

    assert!(!handle.is_visible());
}

#[test]
fn renderer_is_copyable_and_debuggable() {
    let renderer = Renderer::Glow;
    let copy = renderer;

    assert_eq!(format!("{renderer:?}"), "Glow");
    assert_eq!(format!("{copy:?}"), "Glow");
}

#[test]
fn only_the_compiled_renderer_is_available() {
    assert!(check_renderer(Renderer::Glow).is_ok());
    let err = check_renderer(Renderer::Wgpu).unwrap_err();
    assert_eq!(err.to_string(), "the wgpu renderer is not enabled");
}

#[test]
fn toast_ids_count_up_from_one() {
    let handle = Handle::default();
    let clone = handle.clone();
    assert_eq!(handle.next_toast_id(), 1);
    assert_eq!(clone.next_toast_id(), 2);
}

#[test]
fn show_creates_the_window_once() {
    let mut state = LoopState::new();
    assert!(!state.has_window());
    assert_eq!(state.step(LoopEvent::User(UserEvent::Show)), vec![LoopAction::CreateWindow]);
    assert!(state.has_window());
    assert_eq!(state.step(LoopEvent::User(UserEvent::Show)), vec![]);
    assert_eq!(state.step(LoopEvent::Resumed), vec![]);
}

#[test]
fn hide_destroys_the_window_and_keeps_running() {
    let mut state = LoopState::new();
    state.step(LoopEvent::Resumed);
    assert_eq!(
        state.step(LoopEvent::User(UserEvent::Hide)),
        vec![LoopAction::DestroyWindow, LoopAction::MarkHidden]
    );
    assert!(!state.has_window());
    assert_eq!(state.step(LoopEvent::User(UserEvent::Hide)), vec![LoopAction::MarkHidden]);
    assert_eq!(state.step(LoopEvent::User(UserEvent::Show)), vec![LoopAction::CreateWindow]);
}

#[test]
fn repaint_delay_sets_how_the_loop_waits() {
    let mut state = LoopState::new();
    let redraw = LoopEvent::Window { ours: true, kind: WindowEventKind::RedrawRequested };
    assert_eq!(state.step(redraw), vec![]);
    state.step(LoopEvent::Resumed);
    assert_eq!(state.step(redraw), vec![LoopAction::Redraw(ControlFlowChoice::Wait)]);
    state.step(LoopEvent::User(UserEvent::RequestRepaint(Some(0))));
    assert_eq!(state.step(redraw), vec![LoopAction::Redraw(ControlFlowChoice::Poll)]);
    state.step(LoopEvent::User(UserEvent::RequestRepaint(Some(16_000_000))));
    assert_eq!(state.step(redraw), vec![LoopAction::Redraw(ControlFlowChoice::WaitFor(16_000_000))]);
    assert_eq!(control_flow(None), ControlFlowChoice::Wait);
}

#[test]
fn window_events_are_dispatched_by_kind() {
    let mut state = LoopState::new();
    state.step(LoopEvent::Resumed);
    let ev = |kind| LoopEvent::Window { ours: true, kind };
    assert_eq!(state.step(ev(WindowEventKind::CloseRequested)), vec![LoopAction::CloseRoot]);
    assert_eq!(
        state.step(ev(WindowEventKind::Resized)),
        vec![LoopAction::ResizeSurface, LoopAction::ForwardToEgui]
    );
    assert_eq!(state.step(ev(WindowEventKind::Other)), vec![LoopAction::ForwardToEgui]);
    assert_eq!(
        state.step(LoopEvent::Window { ours: false, kind: WindowEventKind::CloseRequested }),
        vec![]
    );
    assert_eq!(
        state.step(ev(WindowEventKind::Destroyed)),
        vec![LoopAction::DestroyWindow, LoopAction::MarkHidden]
    );
    assert_eq!(state.step(ev(WindowEventKind::Other)), vec![]);
}

#[test]
fn messages_update_the_root_and_exit_leaves() {
    let mut state = LoopState::new();
    assert_eq!(state.step(LoopEvent::User(UserEvent::MessageReady)), vec![LoopAction::UpdateRoot]);
    state.step(LoopEvent::Resumed);
    assert_eq!(
        state.step(LoopEvent::User(UserEvent::MessageReady)),
        vec![LoopAction::UpdateRoot, LoopAction::RequestRedraw]
    );
    assert_eq!(state.step(LoopEvent::ResumeTimeReached), vec![LoopAction::RequestRedraw]);
    assert_eq!(state.step(LoopEvent::User(UserEvent::Exit)), vec![LoopAction::ExitLoop]);
    assert_eq!(
        state.step(LoopEvent::Exiting),
        vec![LoopAction::ShutdownRoot, LoopAction::DestroyWindow, LoopAction::MarkHidden]
    );
}

#[test]
fn a_connected_handle_sends_its_requests() {
    let events = Arc::new(Mutex::new(Vec::new()));
    let seen = events.clone();
    let handle = Handle::default();
    let clone = handle.clone();
    assert!(handle.init(egelm::window::Sender::new(move |e: UserEvent| seen.lock().unwrap().push(e))));
    assert!(!clone.init(egelm::window::Sender::new(|_: UserEvent| {})));
    clone.show();
    handle.hide_window();
    handle.request_repaint();
    handle.exit();
    assert_eq!(
        *events.lock().unwrap(),
        vec![UserEvent::Show, UserEvent::Hide, UserEvent::MessageReady, UserEvent::Exit]
    );
}
