use std::sync::{Arc, Mutex};

use egelm::native::{Frame, Handle};
use egelm::window::toast::{Accent, TimeSpan, Toast, ToastInput, ToastKind, Toasts};
use egelm::window::{AutoLifecycle, Context, Managed, Sender, Widget};

struct Clicks {
    seen: Arc<Mutex<Vec<u32>>>,
}

impl AutoLifecycle for Clicks {
    fn tick_children_auto(&mut self) {}

    fn init_children_auto(&mut self) {}
}

impl Widget for Clicks {
    type Message = u32;
    type Output = ();
    type Error = ();

    fn view(&mut self, _ui: &mut egui::Ui, _frame: &mut Frame, _ctx: &Context<Self>) {}

    fn update(&mut self, msg: u32, _handle: &Handle, _ctx: &Context<Self>) -> Result<(), ()> {
        self.seen.lock().unwrap().push(msg);
        Ok(())
    }

    fn tick(&mut self, _ctx: &Context<Self>) -> Result<(), Self::Error> {
        Ok(())
    }

    fn init(&mut self, _ctx: &Context<Self>) {}
}

fn managed() -> (Managed<Clicks>, Arc<Mutex<Vec<u32>>>) {
    let seen = Arc::new(Mutex::new(Vec::new()));
    let error = Sender::new(|_: ()| {});
    (Managed::new(None, error, &Handle::default(), Clicks { seen: seen.clone() }), seen)
}

const SECOND: u128 = 1_000_000_000;

fn idle() -> ToastInput {
    ToastInput { close_clicked: false, action_clicked: None, hovered: false }
}

#[test]
fn toasts_run_out_after_their_duration() {
    let (m, _) = managed();
    let toast = Toast::<Clicks>::new("Saved".to_owned()).success().duration(TimeSpan::from_secs(2)).into_active(m.ctx(), 7, 10);
    assert_eq!(toast.remaining(10), Some(2 * SECOND));
    assert!(!toast.is_expired(10 + SECOND));
    assert!(toast.is_expired(10 + 2 * SECOND));
    let parts = toast.parts();
    assert_eq!(parts.id, 7);
    assert_eq!(parts.kind, ToastKind::Success);
    assert_eq!(parts.title, "Saved");
    assert!(parts.closable);
}

#[test]
fn default_duration_is_five_seconds_and_sticky_toasts_stay() {
    let (m, _) = managed();
    let toast = Toast::<Clicks>::new("Hi".to_owned()).into_active(m.ctx(), 1, 0);
    assert_eq!(toast.remaining(0), Some(5 * SECOND));
    let sticky = Toast::<Clicks>::new("Stay".to_owned()).sticky().into_active(m.ctx(), 2, 0);
    assert_eq!(sticky.remaining(1000 * SECOND), None);
    assert!(!sticky.is_expired(u128::MAX));
}

#[test]
fn hovering_pauses_the_countdown() {
    let (m, _) = managed();
    let mut toasts = Toasts::new();
    toasts.add(Toast::<Clicks>::new("Hover".to_owned()).duration(TimeSpan::from_secs(1)).into_active(m.ctx(), 1, 0));
    let hovered = ToastInput { close_clicked: false, action_clicked: None, hovered: true };
    toasts.interact(&vec![hovered], SECOND / 2);
    toasts.interact(&vec![hovered], 3 * SECOND);
    toasts.interact(&vec![idle()], 3 * SECOND);
    assert_eq!(toasts.toasts()[0].remaining(3 * SECOND), Some(SECOND / 2));
    toasts.remove_expired(3 * SECOND);
    assert_eq!(toasts.toasts().len(), 1);
    toasts.remove_expired(4 * SECOND);
    assert_eq!(toasts.toasts().len(), 0);
}

#[test]
fn clicking_an_action_dismisses_the_toast_and_runs_it_once() {
    let (mut m, seen) = managed();
    let mut toasts = Toasts::new();
    let toast = Toast::<Clicks>::new("Retry?".to_owned())
        .error()
        .body("It failed".to_owned())
        .action("Retry".to_owned(), |ctx: &Context<Clicks>| ctx.emit(9));
    toasts.add(toast.into_active(m.ctx(), 1, 0));
    assert_eq!(toasts.toasts()[0].parts().labels, vec!["Retry".to_owned()]);
    let click = ToastInput { close_clicked: false, action_clicked: Some(0), hovered: true };
    let run = toasts.interact(&vec![click], 1);
    assert_eq!(run.len(), 1);
    assert!(toasts.interact(&vec![click], 2).is_empty());
    for action in run {
        action.fire();
    }
    m.update().unwrap();
    assert_eq!(*seen.lock().unwrap(), vec![9]);
    toasts.remove_expired(3);
    assert!(toasts.toasts().is_empty());
}

#[test]
fn the_close_button_works_only_when_shown() {
    let (m, _) = managed();
    let mut toasts = Toasts::new();
    toasts.add(Toast::<Clicks>::new("Fixed".to_owned()).closable(false).sticky().into_active(m.ctx(), 1, 0));
    toasts.add(Toast::<Clicks>::new("Closable".to_owned()).warning().into_active(m.ctx(), 2, 0));
    let close = ToastInput { close_clicked: true, action_clicked: None, hovered: false };
    toasts.interact(&vec![close, close], 1);
    assert!(!toasts.toasts()[0].parts().dismissed);
    assert!(toasts.toasts()[1].parts().dismissed);
    toasts.remove_expired(1);
    assert_eq!(toasts.toasts().len(), 1);
    assert_eq!(toasts.toasts()[0].parts().title, "Fixed");
}

#[test]
fn kinds_have_icons_and_accents() {
    assert_eq!(ToastKind::Info.icon().to_string(), "ℹ️");
    assert_eq!(ToastKind::Success.icon().to_string(), "✅");
    assert_eq!(ToastKind::Warning.icon().to_string(), "⚠️");
    assert_eq!(ToastKind::Error.icon().to_string(), "❌");
    assert_eq!(ToastKind::Success.accent_color(true), Accent::Rgb(100, 220, 140));
    assert_eq!(ToastKind::Success.accent_color(false), Accent::Rgb(30, 160, 60));
    assert_eq!(ToastKind::Info.accent_color(true), Accent::Hyperlink);
    assert_eq!(ToastKind::Warning.accent_color(false), Accent::Warning);
    assert_eq!(ToastKind::Error.accent_color(false), Accent::Error);
}

#[test]
fn context_toasts_reach_the_handle_queue() {
    let (m, _) = managed();
    m.ctx().toast(Toast::new("Queued".to_owned()));
    m.ctx().toast(Toast::new("Second".to_owned()));
    let queued = m.handle().take_toasts();
    assert_eq!(queued.len(), 2);
    assert_eq!(queued[0].parts().title, "Queued");
    assert_eq!(queued[1].parts().id, queued[0].parts().id + 1);
    assert!(m.handle().take_toasts().is_empty());
}

#[test]
fn time_spans_count_nanoseconds() {
    assert_eq!(TimeSpan::from_secs(2).nanos, 2_000_000_000);
    assert_eq!(TimeSpan::from_millis(1_500).nanos, 1_500_000_000);
    assert_eq!(TimeSpan::from_nanos(42).nanos, 42);
    let (m, _) = managed();
    let toast = Toast::<Clicks>::new("Soon".to_owned()).duration(TimeSpan::from_millis(250)).into_active(m.ctx(), 3, 0);
    assert_eq!(toast.remaining(0), Some(250_000_000));
}
