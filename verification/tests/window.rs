use std::sync::{Arc, Mutex};

use egelm::native::{Frame, Handle};
use egelm::window::error_dialog::ErrorDialog;
use egelm::storage::Storage;
use egelm::window::{report_routed_errors, update_root, App, AutoLifecycle, Context, FactoryContext, Managed, RootWidget, Sender, Widget};

struct LifecycleChild {
    events: Arc<Mutex<Vec<&'static str>>>,
}

impl AutoLifecycle for LifecycleChild {
    fn tick_children_auto(&mut self) {}

    fn init_children_auto(&mut self) {}
}

impl Widget for LifecycleChild {
    type Message = ();
    type Output = ();
    type Error = ();

    fn view(&mut self, _ui: &mut egui::Ui, _frame: &mut Frame, _ctx: &Context<Self>) {}

    fn update(&mut self, _msg: Self::Message, _handle: &Handle, _ctx: &Context<Self>) -> Result<(), Self::Error> {
        Ok(())
    }

    fn tick(&mut self, _ctx: &Context<Self>) -> Result<(), Self::Error> {
        Ok(())
    }

    fn init(&mut self, _ctx: &Context<Self>) {
        self.events.lock().unwrap().push("child init");
    }

    fn shutdown(&mut self, _ctx: &Context<Self>) {
        self.events.lock().unwrap().push("child shutdown");
    }
}

struct LifecycleParent {
    child: Managed<LifecycleChild>,
    events: Arc<Mutex<Vec<&'static str>>>,
}

impl AutoLifecycle for LifecycleParent {
    fn tick_children_auto(&mut self) {
        self.child.update_route_error();
    }

    fn init_children_auto(&mut self) {
        self.child.init();
    }

    fn shutdown_children_auto(&mut self) {
        self.child.shutdown();
    }
}

impl Widget for LifecycleParent {
    type Message = ();
    type Output = ();
    type Error = ();

    fn view(&mut self, _ui: &mut egui::Ui, _frame: &mut Frame, _ctx: &Context<Self>) {}

    fn update(&mut self, _msg: Self::Message, _handle: &Handle, _ctx: &Context<Self>) -> Result<(), Self::Error> {
        Ok(())
    }

    fn tick(&mut self, _ctx: &Context<Self>) -> Result<(), Self::Error> {
        Ok(())
    }

    fn init(&mut self, _ctx: &Context<Self>) {
        self.events.lock().unwrap().push("parent init");
    }

    fn shutdown(&mut self, _ctx: &Context<Self>) {
        self.events.lock().unwrap().push("parent shutdown");
    }
}

struct TestWidget {
    updates: Vec<u32>,
    ticks: usize,
    output_on_update: bool,
    fail_update: bool,
    fail_tick: bool,
}

impl AutoLifecycle for TestWidget {
    fn tick_children_auto(&mut self) {}

    fn init_children_auto(&mut self) {}
}

impl Widget for TestWidget {
    type Message = u32;
    type Output = String;
    type Error = &'static str;

    fn view(&mut self, _ui: &mut egui::Ui, _frame: &mut Frame, _ctx: &Context<Self>) {}

    fn update(&mut self, msg: Self::Message, _handle: &Handle, ctx: &Context<Self>) -> Result<(), Self::Error> {
        self.updates.push(msg);
        if self.output_on_update {
            ctx.output(format!("updated {msg}"));
        }
        if self.fail_update {
            return Err("update failed");
        }
        Ok(())
    }

    fn tick(&mut self, _ctx: &Context<Self>) -> Result<(), Self::Error> {
        self.ticks += 1;
        if self.fail_tick {
            return Err("tick failed");
        }
        Ok(())
    }

    fn init(&mut self, _ctx: &Context<Self>) {}
}

impl RootWidget for TestWidget {
    fn error(&mut self, err: &Self::Error) -> (String, Option<String>) {
        (format!("failed: {err}"), None)
    }
}

fn sender<T: Send + 'static>() -> (Sender<T>, crossbeam_channel::Receiver<T>) {
    let (tx, rx) = crossbeam_channel::unbounded();
    (Sender::new(move |value| tx.send(value).unwrap()), rx)
}

fn managed(widget: TestWidget) -> (Managed<TestWidget>, crossbeam_channel::Receiver<String>, crossbeam_channel::Receiver<&'static str>) {
    let (output, output_rx) = sender();
    let (error, error_rx) = sender();
    (Managed::new(Some(output), error, &Handle::default(), widget), output_rx, error_rx)
}

fn test_widget() -> TestWidget {
    TestWidget {
        updates: Vec::new(),
        ticks: 0,
        output_on_update: false,
        fail_update: false,
        fail_tick: false,
    }
}

fn lifecycle_managed(events: Arc<Mutex<Vec<&'static str>>>) -> Managed<LifecycleParent> {
    let handle = Handle::default();
    let (error, _error_rx) = sender();
    let child = Managed::new(None, error.clone(), &handle, LifecycleChild { events: events.clone() });
    Managed::new(None, error, &handle, LifecycleParent { child, events })
}

#[test]
fn sender_map_transforms_and_forwards_values() {
    let values = Arc::new(Mutex::new(Vec::new()));
    let received = values.clone();
    let sender = Sender::new(move |value: usize| received.lock().unwrap().push(value));
    let mapped = sender.map(|value: &str| value.len());

    mapped.emit("egelm");

    assert_eq!(*values.lock().unwrap(), vec![5]);
}

#[test]
fn managed_update_drains_messages_in_order_and_ticks_once() {
    let (mut managed, _output_rx, _error_rx) = managed(test_widget());
    let input = managed.ctx().input_sender();
    input.emit(3);
    input.emit(1);
    input.emit(4);

    managed.update().unwrap();

    assert_eq!(managed.updates, [3, 1, 4]);
    assert_eq!(managed.ticks, 1);
}

#[test]
fn context_forwards_outputs_and_errors() {
    let mut widget = test_widget();
    widget.output_on_update = true;
    let (mut managed, output_rx, error_rx) = managed(widget);
    managed.ctx().input_sender().emit(7);
    managed.ctx().error("reported directly");

    managed.update().unwrap();

    assert_eq!(output_rx.try_recv(), Ok("updated 7".to_owned()));
    assert_eq!(error_rx.try_recv(), Ok("reported directly"));
}

#[test]
fn update_route_error_routes_update_errors_and_continues_to_tick() {
    let mut widget = test_widget();
    widget.fail_update = true;
    let (mut managed, _output_rx, error_rx) = managed(widget);
    let input = managed.ctx().input_sender();
    input.emit(10);
    input.emit(20);

    managed.update_route_error();

    assert_eq!(managed.updates, [10, 20]);
    assert_eq!(managed.ticks, 1);
    assert_eq!(error_rx.try_iter().collect::<Vec<_>>(), ["update failed", "update failed"]);
}

#[test]
fn update_route_error_routes_tick_errors() {
    let mut widget = test_widget();
    widget.fail_tick = true;
    let (mut managed, _output_rx, error_rx) = managed(widget);

    managed.update_route_error();

    assert_eq!(managed.ticks, 1);
    assert_eq!(error_rx.try_recv(), Ok("tick failed"));
}

#[test]
fn managed_lifecycle_is_ordered_and_idempotent() {
    let events = Arc::new(Mutex::new(Vec::new()));
    let mut managed = lifecycle_managed(events.clone());

    managed.init();
    managed.init();
    assert_eq!(*events.lock().unwrap(), ["parent init", "child init"]);

    managed.shutdown();
    managed.shutdown();
    assert_eq!(*events.lock().unwrap(), ["parent init", "child init", "child shutdown", "parent shutdown"]);
}

#[test]
fn dropping_initialized_managed_widget_runs_shutdown() {
    let events = Arc::new(Mutex::new(Vec::new()));

    {
        let mut managed = lifecycle_managed(events.clone());
        managed.init();
    }

    assert_eq!(*events.lock().unwrap(), ["parent init", "child init", "child shutdown", "parent shutdown"]);
}

#[test]
fn shutdown_before_init_does_nothing() {
    let events = Arc::new(Mutex::new(Vec::new()));
    let mut managed = lifecycle_managed(events.clone());

    managed.shutdown();
    assert!(events.lock().unwrap().is_empty());

    managed.init();
    managed.shutdown();
    managed.init();
    assert_eq!(
        *events.lock().unwrap(),
        ["parent init", "child init", "child shutdown", "parent shutdown", "parent init", "child init"]
    );
}

#[test]
fn update_stops_at_the_first_failing_message() {
    let mut widget = test_widget();
    widget.fail_update = true;
    let (mut managed, _output_rx, error_rx) = managed(widget);
    let input = managed.ctx().input_sender();
    input.emit(10);
    input.emit(20);

    assert_eq!(managed.update(), Err("update failed"));

    assert_eq!(managed.updates, [10]);
    assert_eq!(managed.ticks, 0);
    assert!(error_rx.try_recv().is_err());
}

#[test]
fn update_returns_tick_errors() {
    let mut widget = test_widget();
    widget.fail_tick = true;
    let (mut managed, _output_rx, _error_rx) = managed(widget);

    assert_eq!(managed.update(), Err("tick failed"));
    assert_eq!(managed.ticks, 1);
}

#[test]
fn update_root_shows_failures_in_the_dialog() {
    let mut widget = test_widget();
    widget.fail_tick = true;
    let (mut managed, _output_rx, _error_rx) = managed(widget);
    let mut dialog = ErrorDialog::new();

    assert!(update_root(&mut managed, &mut dialog));
    assert_eq!(dialog.errors().len(), 1);
    assert_eq!(dialog.errors()[0].summary, "failed: tick failed");

    managed.widget_mut().fail_tick = false;
    assert!(!update_root(&mut managed, &mut dialog));
    assert_eq!(dialog.errors().len(), 1);
}

#[test]
fn routed_errors_reach_the_dialog_oldest_first() {
    let (mut managed, _output_rx, _error_rx) = managed(test_widget());
    let (tx, rx) = crossbeam_channel::unbounded();
    tx.send("first").unwrap();
    tx.send("second").unwrap();
    let mut dialog = ErrorDialog::new();

    assert_eq!(report_routed_errors(&mut managed, &rx, &mut dialog), 2);
    assert_eq!(dialog.errors()[0].summary, "failed: first");
    assert_eq!(dialog.errors()[1].summary, "failed: second");
    assert_eq!(report_routed_errors(&mut managed, &rx, &mut dialog), 0);
}

#[test]
fn default_root_error_text_explains_missing_translation() {
    struct Plain;
    impl AutoLifecycle for Plain {
        fn tick_children_auto(&mut self) {}
        fn init_children_auto(&mut self) {}
    }
    impl Widget for Plain {
        type Message = ();
        type Output = ();
        type Error = ();
        fn view(&mut self, _ui: &mut egui::Ui, _frame: &mut Frame, _ctx: &Context<Self>) {}
        fn update(&mut self, _msg: (), _handle: &Handle, _ctx: &Context<Self>) -> Result<(), ()> {
            Ok(())
        }
        fn tick(&mut self, _ctx: &Context<Self>) -> Result<(), ()> {
            Ok(())
        }
        fn init(&mut self, _ctx: &Context<Self>) {}
    }
    impl RootWidget for Plain {}

    let mut plain = Plain;
    let (summary, details) = plain.error(&());
    assert_eq!(summary, "Unknown error");
    assert!(details.unwrap().starts_with("Error translating is not implemented."));
    assert_eq!(plain.clear_color(), [27, 27, 27, 255]);
}

struct Keeper {
    storage: Storage,
    greeting: Option<Vec<u8>>,
}

impl AutoLifecycle for Keeper {
    fn tick_children_auto(&mut self) {}

    fn init_children_auto(&mut self) {}
}

impl Widget for Keeper {
    type Message = ();
    type Output = ();
    type Error = ();

    fn view(&mut self, _ui: &mut egui::Ui, _frame: &mut Frame, _ctx: &Context<Self>) {}

    fn update(&mut self, _msg: Self::Message, _handle: &Handle, _ctx: &Context<Self>) -> Result<(), Self::Error> {
        Ok(())
    }

    fn tick(&mut self, _ctx: &Context<Self>) -> Result<(), Self::Error> {
        Ok(())
    }

    fn init(&mut self, _ctx: &Context<Self>) {}
}

impl RootWidget for Keeper {}

#[test]
fn factories_build_the_root_with_its_storage() {
    let mut storage = Storage::default();
    storage.set_raw("greeting", b"hi".to_vec()).unwrap();
    let app = App::try_new_factory_with_storage(egui::ViewportBuilder::default(), storage, |ctx: FactoryContext<'_, Keeper>| {
        let greeting = ctx.storage.get_raw("greeting").map_err(|_| "unreadable")?;
        Ok::<Keeper, &'static str>(Keeper { storage: ctx.storage, greeting })
    });
    let app = app.ok().unwrap();
    let (mut root, _errors, _options, ctrlc) = app.into_parts();
    assert!(ctrlc);
    assert_eq!(root.greeting.as_deref(), Some(&b"hi"[..]));
    root.widget_mut().storage.set_raw("greeting", b"bye".to_vec()).unwrap();
    assert_eq!(root.storage.get_raw("greeting").unwrap(), Some(b"bye".to_vec()));

    let failed = App::try_new_factory_with_storage(egui::ViewportBuilder::default(), Storage::default(), |_ctx: FactoryContext<'_, Keeper>| {
        Err::<Keeper, &'static str>("refused")
    });
    assert_eq!(failed.err(), Some("refused"));

    let app = App::new(Keeper { storage: Storage::default(), greeting: None }).without_ctrl_handler();
    assert!(!app.into_parts().3);
}

#[test]
fn factory_context_messages_reach_the_root() {
    let app = App::try_new_factory_with_storage(egui::ViewportBuilder::default(), Storage::default(), |f: FactoryContext<'_, TestWidget>| {
        f.ctx.emit(5);
        Ok::<TestWidget, ()>(test_widget())
    });
    let (mut root, _errors, _options, _ctrlc) = app.ok().unwrap().into_parts();
    assert_eq!(root.update(), Ok(()));
    assert_eq!(root.updates, [5]);
    assert_eq!(root.ticks, 1);
}

#[test]
fn finished_tasks_route_messages_and_errors() {
    let (mut managed, _output_rx, error_rx) = managed(test_widget());
    managed.ctx().finish_task(Ok(3));
    managed.ctx().finish_task(Err("task failed"));
    assert_eq!(managed.update(), Ok(()));
    assert_eq!(managed.updates, [3]);
    assert_eq!(error_rx.try_recv(), Ok("task failed"));
}

#[test]
fn output_without_a_parent_is_dropped() {
    let (error, error_rx) = sender();
    let managed = Managed::new(None, error, &Handle::default(), test_widget());
    managed.ctx().output("nobody listens".to_owned());
    assert!(error_rx.try_recv().is_err());
}

#[test]
fn reinitialized_widgets_get_a_live_cancellation_scope() {
    let events = Arc::new(Mutex::new(Vec::new()));
    let mut managed = lifecycle_managed(events.clone());
    managed.init();
    let first = managed.ctx().cancellation();
    managed.shutdown();
    assert!(first.is_cancelled());
    managed.init();
    assert!(!managed.ctx().cancellation().is_cancelled());
    assert_eq!(*events.lock().unwrap(), ["parent init", "child init", "child shutdown", "parent shutdown", "parent init", "child init"]);
}
