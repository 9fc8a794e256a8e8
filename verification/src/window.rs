//! Widgets, their message routing, and the application that owns them.

pub mod about_dialog;
pub mod error_dialog;
pub mod toast;

use std::sync::Arc;

use crossbeam_channel::Receiver as QueueRx;
use crossbeam_channel::Sender as QueueTx;
use egui::Context as EguiContext;
use egui::Ui;
use egui::ViewportBuilder;
use tokio_util::sync::CancellationToken;
use vstd::prelude::*;

use crate::channel::{queue_send, queue_try_recv, token_cancel, token_clone, token_new, unbounded_queue};
use crate::error::Error;
use crate::native::{Frame, Handle, Renderer};
use crate::storage::Storage;
use crate::window::error_dialog::ErrorDialog;

verus! {

#[verifier::external_type_specification]
#[verifier::external_body]
pub struct ExUi(Ui);

#[verifier::external_type_specification]
#[verifier::external_body]
pub struct ExEguiContext(EguiContext);

#[verifier::external_type_specification]
#[verifier::external_body]
pub struct ExViewportBuilder(ViewportBuilder);

/// The receiving end of a [`Sender`].
pub trait Delivery<M>: Send + Sync {
    /// Whether this receiver can take `msg`.
    spec fn accepts(&self, msg: M) -> bool;

    /// What holds once `msg` was handed to the receiver.
    spec fn delivered(&self, msg: M) -> bool;

    /// Hands `msg` to the receiver.
    fn deliver(&self, msg: M)
        requires
            self.accepts(msg),
        ensures
            self.delivered(msg),
    ;
}

struct CallbackDelivery<F> {
    f: F,
}

impl<M, F: Fn(M) + Send + Sync> Delivery<M> for CallbackDelivery<F> {
    closed spec fn accepts(&self, msg: M) -> bool {
        call_requires(self.f, (msg,))
    }

    closed spec fn delivered(&self, msg: M) -> bool {
        call_ensures(self.f, (msg,), ())
    }

    fn deliver(&self, msg: M) {
        (self.f)(msg)
    }
}

#[verifier::reject_recursive_types(M)]
struct MappedDelivery<M, G> {
    inner: Sender<M>,
    g: G,
}

impl<N, M: 'static, G: Fn(N) -> M + Send + Sync> Delivery<N> for MappedDelivery<M, G> {
    closed spec fn accepts(&self, msg: N) -> bool {
        call_requires(self.g, (msg,))
    }

    closed spec fn delivered(&self, msg: N) -> bool {
        exists|m: M| call_ensures(self.g, (msg,), m) && self.inner.delivers(m)
    }

    fn deliver(&self, msg: N) {
        let m = (self.g)(msg);
        self.inner.emit(m)
    }
}

/// Boxes a receiver as a trait object (`Box::new` with its unsizing coercion,
/// which Verus does not model).
///
/// Claims that the boxed receiver accepts, and delivers, exactly as the
/// receiver did: the box calls the receiver's own methods.
#[verifier::external_body]
fn boxed_delivery<M, D: Delivery<M> + 'static>(d: D) -> (r: Arc<Box<dyn Delivery<M>>>)
    ensures
        forall|m: M| r.accepts(m) == d.accepts(m),
        forall|m: M| r.delivered(m) == d.delivered(m),
{
    Arc::new(Box::new(d))
}

/// A cloneable callback for delivering typed widget messages.
///
/// Senders are obtained from a [`Context`] and can be moved into callbacks or
/// transformed with [`map`](Self::map). Clones deliver to the same receiver.
#[verifier::reject_recursive_types(M)]
pub struct Sender<M> {
    f: Arc<Box<dyn Delivery<M>>>,
}

impl<M> Clone for Sender<M> {
    fn clone(&self) -> (r: Self)
        ensures
            r == *self,
    {
        proof { use_type_invariant(self); }
        Sender { f: self.f.clone() }
    }
}

impl<M: 'static> Sender<M> {
    #[verifier::type_invariant]
    spec fn accepts_all(self) -> bool {
        forall|m: M| self.f.accepts(m)
    }

    /// What holds once `msg` was delivered through this sender.
    pub closed spec fn delivers(&self, msg: M) -> bool {
        self.f.delivered(msg)
    }

    /// Creates a sender that hands every message to `f`: delivering a
    /// message is a call of `f` with it.
    pub fn new<F: Fn(M) + Send + Sync + 'static>(f: F) -> (s: Self)
        requires
            forall|m: M| call_requires(f, (m,)),
        ensures
            forall|m: M| #[trigger] s.delivers(m) == call_ensures(f, (m,), ()),
    {
        Sender::from_delivery(CallbackDelivery { f })
    }

    /// Creates a sender that hands every message to `d`.
    pub fn from_delivery<D: Delivery<M> + 'static>(d: D) -> (s: Self)
        requires
            forall|m: M| d.accepts(m),
        ensures
            forall|m: M| #[trigger] s.delivers(m) == d.delivered(m),
    {
        Sender { f: boxed_delivery(d) }
    }

    /// Delivers a message to this sender's callback.
    pub fn emit(&self, msg: M)
        ensures
            self.delivers(msg),
    {
        proof { use_type_invariant(self); }
        self.f.deliver(msg)
    }

    /// Creates a sender that transforms its input with `g` before forwarding
    /// it to this sender.
    ///
    /// This is useful when a child component produces a different message type
    /// than its parent consumes.
    pub fn map<N: 'static, G: Fn(N) -> M + Send + Sync + 'static>(&self, g: G) -> (s: Sender<N>)
        requires
            forall|n: N| call_requires(g, (n,)),
        ensures
            forall|n: N| #[trigger] s.delivers(n)
                == exists|m: M| call_ensures(g, (n,), m) && self.delivers(m),
    {
        let inner = self.clone();
        let d = MappedDelivery { inner, g };
        assert(d.inner == *self);
        assert(d.g == g);
        assert forall|n: N| #[trigger] d.delivered(n)
            == exists|m: M| call_ensures(d.g, (n,), m) && d.inner.delivers(m) by {
        }
        Sender::from_delivery(d)
    }
}


/// Mapping a sender twice delivers as mapping it once by the composition:
/// when `t` is `s.map(f)` and `u` is `t.map(g)`, a value `p` sent through
/// `u` reaches `s` as `f` applied to `g` applied to `p`.
pub proof fn map_composes<M: 'static, N: 'static, P: 'static, F: Fn(N) -> M, G: Fn(P) -> N>(
    s: Sender<M>,
    t: Sender<N>,
    u: Sender<P>,
    f: F,
    g: G,
)
    requires
        forall|n: N| #[trigger] t.delivers(n) == exists|m: M| call_ensures(f, (n,), m) && s.delivers(m),
        forall|p: P| #[trigger] u.delivers(p) == exists|n: N| call_ensures(g, (p,), n) && t.delivers(n),
    ensures
        forall|p: P| #[trigger] u.delivers(p)
            == exists|n: N, m: M| call_ensures(g, (p,), n) && call_ensures(f, (n,), m) && s.delivers(m),
{
    assert forall|p: P| #[trigger] u.delivers(p)
        == exists|n: N, m: M| call_ensures(g, (p,), n) && call_ensures(f, (n,), m) && s.delivers(m) by {
        if u.delivers(p) {
            let n = choose|n: N| call_ensures(g, (p,), n) && t.delivers(n);
            assert(t.delivers(n));
            let m = choose|m: M| call_ensures(f, (n,), m) && s.delivers(m);
            assert(call_ensures(g, (p,), n) && call_ensures(f, (n,), m) && s.delivers(m));
        }
        if exists|n: N, m: M| call_ensures(g, (p,), n) && call_ensures(f, (n,), m) && s.delivers(m) {
            let (n, m) = choose|n: N, m: M| call_ensures(g, (p,), n) && call_ensures(f, (n,), m) && s.delivers(m);
            assert(t.delivers(n));
        }
    }
}

/// Receives widget messages into a queue and wakes the application.
#[verifier::reject_recursive_types(M)]
struct QueueDelivery<M> {
    tx: QueueTx<M>,
    wake: Handle,
}

impl<M: Send> Delivery<M> for QueueDelivery<M> {
    closed spec fn accepts(&self, msg: M) -> bool {
        true
    }

    closed spec fn delivered(&self, msg: M) -> bool {
        true
    }

    fn deliver(&self, msg: M) {
        // A disconnected queue means the widget is gone; the message is dropped.
        let _ = queue_send(&self.tx, msg);
        self.wake.request_repaint();
    }
}

/// Creates a queue whose sending side is a [`Sender`] that also wakes the
/// application through `wake`.
fn waking_queue<M: Send + 'static>(wake: &Handle) -> (Sender<M>, QueueRx<M>) {
    let (tx, rx) = unbounded_queue();
    (Sender::from_delivery(QueueDelivery { tx, wake: wake.clone() }), rx)
}

/// Communication channels and task utilities for a [`Widget`].
///
/// A context lets a widget enqueue its own messages, report errors, send
/// output to its parent, and start cancellable asynchronous work. Clones refer
/// to the same underlying channels and cancellation scope.
pub struct Context<W: Widget> {
    input: Sender<W::Message>,
    error: Sender<W::Error>,
    output: Option<Sender<W::Output>>,
    handle: Handle,
    cancellation: CancellationToken,
}

impl<W: Widget> Clone for Context<W> {
    fn clone(&self) -> (r: Self)
        ensures
            r.input_channel() == self.input_channel(),
            r.error_channel() == self.error_channel(),
            r.output_channel() == self.output_channel(),
            r.window_handle() == self.window_handle(),
            r.cancel_scope() == self.cancel_scope(),
            r == *self,
    {
        Context {
            input: self.input.clone(),
            error: self.error.clone(),
            output: match &self.output {
                Some(o) => Some(o.clone()),
                None => None,
            },
            handle: self.handle.clone(),
            cancellation: token_clone(&self.cancellation),
        }
    }
}

impl<W: Widget> Context<W> {
    /// The sender that enqueues messages for this widget.
    pub closed spec fn input_channel(&self) -> Sender<W::Message> {
        self.input
    }

    /// The sender that routes this widget's errors.
    pub closed spec fn error_channel(&self) -> Sender<W::Error> {
        self.error
    }

    /// The sender of this widget's output, if it has a parent that listens.
    pub closed spec fn output_channel(&self) -> Option<Sender<W::Output>> {
        self.output
    }

    /// The handle of the application window this context wakes.
    pub closed spec fn window_handle(&self) -> Handle {
        self.handle
    }

    /// The cancellation scope of this widget's tasks.
    pub closed spec fn cancel_scope(&self) -> CancellationToken {
        self.cancellation
    }

    /// Enqueues a message for this widget and requests a repaint.
    pub fn emit(&self, msg: W::Message)
        ensures
            self.input_channel().delivers(msg),
    {
        self.input.emit(msg);
    }

    /// Sends an output value to this widget's parent.
    ///
    /// If the widget has no output channel, the value is discarded.
    pub fn output(&self, msg: W::Output)
        ensures
            self.output_channel() matches Some(o) ==> o.delivers(msg),
    {
        match &self.output {
            Some(output) => output.emit(msg),
            None => {},
        }
    }

    /// Routes an error toward the root widget's error handler.
    pub fn error(&self, err: W::Error)
        ensures
            self.error_channel().delivers(err),
    {
        self.error.emit(err);
    }

    /// Returns a cloneable sender for errors from this widget.
    pub fn error_sender(&self) -> (s: Sender<W::Error>)
        ensures
            s == self.error_channel(),
    {
        self.error.clone()
    }

    /// Returns a cloneable sender for messages to this widget.
    pub fn input_sender(&self) -> (s: Sender<W::Message>)
        ensures
            s == self.input_channel(),
    {
        self.input.clone()
    }

    /// Queues an in-app floating toast notification and requests a window
    /// repaint.
    ///
    /// Its action callbacks receive a clone of this context when clicked.
    pub fn toast(&self, toast: toast::Toast<W>)
        where W: 'static
    {
        let id = self.handle.next_toast_id();
        let now = self.handle.clock_nanos();
        self.handle.push_toast(toast.into_active(self, id, now));
        self.handle.request_repaint();
    }

    /// Returns the window handle this context wakes.
    pub fn handle(&self) -> (r: &Handle)
        ensures
            *r == self.window_handle(),
    {
        &self.handle
    }

    /// Returns a clone of the cancellation scope of this widget's tasks; it is
    /// cancelled when the managed widget shuts down.
    pub fn cancellation(&self) -> (r: CancellationToken)
        ensures
            r == self.cancel_scope(),
    {
        token_clone(&self.cancellation)
    }

    /// Routes the result of a finished task: a message is enqueued for this
    /// widget, an error is routed like [`error`](Self::error).
    pub fn finish_task(&self, result: Result<W::Message, W::Error>)
        ensures
            result matches Ok(msg) ==> self.input_channel().delivers(msg),
            result matches Err(err) ==> self.error_channel().delivers(err),
    {
        match result {
            Ok(msg) => self.emit(msg),
            Err(err) => self.error(err),
        }
    }
}

/// Propagates lifecycle operations to widgets managed by a parent.
///
/// Implementations call the corresponding update, initialization, or shutdown
/// operation on every managed child; a widget without managed children does
/// nothing in each of them.
///
/// Each operation states what it did through the matching predicate, so that
/// a caller knows the widget it holds afterwards came from that operation.
/// The predicates promise nothing unless an implementation overrides them.
pub trait AutoLifecycle: Sized {
    /// Whether ticking the managed children of `before` may leave `self`.
    open spec fn children_ticked(&self, before: Self) -> bool {
        true
    }

    /// Whether initializing the managed children of `before` may leave `self`.
    open spec fn children_initialized(&self, before: Self) -> bool {
        true
    }

    /// Processes messages and ticks all managed child widgets.
    fn tick_children_auto(&mut self)
        ensures
            final(self).children_ticked(*old(self)),
    ;

    /// Initializes all managed child widgets in declaration order.
    fn init_children_auto(&mut self)
        ensures
            final(self).children_initialized(*old(self)),
    ;

    /// Shuts down all managed child widgets in declaration order.
    ///
    /// It runs when a managed widget is dropped, so it must not panic. The
    /// default implementation does nothing.
    fn shutdown_children_auto(&mut self)
        default_ensures
            *final(self) == *old(self),
        opens_invariants none
        no_unwind
    {
    }
}

/// An event-driven user-interface component.
///
/// A widget renders itself in [`view`](Self::view), handles queued messages in
/// [`update`](Self::update), and may perform per-cycle work in
/// [`tick`](Self::tick). [`init`](Self::init) and
/// [`shutdown`](Self::shutdown) bracket its managed lifetime. A hook with
/// nothing to do returns `Ok(())` or does nothing.
///
/// Each hook states what it did through the matching predicate, over the
/// widget before the call, what it was handed, and what it returned. The
/// predicates promise nothing unless an implementation overrides them.
pub trait Widget: AutoLifecycle + Sized {
    /// Messages consumed by [`update`](Self::update).
    type Message: Send + 'static;
    /// Values this widget can send to its parent.
    type Output: Send + 'static;
    /// Errors produced while updating or ticking this widget.
    type Error: Send + Sync + 'static;

    /// Whether rendering `before` with the context `ctx` may leave `self`.
    open spec fn viewed(&self, before: Self, ctx: Context<Self>) -> bool {
        true
    }

    /// Whether handling `msg` in `before`, with the window handle `handle`
    /// and the context `ctx`, may leave `self` and return `r`.
    open spec fn updated(&self, before: Self, msg: Self::Message, handle: Handle, ctx: Context<Self>, r: Result<(), Self::Error>) -> bool {
        true
    }

    /// Whether ticking `before` with the context `ctx` may leave `self` and
    /// return `r`.
    open spec fn ticked(&self, before: Self, ctx: Context<Self>, r: Result<(), Self::Error>) -> bool {
        true
    }

    /// Whether initializing `before` with the context `ctx` may leave `self`.
    open spec fn initialized(&self, before: Self, ctx: Context<Self>) -> bool {
        true
    }

    /// Renders the widget into the current `egui` user interface.
    fn view(&mut self, ui: &mut Ui, frame: &mut Frame, ctx: &Context<Self>)
        ensures
            final(self).viewed(*old(self), *ctx),
    ;

    /// Handles one queued message.
    fn update(&mut self, msg: Self::Message, handle: &Handle, ctx: &Context<Self>) -> (r: Result<(), Self::Error>)
        ensures
            final(self).updated(*old(self), msg, *handle, *ctx, r),
    ;

    /// Performs work once during an application update cycle.
    fn tick(&mut self, ctx: &Context<Self>) -> (r: Result<(), Self::Error>)
        ensures
            final(self).ticked(*old(self), *ctx, r),
    ;

    /// Runs once when the managed widget is initialized, before its children.
    fn init(&mut self, ctx: &Context<Self>)
        ensures
            final(self).initialized(*old(self), *ctx),
    ;

    /// Runs once when the managed widget shuts down, after its children.
    ///
    /// It runs when a managed widget is dropped, so it must not panic. The
    /// default implementation does nothing.
    #[allow(unused_variables)]
    fn shutdown(&mut self, ctx: &Context<Self>)
        default_ensures
            *final(self) == *old(self),
        opens_invariants none
        no_unwind
    {
    }
}

/// What a managed widget did, in order: the calls it made into its widget and
/// the errors it routed.
pub enum LifecycleEvent<M, E> {
    /// `Widget::update` ran on this message and failed with this error, if any.
    Updated(M, Option<E>),
    /// `AutoLifecycle::tick_children_auto` ran.
    TickedChildren,
    /// `Widget::tick` ran and failed with this error, if any.
    Ticked(Option<E>),
    /// This error was sent through the widget's error channel.
    ErrorRouted(E),
    /// `Widget::init` ran.
    Initialized,
    /// `AutoLifecycle::init_children_auto` ran.
    InitializedChildren,
    /// `AutoLifecycle::shutdown_children_auto` ran.
    ShutDownChildren,
    /// `Widget::shutdown` ran.
    ShutDown,
    /// The widget's task cancellation scope was cancelled.
    Cancelled,
    /// `Widget::view` ran.
    Rendered,
}

/// The error of a failed call, if it failed.
pub open spec fn failure<E>(r: Result<(), E>) -> Option<E> {
    match r {
        Ok(_) => None,
        Err(e) => Some(e),
    }
}

/// The updates that [`Managed::update`] performs for `msgs` when none fails.
pub open spec fn clean_updates<M, E>(msgs: Seq<M>) -> Seq<LifecycleEvent<M, E>> {
    msgs.map_values(|m: M| LifecycleEvent::Updated(m, None))
}

/// One update as [`Managed::update_route_error`] performs it: a failure is
/// routed right after it.
pub open spec fn routed_update<M, E>(step: (M, Option<E>)) -> Seq<LifecycleEvent<M, E>> {
    match step.1 {
        None => seq![LifecycleEvent::Updated(step.0, None)],
        Some(e) => seq![LifecycleEvent::Updated(step.0, Some(e)), LifecycleEvent::ErrorRouted(e)],
    }
}

/// The updates [`Managed::update_route_error`] performs, in order.
pub open spec fn routed_updates<M, E>(steps: Seq<(M, Option<E>)>) -> Seq<LifecycleEvent<M, E>>
    decreases steps.len(),
{
    if steps.len() == 0 {
        seq![]
    } else {
        routed_updates(steps.drop_last()) + routed_update(steps.last())
    }
}

/// The tick that ends a routed update cycle, with its failure routed.
pub open spec fn routed_tick<M, E>(failed: Option<E>) -> Seq<LifecycleEvent<M, E>> {
    match failed {
        None => seq![LifecycleEvent::TickedChildren, LifecycleEvent::Ticked(None)],
        Some(e) => seq![LifecycleEvent::TickedChildren, LifecycleEvent::Ticked(Some(e)), LifecycleEvent::ErrorRouted(e)],
    }
}

/// Whether `run` is what [`Managed::update`] appends when it returns `result`:
/// messages handled in the order they were taken, each successfully, then
/// either the first failing update, or the children's tick and the widget's
/// tick.
pub open spec fn is_update_run<M, E>(run: Seq<LifecycleEvent<M, E>>, result: Result<(), E>) -> bool {
    exists|msgs: Seq<M>| {
        ||| run == clean_updates::<M, E>(msgs) + seq![LifecycleEvent::TickedChildren, LifecycleEvent::Ticked(None)]
            && result is Ok
        ||| result matches Err(e) && run == clean_updates::<M, E>(msgs) + seq![LifecycleEvent::TickedChildren, LifecycleEvent::Ticked(Some(e))]
        ||| result matches Err(e) && exists|m: M| run == clean_updates::<M, E>(msgs) + seq![LifecycleEvent::Updated(m, Some(e))]
    }
}

/// Whether `run` is what [`Managed::update_route_error`] appends: every
/// message taken is handled and a failure routed before the next one, then
/// the children and the widget tick once, a failing tick being routed too.
pub open spec fn is_routed_run<M, E>(run: Seq<LifecycleEvent<M, E>>) -> bool {
    exists|steps: Seq<(M, Option<E>)>, failed: Option<E>|
        run == routed_updates(steps) + routed_tick(failed)
}

/// The outcome of a call that failed with `failed`, if it failed.
pub open spec fn outcome<E>(failed: Option<E>) -> Result<(), E> {
    match failed {
        None => Ok(()),
        Some(e) => Err(e),
    }
}

/// A call's outcome is given back by its failure.
proof fn outcome_of_failure<E>(r: Result<(), E>)
    ensures
        outcome(failure(r)) == r,
{
    match r {
        Ok(u) => {
            assert(u == ());
        },
        Err(e) => {},
    }
}

/// Whether `event`, done with the window handle `handle` and the context
/// `ctx`, may take the widget from `before` to `after`: each hook's event is
/// what that hook ensures (the shutdown hooks ensure nothing), a routed error
/// was delivered by the context's error channel, and neither routing nor
/// cancelling changes the widget.
pub open spec fn step_holds<T: Widget>(
    event: LifecycleEvent<T::Message, T::Error>,
    before: T,
    after: T,
    handle: Handle,
    ctx: Context<T>,
) -> bool {
    match event {
        LifecycleEvent::Updated(m, failed) => after.updated(before, m, handle, ctx, outcome(failed)),
        LifecycleEvent::TickedChildren => after.children_ticked(before),
        LifecycleEvent::Ticked(failed) => after.ticked(before, ctx, outcome(failed)),
        LifecycleEvent::ErrorRouted(e) => after == before && ctx.error_channel().delivers(e),
        LifecycleEvent::Initialized => after.initialized(before, ctx),
        LifecycleEvent::InitializedChildren => after.children_initialized(before),
        LifecycleEvent::ShutDownChildren => true,
        LifecycleEvent::ShutDown => true,
        LifecycleEvent::Cancelled => after == before,
        LifecycleEvent::Rendered => after.viewed(before, ctx),
    }
}

/// Whether `states` are the widgets before and after each event of `run`.
pub open spec fn chains<T: Widget>(
    run: Seq<LifecycleEvent<T::Message, T::Error>>,
    states: Seq<T>,
    handle: Handle,
    ctx: Context<T>,
) -> bool {
    &&& states.len() == run.len() + 1
    &&& forall|i: int| 0 <= i < run.len() ==> step_holds(#[trigger] run[i], states[i], states[i + 1], handle, ctx)
}

/// Whether doing the events of `run`, in order, takes the widget from
/// `before` to `after`.
pub open spec fn performs<T: Widget>(
    run: Seq<LifecycleEvent<T::Message, T::Error>>,
    before: T,
    after: T,
    handle: Handle,
    ctx: Context<T>,
) -> bool {
    exists|states: Seq<T>| #[trigger] chains(run, states, handle, ctx) && states[0] == before && states.last() == after
}

/// Extends a chain by one event.
proof fn chains_push<T: Widget>(
    run: Seq<LifecycleEvent<T::Message, T::Error>>,
    states: Seq<T>,
    event: LifecycleEvent<T::Message, T::Error>,
    next: T,
    handle: Handle,
    ctx: Context<T>,
)
    requires
        chains(run, states, handle, ctx),
        step_holds(event, states.last(), next, handle, ctx),
    ensures
        chains(run.push(event), states.push(next), handle, ctx),
        states.push(next)[0] == states[0],
{
    let run2 = run.push(event);
    let states2 = states.push(next);
    assert forall|i: int| 0 <= i < run2.len() implies step_holds(#[trigger] run2[i], states2[i], states2[i + 1], handle, ctx) by {
        if i < run.len() {
            assert(run2[i] == run[i]);
            assert(states2[i] == states[i]);
            assert(states2[i + 1] == states[i + 1]);
        } else {
            assert(run2[i] == event);
            assert(states2[i] == states.last());
            assert(states2[i + 1] == next);
        }
    }
}

/// Every error that a run routes was delivered by the context's error
/// channel.
pub proof fn routed_errors_are_delivered<T: Widget>(
    run: Seq<LifecycleEvent<T::Message, T::Error>>,
    before: T,
    after: T,
    handle: Handle,
    ctx: Context<T>,
)
    requires
        performs(run, before, after, handle, ctx),
    ensures
        forall|i: int| 0 <= i < run.len() ==> (#[trigger] run[i] matches LifecycleEvent::ErrorRouted(e)
            ==> ctx.error_channel().delivers(e)),
{
    let states = choose|states: Seq<T>| #[trigger] chains(run, states, handle, ctx) && states[0] == before && states.last() == after;
    assert forall|i: int| 0 <= i < run.len() implies (#[trigger] run[i] matches LifecycleEvent::ErrorRouted(e)
        ==> ctx.error_channel().delivers(e)) by {
        assert(step_holds(run[i], states[i], states[i + 1], handle, ctx));
    }
}

/// Whether two contexts route to the same channels and wake the same window;
/// their cancellation scopes may differ.
pub open spec fn same_routes<T: Widget>(a: Context<T>, b: Context<T>) -> bool {
    &&& a.input_channel() == b.input_channel()
    &&& a.error_channel() == b.error_channel()
    &&& a.output_channel() == b.output_channel()
    &&& a.window_handle() == b.window_handle()
}

/// The lifecycle state of a managed widget: whether it is initialized,
/// whether its task scope was cancelled, and what it has done so far.
pub struct LifecycleState<M, E> {
    /// Whether `init` has run since the last `shutdown`.
    pub initialized: bool,
    /// Whether the cancellation scope of the widget's tasks was cancelled by
    /// a `shutdown` and not yet replaced by an `init`.
    pub scope_cancelled: bool,
    /// Everything the managed widget has done, in order.
    pub history: Seq<LifecycleEvent<M, E>>,
}

/// The state after [`Managed::init`]: an uninitialized widget runs its own
/// hook, then its children's, in a scope that is not cancelled; an
/// initialized one is left as it is.
pub open spec fn after_init<M, E>(s: LifecycleState<M, E>) -> LifecycleState<M, E> {
    if s.initialized {
        s
    } else {
        LifecycleState {
            initialized: true,
            scope_cancelled: false,
            history: s.history + seq![LifecycleEvent::Initialized, LifecycleEvent::InitializedChildren],
        }
    }
}

/// The state after [`Managed::shutdown`]: an initialized widget shuts down
/// its children, then runs its own hook, then cancels its tasks; an
/// uninitialized one is left as it is.
pub open spec fn after_shutdown<M, E>(s: LifecycleState<M, E>) -> LifecycleState<M, E> {
    if !s.initialized {
        s
    } else {
        LifecycleState {
            initialized: false,
            scope_cancelled: true,
            history: s.history + seq![
                LifecycleEvent::ShutDownChildren,
                LifecycleEvent::ShutDown,
                LifecycleEvent::Cancelled,
            ],
        }
    }
}

/// The state of a managed widget that has done nothing yet.
pub open spec fn fresh_state<M, E>() -> LifecycleState<M, E> {
    LifecycleState { initialized: false, scope_cancelled: false, history: seq![] }
}

/// A widget together with its message queue and communication context.
///
/// Its update methods drain queued messages before ticking the widget. It
/// also owns the widget's initialization state and asynchronous-task
/// cancellation scope.
pub struct Managed<T: Widget> {
    widget: T,
    rx: QueueRx<T::Message>,
    ctx: Context<T>,
    handle: Handle,
    initialized: bool,
    scope_cancelled: bool,
    history: Ghost<Seq<LifecycleEvent<T::Message, T::Error>>>,
}

impl<T: Widget> Managed<T> {
    /// The lifecycle state of this managed widget.
    pub closed spec fn state(&self) -> LifecycleState<T::Message, T::Error> {
        LifecycleState { initialized: self.initialized, scope_cancelled: self.scope_cancelled, history: self.history@ }
    }

    /// The wrapped widget.
    pub closed spec fn inner(&self) -> T {
        self.widget
    }

    /// The context handed to the wrapped widget.
    pub closed spec fn context(&self) -> Context<T> {
        self.ctx
    }

    /// The handle of the application window this widget wakes.
    pub closed spec fn window_handle(&self) -> Handle {
        self.handle
    }

    /// What the managed widget did after its history had `from` events: the
    /// events since then.
    pub open spec fn done_since(&self, from: nat) -> Seq<LifecycleEvent<T::Message, T::Error>> {
        self.state().history.skip(from as int)
    }

    /// Wraps a widget with input, output, and error routing.
    ///
    /// `output` may be `None` for a widget whose output should be discarded.
    /// Messages sent through the managed widget's context wake the supplied
    /// application `handle`. The returned widget is not initialized until
    /// [`init`](Self::init) is called.
    pub fn new(output: Option<Sender<T::Output>>, error: Sender<T::Error>, handle: &Handle, widget: T) -> (m: Self)
        ensures
            m.state() == fresh_state::<T::Message, T::Error>(),
            m.inner() == widget,
            m.context().output_channel() == output,
            m.context().error_channel() == error,
            m.window_handle() == *handle,
            m.context().window_handle() == *handle,
    {
        let (input, rx) = waking_queue(handle);
        Managed {
            widget,
            rx,
            ctx: Context { input, error, output, handle: handle.clone(), cancellation: token_new() },
            handle: handle.clone(),
            initialized: false,
            scope_cancelled: false,
            history: Ghost(Seq::empty()),
        }
    }

    /// Assembles a managed widget from a queue and the context whose input
    /// feeds it.
    fn from_parts(widget: T, rx: QueueRx<T::Message>, ctx: Context<T>, handle: Handle) -> (m: Self)
        ensures
            m.state() == fresh_state::<T::Message, T::Error>(),
            m.inner() == widget,
            m.context() == ctx,
            m.window_handle() == handle,
    {
        Managed { widget, rx, ctx, handle, initialized: false, scope_cancelled: false, history: Ghost(Seq::empty()) }
    }

    /// Returns the wrapped widget.
    pub fn widget(&self) -> (w: &T)
        ensures
            *w == self.inner(),
    {
        &self.widget
    }

    /// Returns the context handed to the wrapped widget.
    pub fn ctx(&self) -> (c: &Context<T>)
        ensures
            *c == self.context(),
    {
        &self.ctx
    }

    /// Returns the application window handle this widget wakes.
    pub fn handle(&self) -> (r: &Handle)
        ensures
            *r == self.window_handle(),
    {
        &self.handle
    }

    /// Renders the wrapped widget.
    pub fn render(&mut self, ui: &mut Ui, frame: &mut Frame)
        ensures
            final(self).state().initialized == old(self).state().initialized,
            final(self).state().scope_cancelled == old(self).state().scope_cancelled,
            final(self).state().history == old(self).state().history.push(LifecycleEvent::Rendered),
            final(self).context() == old(self).context(),
            final(self).window_handle() == old(self).window_handle(),
            final(self).inner().viewed(old(self).inner(), final(self).context()),
    {
        self.widget.view(ui, frame, &self.ctx);
        proof {
            self.history@ = self.history@.push(LifecycleEvent::Rendered);
        }
    }

    /// Drains messages, ticks the widget, and forwards errors through its context.
    ///
    /// Unlike [`update`](Self::update), this method does not return errors to
    /// its caller: every failing update is routed and the remaining messages
    /// are still handled; the tick runs once at the end.
    pub fn update_route_error(&mut self)
        ensures
            final(self).state().initialized == old(self).state().initialized,
            final(self).state().scope_cancelled == old(self).state().scope_cancelled,
            final(self).context() == old(self).context(),
            final(self).window_handle() == old(self).window_handle(),
            final(self).state().history.len() >= old(self).state().history.len(),
            final(self).state().history.subrange(0, old(self).state().history.len() as int)
                == old(self).state().history,
            is_routed_run(final(self).done_since(old(self).state().history.len())),
            performs(final(self).done_since(old(self).state().history.len()), old(self).inner(),
                final(self).inner(), final(self).window_handle(), final(self).context()),
            forall|i: int| 0 <= i < final(self).done_since(old(self).state().history.len()).len()
                ==> (#[trigger] final(self).done_since(old(self).state().history.len())[i]
                    matches LifecycleEvent::ErrorRouted(e) ==> final(self).context().error_channel().delivers(e)),
    {
        let ghost start = self.history@;
        let ghost mut steps: Seq<(T::Message, Option<T::Error>)> = seq![];
        let ghost mut run: Seq<LifecycleEvent<T::Message, T::Error>> = seq![];
        let ghost mut states: Seq<T> = seq![self.widget];
        let mut budget: usize = usize::MAX;
        while budget > 0
            invariant
                self.history@ == start + run,
                run == routed_updates(steps),
                start == old(self).history@,
                chains(run, states, self.handle, self.ctx),
                states[0] == old(self).widget,
                states.last() == self.widget,
                self.initialized == old(self).initialized,
                self.scope_cancelled == old(self).scope_cancelled,
                self.ctx == old(self).ctx,
                self.handle == old(self).handle,
            decreases budget,
        {
            match queue_try_recv(&self.rx) {
                Some(msg) => {
                    let ghost m = msg;
                    let ghost w0 = self.widget;
                    let result = self.widget.update(msg, &self.handle, &self.ctx);
                    match result {
                        Ok(()) => {
                            proof {
                                let prev = steps;
                                outcome_of_failure(result);
                                chains_push(run, states, LifecycleEvent::Updated(m, None), self.widget, self.handle, self.ctx);
                                run = run.push(LifecycleEvent::Updated(m, None));
                                states = states.push(self.widget);
                                self.history@ = start + run;
                                steps = steps.push((m, None));
                                assert(steps.drop_last() == prev);
                                assert(run =~= routed_updates(steps));
                            }
                        },
                        Err(e) => {
                            self.ctx.error(e);
                            proof {
                                let prev = steps;
                                chains_push(run, states, LifecycleEvent::Updated(m, Some(e)), self.widget, self.handle, self.ctx);
                                run = run.push(LifecycleEvent::Updated(m, Some(e)));
                                states = states.push(self.widget);
                                chains_push(run, states, LifecycleEvent::ErrorRouted(e), self.widget, self.handle, self.ctx);
                                run = run.push(LifecycleEvent::ErrorRouted(e));
                                states = states.push(self.widget);
                                self.history@ = start + run;
                                steps = steps.push((m, Some(e)));
                                assert(steps.drop_last() == prev);
                                assert(run =~= routed_updates(steps));
                            }
                        },
                    }
                },
                None => break,
            }
            budget = budget - 1;
        }
        self.widget.tick_children_auto();
        proof {
            chains_push(run, states, LifecycleEvent::TickedChildren, self.widget, self.handle, self.ctx);
            run = run.push(LifecycleEvent::TickedChildren);
            states = states.push(self.widget);
        }
        let tick = self.widget.tick(&self.ctx);
        let ghost failed = failure(tick);
        proof {
            outcome_of_failure(tick);
            chains_push(run, states, LifecycleEvent::Ticked(failed), self.widget, self.handle, self.ctx);
            run = run.push(LifecycleEvent::Ticked(failed));
            states = states.push(self.widget);
        }
        match tick {
            Ok(()) => {},
            Err(e) => {
                self.ctx.error(e);
                proof {
                    chains_push(run, states, LifecycleEvent::ErrorRouted(e), self.widget, self.handle, self.ctx);
                    run = run.push(LifecycleEvent::ErrorRouted(e));
                    states = states.push(self.widget);
                }
            },
        }
        proof {
            self.history@ = start + run;
            assert(run =~= routed_updates(steps) + routed_tick(failed));
            assert(self.history@.skip(start.len() as int) =~= run);
            assert(self.history@.subrange(0, start.len() as int) =~= start);
            assert(chains(run, states, self.handle, self.ctx));
            routed_errors_are_delivered(run, old(self).widget, self.widget, self.handle, self.ctx);
        }
    }

    /// Drains messages and ticks this widget and its managed children.
    ///
    /// Returns the first error produced by [`Widget::update`] or
    /// [`Widget::tick`] for the wrapped widget; no message is taken after a
    /// failing update, and the widget does not tick then. Child errors are
    /// routed through their contexts.
    pub fn update(&mut self) -> (r: Result<(), T::Error>)
        ensures
            final(self).state().initialized == old(self).state().initialized,
            final(self).state().scope_cancelled == old(self).state().scope_cancelled,
            final(self).context() == old(self).context(),
            final(self).window_handle() == old(self).window_handle(),
            final(self).state().history.len() >= old(self).state().history.len(),
            final(self).state().history.subrange(0, old(self).state().history.len() as int)
                == old(self).state().history,
            is_update_run(final(self).done_since(old(self).state().history.len()), r),
            performs(final(self).done_since(old(self).state().history.len()), old(self).inner(),
                final(self).inner(), final(self).window_handle(), final(self).context()),
    {
        let ghost start = self.history@;
        let ghost mut msgs: Seq<T::Message> = seq![];
        let ghost mut run: Seq<LifecycleEvent<T::Message, T::Error>> = seq![];
        let ghost mut states: Seq<T> = seq![self.widget];
        let mut budget: usize = usize::MAX;
        while budget > 0
            invariant
                self.history@ == start + run,
                run == clean_updates::<T::Message, T::Error>(msgs),
                start == old(self).history@,
                chains(run, states, self.handle, self.ctx),
                states[0] == old(self).widget,
                states.last() == self.widget,
                self.initialized == old(self).initialized,
                self.scope_cancelled == old(self).scope_cancelled,
                self.ctx == old(self).ctx,
                self.handle == old(self).handle,
            decreases budget,
        {
            match queue_try_recv(&self.rx) {
                Some(msg) => {
                    let ghost m = msg;
                    let result = self.widget.update(msg, &self.handle, &self.ctx);
                    match result {
                        Ok(()) => {
                            proof {
                                outcome_of_failure(result);
                                chains_push(run, states, LifecycleEvent::Updated(m, None), self.widget, self.handle, self.ctx);
                                run = run.push(LifecycleEvent::Updated(m, None));
                                states = states.push(self.widget);
                                self.history@ = start + run;
                                msgs = msgs.push(m);
                                assert(run =~= clean_updates::<T::Message, T::Error>(msgs));
                            }
                        },
                        Err(e) => {
                            proof {
                                let clean = run;
                                chains_push(run, states, LifecycleEvent::Updated(m, Some(e)), self.widget, self.handle, self.ctx);
                                run = run.push(LifecycleEvent::Updated(m, Some(e)));
                                states = states.push(self.widget);
                                self.history@ = start + run;
                                assert(self.history@.skip(start.len() as int) =~= run);
                                assert(run =~= clean_updates::<T::Message, T::Error>(msgs) + seq![LifecycleEvent::Updated(m, Some(e))]);
                                assert(self.history@.subrange(0, start.len() as int) =~= start);
                                assert(chains(run, states, self.handle, self.ctx));
                            }
                            return Err(e);
                        },
                    }
                },
                None => break,
            }
            budget = budget - 1;
        }
        self.widget.tick_children_auto();
        proof {
            chains_push(run, states, LifecycleEvent::TickedChildren, self.widget, self.handle, self.ctx);
            run = run.push(LifecycleEvent::TickedChildren);
            states = states.push(self.widget);
        }
        let tick = self.widget.tick(&self.ctx);
        proof {
            outcome_of_failure(tick);
            chains_push(run, states, LifecycleEvent::Ticked(failure(tick)), self.widget, self.handle, self.ctx);
            run = run.push(LifecycleEvent::Ticked(failure(tick)));
            states = states.push(self.widget);
            self.history@ = start + run;
            assert(self.history@.skip(start.len() as int) =~= run);
            assert(run =~= clean_updates::<T::Message, T::Error>(msgs) + seq![LifecycleEvent::TickedChildren, LifecycleEvent::Ticked(failure(tick))]);
            assert(self.history@.subrange(0, start.len() as int) =~= start);
            assert(chains(run, states, self.handle, self.ctx));
        }
        tick
    }

    /// Initializes this widget and then its managed children.
    ///
    /// A widget that was shut down gets a new cancellation scope for its
    /// tasks first. Calling this more than once without an intervening
    /// [`shutdown`](Self::shutdown) has no effect.
    pub fn init(&mut self)
        ensures
            final(self).state() == after_init(old(self).state()),
            same_routes(final(self).context(), old(self).context()),
            !old(self).state().scope_cancelled ==> final(self).context() == old(self).context(),
            final(self).window_handle() == old(self).window_handle(),
            performs(final(self).done_since(old(self).state().history.len()), old(self).inner(),
                final(self).inner(), final(self).window_handle(), final(self).context()),
            old(self).state().initialized ==> *final(self) == *old(self),
    {
        let ghost start = self.history@;
        if self.initialized {
            proof {
                assert(self.history@.skip(start.len() as int) =~= Seq::<LifecycleEvent<T::Message, T::Error>>::empty());
                assert(chains(Seq::<LifecycleEvent<T::Message, T::Error>>::empty(), seq![self.widget], self.handle, self.ctx));
            }
            return;
        }
        if self.scope_cancelled {
            self.ctx.cancellation = token_new();
            self.scope_cancelled = false;
        }
        let ghost w0 = self.widget;
        self.widget.init(&self.ctx);
        let ghost w1 = self.widget;
        self.widget.init_children_auto();
        self.initialized = true;
        proof {
            let run = seq![LifecycleEvent::<T::Message, T::Error>::Initialized, LifecycleEvent::InitializedChildren];
            self.history@ = self.history@ + run;
            let states = seq![w0, w1, self.widget];
            assert(step_holds(run[0], states[0], states[1], self.handle, self.ctx));
            assert(step_holds(run[1], states[1], states[2], self.handle, self.ctx));
            assert(chains(run, states, self.handle, self.ctx));
            assert(self.history@.skip(start.len() as int) =~= run);
        }
    }

    /// Shuts down this widget and cancels its asynchronous tasks.
    ///
    /// Managed children shut down before this widget's [`Widget::shutdown`]
    /// hook runs. Calling this before initialization or more than once has no
    /// effect.
    pub fn shutdown(&mut self)
        ensures
            final(self).state() == after_shutdown(old(self).state()),
            final(self).context() == old(self).context(),
            final(self).window_handle() == old(self).window_handle(),
            performs(final(self).done_since(old(self).state().history.len()), old(self).inner(),
                final(self).inner(), final(self).window_handle(), final(self).context()),
            !old(self).state().initialized ==> *final(self) == *old(self),
        opens_invariants none
        no_unwind
    {
        let ghost start = self.history@;
        if !self.initialized {
            proof {
                assert(self.history@.skip(start.len() as int) =~= Seq::<LifecycleEvent<T::Message, T::Error>>::empty());
                assert(chains(Seq::<LifecycleEvent<T::Message, T::Error>>::empty(), seq![self.widget], self.handle, self.ctx));
            }
            return;
        }
        let ghost w0 = self.widget;
        self.widget.shutdown_children_auto();
        let ghost w1 = self.widget;
        self.widget.shutdown(&self.ctx);
        token_cancel(&self.ctx.cancellation);
        self.initialized = false;
        self.scope_cancelled = true;
        proof {
            let run = seq![
                LifecycleEvent::<T::Message, T::Error>::ShutDownChildren,
                LifecycleEvent::ShutDown,
                LifecycleEvent::Cancelled,
            ];
            self.history@ = self.history@ + run;
            let states = seq![w0, w1, self.widget, self.widget];
            assert(step_holds(run[0], states[0], states[1], self.handle, self.ctx));
            assert(step_holds(run[1], states[1], states[2], self.handle, self.ctx));
            assert(step_holds(run[2], states[2], states[3], self.handle, self.ctx));
            assert(chains(run, states, self.handle, self.ctx));
            assert(self.history@.skip(start.len() as int) =~= run);
        }
    }
}

impl<T: Widget> Drop for Managed<T> {
    fn drop(&mut self)
        opens_invariants none
        no_unwind
    {
        self.shutdown();
    }
}

impl<T: Widget> std::ops::Deref for Managed<T> {
    type Target = T;

    fn deref(&self) -> (r: &T)
        ensures
            *r == self.inner(),
    {
        &self.widget
    }
}

impl<T: Widget> Managed<T> {
    /// Returns the wrapped widget for modification.
    pub fn widget_mut(&mut self) -> (w: &mut T)
        ensures
            *w == old(self).inner(),
            final(self).inner() == *final(w),
            final(self).state() == old(self).state(),
            final(self).context() == old(self).context(),
    {
        &mut self.widget
    }
}

/// A rendering-only widget with no messages, output, or errors.
///
/// Implementing this trait implements [`Widget`] and [`AutoLifecycle`] with
/// unit associated types and no lifecycle hooks. What rendering does is
/// stated by [`rendered`](Self::rendered), which promises nothing unless an
/// implementation overrides it.
pub trait LeafWidget: Sized {
    /// Whether rendering `before` may leave `self`.
    open spec fn rendered(&self, before: Self) -> bool {
        true
    }

    /// Renders the leaf widget into the current `egui` user interface.
    fn render(&mut self, ui: &mut Ui, frame: &mut Frame)
        ensures
            final(self).rendered(*old(self)),
    ;
}

impl<T: LeafWidget> AutoLifecycle for T {
    open spec fn children_ticked(&self, before: Self) -> bool {
        *self == before
    }

    open spec fn children_initialized(&self, before: Self) -> bool {
        *self == before
    }

    fn tick_children_auto(&mut self) {
    }

    fn init_children_auto(&mut self) {
    }

}

impl<T: LeafWidget> Widget for T {
    type Message = ();
    type Output = ();
    type Error = ();

    open spec fn viewed(&self, before: Self, ctx: Context<Self>) -> bool {
        self.rendered(before)
    }

    open spec fn updated(&self, before: Self, msg: (), handle: Handle, ctx: Context<Self>, r: Result<(), ()>) -> bool {
        r is Ok && *self == before
    }

    open spec fn ticked(&self, before: Self, ctx: Context<Self>, r: Result<(), ()>) -> bool {
        r is Ok && *self == before
    }

    open spec fn initialized(&self, before: Self, ctx: Context<Self>) -> bool {
        *self == before
    }

    fn view(&mut self, ui: &mut Ui, frame: &mut Frame, ctx: &Context<Self>) {
        self.render(ui, frame);
    }

    #[allow(unused_variables)]
    fn update(&mut self, msg: (), handle: &Handle, ctx: &Context<Self>) -> (r: Result<(), ()>) {
        Ok(())
    }

    #[allow(unused_variables)]
    fn tick(&mut self, ctx: &Context<Self>) -> (r: Result<(), ()>) {
        Ok(())
    }

    #[allow(unused_variables)]
    fn init(&mut self, ctx: &Context<Self>) {
    }
}

/// Extra behavior for the root widget owned by an [`App`].
///
/// Implement this trait to customize window closing, error presentation, and
/// one-time rendering setup.
pub trait RootWidget: Widget + 'static {
    /// Handles a native window close request, such as clicking the title-bar
    /// close button.
    ///
    /// The default implementation exits the application.
    fn close(&mut self, frame: &mut Frame) {
        frame.exit();
    }

    /// Converts a widget error into dialog text: a summary and optional
    /// details.
    ///
    /// The default implementation reports that error translation is not
    /// implemented.
    #[allow(unused_variables)]
    fn error(&mut self, err: &Self::Error) -> (r: (String, Option<String>))
        default_ensures
            r.0@ == "Unknown error"@,
            r.1 matches Some(d) && d@ == "Error translating is not implemented.\nImplement RootWidget::error in order to view the actual error that happened."@,
            *final(self) == *old(self),
    {
        (
            "Unknown error".to_owned(),
            Some("Error translating is not implemented.\nImplement RootWidget::error in order to view the actual error that happened.".to_owned()),
        )
    }

    /// Configures the shared `egui` context before the native surface is
    /// created.
    ///
    /// The default implementation does nothing.
    #[allow(unused_variables)]
    fn setup(&mut self, ctx: &EguiContext) {
    }

    /// The RGBA background color for the native window.
    ///
    /// The default implementation returns a dark gray color.
    fn clear_color(&self) -> (c: [u8; 4])
        default_ensures
            c == [27u8, 27u8, 27u8, 255u8],
    {
        [27, 27, 27, 255]
    }
}

/// Parameters provided when instantiating a root widget through a factory.
pub struct FactoryContext<'a, T: Widget> {
    /// Communication context provided to the root widget.
    pub ctx: &'a Context<T>,
    /// The window handle of the application.
    pub handle: &'a Handle,
    /// The persistent data store of this application; the root widget may
    /// keep it.
    pub storage: Storage,
}

/// Whether `c` is the factory context that [`App`] hands its factory when
/// it builds `app`'s root from `storage`: the root's own context and window
/// handle, and the storage as it was given.
pub open spec fn hands_root<T: RootWidget>(c: FactoryContext<'_, T>, app: App<T>, storage: Storage) -> bool {
    &&& *c.ctx == app.root().context()
    &&& *c.handle == app.root().window_handle()
    &&& c.storage == storage
}

/// Whether `c` is a factory context that [`App`] hands its factory for a
/// new root: the storage as it was given, a context without output that
/// wakes the handle it hands along.
pub open spec fn hands_new_root<T: Widget>(c: FactoryContext<'_, T>, storage: Storage) -> bool {
    &&& c.storage == storage
    &&& c.ctx.output_channel() is None
    &&& *c.handle == c.ctx.window_handle()
}

/// Creates the default window options (`egui::ViewportBuilder::default`).
#[verifier::external_body]
fn default_viewport() -> ViewportBuilder {
    ViewportBuilder::default()
}

/// Owns a root widget and the queue of errors routed to it.
pub struct App<T: RootWidget> {
    root: Managed<T>,
    ctrlc_handler: bool,
    error_rx: QueueRx<T::Error>,
    options: ViewportBuilder,
}

impl<T: RootWidget> App<T> {
    /// The root widget together with its queue and context.
    pub closed spec fn root(&self) -> Managed<T> {
        self.root
    }

    /// Whether a Ctrl-C handler that exits the application is installed.
    pub closed spec fn installs_ctrlc_handler(&self) -> bool {
        self.ctrlc_handler
    }

    /// The initial window attributes.
    pub closed spec fn options(&self) -> ViewportBuilder {
        self.options
    }

    /// Computes the root widget with `factory`, which may fail.
    ///
    /// The factory is given the root's context, the window handle and
    /// `storage`, which the root widget may keep. On success the root widget is not initialized yet, has done
    /// nothing, routes its errors to the application and has no output; the
    /// Ctrl-C handler will be installed. An error of the factory is returned
    /// as it is.
    pub fn try_new_factory_with_storage<E, F>(options: ViewportBuilder, storage: Storage, factory: F) -> (r: Result<Self, E>)
        where
            F: FnOnce(FactoryContext<'_, T>) -> Result<T, E>,
        requires
            forall|c: FactoryContext<'_, T>| call_requires(factory, (c,)),
        ensures
            r matches Ok(app) ==> exists|c: FactoryContext<'_, T>|
                call_ensures(factory, (c,), Ok::<T, E>(app.root().inner())) && #[trigger] hands_root(c, app, storage),
            r matches Err(e) ==> exists|c: FactoryContext<'_, T>|
                call_ensures(factory, (c,), Err::<T, E>(e)) && #[trigger] hands_new_root(c, storage),
            r matches Ok(app) ==> {
                &&& app.root().state() == fresh_state::<T::Message, T::Error>()
                &&& app.root().context().output_channel() is None
                &&& app.installs_ctrlc_handler()
                &&& app.options() == options
            },
    {
        let handle = Handle::new();
        let (input, rx) = waking_queue(&handle);
        let (error, error_rx) = waking_queue(&handle);
        let ctx = Context { input, error, output: None, handle: handle.clone(), cancellation: token_new() };
        let fctx = FactoryContext { ctx: &ctx, handle: &handle, storage };
        let ghost given = fctx;
        let made = factory(fctx);
        assert(call_ensures(factory, (given,), made));
        match made {
            Ok(widget) => {
                let root = Managed::from_parts(widget, rx, ctx, handle);
                let app = App { root, ctrlc_handler: true, error_rx, options };
                assert(hands_root(given, app, storage));
                Ok(app)
            },
            Err(e) => {
                assert(hands_new_root(given, storage));
                assert(call_ensures(factory, (given,), Err::<T, E>(e)));
                Err(e)
            },
        }
    }

    /// Creates an application with access to its context, window handle and
    /// `storage` while the root widget is built; the root widget may keep
    /// the storage.
    pub fn new_factory_with_storage<F>(options: ViewportBuilder, storage: Storage, factory: F) -> (app: Self)
        where
            F: FnOnce(FactoryContext<'_, T>) -> T,
        requires
            forall|c: FactoryContext<'_, T>| call_requires(factory, (c,)),
        ensures
            exists|c: FactoryContext<'_, T>| call_ensures(factory, (c,), app.root().inner()) && #[trigger] hands_root(c, app, storage),
            app.root().state() == fresh_state::<T::Message, T::Error>(),
            app.root().context().output_channel() is None,
            app.installs_ctrlc_handler(),
            app.options() == options,
    {
        let handle = Handle::new();
        let (input, rx) = waking_queue(&handle);
        let (error, error_rx) = waking_queue(&handle);
        let ctx = Context { input, error, output: None, handle: handle.clone(), cancellation: token_new() };
        let fctx = FactoryContext { ctx: &ctx, handle: &handle, storage };
        let ghost given = fctx;
        let widget = factory(fctx);
        let root = Managed::from_parts(widget, rx, ctx, handle);
        let app = App { root, ctrlc_handler: true, error_rx, options };
        assert(call_ensures(factory, (given,), app.root().inner()) && hands_root(given, app, storage));
        app
    }

    /// Creates an application from an existing root widget, with default
    /// window options. It opens no storage, since the root widget would not
    /// keep one.
    pub fn new(root: T) -> (app: Self)
        ensures
            app.root().inner() == root,
            app.root().state() == fresh_state::<T::Message, T::Error>(),
            app.root().context().output_channel() is None,
            app.installs_ctrlc_handler(),
    {
        App::new_with_options(default_viewport(), root)
    }

    /// Creates an application with specific initial window attributes. It
    /// opens no storage, since the root widget would not keep one.
    pub fn new_with_options(options: ViewportBuilder, root: T) -> (app: Self)
        ensures
            app.root().inner() == root,
            app.root().state() == fresh_state::<T::Message, T::Error>(),
            app.root().context().output_channel() is None,
            app.installs_ctrlc_handler(),
            app.options() == options,
    {
        let handle = Handle::new();
        let (input, rx) = waking_queue(&handle);
        let (error, error_rx) = waking_queue(&handle);
        let ctx = Context { input, error, output: None, handle: handle.clone(), cancellation: token_new() };
        let root = Managed::from_parts(root, rx, ctx, handle);
        App { root, ctrlc_handler: true, error_rx, options }
    }

    /// Disables installation of the default Ctrl-C exit handler.
    pub fn without_ctrl_handler(self) -> (app: Self)
        ensures
            app.root() == self.root(),
            app.options() == self.options(),
            !app.installs_ctrlc_handler(),
    {
        App { ctrlc_handler: false, ..self }
    }

    /// Returns the application handle of the root widget.
    pub fn handle(&self) -> (r: &Handle)
        ensures
            *r == self.root().window_handle(),
    {
        self.root.handle()
    }

    /// Takes the application apart for running it: the root widget, the
    /// queue of errors routed to it, the window options, and whether to
    /// install the Ctrl-C handler.
    pub fn into_parts(self) -> (r: (Managed<T>, QueueRx<T::Error>, ViewportBuilder, bool))
        ensures
            r.0 == self.root(),
            r.2 == self.options(),
            r.3 == self.installs_ctrlc_handler(),
    {
        (self.root, self.error_rx, self.options, self.ctrlc_handler)
    }
}

/// Checks that `renderer` was compiled in: this build renders with OpenGL
/// only, so selecting `wgpu` gives [`Error::RendererUnavailable`].
pub fn check_renderer(renderer: Renderer) -> (r: Result<(), Error>)
    ensures
        renderer == Renderer::Glow <==> r is Ok,
        renderer == Renderer::Wgpu ==> (r matches Err(Error::RendererUnavailable(name)) && name@ == "wgpu"@),
{
    match renderer {
        Renderer::Glow => Ok(()),
        Renderer::Wgpu => Err(Error::RendererUnavailable("wgpu")),
    }
}

/// Initializing is idempotent: a second `init` without a `shutdown` in
/// between changes nothing.
pub proof fn init_is_idempotent<M, E>(s: LifecycleState<M, E>)
    ensures
        after_init(after_init(s)) == after_init(s),
        after_init(s).initialized,
{
}

/// Shutting down is idempotent, and shutting down a widget that was never
/// initialized does nothing.
pub proof fn shutdown_is_idempotent<M, E>(s: LifecycleState<M, E>)
    ensures
        after_shutdown(after_shutdown(s)) == after_shutdown(s),
        !after_shutdown(s).initialized,
        !s.initialized ==> after_shutdown(s) == s,
{
}

/// A full lifecycle is ordered: the widget initializes before its
/// children, and its children shut down before it does, after which its
/// tasks are cancelled; initializing again starts a new lifecycle whose
/// tasks run in a scope that is not cancelled.
pub proof fn lifecycle_is_ordered<M, E>(s: LifecycleState<M, E>)
    requires
        !s.initialized,
    ensures
        after_shutdown(after_init(s)).history == s.history + seq![
            LifecycleEvent::<M, E>::Initialized,
            LifecycleEvent::InitializedChildren,
            LifecycleEvent::ShutDownChildren,
            LifecycleEvent::ShutDown,
            LifecycleEvent::Cancelled,
        ],
        !after_shutdown(after_init(s)).initialized,
        after_shutdown(after_init(s)).scope_cancelled,
        after_init(after_shutdown(after_init(s))).initialized,
        !after_init(after_shutdown(after_init(s))).scope_cancelled,
{
    assert(after_shutdown(after_init(s)).history =~= s.history + seq![
        LifecycleEvent::<M, E>::Initialized,
        LifecycleEvent::InitializedChildren,
        LifecycleEvent::ShutDownChildren,
        LifecycleEvent::ShutDown,
        LifecycleEvent::Cancelled,
    ]);
}

/// In a routed update cycle, every failure, of an update or of the tick, is
/// sent through the error channel right after it happens, and the widget
/// ticks exactly once, after its children, at the end.
pub proof fn routed_failures_are_reported<M, E>(steps: Seq<(M, Option<E>)>, failed: Option<E>)
    ensures
        ({
            let run = routed_updates(steps) + routed_tick::<M, E>(failed);
            &&& forall|i: int| 0 <= i < run.len() ==> (#[trigger] run[i] matches LifecycleEvent::Updated(_, Some(e))
                ==> i + 1 < run.len() && run[i + 1] == LifecycleEvent::<M, E>::ErrorRouted(e))
            &&& run[run.len() - 1] == match failed {
                Some(e) => LifecycleEvent::<M, E>::ErrorRouted(e),
                None => LifecycleEvent::Ticked(None),
            }
            &&& failed is Some ==> run[run.len() - 2] == LifecycleEvent::<M, E>::Ticked(failed)
        }),
    decreases steps.len(),
{
    let run = routed_updates(steps) + routed_tick::<M, E>(failed);
    if steps.len() > 0 {
        routed_failures_are_reported::<M, E>(steps.drop_last(), failed);
        let prev = routed_updates(steps.drop_last());
        let last = routed_update(steps.last());
        assert(routed_updates(steps) == prev + last);
        let tail = routed_tick::<M, E>(failed);
        let old_run = prev + tail;
        assert forall|i: int| 0 <= i < run.len() implies (#[trigger] run[i] matches LifecycleEvent::Updated(_, Some(e))
            ==> i + 1 < run.len() && run[i + 1] == LifecycleEvent::<M, E>::ErrorRouted(e)) by {
            if i < prev.len() {
                assert(run[i] == old_run[i]);
                if let LifecycleEvent::Updated(_, Some(e)) = old_run[i] {
                    assert(i + 1 < old_run.len());
                    assert(old_run[i + 1] == LifecycleEvent::<M, E>::ErrorRouted(e));
                    if i + 1 < prev.len() {
                        assert(run[i + 1] == old_run[i + 1]);
                    } else {
                        assert(old_run[i + 1] == tail[0]);
                    }
                }
            } else if i < prev.len() + last.len() {
                assert(run[i] == last[i - prev.len()]);
                if last.len() == 2 {
                    assert(run[prev.len() + 1int] == last[1]);
                }
            } else {
                assert(run[i] == tail[i - prev.len() - last.len()]);
            }
        }
    }
}

/// The summary and details of `text` as the error dialog holds them.
pub open spec fn shown_text(text: (String, Option<String>)) -> (Seq<char>, Option<Seq<char>>) {
    (text.0@, match text.1 {
        Some(d) => Some(d@),
        None => None,
    })
}

/// Whether `text` is a summary and details that [`RootWidget::error`] may
/// give for `err`: what some call of it on `err` returns.
pub open spec fn translates<T: RootWidget>(err: T::Error, text: (String, Option<String>)) -> bool {
    exists|w: &mut T| call_ensures(<T as RootWidget>::error, (w, &err), text)
}

/// Whether a dialog entry is the text that [`RootWidget::error`] gave for
/// some error.
pub open spec fn is_translation<T: RootWidget>(entry: (Seq<char>, Option<Seq<char>>)) -> bool {
    exists|e: T::Error, text: (String, Option<String>)| #[trigger] translates::<T>(e, text) && entry == shown_text(text)
}

/// Processes the root widget's queued messages and ticks the widget tree
/// (see [`Managed::update`]); a failure is translated by
/// [`RootWidget::error`] and queued in `dialog`.
///
/// Returns whether the update failed.
pub fn update_root<T: RootWidget>(root: &mut Managed<T>, dialog: &mut ErrorDialog) -> (failed: bool)
    ensures
        final(root).state().initialized == old(root).state().initialized,
        final(root).context() == old(root).context(),
        final(root).state().history.len() >= old(root).state().history.len(),
        final(root).state().history.subrange(0, old(root).state().history.len() as int)
            == old(root).state().history,
        exists|r: Result<(), T::Error>|
            is_update_run(#[trigger] final(root).state().history.skip(old(root).state().history.len() as int), r)
            && failed == r is Err,
        !failed ==> performs(final(root).done_since(old(root).state().history.len()), old(root).inner(),
            final(root).inner(), final(root).window_handle(), final(root).context()),
        !failed ==> final(dialog).queue() == old(dialog).queue(),
        failed ==> final(dialog).queue().len() == old(dialog).queue().len() + 1,
        failed ==> final(dialog).queue().take(old(dialog).queue().len() as int) == old(dialog).queue(),
        failed ==> exists|e: T::Error, text: (String, Option<String>)| {
            &&& is_update_run(final(root).done_since(old(root).state().history.len()), Err(e))
            &&& #[trigger] translates::<T>(e, text)
            &&& final(dialog).queue().last() == shown_text(text)
        },
{
    let r = root.update();
    let ghost run = root.state().history.skip(old(root).state().history.len() as int);
    assert(is_update_run(run, r));
    match r {
        Ok(()) => false,
        Err(e) => {
            let translate = <T as RootWidget>::error;
            let text = translate(root.widget_mut(), &e);
            assert(translates::<T>(e, text));
            let (summary, details) = text;
            dialog.emit(summary, details);
            assert(dialog.queue().take(old(dialog).queue().len() as int) =~= old(dialog).queue());
            assert(dialog.queue().last() == shown_text(text));
            true
        },
    }
}

/// Moves every error routed to the root widget into `dialog`, oldest first,
/// each translated by [`RootWidget::error`].
///
/// Returns how many errors were moved.
pub fn report_routed_errors<T: RootWidget>(root: &mut Managed<T>, errors: &QueueRx<T::Error>, dialog: &mut ErrorDialog) -> (n: usize)
    ensures
        final(root).state() == old(root).state(),
        final(root).context() == old(root).context(),
        final(dialog).queue().len() == old(dialog).queue().len() + n,
        final(dialog).queue().take(old(dialog).queue().len() as int) == old(dialog).queue(),
        forall|k: int| old(dialog).queue().len() <= k < final(dialog).queue().len() ==>
            is_translation::<T>(#[trigger] final(dialog).queue()[k]),
{
    let mut n: usize = 0;
    let mut budget: usize = usize::MAX;
    while budget > 0
        invariant
            root.state() == old(root).state(),
            root.context() == old(root).context(),
            dialog.queue().len() == old(dialog).queue().len() + n,
            dialog.queue().take(old(dialog).queue().len() as int) == old(dialog).queue(),
            n + budget == usize::MAX,
            forall|k: int| old(dialog).queue().len() <= k < dialog.queue().len() ==>
                is_translation::<T>(#[trigger] dialog.queue()[k]),
        decreases budget,
    {
        match queue_try_recv(errors) {
            Some(e) => {
                let ghost before = dialog.queue();
                let translate = <T as RootWidget>::error;
                let text = translate(root.widget_mut(), &e);
                assert(translates::<T>(e, text));
                let (summary, details) = text;
                dialog.emit(summary, details);
                assert(dialog.queue().take(old(dialog).queue().len() as int)
                    =~= before.take(old(dialog).queue().len() as int));
                assert forall|k: int| old(dialog).queue().len() <= k < dialog.queue().len() implies
                    is_translation::<T>(#[trigger] dialog.queue()[k]) by {
                    if k < before.len() {
                        assert(dialog.queue()[k] == before[k]);
                    } else {
                        assert(dialog.queue()[k] == shown_text(text));
                    }
                }
                n = n + 1;
            },
            None => break,
        }
        budget = budget - 1;
    }
    n
}

} // verus!
