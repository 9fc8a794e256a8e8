//! In-app toast notifications.
//!
//! Toasts present temporary feedback or alerts in a non-intrusive overlay
//! floating above the application view. Times are counted in nanoseconds of
//! the application clock (see [`crate::native::Handle::clock_nanos`]).

use vstd::prelude::*;

use crate::emoji::{emoji, shortcode_emoji, Emoji};
use crate::window::{Context, Widget};

verus! {

/// An action that a toast runs once, with the context of the widget that
/// showed it.
pub trait ToastAction<W: Widget>: Send {
    /// Whether the action can run with any context.
    spec fn runnable(&self) -> bool;

    /// What holds once the action ran with `ctx`.
    spec fn ran(&self, ctx: &Context<W>) -> bool;

    /// Runs the action.
    fn run(self: Box<Self>, ctx: &Context<W>)
        requires
            self.runnable(),
        ensures
            self.ran(ctx),
    ;
}

struct ClosureAction<F> {
    f: F,
}

impl<W: Widget, F: FnOnce(&Context<W>) + Send> ToastAction<W> for ClosureAction<F> {
    closed spec fn runnable(&self) -> bool {
        forall|c: &Context<W>| call_requires(self.f, (c,))
    }

    closed spec fn ran(&self, ctx: &Context<W>) -> bool {
        call_ensures(self.f, (ctx,), ())
    }

    fn run(self: Box<Self>, ctx: &Context<W>) {
        let f = self.f;
        f(ctx)
    }
}

/// A boxed toast action.
#[verifier::reject_recursive_types(W)]
struct BoxedAction<W: Widget> {
    action: Box<dyn ToastAction<W>>,
}

/// Boxes a toast action as a trait object (`Box::new` with the unsizing
/// coercion that Verus does not model); the boxed action is runnable when the
/// action was, and running it does what running the action does: the box
/// calls the action's own methods.
#[verifier::external_body]
fn boxed_action<W: Widget, A: ToastAction<W> + 'static>(a: A) -> (r: BoxedAction<W>)
    ensures
        r.action.runnable() == a.runnable(),
        forall|c: &Context<W>| #[trigger] r.action.ran(c) == a.ran(c),
{
    BoxedAction { action: Box::new(a) }
}

/// A toast action bound to the context it runs with.
pub trait PendingAction: Send {
    /// Whether the action can run.
    spec fn runnable(&self) -> bool;

    /// What holds once the action ran.
    spec fn fired(&self) -> bool;

    /// Runs the action.
    fn fire(self: Box<Self>)
        requires
            self.runnable(),
        ensures
            self.fired(),
    ;
}

#[verifier::reject_recursive_types(W)]
struct BoundAction<W: Widget> {
    ctx: Context<W>,
    action: BoxedAction<W>,
}

impl<W: Widget> PendingAction for BoundAction<W> {
    closed spec fn runnable(&self) -> bool {
        self.action.action.runnable()
    }

    closed spec fn fired(&self) -> bool {
        self.action.action.ran(&self.ctx)
    }

    fn fire(self: Box<Self>) {
        let b = *self;
        b.action.action.run(&b.ctx)
    }
}

/// A boxed action waiting to run.
pub struct BoxedPending {
    action: Box<dyn PendingAction>,
}

impl BoxedPending {
    /// Whether the action can run.
    pub closed spec fn runnable(&self) -> bool {
        self.action.runnable()
    }

    /// What holds once the action ran.
    pub closed spec fn fires(&self) -> bool {
        self.action.fired()
    }

    /// Runs the action.
    pub fn fire(self)
        requires
            self.runnable(),
        ensures
            self.fires(),
    {
        self.action.fire()
    }
}

/// Boxes a bound action as a trait object (`Box::new` with the unsizing
/// coercion that Verus does not model); the boxed action is runnable when the
/// action was, and running it does what running the action does: the box
/// calls the action's own methods.
#[verifier::external_body]
fn boxed_pending<P: PendingAction + 'static>(p: P) -> (r: BoxedPending)
    ensures
        r.runnable() == p.runnable(),
        r.fires() == p.fired(),
{
    BoxedPending { action: Box::new(p) }
}

/// A span of time, in nanoseconds of the application clock.
#[derive(Debug, Clone, Copy, PartialEq, Eq, Structural)]
pub struct TimeSpan {
    /// The length of the span in nanoseconds.
    pub nanos: u128,
}

impl TimeSpan {
    /// A span of `secs` whole seconds.
    pub fn from_secs(secs: u64) -> (s: Self)
        ensures
            s.nanos == secs * 1_000_000_000,
    {
        TimeSpan { nanos: secs as u128 * 1_000_000_000 }
    }

    /// A span of `millis` milliseconds.
    pub fn from_millis(millis: u64) -> (s: Self)
        ensures
            s.nanos == millis * 1_000_000,
    {
        TimeSpan { nanos: millis as u128 * 1_000_000 }
    }

    /// A span of `nanos` nanoseconds.
    pub fn from_nanos(nanos: u128) -> (s: Self)
        ensures
            s.nanos == nanos,
    {
        TimeSpan { nanos }
    }
}

/// The kind of a toast, which sets its icon and accent color.
#[derive(Debug, Clone, Copy, PartialEq, Eq, Structural)]
pub enum ToastKind {
    /// Information.
    Info,
    /// A completed operation.
    Success,
    /// Something needs attention.
    Warning,
    /// Something failed.
    Error,
}

impl ToastKind {
    /// The shortcode of this kind's icon.
    pub open spec fn icon_shortcode(self) -> Seq<char> {
        match self {
            ToastKind::Info => "information_source"@,
            ToastKind::Success => "white_check_mark"@,
            ToastKind::Warning => "warning"@,
            ToastKind::Error => "x"@,
        }
    }

    /// The icon shown beside a toast of this kind.
    pub fn icon(&self) -> (e: Emoji)
        ensures
            shortcode_emoji(self.icon_shortcode()) matches Some(text) ==> e.text() == text,
    {
        match self {
            ToastKind::Info => emoji("information_source"),
            ToastKind::Success => emoji("white_check_mark"),
            ToastKind::Warning => emoji("warning"),
            ToastKind::Error => emoji("x"),
        }
    }
}

/// The accent color of a toast: a color of the current theme, or a fixed
/// one.
#[derive(Debug, Clone, Copy, PartialEq, Eq, Structural)]
pub enum Accent {
    /// The theme's hyperlink color.
    Hyperlink,
    /// The theme's warning color.
    Warning,
    /// The theme's error color.
    Error,
    /// This RGB color.
    Rgb(u8, u8, u8),
}

impl ToastKind {
    /// The accent color of this kind: success is a green that suits a dark
    /// or a light theme.
    pub open spec fn accent_spec(self, dark_mode: bool) -> Accent {
        match self {
            ToastKind::Info => Accent::Hyperlink,
            ToastKind::Warning => Accent::Warning,
            ToastKind::Error => Accent::Error,
            ToastKind::Success => if dark_mode { Accent::Rgb(100, 220, 140) } else { Accent::Rgb(30, 160, 60) },
        }
    }

    /// The accent color of this kind under a dark or a light theme.
    pub fn accent_color(&self, dark_mode: bool) -> (r: Accent)
        ensures
            r == self.accent_spec(dark_mode),
    {
        match self {
            ToastKind::Info => Accent::Hyperlink,
            ToastKind::Warning => Accent::Warning,
            ToastKind::Error => Accent::Error,
            ToastKind::Success => if dark_mode { Accent::Rgb(100, 220, 140) } else { Accent::Rgb(30, 160, 60) },
        }
    }
}

/// How long a toast stays by default, in nanoseconds (five seconds).
pub const DEFAULT_TOAST_NANOS: u128 = 5_000_000_000;

/// A toast notification configuration.
///
/// Build a toast using chainable builder methods and dispatch it via
/// [`Context::toast`].
#[verifier::reject_recursive_types(W)]
pub struct Toast<W: Widget> {
    kind: ToastKind,
    title: String,
    body: Option<String>,
    duration: Option<u128>,
    closable: bool,
    actions: Vec<(String, BoxedAction<W>)>,
}

impl<W: Widget> Toast<W> {
    /// Every action can run.
    #[verifier::type_invariant]
    spec fn actions_runnable(self) -> bool {
        forall|i: int| 0 <= i < self.actions@.len() ==> (#[trigger] self.actions@[i]).1.action.runnable()
    }
}

impl<W: Widget + 'static> Toast<W> {
    /// The kind of the toast.
    pub closed spec fn kind(&self) -> ToastKind {
        self.kind
    }

    /// The title of the toast.
    pub closed spec fn title(&self) -> Seq<char> {
        self.title@
    }

    /// The body text of the toast, if any.
    pub closed spec fn body_text(&self) -> Option<Seq<char>> {
        match self.body {
            Some(b) => Some(b@),
            None => None,
        }
    }

    /// How long the toast stays, in nanoseconds; `None` keeps it until it is
    /// closed.
    pub closed spec fn lifetime(&self) -> Option<u128> {
        self.duration
    }

    /// Whether a close button is shown.
    pub closed spec fn is_closable(&self) -> bool {
        self.closable
    }

    /// The labels of the action buttons, in order.
    pub closed spec fn action_labels(&self) -> Seq<Seq<char>> {
        self.actions@.map_values(|a: (String, BoxedAction<W>)| a.0@)
    }

    /// What holds once the action of button `j` ran with `ctx`.
    pub closed spec fn action_ran(&self, j: int, ctx: &Context<W>) -> bool {
        self.actions@[j].1.action.ran(ctx)
    }

    /// Whether the two toasts have the same actions.
    pub open spec fn same_actions(&self, other: &Self) -> bool {
        forall|j: int, c: &Context<W>| #[trigger] self.action_ran(j, c) == other.action_ran(j, c)
    }

    /// Creates a new informational toast with the given title that stays five
    /// seconds, can be closed, and has no body and no actions.
    pub fn new(title: String) -> (t: Self)
        ensures
            t.kind() == ToastKind::Info,
            t.title() == title@,
            t.body_text() is None,
            t.lifetime() == Some(DEFAULT_TOAST_NANOS),
            t.is_closable(),
            t.action_labels() == Seq::<Seq<char>>::empty(),
    {
        let t = Toast {
            kind: ToastKind::Info,
            title,
            body: None,
            duration: Some(DEFAULT_TOAST_NANOS),
            closable: true,
            actions: Vec::new(),
        };
        assert(t.action_labels() =~= Seq::<Seq<char>>::empty());
        t
    }

    fn with_kind(self, kind: ToastKind) -> (t: Self)
        ensures
            t.kind() == kind,
            t.title() == self.title(),
            t.body_text() == self.body_text(),
            t.lifetime() == self.lifetime(),
            t.is_closable() == self.is_closable(),
            t.action_labels() == self.action_labels(),
            t.same_actions(&self),
    {
        proof { use_type_invariant(&self); }
        Toast { kind, ..self }
    }

    /// Sets the toast kind to informational.
    pub fn info(self) -> (t: Self)
        ensures
            t.kind() == ToastKind::Info,
            t.title() == self.title(),
            t.body_text() == self.body_text(),
            t.lifetime() == self.lifetime(),
            t.is_closable() == self.is_closable(),
            t.action_labels() == self.action_labels(),
            t.same_actions(&self),
    {
        self.with_kind(ToastKind::Info)
    }

    /// Sets the toast kind to success.
    pub fn success(self) -> (t: Self)
        ensures
            t.kind() == ToastKind::Success,
            t.title() == self.title(),
            t.body_text() == self.body_text(),
            t.lifetime() == self.lifetime(),
            t.is_closable() == self.is_closable(),
            t.action_labels() == self.action_labels(),
            t.same_actions(&self),
    {
        self.with_kind(ToastKind::Success)
    }

    /// Sets the toast kind to warning.
    pub fn warning(self) -> (t: Self)
        ensures
            t.kind() == ToastKind::Warning,
            t.title() == self.title(),
            t.body_text() == self.body_text(),
            t.lifetime() == self.lifetime(),
            t.is_closable() == self.is_closable(),
            t.action_labels() == self.action_labels(),
            t.same_actions(&self),
    {
        self.with_kind(ToastKind::Warning)
    }

    /// Sets the toast kind to error.
    pub fn error(self) -> (t: Self)
        ensures
            t.kind() == ToastKind::Error,
            t.title() == self.title(),
            t.body_text() == self.body_text(),
            t.lifetime() == self.lifetime(),
            t.is_closable() == self.is_closable(),
            t.action_labels() == self.action_labels(),
            t.same_actions(&self),
    {
        self.with_kind(ToastKind::Error)
    }

    /// Sets secondary body description text.
    pub fn body(self, body: String) -> (t: Self)
        ensures
            t.kind() == self.kind(),
            t.title() == self.title(),
            t.body_text() == Some(body@),
            t.lifetime() == self.lifetime(),
            t.is_closable() == self.is_closable(),
            t.action_labels() == self.action_labels(),
            t.same_actions(&self),
    {
        proof { use_type_invariant(&self); }
        Toast { body: Some(body), ..self }
    }

    /// Sets the duration before the toast automatically dismisses.
    pub fn duration(self, duration: TimeSpan) -> (t: Self)
        ensures
            t.kind() == self.kind(),
            t.title() == self.title(),
            t.body_text() == self.body_text(),
            t.lifetime() == Some(duration.nanos),
            t.is_closable() == self.is_closable(),
            t.action_labels() == self.action_labels(),
            t.same_actions(&self),
    {
        proof { use_type_invariant(&self); }
        Toast { duration: Some(duration.nanos), ..self }
    }

    /// Makes this toast persistent until manually closed by the user.
    pub fn sticky(self) -> (t: Self)
        ensures
            t.kind() == self.kind(),
            t.title() == self.title(),
            t.body_text() == self.body_text(),
            t.lifetime() is None,
            t.is_closable() == self.is_closable(),
            t.action_labels() == self.action_labels(),
            t.same_actions(&self),
    {
        proof { use_type_invariant(&self); }
        Toast { duration: None, ..self }
    }

    /// Configures whether a manual close button is shown.
    pub fn closable(self, closable: bool) -> (t: Self)
        ensures
            t.kind() == self.kind(),
            t.title() == self.title(),
            t.body_text() == self.body_text(),
            t.lifetime() == self.lifetime(),
            t.is_closable() == closable,
            t.action_labels() == self.action_labels(),
            t.same_actions(&self),
    {
        proof { use_type_invariant(&self); }
        Toast { closable, ..self }
    }

    /// Adds an interactive action button that executes a callback with the
    /// widget's context when clicked.
    pub fn action<F: FnOnce(&Context<W>) + Send + 'static>(self, label: String, callback: F) -> (t: Self)
        requires
            forall|c: &Context<W>| call_requires(callback, (c,)),
        ensures
            t.kind() == self.kind(),
            t.title() == self.title(),
            t.body_text() == self.body_text(),
            t.lifetime() == self.lifetime(),
            t.is_closable() == self.is_closable(),
            t.action_labels() == self.action_labels().push(label@),
            forall|j: int, c: &Context<W>| 0 <= j < self.action_labels().len()
                ==> #[trigger] t.action_ran(j, c) == self.action_ran(j, c),
            forall|c: &Context<W>| #[trigger] t.action_ran(self.action_labels().len() as int, c)
                == call_ensures(callback, (c,), ()),
    {
        proof { use_type_invariant(&self); }
        let Toast { kind, title, body, duration, closable, actions } = self;
        let mut actions = actions;
        let ghost before = actions@;
        let ghost l = label@;
        let closure = ClosureAction { f: callback };
        assert(ToastAction::<W>::runnable(&closure));
        let boxed = boxed_action(closure);
        let entry = (label, boxed);
        actions.push(entry);
        assert(actions@.len() == before.len() + 1);
        assert(actions@ == before.push(entry));
        assert(forall|i: int| 0 <= i < before.len() ==> actions@[i] == before[i]);
        assert(actions@[before.len() as int].1.action.runnable());
        let t = Toast { kind, title, body, duration, closable, actions };
        assert(t.action_labels() =~= self.action_labels().push(l));
        t
    }

    /// Makes the toast live: its actions are bound to `ctx` and its lifetime
    /// starts at `now`.
    pub fn into_active(self, ctx: &Context<W>, id: u64, now: u128) -> (a: ActiveToast)
        ensures
            a.id() == id,
            a.kind() == self.kind(),
            a.title() == self.title(),
            a.body_text() == self.body_text(),
            a.lifetime() == self.lifetime(),
            a.is_closable() == self.is_closable(),
            a.action_labels() == self.action_labels(),
            forall|j: int| 0 <= j < self.action_labels().len() ==> #[trigger] a.action_pending(j),
            forall|j: int| 0 <= j < self.action_labels().len()
                ==> (#[trigger] a.pending_action(j))->0.fires() == self.action_ran(j, ctx),
            a.created_at() == now,
            a.paused() == 0,
            a.last_hovered() is None,
            !a.is_dismissed(),
    {
        proof { use_type_invariant(&self); }
        let Toast { kind, title, body, duration, closable, actions } = self;
        let ghost labels = self.action_labels();
        let mut source = actions;
        let mut bound: Vec<(String, Option<BoxedPending>)> = Vec::new();
        let n = source.len();
        let mut i: usize = 0;
        // Take the actions from the back and put them back in order at the end.
        let mut reversed: Vec<(String, Option<BoxedPending>)> = Vec::new();
        while i < n
            invariant
                n == labels.len(),
                i <= n,
                source@.len() == n - i,
                forall|j: int| 0 <= j < source@.len() ==> (#[trigger] source@[j]).1.action.runnable(),
                forall|j: int| 0 <= j < source@.len() ==> (#[trigger] source@[j]).0@ == labels[j],
                forall|j: int| 0 <= j < source@.len() ==> (#[trigger] source@[j]).1 == self.actions@[j].1,
                forall|j: int| 0 <= j < i ==> ((#[trigger] reversed@[j]).1->0.fires()
                    == self.action_ran(n - 1 - j, ctx)),
                reversed@.len() == i,
                forall|j: int| 0 <= j < i ==> (#[trigger] reversed@[j]).0@ == labels[n - 1 - j],
                forall|j: int| 0 <= j < i ==> ((#[trigger] reversed@[j]).1 matches Some(p) && p.runnable()),
            decreases n - i,
        {
            let ghost before = source@;
            let last = source.pop();
            assert(last == Some(before.last()));
            let (label, action) = last.unwrap();
            assert(label@ == labels[n - 1 - i]);
            let bound_action = BoundAction { ctx: ctx.clone(), action };
            let pending = boxed_pending(bound_action);
            let ghost rev_before = reversed@;
            let entry = (label, Some(pending));
            reversed.push(entry);
            assert(forall|j: int| 0 <= j < i ==> reversed@[j] == rev_before[j]);
            assert(forall|j: int| 0 <= j < source@.len() ==> source@[j] == before[j]);
            i = i + 1;
        }
        let mut k: usize = 0;
        while k < n
            invariant
                n == labels.len(),
                k <= n,
                reversed@.len() == n - k,
                forall|j: int| 0 <= j < n - k ==> (#[trigger] reversed@[j]).0@ == labels[n - 1 - j],
                forall|j: int| 0 <= j < n - k ==> ((#[trigger] reversed@[j]).1 matches Some(p) && p.runnable()),
                forall|j: int| 0 <= j < n - k ==> ((#[trigger] reversed@[j]).1->0.fires()
                    == self.action_ran(n - 1 - j, ctx)),
                forall|j: int| 0 <= j < k ==> ((#[trigger] bound@[j]).1->0.fires() == self.action_ran(j, ctx)),
                bound@.len() == k,
                forall|j: int| 0 <= j < k ==> (#[trigger] bound@[j]).0@ == labels[j],
                forall|j: int| 0 <= j < k ==> ((#[trigger] bound@[j]).1 matches Some(p) && p.runnable()),
            decreases n - k,
        {
            let ghost rev_before = reversed@;
            let ghost bound_before = bound@;
            let last = reversed.pop();
            assert(last == Some(rev_before.last()));
            let entry = last.unwrap();
            bound.push(entry);
            assert(forall|j: int| 0 <= j < k ==> bound@[j] == bound_before[j]);
            assert(forall|j: int| 0 <= j < reversed@.len() ==> reversed@[j] == rev_before[j]);
            k = k + 1;
        }
        let a = ActiveToast {
            id,
            kind,
            title,
            body,
            duration,
            closable,
            actions: bound,
            created_at: now,
            paused: 0,
            last_hovered: None,
            dismissed: false,
        };
        assert(a.action_labels() =~= labels);
        a
    }
}

/// A toast that is being shown.
pub struct ActiveToast {
    id: u64,
    kind: ToastKind,
    title: String,
    body: Option<String>,
    duration: Option<u128>,
    closable: bool,
    actions: Vec<(String, Option<BoxedPending>)>,
    created_at: u128,
    paused: u128,
    last_hovered: Option<u128>,
    dismissed: bool,
}

/// What is drawn for a toast.
pub struct ToastParts {
    /// The identifier of the toast.
    pub id: u64,
    /// The kind, which sets the icon and accent.
    pub kind: ToastKind,
    /// The title.
    pub title: String,
    /// The body text, if any.
    pub body: Option<String>,
    /// How long the toast stays, in nanoseconds of unpaused time; `None`
    /// until it is closed.
    pub lifetime: Option<u128>,
    /// Whether a close button is shown.
    pub closable: bool,
    /// The labels of the action buttons, in order.
    pub labels: Vec<String>,
    /// Whether the toast is dismissed, and so not drawn.
    pub dismissed: bool,
}

/// The characters of an optional string.
pub open spec fn opt_chars(s: Option<String>) -> Option<Seq<char>> {
    match s {
        Some(t) => Some(t@),
        None => None,
    }
}

/// `a - b`, or zero when `b` exceeds `a`.
pub open spec fn saturating_diff(a: u128, b: u128) -> u128 {
    if a >= b { (a - b) as u128 } else { 0 }
}

/// `a + b`, or the largest `u128` when the sum does not fit.
pub open spec fn saturating_sum(a: u128, b: u128) -> u128 {
    if a + b <= u128::MAX { (a + b) as u128 } else { u128::MAX }
}

impl ActiveToast {
    /// Every action that has not run yet can run.
    #[verifier::type_invariant]
    spec fn actions_runnable(self) -> bool {
        forall|i: int| 0 <= i < self.actions@.len() ==> ((#[trigger] self.actions@[i]).1 matches Some(p) ==> p.runnable())
    }

    /// The identifier of the toast.
    pub closed spec fn id(&self) -> u64 {
        self.id
    }

    /// The kind of the toast.
    pub closed spec fn kind(&self) -> ToastKind {
        self.kind
    }

    /// The title of the toast.
    pub closed spec fn title(&self) -> Seq<char> {
        self.title@
    }

    /// The body text of the toast, if any.
    pub closed spec fn body_text(&self) -> Option<Seq<char>> {
        match self.body {
            Some(b) => Some(b@),
            None => None,
        }
    }

    /// How long the toast stays, in nanoseconds of unpaused time.
    pub closed spec fn lifetime(&self) -> Option<u128> {
        self.duration
    }

    /// Whether a close button is shown.
    pub closed spec fn is_closable(&self) -> bool {
        self.closable
    }

    /// The labels of the action buttons, in order.
    pub closed spec fn action_labels(&self) -> Seq<Seq<char>> {
        self.actions@.map_values(|a: (String, Option<BoxedPending>)| a.0@)
    }

    /// Whether action `j` has not run yet.
    pub closed spec fn action_pending(&self, j: int) -> bool {
        0 <= j < self.actions@.len() && self.actions@[j].1 is Some
    }

    /// The action of button `j`, while it has not run yet.
    pub closed spec fn pending_action(&self, j: int) -> Option<BoxedPending> {
        if 0 <= j < self.actions@.len() {
            self.actions@[j].1
        } else {
            None
        }
    }

    /// When the toast was shown.
    pub closed spec fn created_at(&self) -> u128 {
        self.created_at
    }

    /// How long the toast has been hovered, in total, up to the last frame.
    pub closed spec fn paused(&self) -> u128 {
        self.paused
    }

    /// When the pointer was last seen over the toast, if it was there in the
    /// last frame.
    pub closed spec fn last_hovered(&self) -> Option<u128> {
        self.last_hovered
    }

    /// Whether the toast was closed or one of its actions was clicked.
    pub closed spec fn is_dismissed(&self) -> bool {
        self.dismissed
    }

    /// How long the toast has been shown at `now` without being hovered.
    pub open spec fn active_time(&self, now: u128) -> u128 {
        saturating_diff(saturating_diff(now, self.created_at()), self.paused())
    }

    /// Whether the toast is gone at `now`: dismissed, or shown unhovered for
    /// its whole lifetime.
    pub open spec fn expired_at(&self, now: u128) -> bool {
        self.is_dismissed() || (self.lifetime() matches Some(d) && self.active_time(now) >= d)
    }

    /// What is drawn for the toast: its kind, title, body, whether it has a
    /// close button, its action labels, and whether it is dismissed.
    pub fn parts(&self) -> (r: ToastParts)
        ensures
            r.id == self.id(),
            r.kind == self.kind(),
            r.title@ == self.title(),
            opt_chars(r.body) == self.body_text(),
            r.lifetime == self.lifetime(),
            r.closable == self.is_closable(),
            r.labels@.map_values(|l: String| l@) == self.action_labels(),
            r.dismissed == self.is_dismissed(),
    {
        let mut labels: Vec<String> = Vec::new();
        let mut i: usize = 0;
        while i < self.actions.len()
            invariant
                i <= self.actions@.len(),
                labels@.len() == i,
                forall|j: int| 0 <= j < i ==> (#[trigger] labels@[j])@ == self.actions@[j].0@,
            decreases self.actions@.len() - i,
        {
            let label = self.actions[i].0.clone();
            labels.push(label);
            i = i + 1;
        }
        assert(labels@.map_values(|l: String| l@) =~= self.action_labels());
        ToastParts {
            id: self.id,
            kind: self.kind,
            title: self.title.clone(),
            body: match &self.body {
                Some(b) => Some(b.clone()),
                None => None,
            },
            lifetime: self.duration,
            closable: self.closable,
            labels,
            dismissed: self.dismissed,
        }
    }

    /// Returns whether the toast is gone at `now`.
    pub fn is_expired(&self, now: u128) -> (r: bool)
        ensures
            r == self.expired_at(now),
    {
        if self.dismissed {
            return true;
        }
        match self.duration {
            Some(total) => {
                let shown = if now >= self.created_at { now - self.created_at } else { 0 };
                let active = if shown >= self.paused { shown - self.paused } else { 0 };
                active >= total
            },
            None => false,
        }
    }

    /// The remaining part of the lifetime at `now`, in nanoseconds; `None`
    /// for a sticky toast.
    pub fn remaining(&self, now: u128) -> (r: Option<u128>)
        ensures
            match self.lifetime() {
                None => r is None,
                Some(d) => r == Some(saturating_diff(d, self.active_time(now))),
            },
    {
        match self.duration {
            Some(total) => {
                let shown = if now >= self.created_at { now - self.created_at } else { 0 };
                let active = if shown >= self.paused { shown - self.paused } else { 0 };
                Some(if total >= active { total - active } else { 0 })
            },
            None => None,
        }
    }

    /// Whether the toast is unchanged but for what a frame may change:
    /// whether it is dismissed, its actions, and its hover time.
    pub open spec fn same_toast(&self, other: &ActiveToast) -> bool {
        &&& self.id() == other.id()
        &&& self.kind() == other.kind()
        &&& self.title() == other.title()
        &&& self.body_text() == other.body_text()
        &&& self.lifetime() == other.lifetime()
        &&& self.is_closable() == other.is_closable()
        &&& self.created_at() == other.created_at()
        &&& self.action_labels() == other.action_labels()
    }

    /// Applies what the user did to this toast in one frame at `now`.
    ///
    /// A dismissed toast is not shown and ignores input. Otherwise clicking the
    /// close button (shown only when closable) or an action dismisses it, and
    /// a clicked action is taken out, to run once; while it is hovered, the
    /// time since the previous frame does not count toward its lifetime.
    pub fn interact(&mut self, input: &ToastInput, now: u128) -> (r: Option<BoxedPending>)
        ensures
            after_frame(*old(self), *final(self), *input, now),
            r is Some <==> takes_action(*old(self), *input),
            r matches Some(p) ==> p.runnable(),
            takes_action(*old(self), *input) ==> r == old(self).pending_action(input.action_clicked->0 as int),
    {
        proof { use_type_invariant(&*self); }
        if self.dismissed {
            return None;
        }
        let mut taken: Option<BoxedPending> = None;
        if self.closable && input.close_clicked {
            self.dismissed = true;
        }
        match input.action_clicked {
            Some(j) => {
                if j < self.actions.len() {
                    self.dismissed = true;
                    let mut actions: Vec<(String, Option<BoxedPending>)> = Vec::new();
                    std::mem::swap(&mut actions, &mut self.actions);
                    let ghost before = actions@;
                    let (label, action) = actions.remove(j);
                    let entry = (label, None);
                    actions.insert(j, entry);
                    assert(forall|i: int| 0 <= i < before.len() && i != j ==> actions@[i] == before[i]);
                    assert(actions@.len() == before.len());
                    self.actions = actions;
                    proof {
                        assert(self.action_labels() =~= old(self).action_labels());
                    }
                    taken = action;
                }
            },
            None => {},
        }
        if input.hovered {
            match self.last_hovered {
                Some(last) => {
                    let since = if now >= last { now - last } else { 0 };
                    self.paused = self.paused.saturating_add(since);
                },
                None => {},
            }
            self.last_hovered = Some(now);
        } else {
            self.last_hovered = None;
        }
        taken
    }
}

/// Whether the input clicks one of the toast's action buttons.
pub open spec fn clicks_action(t: ActiveToast, input: ToastInput) -> bool {
    input.action_clicked matches Some(j) && j < t.action_labels().len()
}

/// Whether a frame with this input takes an action of the toast out to run:
/// the toast is shown and a button of an action that has not run yet is
/// clicked.
pub open spec fn takes_action(t: ActiveToast, input: ToastInput) -> bool {
    &&& !t.is_dismissed()
    &&& clicks_action(t, input)
    &&& t.action_pending(input.action_clicked->0 as int)
}

/// How one frame at `now` changes a toast: a dismissed toast is not shown
/// and stays as it is. Otherwise clicking the close button (shown only when
/// the toast is closable) or an action dismisses it, and a clicked action is
/// taken out; while the toast is hovered, the time since the previous frame
/// is added to its paused time.
pub open spec fn after_frame(before: ActiveToast, after: ActiveToast, input: ToastInput, now: u128) -> bool {
    if before.is_dismissed() {
        after == before
    } else {
        let clicked = clicks_action(before, input);
        &&& after.same_toast(&before)
        &&& after.is_dismissed() == ((before.is_closable() && input.close_clicked) || clicked)
        &&& after.paused() == if input.hovered && before.last_hovered() is Some {
            saturating_sum(before.paused(), saturating_diff(now, before.last_hovered()->0))
        } else {
            before.paused()
        }
        &&& after.last_hovered() == if input.hovered { Some(now) } else { None::<u128> }
        &&& forall|i: int| !(clicked && i == input.action_clicked->0)
            ==> #[trigger] after.action_pending(i) == before.action_pending(i)
        &&& clicked ==> !after.action_pending(input.action_clicked->0 as int)
        &&& forall|i: int| !(clicked && i == input.action_clicked->0)
            ==> #[trigger] after.pending_action(i) == before.pending_action(i)
    }
}

/// How many of the toasts have an action taken out by their inputs.
pub open spec fn actions_taken(toasts: Seq<ActiveToast>, inputs: Seq<ToastInput>) -> nat
    decreases toasts.len(),
{
    if toasts.len() == 0 {
        0
    } else {
        actions_taken(toasts.drop_last(), inputs)
            + if takes_action(toasts.last(), inputs[toasts.len() - 1]) { 1nat } else { 0nat }
    }
}

/// The actions that the toasts' inputs take out, oldest toast first: for
/// each toast whose clicked button has an action not run yet, that button's
/// own action.
pub open spec fn taken_actions(toasts: Seq<ActiveToast>, inputs: Seq<ToastInput>) -> Seq<BoxedPending>
    decreases toasts.len(),
{
    if toasts.len() == 0 {
        Seq::empty()
    } else {
        let last = toasts.last();
        let input = inputs[toasts.len() - 1];
        taken_actions(toasts.drop_last(), inputs) + if takes_action(last, input) {
            seq![last.pending_action(input.action_clicked->0 as int)->0]
        } else {
            Seq::<BoxedPending>::empty()
        }
    }
}

/// The same items in the opposite order.
fn reversed<T>(v: Vec<T>) -> (r: Vec<T>)
    ensures
        r@.len() == v@.len(),
        forall|j: int| 0 <= j < v@.len() ==> #[trigger] r@[j] == v@[v@.len() - 1 - j],
{
    let mut src = v;
    let mut out: Vec<T> = Vec::new();
    let n = src.len();
    while out.len() < n
        invariant
            n == v@.len(),
            src@.len() + out@.len() == n,
            forall|j: int| 0 <= j < src@.len() ==> #[trigger] src@[j] == v@[j],
            forall|j: int| 0 <= j < out@.len() ==> #[trigger] out@[j] == v@[n - 1 - j],
        decreases src@.len(),
    {
        let ghost src_before = src@;
        let ghost out_before = out@;
        let item = src.pop().unwrap();
        out.push(item);
        assert(forall|j: int| 0 <= j < src@.len() ==> src@[j] == src_before[j]);
        assert(forall|j: int| 0 <= j < out_before.len() ==> out@[j] == out_before[j]);
    }
    out
}

/// What the user did to one shown toast during a frame.
#[derive(Clone, Copy, PartialEq, Eq, Structural)]
pub struct ToastInput {
    /// The close button was clicked.
    pub close_clicked: bool,
    /// The action button with this index was clicked.
    pub action_clicked: Option<usize>,
    /// The pointer was over the toast.
    pub hovered: bool,
}

/// The toasts that are being shown, oldest first.
pub struct Toasts {
    toasts: Vec<ActiveToast>,
}

impl Toasts {
    /// The toasts, oldest first.
    pub closed spec fn shown(&self) -> Seq<ActiveToast> {
        self.toasts@
    }

    /// Creates an empty collection.
    pub fn new() -> (t: Self)
        ensures
            t.shown() == Seq::<ActiveToast>::empty(),
    {
        Toasts { toasts: Vec::new() }
    }

    /// Returns the toasts, oldest first.
    pub fn toasts(&self) -> (r: &Vec<ActiveToast>)
        ensures
            r@ == self.shown(),
    {
        &self.toasts
    }

    /// Adds a toast after the others.
    pub fn add(&mut self, toast: ActiveToast)
        ensures
            final(self).shown() == old(self).shown().push(toast),
    {
        self.toasts.push(toast);
    }

    /// Applies one frame of input at `now`: `inputs[i]` is what the user did
    /// to toast `i`. Returns the clicked actions, oldest toast first, to be
    /// run by the caller.
    pub fn interact(&mut self, inputs: &Vec<ToastInput>, now: u128) -> (run: Vec<BoxedPending>)
        requires
            inputs@.len() == old(self).shown().len(),
        ensures
            final(self).shown().len() == old(self).shown().len(),
            forall|i: int| 0 <= i < old(self).shown().len() ==>
                after_frame(old(self).shown()[i], #[trigger] final(self).shown()[i], inputs@[i], now),
            run@.len() == actions_taken(old(self).shown(), inputs@),
            run@ == taken_actions(old(self).shown(), inputs@),
            forall|k: int| 0 <= k < run@.len() ==> (#[trigger] run@[k]).runnable(),
    {
        let mut run: Vec<BoxedPending> = Vec::new();
        let mut done: Vec<ActiveToast> = Vec::new();
        let mut rest: Vec<ActiveToast> = Vec::new();
        std::mem::swap(&mut rest, &mut self.toasts);
        let mut rest = reversed(rest);
        let ghost initial = old(self).toasts@;
        let n = rest.len();
        let mut i: usize = 0;
        while i < n
            invariant
                n == initial.len(),
                n == inputs@.len(),
                i <= n,
                rest@.len() == n - i,
                forall|j: int| 0 <= j < rest@.len() ==> #[trigger] rest@[j] == initial[n - 1 - j],
                done@.len() == i,
                forall|j: int| 0 <= j < i ==> after_frame(initial[j], #[trigger] done@[j], inputs@[j], now),
                run@.len() == actions_taken(initial.take(i as int), inputs@),
                run@ == taken_actions(initial.take(i as int), inputs@),
                forall|k: int| 0 <= k < run@.len() ==> (#[trigger] run@[k]).runnable(),
            decreases n - i,
        {
            let ghost rest_before = rest@;
            let ghost done_before = done@;
            let mut toast = rest.pop().unwrap();
            assert(toast == initial[i as int]);
            assert(initial.take(i + 1).drop_last() =~= initial.take(i as int));
            assert(initial.take(i + 1).last() == initial[i as int]);
            let ghost run_before = run@;
            let taken = toast.interact(&inputs[i], now);
            match taken {
                Some(p) => run.push(p),
                None => {},
            }
            assert(run@ =~= taken_actions(initial.take(i + 1), inputs@));
            done.push(toast);
            assert(forall|j: int| 0 <= j < i ==> done@[j] == done_before[j]);
            assert(forall|j: int| 0 <= j < rest@.len() ==> rest@[j] == rest_before[j]);
            i = i + 1;
        }
        assert(initial.take(n as int) =~= initial);
        self.toasts = done;
        run
    }

    /// Removes the toasts that are gone at `now`, keeping the order of the
    /// others.
    pub fn remove_expired(&mut self, now: u128)
        ensures
            final(self).shown() == old(self).shown().filter(|t: ActiveToast| !t.expired_at(now)),
    {
        let mut kept: Vec<ActiveToast> = Vec::new();
        let mut rest: Vec<ActiveToast> = Vec::new();
        std::mem::swap(&mut rest, &mut self.toasts);
        let mut rest = reversed(rest);
        let ghost initial = old(self).toasts@;
        let n = rest.len();
        let mut i: usize = 0;
        while i < n
            invariant
                n == initial.len(),
                i <= n,
                rest@.len() == n - i,
                forall|j: int| 0 <= j < rest@.len() ==> #[trigger] rest@[j] == initial[n - 1 - j],
                kept@ == initial.take(i as int).filter(|t: ActiveToast| !t.expired_at(now)),
            decreases n - i,
        {
            let ghost rest_before = rest@;
            let toast = rest.pop().unwrap();
            assert(toast == initial[i as int]);
            assert(initial.take(i + 1).drop_last() =~= initial.take(i as int));
            proof {
                reveal_with_fuel(Seq::filter, 1);
            }
            if !toast.is_expired(now) {
                kept.push(toast);
            }
            assert(forall|j: int| 0 <= j < rest@.len() ==> rest@[j] == rest_before[j]);
            i = i + 1;
        }
        assert(initial.take(n as int) =~= initial);
        self.toasts = kept;
    }
}

/// A sticky toast never runs out: it is gone only once dismissed.
pub proof fn sticky_toast_stays(t: ActiveToast, now: u128)
    requires
        t.lifetime() is None,
    ensures
        t.expired_at(now) == t.is_dismissed(),
{
}

/// A toast that is shown and not hovered runs out once its whole lifetime
/// has passed since it was shown, and not before.
pub proof fn toast_runs_out_after_lifetime(t: ActiveToast, now: u128)
    requires
        !t.is_dismissed(),
        t.lifetime() is Some,
        t.paused() == 0,
        t.created_at() <= now,
    ensures
        t.expired_at(now) <==> now - t.created_at() >= t.lifetime()->0,
{
}

/// Hovering pauses the countdown: a toast hovered in one frame and still
/// hovered in the next has lost none of its lifetime in between.
pub proof fn hovering_pauses_countdown(before: ActiveToast, after: ActiveToast, input: ToastInput, last: u128, now: u128)
    requires
        after_frame(before, after, input, now),
        !before.is_dismissed(),
        input.hovered,
        before.last_hovered() == Some(last),
        before.created_at() <= last <= now,
        before.paused() <= last - before.created_at(),
        before.paused() + (now - last) <= u128::MAX,
    ensures
        after.active_time(now) == before.active_time(last),
{
}

/// An action runs at most once: a frame that takes it out leaves it
/// without an action to take again.
pub proof fn action_taken_once(before: ActiveToast, after: ActiveToast, input: ToastInput, now: u128)
    requires
        after_frame(before, after, input, now),
        takes_action(before, input),
    ensures
        !takes_action(after, input),
        after.is_dismissed(),
{
}

/// A click takes out the clicked button's own action: afterwards that
/// button has none left, and every other button keeps the action it had.
pub proof fn clicked_button_gives_its_own_action(before: ActiveToast, after: ActiveToast, input: ToastInput, now: u128)
    requires
        after_frame(before, after, input, now),
        takes_action(before, input),
    ensures
        before.pending_action(input.action_clicked->0 as int) is Some,
        after.pending_action(input.action_clicked->0 as int) is None,
        forall|i: int| i != input.action_clicked->0 ==> #[trigger] after.pending_action(i) == before.pending_action(i),
{
    let j = input.action_clicked->0 as int;
    assert(!after.action_pending(j));
}

/// The action that toast `k`'s input clicks.
pub open spec fn clicked_action(toasts: Seq<ActiveToast>, inputs: Seq<ToastInput>, k: int) -> Option<BoxedPending> {
    toasts[k].pending_action(inputs[k].action_clicked->0 as int)
}

/// Whether `a` is the action of the button that some toast's input clicks,
/// on a toast whose clicked button still had its action.
pub open spec fn is_clicked_action(toasts: Seq<ActiveToast>, inputs: Seq<ToastInput>, a: BoxedPending) -> bool {
    exists|k: int| 0 <= k < toasts.len() && takes_action(toasts[k], inputs[k])
        && Some(a) == #[trigger] clicked_action(toasts, inputs, k)
}

/// Every action that a frame takes out of the shown toasts is the action of
/// the button clicked on one of them, in the order of the toasts, and there
/// is one for each toast whose clicked button still had its action.
pub proof fn taken_actions_are_the_clicked_ones(toasts: Seq<ActiveToast>, inputs: Seq<ToastInput>)
    requires
        inputs.len() == toasts.len(),
    ensures
        taken_actions(toasts, inputs).len() == actions_taken(toasts, inputs),
        forall|m: int| 0 <= m < taken_actions(toasts, inputs).len()
            ==> is_clicked_action(toasts, inputs, #[trigger] taken_actions(toasts, inputs)[m]),
    decreases toasts.len(),
{
    if toasts.len() > 0 {
        let n = toasts.len();
        let front = toasts.drop_last();
        let inputs_front = inputs.take(n - 1);
        taken_actions_are_the_clicked_ones(front, inputs_front);
        lemma_taken_prefix_inputs(front, inputs, inputs_front);
        let t = taken_actions(toasts, inputs);
        let prev = taken_actions(front, inputs);
        assert forall|m: int| 0 <= m < t.len() implies is_clicked_action(toasts, inputs, #[trigger] t[m]) by {
            if m < prev.len() {
                assert(t[m] == prev[m]);
                assert(is_clicked_action(front, inputs_front, taken_actions(front, inputs_front)[m]));
                let k = choose|k: int|
                    0 <= k < front.len() && takes_action(front[k], inputs_front[k])
                        && Some(taken_actions(front, inputs_front)[m]) == #[trigger] clicked_action(front, inputs_front, k);
                assert(front[k] == toasts[k]);
                assert(inputs_front[k] == inputs[k]);
                assert(clicked_action(toasts, inputs, k) == clicked_action(front, inputs_front, k));
            } else {
                let k = n - 1;
                assert(takes_action(toasts[k], inputs[k]));
                assert(toasts[k].action_pending(inputs[k].action_clicked->0 as int));
                assert(Some(t[m]) == clicked_action(toasts, inputs, k));
            }
        }
    }
}

/// The actions taken out of the first toasts depend only on those toasts'
/// inputs.
proof fn lemma_taken_prefix_inputs(toasts: Seq<ActiveToast>, inputs: Seq<ToastInput>, prefix: Seq<ToastInput>)
    requires
        prefix.len() >= toasts.len(),
        inputs.len() >= toasts.len(),
        forall|k: int| 0 <= k < toasts.len() ==> inputs[k] == prefix[k],
    ensures
        taken_actions(toasts, inputs) == taken_actions(toasts, prefix),
        actions_taken(toasts, inputs) == actions_taken(toasts, prefix),
    decreases toasts.len(),
{
    if toasts.len() > 0 {
        lemma_taken_prefix_inputs(toasts.drop_last(), inputs, prefix);
    }
}

} // verus!
