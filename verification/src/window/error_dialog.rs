//! A modal that presents queued application errors, oldest first.

use std::collections::VecDeque;

use vstd::prelude::*;

use crate::text::{decimal, format_decimal};

verus! {

/// One error waiting to be shown.
pub struct QueuedError {
    /// A one-line description of the error.
    pub summary: String,
    /// Further details, if any.
    pub details: Option<String>,
}

/// The text of a queued error: its summary and its details.
pub open spec fn error_text(e: QueuedError) -> (Seq<char>, Option<Seq<char>>) {
    (e.summary@, match e.details {
        Some(d) => Some(d@),
        None => None,
    })
}

/// A first-in, first-out queue of errors displayed in a modal dialog.
pub struct ErrorDialog {
    errors: VecDeque<QueuedError>,
}

impl ErrorDialog {
    /// The queued errors as text, oldest first.
    pub closed spec fn queue(&self) -> Seq<(Seq<char>, Option<Seq<char>>)> {
        self.errors@.map_values(|e: QueuedError| error_text(e))
    }

    /// Creates a dialog with no errors; it is not shown.
    pub fn new() -> (d: Self)
        ensures
            d.queue() == Seq::<(Seq<char>, Option<Seq<char>>)>::empty(),
    {
        let d = ErrorDialog { errors: VecDeque::new() };
        assert(d.queue() =~= Seq::<(Seq<char>, Option<Seq<char>>)>::empty());
        d
    }

    /// Adds an error summary and optional details to the display queue.
    pub fn emit(&mut self, summary: String, details: Option<String>)
        ensures
            final(self).queue() == old(self).queue().push(error_text(QueuedError { summary, details })),
    {
        let e = QueuedError { summary, details };
        let ghost t = error_text(e);
        self.errors.push_back(e);
        assert(self.queue() =~= old(self).queue().push(t));
    }

    /// Returns the queued errors, oldest first.
    pub fn errors(&self) -> (r: &VecDeque<QueuedError>)
        ensures
            r@.map_values(|e: QueuedError| error_text(e)) == self.queue(),
    {
        &self.errors
    }

    /// Whether the dialog is shown: some error is queued.
    pub fn is_open(&self) -> (r: bool)
        ensures
            r == (self.queue().len() > 0),
    {
        self.errors.len() > 0
    }

    /// The counter shown under the title: "1 of N errors" when more than one
    /// error is queued, and nothing otherwise.
    pub fn counter_text(&self) -> (s: String)
        ensures
            s@ == if self.queue().len() > 1 {
                "1 of "@ + decimal(self.queue().len()) + " errors"@
            } else {
                Seq::<char>::empty()
            },
    {
        let n = self.errors.len();
        if n > 1 {
            let mut s = "1 of ".to_owned();
            s.append(format_decimal(n as u64).as_str());
            s.append(" errors");
            s
        } else {
            String::new()
        }
    }

    /// The summary of the oldest error, or nothing when none is queued.
    pub fn summary_text(&self) -> (s: String)
        ensures
            s@ == if self.queue().len() > 0 { self.queue()[0].0 } else { Seq::<char>::empty() },
    {
        if self.errors.len() > 0 {
            self.errors[0].summary.clone()
        } else {
            String::new()
        }
    }

    /// The details of the oldest error, if it has any.
    pub fn front_details(&self) -> (d: Option<String>)
        ensures
            match d {
                Some(t) => self.queue().len() > 0 && self.queue()[0].1 == Some(t@),
                None => self.queue().len() == 0 || self.queue()[0].1 is None,
            },
    {
        if self.errors.len() > 0 {
            match &self.errors[0].details {
                Some(t) => Some(t.clone()),
                None => None,
            }
        } else {
            None
        }
    }

    /// The label of the button that removes the shown error: "Dismiss" while
    /// more errors wait behind it, "Close" otherwise.
    pub fn dismiss_label(&self) -> (s: &'static str)
        ensures
            s@ == if self.queue().len() > 1 { "Dismiss"@ } else { "Close"@ },
    {
        if self.errors.len() > 1 {
            "Dismiss"
        } else {
            "Close"
        }
    }

    /// Removes the oldest error, the one being shown.
    pub fn dismiss(&mut self)
        ensures
            final(self).queue() == if old(self).queue().len() > 0 {
                old(self).queue().drop_first()
            } else {
                old(self).queue()
            },
    {
        let _ = self.errors.pop_front();
        assert(self.queue() =~= if old(self).queue().len() > 0 {
            old(self).queue().drop_first()
        } else {
            old(self).queue()
        });
    }
}

impl Default for ErrorDialog {
    fn default() -> (d: Self)
        ensures
            d.queue() == Seq::<(Seq<char>, Option<Seq<char>>)>::empty(),
    {
        ErrorDialog::new()
    }
}

/// Errors are shown first in, first out: an error emitted behind others is
/// the one shown once every earlier one has been dismissed, and emitting
/// never changes which error is shown.
pub proof fn errors_shown_in_emission_order<T>(queue: Seq<T>, emitted: T)
    ensures
        queue.push(emitted).skip(queue.len() as int) == seq![emitted],
        queue.len() > 0 ==> queue.push(emitted)[0] == queue[0],
        queue.len() > 0 ==> queue.push(emitted).drop_first() == queue.drop_first().push(emitted),
{
    assert(queue.push(emitted).skip(queue.len() as int) =~= seq![emitted]);
    if queue.len() > 0 {
        assert(queue.push(emitted).drop_first() =~= queue.drop_first().push(emitted));
    }
}

} // verus!
