//! Requests to register global desktop shortcuts.

use ashpd::desktop::global_shortcuts::NewShortcut;
use vstd::prelude::*;

verus! {

#[verifier::external_type_specification]
#[verifier::external_body]
pub struct ExNewShortcut(NewShortcut);

/// The portal's descriptor of a shortcut with this identifier, description
/// and preferred trigger, if any: what `NewShortcut::new` gives, with its
/// preferred trigger then set by `NewShortcut::preferred_trigger`. The
/// descriptor stores the three texts and nothing else.
pub uninterp spec fn shortcut_descriptor(id: Seq<char>, description: Seq<char>, trigger: Option<Seq<char>>) -> NewShortcut;

/// A shortcut descriptor with an identifier and a description
/// (`NewShortcut::new`).
///
/// Claims that the descriptor is the one for these texts and no preferred
/// trigger: the source stores the two strings and `None`.
#[verifier::external_body]
fn new_shortcut(id: String, description: String) -> (r: NewShortcut)
    ensures
        r == shortcut_descriptor(id@, description@, None),
{
    NewShortcut::new(id, description)
}

/// A shortcut descriptor with an identifier, a description and a preferred
/// trigger (`NewShortcut::new`, then `NewShortcut::preferred_trigger` with
/// `Some(trigger)`).
///
/// Claims that the descriptor is the one for these three texts: the source
/// stores the two strings, then replaces the trigger with a copy of
/// `trigger`.
#[verifier::external_body]
fn new_shortcut_with_trigger(id: String, description: String, trigger: &str) -> (r: NewShortcut)
    ensures
        r == shortcut_descriptor(id@, description@, Some(trigger@)),
{
    NewShortcut::new(id, description).preferred_trigger(Some(trigger))
}

/// One shortcut of a request: its identifier, its human-readable
/// description, and the key combination it would preferably be bound to.
pub struct ShortcutEntry {
    pub id: String,
    pub description: String,
    pub preferred_trigger: Option<String>,
}

/// The text of an entry.
pub open spec fn entry_view(e: ShortcutEntry) -> (Seq<char>, Seq<char>, Option<Seq<char>>) {
    (e.id@, e.description@, match e.preferred_trigger {
        Some(t) => Some(t@),
        None => None,
    })
}

/// Request to register one or more global desktop shortcuts.
pub struct GlobalShortcuts {
    shortcuts: Vec<ShortcutEntry>,
}

impl GlobalShortcuts {
    /// The shortcuts requested so far, in the order they were added.
    pub closed spec fn entries(&self) -> Seq<(Seq<char>, Seq<char>, Option<Seq<char>>)> {
        self.shortcuts@.map_values(|e: ShortcutEntry| entry_view(e))
    }

    /// Creates an empty global shortcuts request.
    pub fn new() -> (r: Self)
        ensures
            r.entries() == Seq::<(Seq<char>, Seq<char>, Option<Seq<char>>)>::empty(),
    {
        let r = GlobalShortcuts { shortcuts: Vec::new() };
        assert(r.entries() =~= Seq::<(Seq<char>, Seq<char>, Option<Seq<char>>)>::empty());
        r
    }

    /// Adds a shortcut with an identifier and human-readable description.
    pub fn shortcut(self, id: &str, description: &str) -> (r: Self)
        ensures
            r.entries() == self.entries().push((id@, description@, None::<Seq<char>>)),
    {
        let mut shortcuts = self.shortcuts;
        let entry = ShortcutEntry { id: id.to_owned(), description: description.to_owned(), preferred_trigger: None };
        shortcuts.push(entry);
        let r = GlobalShortcuts { shortcuts };
        assert(r.entries() =~= self.entries().push((id@, description@, None::<Seq<char>>)));
        r
    }

    /// Adds a shortcut with an identifier, description, and an initial
    /// preferred trigger key combination (e.g. `"Control+Alt+F"`), as the
    /// XDG shortcuts specification writes them.
    pub fn shortcut_with_trigger(self, id: &str, description: &str, preferred_trigger: &str) -> (r: Self)
        ensures
            r.entries() == self.entries().push((id@, description@, Some(preferred_trigger@))),
    {
        let mut shortcuts = self.shortcuts;
        let entry = ShortcutEntry {
            id: id.to_owned(),
            description: description.to_owned(),
            preferred_trigger: Some(preferred_trigger.to_owned()),
        };
        shortcuts.push(entry);
        let r = GlobalShortcuts { shortcuts };
        assert(r.entries() =~= self.entries().push((id@, description@, Some(preferred_trigger@))));
        r
    }

    /// The number of shortcuts requested.
    pub fn len(&self) -> (r: usize)
        ensures
            r == self.entries().len(),
    {
        self.shortcuts.len()
    }

    /// The portal's descriptors for the requested shortcuts, one for each
    /// entry, in order, each built from that entry's identifier, description
    /// and preferred trigger.
    pub fn descriptors(&self) -> (r: Vec<NewShortcut>)
        ensures
            r@.len() == self.entries().len(),
            forall|i: int| 0 <= i < r@.len() ==> #[trigger] r@[i] == shortcut_descriptor(
                self.entries()[i].0,
                self.entries()[i].1,
                self.entries()[i].2,
            ),
    {
        let mut out: Vec<NewShortcut> = Vec::new();
        let mut i: usize = 0;
        while i < self.shortcuts.len()
            invariant
                i <= self.shortcuts@.len(),
                out@.len() == i,
                forall|j: int| 0 <= j < i ==> #[trigger] out@[j] == shortcut_descriptor(
                    entry_view(self.shortcuts@[j]).0,
                    entry_view(self.shortcuts@[j]).1,
                    entry_view(self.shortcuts@[j]).2,
                ),
            decreases self.shortcuts@.len() - i,
        {
            let e = &self.shortcuts[i];
            let d = match &e.preferred_trigger {
                Some(t) => new_shortcut_with_trigger(e.id.clone(), e.description.clone(), t.as_str()),
                None => new_shortcut(e.id.clone(), e.description.clone()),
            };
            assert(d == shortcut_descriptor(entry_view(*e).0, entry_view(*e).1, entry_view(*e).2));
            out.push(d);
            i = i + 1;
        }
        assert forall|j: int| 0 <= j < out@.len() implies #[trigger] out@[j] == shortcut_descriptor(
            self.entries()[j].0,
            self.entries()[j].1,
            self.entries()[j].2,
        ) by {
            assert(self.entries()[j] == entry_view(self.shortcuts@[j]));
        }
        out
    }
}

impl Default for GlobalShortcuts {
    fn default() -> (r: Self)
        ensures
            r.entries() == Seq::<(Seq<char>, Seq<char>, Option<Seq<char>>)>::empty(),
    {
        GlobalShortcuts::new()
    }
}

} // verus!
