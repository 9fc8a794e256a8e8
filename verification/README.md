# egelm

`egelm` is a small framework for native GUI applications written with
[`egui`](https://github.com/emilk/egui): typed widget messages, managed child
widgets with a lifecycle, error routing to a built-in dialog, toasts, an about
dialog, key-value storage, XDG desktop-portal requests and user themes.

The library in `src/` is written in Verus. Each public function states what it
does in `requires`/`ensures` clauses over mathematical models (sequences, maps,
strings as character sequences), and Verus proves the code against them.
Calls into other crates go through small trusted wrappers whose contracts say
only what those crates document.

- `src/window.rs`: senders, widget contexts, `Managed` widgets and their
  lifecycle, the application value; `src/window/` holds the error dialog, the
  about dialog and toasts.
- `src/native.rs`: window handles and frames; `src/native/event_loop.rs`
  decides what the event loop does for each event.
- `src/lifecycle.rs`: what `#[derive(Widget)]` recognises in field types and
  the lifecycle code it writes.
- `src/storage.rs` and `src/storage/`: storage backends in memory and in a
  file.
- `src/portal/`: file chooser, open-URI and global-shortcut requests.
- `src/theme.rs`, `src/text.rs`, `src/emoji.rs`, `src/error.rs`: colours
  written as hex, number formatting, emoji lookup, errors.

`app/` is ordinary Rust around the library: the `winit` event loop and the
OpenGL renderer, Tokio tasks, desktop-portal I/O, theme files, the storage
file, the drawing of dialogs and toasts, and the expansion of the derive.

A widget writes out its update, tick, init and child hooks (a widget with
nothing to do returns `Ok(())` or does nothing); each hook's contract names
a predicate that a verified implementation overrides to say what it does,
and `Managed` states every call it makes in terms of those predicates. The
shutdown hooks keep their empty defaults, since a dropped `Managed` runs them
and they must not unwind.
