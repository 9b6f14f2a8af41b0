# harper_desktop

The decisions of a desktop application that checks grammar in the text areas of other
applications, verified with Verus.

- `src/` is the library. Its functions decide and compute; every one of them has a contract, and
  the `law_` proof functions state what holds over several calls. It opens no window, starts no
  process and reads no screen: where a decision is followed by such work, it is an action for the
  caller, who hands back what came of it.
- `app/` performs those actions: the command line, the Tauri shell, the worker thread with its
  runtime, the protocol of the highlighter process, and the macOS interfaces.
- `tests/` runs the library on concrete values.

Two functions of the standard library are trusted: `String::push`, whose specification stands in
`src/text.rs`, and `String::from_utf8_lossy`, which is called in `src/app_name.rs`.
