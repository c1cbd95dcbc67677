# mkac

The decision logic of MKAC, a mouse and keyboard auto-clicker and key-holder
for Windows, as a Verus-verified library, with the Windows program around it.

- `src/` — the library. `engine` holds the tick loop (`scheduler::Engine`,
  driven by commands and clock ticks, handing back the input to inject and the
  events to report), the hold-mode latches (`virtual_hold`), key-tap and click
  plans (`input`), recordings (`macros`) and the laws that tie them together
  (`properties`). `hooks` holds the hotkey state and what the input hooks
  record; `app` the interface state and what each user action changes;
  `config` settings, file names and paths; `ui` the small decisions of the
  widgets; `autostart` the registry value for launch-at-login.
- `tests/` — tests on concrete values.
- `app/` — the program: threads, Win32 input injection and hooks, files,
  tray and the egui window, performing what the library decides.
