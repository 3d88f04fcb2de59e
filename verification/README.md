# screen_shield

Core of the Screen Shield capture-exclusion helper for Windows, written in
Verus. The library holds the decisions and encodings; `app/` holds the Win32
calls that carry them out.

- `src/watcher.rs` — which window events the watcher acts on, the set of
  windows being hidden (a window is handled once per create/show pair), and
  the lifecycle of the message-pump thread and the process-creation trace.
- `src/hook.rs` — the injected hook library: display affinity, taskbar style
  bits, the in-process hook's event decisions, cloak removal retries and the
  enable/disable state.
- `src/window_list.rs` — which top-level windows are listed and how entries
  are completed with process, parent and icon; entries for window-less
  processes.
- `src/etw.rs` — kernel process-start records: process id and image name.
- `src/command_line.rs`, `src/ipc.rs` — the command line and the JSON serve
  protocol.
- `src/injector.rs` — hook library choice, remote calls, processes to hook.
- `src/icon.rs`, `src/base64.rs` — icon pixels to a PNG data URL.
- `src/strings.rs` — text helpers and the std conversions used.

`app/` builds the helper program (and, as `app/payload.rs`, the exports of the
hook library); it targets Windows only.
