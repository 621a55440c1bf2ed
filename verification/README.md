# zedxa

The decisions behind the startup of a code editor and behind its workspace,
written in Rust and verified with Verus.

- `src/` is the library. It computes on plain values. Where the disk, the
  key-value store or the desktop has to be asked, a function takes a state and
  what came of the last request, and gives the next state and the next request.
- `app/` is the program around it, which performs the requests.
- `tests/` runs the library on examples.

| Module | What it decides |
| --- | --- |
| `installation` | the installation id: found, migrated from an earlier key, or made up |
| `restore` | which workspaces are opened at startup, in which order, and what else if there are none |
| `logging` | where the log goes, when its file is rotated, what a line looks like |
| `paths`, `launch`, `fonts` | directories, initialization, failures of the launch, fonts |
| `notifications` | what is told of an error in the keymap or the settings |
| `workspace` | which pane an item stands in, and what the pane does about its events |
| `item`, `project_items` | items, the handles on them, and the project items behind them |
| `item_settings`, `toast`, `text` | the settings of tabs, toasts, comparison of texts |
