# shotpaste

Watches folders for new screenshots and puts each one on the clipboard as an
image, a file and a path at once, so that one paste does the right thing in any
program.

The library under `src/` holds the rules and states them as contracts that
Verus proves. It does no input or output: where work on the system and
decisions alternate, the library is a machine that asks for the next thing to
do and takes the answer. `app/` does what it is asked for.

| module | what it decides |
|---|---|
| `clipboard` | how a screenshot reaches the clipboard in three forms |
| `watcher` | which file events are screenshots, and which were pushed already |
| `tray` | the menu, the labels, the toasts and the session behind the icon |
| `config` | the settings, where they live, the folder watched by default |
| `installer` | autostart on Windows, macOS and Linux, and what is told of it |
| `windows_shortcut`, `powershell` | the name of the toasts, quoting for scripts |
| `single_instance` | the lock that keeps a second watcher out |
| `cli` | folders, display and log of a command line |
| `notify` | the texts of the toasts |
| `images` | decoding and encoding, by the `image` and `clipboard-rs` crates |
| `path`, `text`, `day`, `failure`, `platform`, `base_dirs` | what the others are made of |

Properties that relate several functions are proof functions whose names begin
with `law_`.
