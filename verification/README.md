# switchboard

A Windows tray program that disables a Surface laptop's internal keyboard
while a paired Nuphy Bluetooth keyboard is connected, and enables it again on
every other path (disconnect, sleep, lock, quit, crash recovery).

The decisions are a library verified with Verus (`src/`); the Win32 and WinRT
calls around them are an ordinary program (`app/`).

## Library (`src/`)

| Module | What it decides |
|--------|-----------------|
| `policy` | The message loop's controller: events and answers in, next state, effects and the next question out. |
| `policy_laws` | Laws of the controller: fail-safe enables, single-match disables, stale-result immunity, worker-dead lockdown, resume holding, Quit recovery. |
| `device` | The three-clause target predicate, the single-match resolve and its dump, property decoding, `ConfigFlags` planning, PnP re-evaluation steps. |
| `recovery` | The `--recover`, Quit and inline enable procedures as step machines; the shutdown cleanup and its running lock. |
| `startup` | Single-instance check, state-file paths, cold-start and crash notices, lockout-protection installation. |
| `worker` | Worker commands, the disable report, the modifier key-ups. |
| `messages` | Routing of window messages and power-setting changes. |
| `tray` | Tooltip, menu labels, autostart and boot-task toggles, stale-path warnings. |
| `admin` | Command-line modes and the reports of the boot-task subcommands. |
| `scheduler` | What Task Scheduler answers mean. |
| `autostart`, `boot_task`, `task_xml` | Task XML: building, escaping, extracting the command (with round-trip laws). |
| `ble` | Bluetooth address parsing (with a round-trip law), `.env` files, BLE errors and status. |
| `theme` | Taskbar theme and the `ImmersiveColorSet` check. |
| `text`, `wide` | Character and UTF-16 helpers (with a decode-of-encode law). |

## Program (`app/`)

`app/main.rs` runs the message loop and the worker thread and performs what
the library asks for: SetupAPI and registry access (`device_io.rs`), Task
Scheduler COM (`tasks.rs`), WinRT Bluetooth (`ble_io.rs`) and the tray
(`ui.rs`). It builds for Windows only.
