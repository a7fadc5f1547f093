# corecycler_gui

The configuration, log-following and run-monitoring logic of a desktop front
end for the CoreCycler CPU stability tester, written in Verus with its
behaviour stated in contracts and proved.

- `src/text.rs` — character-level text handling (trimming, searching,
  splitting, joining, decimal numbers) with specifications of what `str`
  methods give.
- `src/model.rs` — the configuration's sections and enumerations, their names
  in `config.ini` and their defaults.
- `src/ini.rs`, `src/config_file.rs` — reading `config.ini` and writing it
  back compactly, with only the settings that differ from the defaults; a
  saved configuration loads back unchanged.
- `src/edits.rs`, `src/choices.rs` — what the editor's fields, check boxes and
  drop-down lists do to the settings and show of them.
- `src/log_watch.rs` — recognising and following the log file of a run.
- `src/monitor.rs` — the state of every core, the iteration and the status,
  updated one output line at a time.
- `src/app_state.rs` — the application state: each message as a transition
  to a new state and the outside work it asks for.
- `app/` — the iced window, file access and the PowerShell process, which
  carry out that outside work.
