# package_updater

The logic of a COSMIC panel applet that reports pending package updates
on Arch Linux from three sources (pacman via `checkupdates`, the AUR via
`paru` or `yay`, and Flatpak), verified with Verus.

- `src/text.rs` — whitespace, words, tab-separated fields, lines and
  decimal numbers, each stated as a spec function over `Seq<char>`.
- `src/updates.rs` — sources, reports, the update commands, the parsing
  of the tools' output, and the decisions around a check: which sources
  run, how exit codes are read, when a check or the lock is retried.
- `src/config.rs` — the settings, their defaults and the interval field.
- `src/applet.rs` — the applet's state and how it answers each event
  (`next` states it; `AppletState::update` meets it).
- `src/display.rs` — the texts and icons the panel and popup show.
- `src/terminal.rs` — the script the update terminal runs.
- `src/laws.rs` — properties across events and functions, proved.
- `app/` — the COSMIC application itself: widgets, popups, timers, the
  file watcher, processes and the settings store.
