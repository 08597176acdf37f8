# superpanels

The decision logic of the Superpanels wallpaper manager's daemon and GUI
shell, written in Verus and proved against its contracts.

- `src/` — the verified library: IPC framing, request routing, the slideshow
  and apply decisions, schedules, the thumbnail cache, the image library's
  rules (tags, root admission), the profile list, tray menu and tooltip,
  autostart and desktop entries, XDG paths, window geometry.
- `tests/` — tests of the library on concrete values.
- `app/` — the `superpanels-daemon` command line and the file, process and
  environment work around the library.
