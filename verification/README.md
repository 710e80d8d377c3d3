# deskshortcut

The core of DeskShortcut, a Windows launcher that collects desktop `.lnk`
shortcuts into a small docked window, written in Verus with its behaviour
stated in `requires` / `ensures` contracts.

- `src/` is the verified library:
  - `model` — shortcut, group and settings records, and the first-start state;
  - `text`, `wide` — character-level helpers and UTF-16 buffers as the shell
    API uses them;
  - `paths`, `shortcut` — `.lnk` path checks and turning what the shell reports
    about a shortcut into a `ShortcutInfo`;
  - `icons`, `icon_search`, `icon_image` — where an icon comes from, the order
    in which extraction tries its sources, and turning drawn pixels into a PNG
    data URL;
  - `ops` — finding records, launching, opening folders, startup registration
    and deleting the original shortcut file;
  - `window` — snapping to a screen edge, hiding and showing a docked window,
    and the tray menu;
  - `platform` — the shell operations where the Windows shell is missing.
- `app/` is the Tauri application around it: commands, tray, the JSON state
  file, and the COM / GDI / shell calls on Windows. It performs the actions the
  library decides on and hands back what came of them.
- `tests/` runs the library on concrete values.
