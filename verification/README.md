# blaze_app

The verified core of BlazePilot, a file explorer for Linux built with egui.
The library holds what the explorer decides, with contracts proved by
Verus; the interface around it draws with egui and talks to the system.

- `src/` — the library, verified:
  - `formatting` — file sizes and relative dates;
  - `text` — decimal notation and small string helpers;
  - `themes` — theme types, the built-in themes, the theme manager and
    colors;
  - `tasks` — the background tasks shown in the progress bubble;
  - `channels` — the per-tab message channels and their notifiers;
  - `selection`, `ordering`, `view_mode`, `interactions`, `hot_keys`,
    `context_menu`, `file_icons`, `sidebar` — the rules of the file list,
    its menus, keys and icons;
  - `repaint`, `window`, `launch` — the window loop's decisions and the
    start-up folder.
- `tests/` — tests of the library, run against the compiled crate.
- `app/` — ordinary Rust around the library: theme files on disk, the
  command line, the clocks, float formatting and color math, and the
  shared instances.
