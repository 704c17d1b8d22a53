# uma_fps_unlocker

Verified core of an FPS unlocker for a Unity game on Windows. A small module
is injected into the running game; it detours Unity's
`Application.set_targetFrameRate` and `QualitySettings.set_vSyncCount` and
applies the settings that an injector wrote into the game folder.

Layout:

- `src/` — the library, verified with Verus:
  - `text.rs`: white space and trimming, ASCII lower-casing, decimal
    integers read and written as std does;
  - `wide.rs`: UTF-16 buffers of the Windows API and nul-terminated wide
    strings (through `widestring`), nul-terminated process names;
  - `config.rs`: the FPS and vertical-sync files, the module's settings and
    what its detours hand on, with the round-trip laws between writer and
    reader;
  - `process.rs`: the game's executable names and the case-insensitive
    search through the process list;
  - `polling.rs`: the decisions of the two waiting loops;
  - `cli.rs`: the console injector's command line;
  - `flow.rs`: the injection sequence of both injectors and their messages;
  - `hooking.rs`: the module's start-up sequence.
- `app/` — the Windows side: entry point and detours of the module
  (`minhook`), process enumeration and remote thread (`windows`), the console
  and windowed injectors.
- `tests/` — tests of the library on concrete values.
