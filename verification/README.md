# spellwheel

A spell and quick-item wheel for Elden Ring, as a DLL mod. Hold the wheel's
key (or controller button), point at an entry, release: the game selects it.

The crate is a Verus project:

- `src/` is the verified library. It reads the game's FMG message files and
  builds the font glyph ranges their item names need, reads the menu's sprite
  layouts and per-block icon colour statistics, models the settings file and
  its once-a-second reload, keeps the controller's held-button state, looks up
  key and button names, and holds the per-frame rules: which wheel the held
  input opens, what changes when the open wheel changes, and how a highlighted
  entry becomes the slot the next frame selects.
- `app/` is the DLL around it: the loader entry point, the game's memory and
  task hooks, XInput and window input, archive decompression, file reading,
  and the Dear ImGui drawing, whose geometry is floating point.
- `tests/` exercises the library on concrete inputs.

Settings live in `spellwheel.toml` next to the DLL; every key is optional and
missing keys keep their defaults. The fonts and icon backgrounds ship in the
`spellwheel` folder beside it.

## Modded spell icons

Spells show their own icon where `spellwheel/icons` holds one: a file named
by the spell's id (`4000.png`), or an entry of a JSON file that the
`modded_spells` setting lists. Those paths, and the icon paths inside the
JSON, are relative to `spellwheel/icons`:

```json
[
    { "id": 1337, "path_to_icon": "path/to/icon.png" }
]
```

A modded spell's icon takes precedence over a shipped one.
