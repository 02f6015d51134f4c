# Satisfactory map tracker

A desktop tool that shows the resource nodes of the Satisfactory world map,
marks the nodes that the extractors of a loaded save claim, and keeps notes
and drawings per save.

## Layout

- `src/` — the library, verified with Verus:
  - `reader`, `save_header`: the save file header (versions, names, play
    time, hashes), read from bytes with every error named.
  - `save_parser`: which actor types are extractors, rails, foundations and
    belts; power shards of an inventory; the index of potential inventories.
  - `storage`: save snapshots (SHA-256), byte differences between two
    versions of a save, refresh decisions, state schema migration.
  - `profiles`: notes and drawings kept per save, read back as written.
  - `annotations`, `drawings`, `map_view`: the drawings with their undo
    history, the drawing tools, selections, popups, filters and the
    selected node of the map panel.
  - `foundation`: outlines of the foundation areas on a grid.
  - `map`, `world_data`: filters, rates, colours and the resource order.
  - `localization`, `status`, `text_trim`, `strings`: texts in four
    languages, number grouping and the status lines.
  - `timing`: the loading animation frame and the automatic refresh.
- `tests/` — tests of the library.
- `app/` — the window (egui), file access, the state file and everything
  that computes with floating-point coordinates.
