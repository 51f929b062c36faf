# megalith

Territory Tabs is a UI framework for CAD and tooling applications: features
live in tabs, tabs sit inside territories, and territories tile a window
without ever overlapping.

- `src/` is the verified library. It holds the framework's decisions as plain
  values, each with a contract proved by Verus: resize handles and their
  magnitudes (`resize`), the links between neighbouring territories
  (`connections`), the mode and main-state machines (`states`), the
  placeholders of a tab move (`placeholder`), the drag interaction state
  machine (`drag`), the decisions of the territory motion pipeline
  (`motion`), display bookkeeping (`display`) and the tab catalogue (`tabs`).
  Laws relating these functions are public proof functions next to them.
- `tests/` runs the library on concrete values.
- `app/` is the Bevy application around the library: components, systems,
  plugins and all rectangle geometry, which is floating point.
