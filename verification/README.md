# schminput

An input action library for Bevy: actions grouped in action sets, bound to keyboard,
mouse and gamepad inputs, filtered by subaction paths, with priorities between action
sets, rebinding at runtime and bindings files. OpenXR bindings are kept, rebound and
written to bindings files; reading OpenXR devices needs an OpenXR runtime crate, which
this crate does not use.

- `src/` is the library, verified with Verus: subaction path parsing and registry,
  binding types and builders, binding modifications, the plan of which bindings an action
  evaluates, priorities between action sets, gamepad selection and haptics routing,
  OpenXR binding lists, the rebinding state machine, and reading and writing bindings
  files (TOML, through `toml_edit`). Each public function states its result in its contract;
  the public proof functions state the laws that hold across calls.
- `app/` connects the library to Bevy: components, resources, messages, plugins and the
  systems that read input devices and write action values. The parts that compute on
  `f32` values (axis values, multipliers, rumble intensities) live there too.
- `tests/` runs the library on concrete values.
