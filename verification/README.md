# seishin2d

The verified core of a small 2D game engine, written in Verus.

`src/` is the library. Every function in it carries a contract that Verus
proves:

- `engine`, `ffi` — engine configuration and frame counting, and the status
  each C ABI call reports;
- `asset_path`, `assets`, `audio`, `render` — asset paths that never leave
  their root, image decoding, sound bookkeeping, texture data and the
  renderer's frame policy;
- `paths`, `project`, `application`, `platform` — `asset://`, `res://` and
  `user://` paths, load diagnostics, project settings, project discovery and
  the web file caches and responses;
- `input`, `actions` — keyboard state and named input actions;
- `world`, `scene`, `dialogue` — entities, prefabs and scene blueprints,
  components, the main scene's one-time load and the built-in dialogue
  interaction;
- `runtime` — the decisions of the desktop event loop and of headless runs;
- `tooling` — the web build tool's command-line, build plan and example
  manifests;
- `laws` — properties that span calls (path safety, scheme separation, input
  state over whole call sequences, entity lookup, texture ids, the run
  loops' ready, shutdown and error rules).

`app/` is the host around it: reading files, logging, the C ABI shims,
floating-point gameplay types, and the loops that perform what the library
decides. `tests/` exercises the library on concrete values.
