# oxide_engine

A small game engine whose decision logic is a library verified with Verus.

- `src/` is the verified library: the asset manifest and the cooker's
  registry and lookups, the render graph, the choice of graphics device,
  the frame pacing of the renderer and the descriptor sets of its draws,
  keyboard and mouse state, mesh index data (checking, decoding, quads),
  the replacement of mesh data behind device transfers, collision pairs,
  and name lookups between assets. Each public function states what it
  returns or changes; the `law_*` proof functions state what holds across
  calls.
- `app/` is the engine around it: the window and event loop, Vulkan through
  `vulkano`, file, image and model reading, serialisation, floating-point
  geometry and physics, and the asset command line. It hands the library
  plain values and acts on what comes back.
- `tests/` runs the library on concrete values.
