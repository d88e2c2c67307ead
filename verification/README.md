# bevy_audio_anim_demo

Shared helpers for a set of Bevy audio and animation demos.

- `src/` (verified with Verus): where the on-screen hint and title sit and how
  large they are (`overlay`), and the shared scene, background colour, default
  camera, sun light and ground plane (`scene`), in whole pixels and thousandths.
- `app/`: the Bevy side: plugins, the startup system, and the functions that
  turn the library's values into engine components and spawn them.
- `tests/`: the library's values and the properties its contracts state.
