# The Tweed

The decisions of a plug-in that simulates a 5E3 amplifier, verified with Verus.

- `src/` is the library. The numbers that flow through the amplifier and the
  engine's stages are type parameters, and the engine's operations are closures:
  the library fixes in which order they run, on which state, and with what.
  - `selection`, `oversampling`, `params`: the front panel and the parameters
  - `preamp`, `grid_network`, `cab`: what the amplifier and its cabinet are built from
  - `inner`: the amplifier at the inner rate
  - `audio_state`, `process`, `plugin`: a buffer of the host, from the controls to the meters
  - `ir_load`, `ir_load_status`: how an impulse response reaches the audio thread
  - `gui`, `texture`: the editor
  - `magnitude`: peaks as bit patterns
  - `stage`: what it means that an operation can run on a stage
- `tests/` runs the library, the grid network against a small circuit solver.
- `app/` is the plug-in around the library: parameters, engine and window.
  It needs `nih_plug` and `thermionicdsp`.
