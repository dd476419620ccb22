# anf

Frame timing, sprite batching and configuration logic of the ANF 2D game framework (built on
FNA3D and SDL2), verified with Verus.

- `src/` is the verified library: the game clock (`clock`, `gameloop`, `time`), the sprite
  batch and its draw calls (`batch`, `batcher`), texture formats and sizes (`texture`,
  `adapter`, `vertices`, `clear`), the texture that mirrors a font atlas (`font`), window
  settings (`config`), the quit decision (`event`) and a frame rate counter (`utils`).
- `app/` is the program around it: the SDL window, the FNA3D device, shaders, vertex
  geometry in floating point, the font stash and its callbacks, and the loop that measures
  time and sleeps.
- `tests/` runs the library on concrete values.
