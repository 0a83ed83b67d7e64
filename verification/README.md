# renderenko

A software renderer for player-skin textures, with an HTTP endpoint that
renders an uploaded skin.

- `src/` is the verified library: request validation and image settings,
  OBJ mesh text (number tokens, line kinds, triangle assembly), the cases
  of triangle clipping and clipping in stages, corner ordering and fill
  rows for rasterization, and the names of saved images.
- `app/` holds the floating-point pipeline (vectors, matrices, projection,
  shading, texture sampling), the image and file handling, and the HTTP
  server; it calls the library for every decision listed above.
- `tests/` exercises the library on concrete values.
