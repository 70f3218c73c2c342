# rs_3d_viewer

A drag-and-drop 3D model viewer built on raylib. The scene is rendered into a
640x480 target and blitted to the window through a post shader.

- `src/` is the verified library (Verus): the filter choices for the post shader and
  the GPU sampler (`filter`), the destination rectangle of the blit (`layout`), and
  the HUD text placement (`hud`), each with its contract and the laws that tie them
  together.
- `app/` is the program: window, input, orbit camera, shaders and drawing through
  raylib. Shaders, icon and font are read from an `assets` directory next to the
  executable.
- `tests/` runs the library on concrete values.
