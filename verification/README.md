# vkit_viewport

The decisions of a 3D head-editing viewport, written in Verus and proved
against their contracts: which gizmo grip a press takes, how a sculpt,
hair or texture stroke opens and closes its edit, what the history dial
walks to, which panels, islands and toolboxes a frame shows, which passes
draw a result, how pins are added in mirrored pairs, and so on.

- `src/` is the verified library. Each module states its rules as spec
  functions and proves its executable functions and laws against them.
  Floating-point values never enter it: where the viewport measures in
  points or centimetres, the library takes the outcome of the measurement
  as a plain value.
- `src/picture.rs` calls the `image` crate behind two trusted wrappers
  whose contracts are stated in their doc comments.
- `app/` holds what cannot be verified: the floating-point geometry the
  decisions are measured from (gizmo distances, toolbox rectangles, the
  viewport chrome, the depth grid, strand relaxation), meshes built on the
  library's triangle lists, and file I/O (reading pictures, the file
  dialog).
- `tests/` runs the library on concrete values.
