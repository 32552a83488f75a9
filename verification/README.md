# fluxel_renderer

The headless renderer layer of the Fluxel rendering kernel: scene and domain
data, immutable GPU snapshot generations, closed raster recipes, and the
admission, publication, and lifecycle rules around native uploads and fixed
draws. The library is written in Verus; every function carries a contract
that the verifier proves.

Floating-point values cross the library boundary as their IEEE-754 binary32
bit patterns (`f32::to_bits`). Finiteness, range checks, and little-endian
serialization are exact bit-level operations inside the library.

## Layout

- `src/scene.rs`, `src/shader.rs`: cameras, geometry, materials, model
  placements, meshes, insertion-ordered draw lists, and shader source
  selection.
- `src/frame_uniform.rs`: validation and serialization of the closed
  camera/material uniform.
- `src/upload/`: upload payload serialization, textured and vertex-color
  stream validation, RGBA8 images, snapshot generations and their use gates,
  the publication policy, and the non-blocking upload coordinators.
- `src/fixed_frame/`: graph identities, the closed raster recipes, draw-start
  admission, frame-binding resolution, packet identities, the packet's
  buffer-import plan (draws of one snapshot generation share one imported
  pair), packet draw association and lowering checks, the device steps that
  start a fixed frame, the fixed-frame submission lifecycle, and
  visible-frame permissions.
- `src/prepared_scene.rs`: presentation profiles, scene preparation (empty
  scenes, index counts, lowest failing draw, insertion order), preparation
  errors, and the presentation graph buffer layout.
- `app/lib.rs`: binary32 arithmetic that stays outside the verified library
  (the projection, view and model matrix products, and the clip-space
  comparisons), and the composition of scene preparation around it; the
  decisions around that arithmetic are the library's.
- `tests/`: executable tests of the library.

## What the library does not contain

- The render-graph declarations (the camera, textured, explicit-UV,
  normal-Lambert and packet graphs, and the presentation graph itself) and
  the native device calls of the renderer's start, draw and upload paths.
  They are written against the project's render-graph and device crates,
  which are not available to this build; the decisions around them
  (identities, recipes, admission, buffer layout, import plan, the order of
  the start steps and their descriptors, release and poison rules) are in
  the library, and the caller performs each device step it names.
- The task graph that runs scene preparation in parallel. Its result is the
  same as preparing draws in insertion order and reporting the lowest
  failing draw, which is what `prepare_scene` does.
- Binary32 arithmetic: matrix products and clip-space comparisons are
  computed by the caller (`app/lib.rs`) and enter the library as bit
  patterns or as their outcome.
- Dropping a reservation or a submission does not poison a generation by
  itself: Verus has no destructors. A reservation returns to its generation
  only through the generation (`UseGated::release_reservation` or
  `poison_reservation`), and a submission ends with its `drop` method, which
  poisons a generation that is still in flight. A snapshot never hands out
  its use gate for writing.
