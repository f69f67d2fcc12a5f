# Pixel Sprite Studio

An animation tool for part-based pixel-art characters: characters are built from parts
(head, torso, limbs, ...), each with states and pre-drawn rotations; animations are frames of
placed parts, exported as spritesheets with JSON metadata.

## Layout

- `src/` — the editor core, written in Verus and verified: the project model, loading and
  migration of older project files, the editor state and every editing operation (placing,
  deleting, renaming, reordering layers, timeline, inspector, reference images, rotation
  imports), the recent-projects list, spritesheet layout, metadata and file naming, image
  decoding, resizing and encoding (through the `image` and `base64` crates), pixel
  hit-testing and the laws that tie operations together (`src/laws.rs`).
- `tests/` — tests of the core on concrete values.
- `app/` — the Bevy/egui program around the core: windows and drawing, reading and writing files,
  JSON (de)serialization of projects and configuration, and the floating-point work (zoom,
  canvas geometry, the size an image is shrunk to, alpha blending).

Floating-point values the core stores (positions, scales, zoom, opacity) are kept there as
their single-precision bit patterns; the interface converts them.
