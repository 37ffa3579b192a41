# colza

A color picker and contrast checker: pick a color from anywhere on screen with a
live magnifier, compare two colors, and see which WCAG 2.x contrast criteria
they meet.

- `src/` is the library, verified with Verus: reading and writing colors,
  grading a contrast ratio, repacking video frames, the magnifier, choosing and
  opening a screen source, and the state of the window.
- `app/` is the program round it: the windows (egui), the desktop portal
  (ashpd), the media server (PipeWire), files, and floating-point color math.
- `tests/` runs the library.

What is trusted rather than proved is in `src/shot.rs`: four calls into the
`image` crate, which holds the pixels of a captured image.
