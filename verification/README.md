# actiona

The verified core of a desktop automation toolkit, written in Verus.

- `src/` is the library. Its own logic is verified; the calls it makes into
  outside crates sit in small trusted wrappers (marked
  `#[verifier::external_body]`) whose contracts Verus takes on trust. It holds the
  saturating integers and geometry, colors and the named-color table, an
  RGBA image model with its drawing operations and its decoding from and
  encoding to image file bytes, display selection, mouse
  gestures, keyboard keys, key and text triggers, the console's rendering
  of script values, stack-trace frames, schedules, durations and the
  update checker's decisions. Calls into `image`, `imageproc`, `indexmap`,
  `unicode-segmentation`, `chrono`, `humantime`, `humansize`,
  `convert_case` and `rand` go through those wrappers, each documented
  with what its contract claims of the outside function.
- `tests/` exercises the library through its public API.
- `app/` is ordinary Rust around the library: reading and writing files, the
  clock and environment, input devices, and operations on floating point.
