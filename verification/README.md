# aefr

The verified core of the AEFR scenario editor, a Spine-based visual-novel
editor driven by a GUI and a SHELL console.

- `src/` (Verus): console command reading (`command`), text handling over
  `Seq<char>` (`text`), scenes and scenarios (`scenario`), the editor state
  with its typewriter, scene navigation, console log and character slots
  (`editor`), animation lookup (`animation`), worker-pool sizing
  (`scheduler`), and the laws that relate these operations (`laws`).
- `tests/`: runs the library on concrete inputs.
- `app/`: the window (eframe/egui), the Spine renderer (rusty_spine), audio
  (rodio), file dialogs (rfd) and JSON files (serde); it performs what the
  library decides.
