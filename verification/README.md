# adios

A waveform editor ("Adios!"): load a sound file, select, cut, copy, paste
and pad samples, redraw a selection by hand through a small formula
language, look at a spectrogram, play the result and save it as WAV.

The editing logic is a Verus library whose behaviour is stated in
`requires`/`ensures` contracts and proved:

- `src/page.rs` — the waveform page model: selection, clipboard commands,
  the edit session (drawing, erasing, applying or discarding), the menus'
  enabling rules, and laws such as "pasting what a cut removed restores the
  samples".
- `src/session.rs` — the window: its pages, the clipboard, the spectrogram
  on show, and what each window message does.
- `src/drawer.rs` — the pointer state machine of the waveform canvas and the
  index arithmetic of the view.
- `src/ast.rs`, `src/resolve.rs`, `src/formula.rs` — the formula syntax
  tree, the resolution of variable names to slots, and the editor feedback.
- `src/sources.rs`, `src/effects.rs` — sample sources and edit effects.
- `src/spectrum.rs`, `src/wav_writer.rs` — the input of the spectrogram
  (rendered by `sonogram`) and the bytes of a WAV file (written by `wav`).

`app/` is the `iced` program around the library: widgets, canvas drawing in
`f32` coordinates, the formula's floating-point evaluation, file dialogs and
audio playback.
