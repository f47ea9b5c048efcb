# bird_flap

The rules of a one-button flapping-bird game, verified with Verus.

- `src/` — the verified library: the game and menu state machines
  (`world`, `menu`), scoring and the decimal score text (`world`, `text`),
  the audio toggle, volume scale and two-tone scoring chime (`audio`), the
  bird's flap / crash / gate decisions (`player`) and the sample schedule of
  synthesised tones (`synth`).
- `app/` — the bevy program around it: rendering, input, physics and
  collision geometry (all in `f32`), sound output.
- `tests/` — tests of the library on concrete values.
