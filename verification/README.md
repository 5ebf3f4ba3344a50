# libymfm

Sound chip cores and music file drivers (VGM, XGM) with their behaviour
stated in contracts and proved with Verus.

- `src/sound/`: the chip cores (SN76489, Sega PCM, 32X PWM, OKIM6258,
  OKIM6295, C140, a cycle-exact YM3438/YM2612), the ADPCM decoder, ROM
  sets and the decisions of the sound slot (which resampler a chip gets,
  which ROMs it uses, how data streams merge).
- `src/driver/`: the VGM, GD3 and XGM parsers on bytes, gzip extraction,
  and the VGM command interpreter, which tells its caller what to write to
  which chip and how long to wait.
- `src/bits.rs`: bit-level facts, proved once by the bit-vector solver.
- `app/`: the command line player: floating-point resampling and mixing,
  the ymfm C library interface, JSON output of the metadata, file I/O.
- `tests/`: tests of the library on concrete inputs.
