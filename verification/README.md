# nam_audio_pipe

A virtual audio sink that runs what is played into it through a neural amplifier model and,
if asked to, records the result.

- `src/` is the library: the decisions of the real-time callback, the recording ring, the
  control loop and the setup, with their contracts, verified with Verus.
- `app/` is the host around it: the streams of the audio server, the DSP engine, the clock
  and the files.
- `tests/` runs the library.

Samples cross the library as the bit patterns of 32-bit floats. The recording ring is a queue
of the `rtrb` crate; what the library takes for granted of it is stated at `ring_new` and
`ring_push` in `src/recording.rs`.
