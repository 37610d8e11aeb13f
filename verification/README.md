# termixer

The verified core of a terminal DJ mixer: what the keys and the mouse do to
the selection, how the mixer row is laid out and hit-tested, the source and
sample pickers and their directory listings, solo and mute rules, the
buffers that capture routed audio, the voice slots and step boundaries
of the pad sequencer, the OSC messages sent to SuperCollider,
the metadata that audio routes publish, and the command line and config
checks.

- `src/` is the library, written and proved with Verus. Each public
  function states what it returns or changes; the `lemma_*` proof functions
  state the laws that hold across calls.
- `tests/` runs the library on concrete values.
- `app/` is the command line front end around it (file system, terminal,
  environment) and the floating-point signal processing, which the library
  does not hold.
