# rustjay_waaaves

The verified core of the RustJay Waaaves VJ application: the parts of the
application that decide and compute on plain values, each with a contract
proved by Verus.

- `src/config` resolution presets and configurations, tab identifiers, plain
  configuration records.
- `src/shared` enums shared between the control window and the engine, and
  the LFO waveform selection.
- `src/gui` tab selections and the parameter lists offered for modulation.
- `src/input` the two video input slots (webcam and NDI) as a state machine
  driven by the outcomes of starting a capture and by delivered frames;
  Syphon server discovery.
- `src/ipc` Spout input/output state machines, pixel formats, source
  discovery, and the Syphon entry points of builds without the framework.
- `src/midi` MIDI message kinds, controller names, readable parameter names
  and parameter range classes.
- `src/output` RGBA to BGRA conversion and the states of a pool of GPU
  readback buffers.
- `src/text` decimal rendering.

`app/` holds the program around the library: configuration files, window
layout, floating-point modulation helpers, Syphon framework calls and the
receiver thread.
