# bevy_mod_dynamicaudio

Hierarchical audio playback for Bevy: sounds play through sinks and queues,
and mixers run their output through fundsp processing nodes.

- `src/` is the verified core: the state of a sources queue and what
  its output reports when the current sound runs dry; the control state of a
  sink and what its periodic control callback does; the de-interleaving and
  re-interleaving buffers of an audio processor; the plan made when a queued
  sound starts playing and where mixer output is routed.
- `app/` is the plugin around it: Bevy systems and components, the rodio
  sources and sinks, the locks that share queue and sink state between the
  game thread and the audio thread, fundsp processing, and everything that
  handles floating-point volumes, speeds and positions.
- `tests/` exercises the verified core on concrete values.
