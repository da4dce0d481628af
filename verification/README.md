# codictate

The decision logic of the Codictate dictation app as a verified library.

- `src/` is the library, verified with Verus: text preparation before pasting
  (`smart_insertion`), the correction pipeline (`correction`), the recording state machine
  and microphone choices (`audio`, `microphone`), history statistics (`history`), the local
  model catalog and manager decisions (`mlx`), notifications, overlay state, shortcuts and
  the settings they edit (`shortcut`), log levels and the tray menu. Each public function
  states its result in its contract; the `law_*` proof functions state the properties that
  span several calls.
- `tests/` runs the library on concrete values.
- `app/` is the unverified code around it: process-wide state behind locks, the system
  commands whose output the library interprets, log emission with `tracing`, clock
  readings, and the statistics computed in floating point.
