# monitor_controller

The control logic of a monitor-controller audio plugin (Solo/Mute modes with
compare modes, SUB channels, OSC and Web control surfaces, Master/Slave state
sharing), written in Verus with its behaviour stated in contracts and proved.
Decisions that depend on time (double clicks, resize debouncing) take points
in time as nanosecond counts and are stated exactly on them; what a clock
reading returns is the one thing left unstated.

- `src/` – the verified library. The interaction state machine (`interaction`,
  laws in `interaction_laws`), channel sets and masks, layouts from the
  speaker configuration (`config_manager`, `layout_cache`), the audio thread's
  render plan (`channel_logic`), the OSC surface (`osc`, `osc_feedback`,
  incoming datagrams in `osc_input`), the Web surface (`web`), Master/Slave
  sync (`network_protocol`, `network_sync`), editor state and actions
  (`editor_state`, `editor_actions`), resize bookkeeping (`resize`), keyboard
  text entry (`keyboard`), logging formats (`logger`), build packaging rules
  (`packaging`) and text helpers (`text`).
- `tests/` – tests of the library.
- `app/` – the runtime around it: files, sockets, threads, floating-point
  audio, keyboard polling (Windows only, as text entry by polling is) and the
  build tool's file work.
