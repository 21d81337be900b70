# midiex

A MIDI bridge for the Erlang VM, split in two:

- `src/` is the verified library (Verus). It builds the MIDI messages the
  bridge sends, the schedule that plays its tune (`playback`), the port
  listings and counts (`ports`), the decision taken when connecting to a port
  (`connect`), and every line of text the bridge prints (`report`, `text`).
- `app/` holds the NIF functions of the `Elixir.Midiex` module. They open the
  system's MIDI clients and connections (midir, coremidi), sleep, print, and
  encode results for the VM (rustler), handing plain values to the library
  and carrying out what it returns.
- `tests/` runs the library on concrete values.
