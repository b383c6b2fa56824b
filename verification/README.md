# WonderCrab

A WonderSwan emulator whose machine model is verified with Verus.

- `src/` is the library: the cartridge and its mappers, the memory and I/O buses with the
  EEPROMs and the keypad, the NEC V30MZ CPU, the general and sound DMAs, the sound unit, the
  display chip, the system-on-chip that ticks them, and the reader of a ROM image's footer.
  Every component has an abstract view; each operation's contract states its effect on the views,
  and `src/laws.rs` states properties that span several operations.
- `app/main.rs` is the program: it reads the ROM image and the save files, shows the screen and
  plays the sound with SDL, maps the keyboard to the console's buttons and writes the save files
  back on exit.
- `tests/` runs the library on concrete programs and values.

Run the program with the ROM's name without its `.ws`/`.wsc` extension as first argument; a
second argument `mute` or `trace` silences it. Without a ROM a blank test cartridge runs.
