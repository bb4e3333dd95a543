# poe2_auto_flask

A Path of Exile 2 helper that presses the Life and Mana flasks when their pools fall below
configurable thresholds, built around a library whose decisions are proved with Verus.

## Layout

- `src/` — the verified library. The helper's decisions live here with contracts, except the
  two that compare fractional values (a pool's percentage against its threshold, and whether a
  status effect's timing is plausible), which `app/` makes and hands in:
  - `bindings` parses the game's input config and follows its changes; `input` decodes key
    codes and lists the key events of a flask press.
  - `config` keeps the settings in force while the settings file is edited, removed or broken.
  - `process` checks the executable's PE headers and runs the chunked signature scan.
  - `poe2`, `entity`, `area`, `buffs`, `flask_inventory` and `charge_sample` walk the game's
    structures as step machines: each step names the next memory read, the caller performs it
    and reports the result, and the machine decides what follows. `charge_sample` reads the
    flasks' charges (a full reader and a cached fast one) and checks a resolved flask inventory;
    `buffs::LockSample` finds the flask slots with an active effect.
  - `automation::Engine` is the automation loop's state: arming, pausing, reconnecting, and
    when a flask is pressed.
  - `launcher` holds the Linux launcher's decisions; `cli` the helper's command line.
  - `laws` states properties that span several functions.
- `tests/` — tests of the library on concrete values.
- `app/` — the program around the library: Windows process access, key input, files, the
  settings file's TOML decoding (its thresholds are fractional), printing, and the loops that
  perform the reads and actions the library asks for.
