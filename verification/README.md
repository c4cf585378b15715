# relayclip

RelayClip relays clipboard content (text, PNG images, file and folder references) between
devices on the same local network.

- `src/` is the library, verified with Verus: the relay's state and every decision it takes
  (pairing, routing, transfer jobs, clipboard history, the status line, the tray menu, the
  settings, the stored identity), the layout and hashing of copied files, the wire frames and
  envelopes, and the texts shown to the user. Its contracts are stated over spec functions in
  each module; the public proof functions state the laws that hold across calls.
- `app/` is the program around it: the clipboard, disk, network and mDNS work, which hands
  plain values to the library and carries out what it decides.
- `tests/` runs the library on concrete values.

The build target's operating system is read in `app/` and handed to the library as a string
(`RuntimePlatform::from_target_os`, `platform_label`).
