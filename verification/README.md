# openrapoo

Configuration and telemetry for the Rapoo MT760 Pro mouse (and Rapoo keyboards) on
Linux: device detection, battery readings from several sources, button remapping,
DPI and polling-rate reports, and read-only diagnostics.

The library in `src/` is verified with Verus: each public function states in its
`ensures` what it returns. Where an answer comes from the system (a battery provider,
the clock, the file system, the process's groups), the contract states what holds
whatever came back, and a verified function that takes the answer as an argument
states the rest. A battery provider is a `BatteryProvider`: its `answers` and
`reports_available` relations stand for what a call may give, and the aggregator's
contract says which providers it asks, about which device, and what it does with each
answer and each line it writes. The `lemma_*` proof functions state properties that
span several functions (readings never above 100%, reports whose checksum holds, DPI and
rate read back as written, actions that leave no key held, readings that stay with
their device, and others).

- `src/` — the verified library (detection, battery aggregation and providers' rules,
  profiles, hardware reports, remapping decisions, IPC answers, diagnostics).
- `app/` — the program around it: D-Bus, sysfs, hidraw and evdev I/O, the daemon's
  loops, the command line, and the JSON forms of the library's types.
- `tests/` — tests of the library on concrete values.
