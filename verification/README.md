# Omarchy Power Policy

A daemon for one lid policy, its decisions verified with Verus.

| State transition | Action |
|---|---|
| Lid closes while on AC | Keep running |
| Lid closes while on battery | Suspend |
| AC is unplugged while the lid is closed | Suspend |
| AC is unplugged while the lid is open | No action |

## Layout

- `src/` is the verified library. It does no input or output.
  - `policy`: the latch that turns readings into suspend requests
  - `properties`: which property names of a change signal matter
  - `evaluate`: what one reading leads to
  - `epoch`: what each D-Bus signal means
  - `daemon`: a run on the bus, as a state machine that owns logind's inhibitor
  - `trace`: what holds of whole runs
  - `cli`, `supervisor`: the command line and the process
  - `bus`, `text`: names and text helpers
- `app/` is the program: it does the D-Bus work, the waiting and the printing that the machines
  ask for.
- `tests/` runs the library.

## Usage

```text
omarchy-power-policy [--dry-run]
```

A dry run takes the inhibitor and logs suspends in place of asking for them.
