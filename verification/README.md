# vda5050_sim

A fleet of simulated automated guided vehicles that speak VDA 5050 (2.0) over
MQTT. The vehicles' decisions are a Verus-verified library; the MQTT plumbing,
JSON and the real-number geometry are an ordinary Rust program around it.

## Layout

- `src/` — the verified library
  - `common`, `action`, `order`, `instant_actions`, `state`, `connection`,
    `visualization`, `factsheet`, `config`: the protocol's messages and the
    simulator's settings. Single-precision reals are held by their IEEE-754 bit
    patterns (`Real32`).
  - `utils`, `topics`: topic names and what a received topic carries.
  - `simulator`: the vehicle, how it starts and how its messages are stamped.
  - `orders`: which orders are taken on and what taking one on does.
  - `iteration`: one simulation step (actions, movement along the order).
  - `schedule`: when state and visualization messages go out.
  - `search`: first-element searches used by the specifications.
  - `laws`: properties that hold across operations.
- `tests/` — tests of the library on concrete values.
- `app/` — the program: configuration file, MQTT client, serde copies of the
  messages, and the geometry on `f32`.

The program reads its settings from the JSON file named by
`VDA5050_SIM_CONFIG` (default `config.json`).
