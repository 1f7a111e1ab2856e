# mill_matter

The logic of a Matter-over-Thread thermostat that is retrofitted into a Mill Gen 2 panel
heater, in place of its WiFi module: verified with Verus in `src/`, with the firmware around
it in `app/`.

The heater's own microcontroller keeps the temperature sensor, the triac and the control
loop, and pushes status frames over a 9600-baud UART. The board decodes them, serves them as
a heating Thermostat that meters its own element, and turns writes into command frames. What
it asks for it cannot enforce: the next status frame is the only confirmation there is.

| Module | What it decides |
| --- | --- |
| `mill` | The wire protocol: framing, checksums, the status frame, the two commands |
| `heater` | What the heater reports, what is worth logging, and the energy counters |
| `thermostat` | When a report is a front-panel change, and when a write is sent |
| `meter` | What the Electrical Sensor clusters serve, and when they notify |
| `element` | What the element is rated at: a list of modes and an exact figure, as one value |
| `supervisor`, `boot_diag` | Why the board last reset, and how the brownout detector is armed |
| `radio` | Whether BLE was down when Thread started |
| `identity` | Serial number, unique ID, extended address and commissioning data of a board |
| `node` | Which handler serves which cluster |
| `vendor_kv`, `factory_reset` | What is persisted under which key, and when it is wiped |
| `config`, `overlay` | What may be configured, and how a local file overrides the defaults |

Functions that need the time come in pairs: one reads the clock, and one with `_at` in its
name takes the readings. Two things are taken on trust: the clock, of whose readings nothing
is claimed, and the `toml` crate's tables, of which `overlay` says what each operation does to
their contents.

Each module ends in its laws: public proof functions named `law_...` that state what holds
across calls, such as that how often the meter is sampled makes no difference to the energy
it counts.

`app/main.rs` is the firmware, for an ESP32-C6. `app/configure.rs` is the host side of its
configuration: it reads `config.toml`, lays `config.local.toml` over it, checks the result
and writes the constants that `app/config.rs` takes in.
