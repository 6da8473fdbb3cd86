# bitaxe BIRDS combined raw/Bridge firmware

Firmware of the BIRDS reference device: one RP2040 is both the raw controller of a
host and the bridge that owns 5 V, ASIC reset, trip input, fan, receiver and
watchdog.

- `src/` is the logic, written in Verus. `bridge_owner` and `manager` are state
  machines that name the next outside call and take its result; `owner_model` and
  `manager_model` state what whole operations amount to, for any safety policy and
  any board. The rest reads the control protocol, decodes 9-bit words, encodes
  diagnostics and derives PIO settings and the serial number.
- `tests/` runs the library, with a small safety policy and board in
  `tests/bridge.rs`.
- `app/` is the firmware around the library: USB, PIO, pins, timers, tasks and the
  safety policy of `bonanza_bridge_fw`.

## Control serial

Requests are `LEN LO, LEN HI, ID, BUS, PAGE, CMD, DATA...`, where the length counts
the whole packet and the identifier comes back in the response.

| Page | Commands |
|------|----------|
| `0x00` system | info `0x01`, receive overflows `0x02`, safety status `0x10` |
| `0x05` I2C | write `0x20`, read `0x30`, read after write `0x40` |
| `0x06` GPIO | `RST_N` `0x00`, 5 V `0x01`, ASIC reset `0x02`, trip `0x03`, VR enable `0x04`, VR power good `0x05` |
| `0x07` ADC | domains `0x50`, `0x51`, `0x52` |
| `0x09` fan | set speed `0x10`, tachometer `0x20` |

Errors are timeout `0x10`, invalid `0x11`, denied `0x12`, fault `0x13`, and buffer
overflow `ff 42 75 66`.

## Data serial

The host sends each 9-bit word as its low byte followed by bit 8, and gets back the
low eight bits of what the ASIC answers, at 5 Mbaud 9N1.

ASIC data is moved from the PIO FIFO to a ring of 1024 bytes by a task. It is
dropped, and the ring emptied, while 5 V is off or the reset is asserted.

## Building the image

The manifest names the features that build on a development host. For the RP2040,
use `arch-cortex-m` in place of `arch-std` for `embassy-executor`, add
`time-driver` and `critical-section-impl` for `embassy-rp`, add
`bonanza-bridge-fw`, and link a panic handler such as `panic-probe` and a defmt
transport such as `defmt-rtt`.
