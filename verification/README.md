# cxd56

The logic of a hardware abstraction layer for the Sony CXD5602 and its Spresense board, written in
Verus: what the drivers compute, in which order they touch the hardware, and what they answer.

A driver that has to talk to the hardware is a state machine here. Its `action` says what to do
next, its `step` takes what came of it, and both are proved equal to a specification (`wants` and
`next`) over which the laws of the library (`law_*`) are stated and proved.

| Path            | What it holds                                                          |
|-----------------|------------------------------------------------------------------------|
| `src/farapi.rs` | Remote calls into the firmware of another core                         |
| `src/gnss/`     | The positioning engine: boot, configuration, start, updates, shutdown  |
| `src/clocks/`   | Operating points and dividers, typed and shared                        |
| `src/registry.rs` | Changes of the clock that bracket the peripherals which depend on it |
| `src/pwm.rs`    | The pulse width modulator                                              |
| `src/pac/`      | Its registers                                                          |
| `src/multicore/`| Semaphores, mutexes, mailboxes and the start of worker cores           |
| `src/sleep.rs`  | Deep and cold sleep, and the wake sources                              |
| `src/bsp/`      | The sensors and the light of the sensor board                          |
| `src/monitor.rs`| The serial monitor on the host                                         |
| `tests/`        | Tests of the library, on simulated hardware                            |
| `app/`          | Ordinary Rust around the library: registers, memory, ports, foreign traits, floating point |
