# pico_motor

Control logic of a three-phase motor driver on an RP2040 (Raspberry Pi Pico),
verified with Verus.

- `src/pwm.rs`: dead-time insertion for the complementary phase outputs.
- `src/timing.rs`: sample-time bookkeeping of the open-loop velocity controller.
- `src/angle_sensor.rs`: bus address, register and decoding of the angle sensor.
- `src/sampling.rs`: the sample window of the two current sensors.
- `app/`: the firmware around it (hardware access, floating-point control math).
