//! Verified control logic of a three-phase motor driver on an RP2040 board:
//! dead-time insertion for the complementary PWM outputs, the sample-time
//! bookkeeping of the open-loop velocity controller, decoding of the magnetic
//! angle sensor's register, and the sample window of the current sensors.
pub mod pwm;
pub mod timing;
pub mod angle_sensor;
pub mod sampling;
