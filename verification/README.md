# pure_flow

Verified core of the Pure Flow environmental monitor (nRF52840, Sensirion
SCD40 / SFA30 / SEN55 sensors, BLE telemetry).

- `src/` — the library, proved with Verus:
  - `sensors/sensirion.rs`: the Sensirion CRC-8 and the word/CRC framing of
    sensor responses;
  - `sensors/{scd40,sfa30,sen55}.rs`: command set, response decoding and the
    result of each driver operation once its response is read;
  - `domain/sensor_data.rs`: the measurement records;
  - `ble/`: the 20-byte telemetry packet and the advertisement payload;
  - `tasks.rs`: the scheduling decisions of the sensor tasks;
  - `i2c_bus.rs`, `transport.rs`: error types.
- `app/` — the firmware around it: Embassy tasks, I2C bus sharing, the radio
  and BLE stack, and the floating-point unit conversions.
- `tests/` — tests of the library on concrete values.
