# ths

Temperature/humidity sensor station: a Raspberry Pi polls an RS485
MODBUS-RTU transmitter, stores each measurement in SQLite and a CSV file, and a
small web dashboard shows the stored data.

Layout:

- `src/` — the verified library (Verus):
  - `model.rs`: `Timestamp` (seconds and nanoseconds, as chrono holds an
    instant), `Measurement` (instant,
    temperature and humidity in tenths), `MeasurementData` (plot series),
    `AppError`.
  - `modbus.rs`: transmitter settings and decoding of the input registers.
  - `schedule.rs`: alignment of the sampling instants to the period grid.
  - `store.rs`: conversion to and from the stored rows, and the weekly series.
- `app/` — the station and dashboard programs: serial I/O, SQLite, CSV, HTTP.
- `tests/` — tests of the library.
