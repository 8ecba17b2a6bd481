# aardvark-rs

A driver for Total Phase Aardvark I2C/SPI host adapters, with its decisions
verified by Verus.

- `src/` is the verified library: status codes and errors (`error`), the
  decimal text of error codes (`decimal`), adapter discovery (`devices`),
  I2C transactions (`i2c`) and the steps that open an adapter (`session`).
- `app/` is the unverified part: loading the Aardvark C library with
  `libloading`, calling it, and the `embedded-hal` I2C traits. It performs
  the calls that the library's `OpenSession` and `Transaction` ask for and
  hands the results back to them.
- `tests/` runs the library on concrete values.
