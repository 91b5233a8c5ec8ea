# waydim

A hybrid hardware and software display dimmer for Wayland desktops.

- `src/` is the verified library: which backlight device to drive
  (`common`), the bus calls that set the hardware backlight, kept within the
  safe raw range 100..=1000, and the software gamma
  (`brightness_modifier`), the daemon's start-up decisions and its
  single-instance lock (`daemon`), the daemon's error type (`common`), and
  the type of its request handler (`rpc::server`), which holds no state;
  the handler's methods are asynchronous and live in `app/rpc.rs`.
- `app/` is the program: the command line, the photometric calibration
  (floating point), the bus connections, the RPC transport and telemetry.
- `tests/` exercises the library.
