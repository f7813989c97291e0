# flipperzero

Verified core of the Flipper Zero SDK bindings, written in Verus.

- `src/` is the verified library: the BLE serial and USB CDC event flags and
  the decisions of their callbacks and workers, the CDC line settings and
  control lines, the file system error codes, the `Read`/`Seek`/`Write`
  traits, their provided methods and the steps those take on each outcome of
  the implementor's calls, the workers' drain loop, canvas colors, GUI layer
  and button codes, and the GUI service record and its loop step.
- `app/` holds what only the firmware can run: the calls into its C API, the
  worker threads and callbacks that use the library's decisions, the global
  allocator, the spin lock, and the formatting trait impls.
- `tests/` exercises the library on concrete values.
