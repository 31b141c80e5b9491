# ocellus

`ocellus` is a hardware telemetry exporter for Intel server processors. It samples the counting
units of the processor (memory controllers, I/O ring ports, power control units, QPI and UPI links)
and its energy counters, and exports what they amount to as Prometheus metrics or as JSON.

## Layout

- `src/` is the library. Everything that is computed or decided stands here, with contracts that
  Verus proves: which events are counted in which slice of a sample, which registers are written and
  read, how readings are added up, what is reported, and which metrics are registered and set.
  - `schedule`, `sampling`, `task`: the order of things.
  - `registers`, `units`, `counter`, `accumulator`: counting.
  - `arch`, `topology`, `pci`, `sockets`, `capabilities`, `discovery`, `hsx`, `ep`: finding the units.
  - `quantity`, `export`: what is reported and how it is labelled.
  - `completeness`: a sample that runs its whole schedule can be reported.
  - `metrics/`: the collectors, one module for each kind of unit and processor.
- `tests/` runs the library.
- `app/` is the ordinary Rust around it: access to the machine, tasks, the Prometheus registry, JSON.

## Numbers

The library does not compute with floating-point numbers. A reported number is a `Quantity`: the
integers that went into it and the formula that joins them. `app/render.rs` evaluates it.

Spans of time are counts of nanoseconds.

## Errors

What stops a collector is a `CollectorError`; `app/text.rs` puts it into words. A total that would
not fit in its width is reported as `Overflow`, and nothing is added.
