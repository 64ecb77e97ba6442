# udx

Reliable, multiplexed and congestion-controlled streams over UDP.

- `src/` is the verified library (Verus): the sequence-indexed circular
  buffer (`cirbuf`), the item queue (`queue`), the packet header wire format
  and packets (`packet`, `parse_header` in `lib.rs`), the cubic congestion
  controller (`congestion`), stream setup (`stream`), socket settings and
  counters (`socket`), the error type (`error`) and clock readings (`clock`).
  The laws of `cirbuf`, `queue`, `packet` and `congestion` stand there as
  public proof functions named `law_*`; the other modules' functions carry
  their properties in their contracts.
- `app/` is the unverified I/O side: the UDP socket with its receive task,
  the network-interface monitor, the error type with its messages, and the
  floating-point cube root.
- `tests/` runs the library on concrete values.
