# hpet

A verified model of the High Precision Event Timer (HPET), a block of up to 32
timers that compare themselves with one free-running counter.

The library holds the registers of the block and decides what each guest
access, each expiration of a timer and each change of an interrupt input does to
them. It does not touch the machine: an operation takes what the virtual clock
reads, and appends what the machine has to do (raise a line, store a message,
arm a timer, ...) to a list of actions.

- `src/registers.rs`: addresses and fields of the registers
- `src/bits.rs`, `src/access.rs`, `src/ticks.rs`: bit fields, guest accesses,
  counter arithmetic
- `src/action.rs`: what the block asks of the machine, and the clock readings
- `src/timer.rs`: one timer, `HPETTimer`
- `src/state.rs`: the block, `HPETState`
- `src/laws.rs`: what holds of the block as a whole
- `app/`: the device around the block, for a machine that implements `Host`

Counter, comparators and clock are 64-bit words that wrap around. The offset
between counter and clock is one of them: it stands for a negative number
whenever the clock is ahead of the counter.
