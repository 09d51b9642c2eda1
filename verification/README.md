# rpi_kernel

The logic of a small bare-metal kernel for the Raspberry Pi 3, verified with
Verus.

- `src/regs.rs`: the memory-mapped registers, their addresses, and `RegOp`,
  one access a driver asks the bus to perform.
- `src/uart.rs`: the PL011 UART0 driver. Initialisation, sending, receiving
  and the interrupt routine are returned as plans of `RegOp`s.
- `src/interrupt.rs`: interrupt set-up as a plan of steps and the IRQ handler as a step
  function from the value last read to the next access or service.
- `src/mem.rs`: the bump allocator of the kernel heap, with the proof that
  granted blocks are aligned as asked, stay inside the heap and never
  overlap.
- `src/shell.rs`: the console shell (greeting and echo).
- `app/main.rs`: the kernel image: entry points, volatile register access,
  system registers, the global allocator; it performs what the library plans.
