# lib348

Drivers and input logic for the RP2040 microcontroller, verified with Verus.

The library never touches the hardware. Each driver returns the exact list of
register operations (`regs::RegOp`) its operation needs, and its contract
states that list. The caller performs the operations on the chip, in order.

- `src/regs.rs`: peripheral addresses and the register operations.
- `src/pin_io.rs`: handing out GPIO pins at most once, and configuring outputs.
- `src/i2c.rs`: the I2C1 controller: setup, bus timing, register writes and reads.
- `src/qmc5883l.rs`: the QMC5883L compass on I2C1.
- `src/sys_clock.rs`: crystal oscillator, PLLs and system clocks.
- `src/debounce.rs`, `src/button.rs`: debouncing push buttons.
- `src/interrupts.rs`: counting GPIO edges in the IO_BANK0 interrupt.
- `src/tasks.rs`: the decisions of the button and blink tasks.
- `app/`: the programs: they read and write the registers, and run the loops.
