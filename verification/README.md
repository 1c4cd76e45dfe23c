# ceres_pc1500

A verified emulator core for the Sharp PC-1500 pocket computer, written in
Verus.

The library (`src/`) holds the machine: the LH5801 CPU (`lh5801`, with the
instruction decoder in `isa`, one function per instruction in `isa_ops`, and
the effect of every instruction as a specification in `effects`), the LH5810
I/O chip, the uPD1990AC clock chip, the memory map, the keyboard matrix and the
LCD. `pc1500` holds a second, stand-alone machine: an LH5801 model with its own
bus, key matrix, interrupt controller, timer and VRAM display, and a cycle
counter that drives it frame by frame. Every function carries a
contract that Verus proves; laws of the machine (RAM read-back, stack
round trips, interrupt frames, keyboard matrix, clock digits) are stated as
proof functions next to the code they are about.

`app/` is the desktop front end: command line, file loading, the emulator
thread and the window.
