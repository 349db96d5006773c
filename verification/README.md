# rpgbe

A Game Boy emulator core whose behaviour is stated in Verus contracts and proved.

- `src/` is the verified library: bit helpers (`bit_logic`), the arithmetic and
  flag rules (`alu`), the instruction set as a function on processor and memory
  (`isa`), whether an instruction's memory accesses are defined (`access`), the processor and its instruction dispatch (`cpu`, `execute`,
  `cb_ops`, `op_*`), the memory map with bank switching, DMA and the joypad
  register (`memory`), the divider and timer (`timer`), the picture processor
  (`gpu`), the four sound channels (`spu`), joypad input and interrupt dispatch
  (`interrupts`), the whole machine (`gameboy`), and a processor that owns its
  memory (`processor`).
- `tests/` runs the library on concrete programs and registers.
- `app/` is the desktop front end: an SDL2 window, game controller input, and
  an audio queue fed by mixing the samples the library produces.

Run the front end with the path of a ROM image as its only argument.
