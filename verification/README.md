# mooneye_gb

The core of a Game Boy emulator, written in Verus. The library's functions
carry contracts that the verifier proves; the few calls into outside crates
(CRC-32, a fixed-capacity vector) stand behind small trusted wrappers.

- `src/cpu`: the Sharp LR35902 CPU. Each instruction states the bus cycles
  it performs and the registers it leaves; `decode` maps opcodes to them.
  The CPU sees its surroundings through `CpuContext`, whose implementations
  keep their state in agreement with the trace of cycles (`FlatBus`: memory
  replays the writes and reads give back what memory held).
- `src/hardware`: the devices on the bus (cartridge banking, PPU, APU
  registers, timer, joypad, serial port, interrupts, OAM DMA) and the memory
  map that ties them to the CPU.
- `src/config`: cartridge headers and boot ROM recognition.
- `src/machine.rs`: a whole machine stepping the CPU against the hardware.
- `app/`: file access, platform directories, logging, and the report of
  the faults that the emulator does not emulate.
