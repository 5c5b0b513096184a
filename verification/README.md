# sigma_racer_efi

Engine-control logic for the microRusEFI (STM32F767) ECU, written in Verus.

`src/` is the verified library:

- `engine` — the current engine model: `EngineConfig` (firing sequence
  checked to name every cylinder exactly once), `EngineProfile` (cycle
  length, fire intervals, plug count, rev limits), fuel/spark events per
  cycle, the Yamaha CP3 profile.
- `engines` — the Rotax V990 best default and cycle-aware profiles.
- `efi`, `efi_core` — the first-generation configuration models and the
  microRusEFI default wiring that goes with them.
- `board`, `board_mre`, `pins` — pin map, TLE8888 output roles, cylinder
  wiring and profile fit, brown-out level decisions, TLE8888 SPI command
  encoding and the safe bring-up sequence.
- `datalog` — trigger-edge interval statistics (period, gap ratio).

Every public function carries a contract that states its result; the
proof functions state the laws that relate them (command round trips, the
safe init sequence, permutation checks, the missing-tooth signature, the
agreement of the wiring tables).

`app/` holds what Verus cannot take: the floating-point fuel, dwell and
table math, the M7 CAN mapping, and the Embassy firmware plumbing (heap,
brown-out register programming, safe outputs, data-logger tasks).
