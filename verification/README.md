# iron_coder

The logic of Iron Coder, a hardware-aware IDE for embedded Rust, as a
library verified with Verus, and a small command-line program around it.

- `src/board/`: development boards, their listing order (a proved stable
  sort), the manifest text of a new board, and the inspection of a board's
  BSP source.
- `src/project/`: projects (boards, Cargo commands, saving), the hardware
  system and its connections, the generated system module, the new-board
  form, the terminal pane and the node graph.
- `src/app/`: options, warnings, modes, keyboard shortcuts and editor tabs.
- `src/serial_monitor.rs`: the data decisions of the serial monitor.
- `src/text.rs`: text operations with exact specifications.
- `app/`: the program: command-line options, reading the boards directory,
  project files and Cargo commands.
- `tests/`: tests run against the compiled library.
