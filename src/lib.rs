//! An interpreter for the classic 8-bit "chip" virtual machine: a fetch,
//! decode and execute engine over a small memory, a monochrome pixel grid,
//! a pair of countdown timers and a sixteen-key keypad, together with the
//! pacing logic that keeps instruction execution and timer decay on their
//! own cadences.
pub mod chip8;
pub mod instr;
pub mod keys;
pub mod memory;
pub mod registers;
pub mod screen;
pub mod sprite;
pub mod throttle;
pub mod timers;
