//! A cycle-timed emulator core for an LR35902-based hand-held console:
//! registers, memory bus, CPU, timer, pixel-processing unit and audio unit.

pub mod audio;
pub mod cpu;
pub mod instructions;
pub mod machine;
pub mod memory;
pub mod operands;
pub mod registers;
pub mod timer;
pub mod video;
