pub mod chip8;
pub mod chip8_util;
pub mod constants;
pub mod instruction;
pub mod laws;
pub mod rng;
pub mod screen;
pub mod semantics;
