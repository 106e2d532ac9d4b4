pub mod bus;
pub mod cpu;
pub mod game;
