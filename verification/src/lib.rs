pub mod board;
pub mod engine;
pub mod field;
pub mod funcs;
pub mod ship;
