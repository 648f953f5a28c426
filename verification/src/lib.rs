//! Iron Coder: a hardware-aware embedded Rust IDE. This crate holds the
//! verified core of the IDE: board descriptions and their ordering, board
//! manifest generation, project and system bookkeeping, BSP inspection and
//! the small text utilities these rely on.

pub mod text;
pub mod board;
pub mod project;
pub mod app;
pub mod serial_monitor;
