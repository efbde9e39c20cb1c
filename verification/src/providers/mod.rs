pub mod brave;
pub mod config;
pub mod exa;
