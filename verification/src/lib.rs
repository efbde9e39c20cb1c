pub mod app;
pub mod bootstrap;
pub mod cli;
pub mod domain;
pub mod providers;
pub mod text;
pub mod transport;
