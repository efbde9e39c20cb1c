pub mod client;
pub mod config;
pub mod dto;
pub mod mapper;
