pub mod args;
pub mod db;
pub mod output;
pub mod request;
pub mod runner;
pub mod scrape;
