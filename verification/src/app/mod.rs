pub mod fanout_search_service;
pub mod search_service;
