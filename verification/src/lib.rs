//! Verified core of the atra web crawler.

pub mod depth;
pub mod depth_order;
pub mod domain_map;
pub mod url;
pub mod budget;
pub mod cookies;
pub mod config;
pub mod blacklist;
pub mod blacklist_manager;
pub mod data;
pub mod stored;
pub mod decoding;
pub mod crawl;
pub mod instruction;
pub mod run_errors;
pub mod crawl_task;
pub mod session;
pub mod polling;
pub mod fetching;
pub mod paging;
pub mod export;
