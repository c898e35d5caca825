//! Feed aggregation, filtering and syndication logic.
pub mod aggregate;
pub mod cache;
pub mod command_mode;
pub mod commands;
pub mod config;
pub mod database;
pub mod datetime;
pub mod entry;
pub mod entry_set;
pub mod export;
pub mod feed;
pub mod feed_list;
pub mod filters;
pub mod groups;
pub mod headers;
pub mod knot;
pub mod laws;
pub mod logging;
pub mod modes;
pub mod options;
pub mod outlines;
pub mod reader;
pub mod serve;
pub mod read_config;
pub mod tasks;
pub mod text;
pub mod transforms;
pub mod updater;
