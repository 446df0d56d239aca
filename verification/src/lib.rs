pub mod cli;
pub mod converter;
pub mod db;
pub mod downloader;
pub mod error_log;
pub mod file_utils;
pub mod logger;
pub mod metadata;
pub mod paths;
pub mod sorting;
pub mod sources;
pub mod text;
pub mod tui;
