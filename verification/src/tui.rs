//! The job worker and the state of the interactive interface.

pub mod app;
pub mod app_messages;
pub mod convert_job;
pub mod download_job;
pub mod download_laws;
pub mod error_view;
pub mod event;
pub mod m3u;
pub mod messages;
pub mod navigation;
pub mod protocol;
pub mod reducer;
pub mod refresh_job;
pub mod requests;
pub mod retry;
pub mod run_laws;
pub mod ui;
pub mod worker;
