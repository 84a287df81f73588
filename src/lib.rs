//! A live system monitor: bounded per-core usage histories, scroll windowing
//! over the cores, colour thresholds and the text labels of the dashboard.

pub mod history;
pub mod models;
pub mod scroll;
pub mod state;
pub mod colors;
pub mod text;
pub mod widgets;
pub mod event_handler;
pub mod app;
pub mod worker;
