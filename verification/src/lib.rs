//! Colored borders for the windows of a desktop: which windows get one, when it is redrawn and what
//! is drawn.

pub mod animations;
pub mod border_config;
pub mod border_drawer;
pub mod border_registry;
pub mod border_runtime;
pub mod cli;
pub mod cli_laws;
pub mod coalescing;
pub mod colors;
pub mod command_laws;
pub mod config;
pub mod config_reload;
pub mod config_watcher;
pub mod drawing_laws;
pub mod effects;
pub mod event_hook;
pub mod float_bits;
pub mod graphics;
pub mod ipc;
pub mod ipc_laws;
pub mod json;
pub mod keys;
pub mod komorebi;
pub mod komorebi_laws;
pub mod render_backend;
pub mod runtime_laws;
pub mod runtime_model;
pub mod runtime_requests;
pub mod sorted;
pub mod sys_tray_icon;
pub mod text;
pub mod theme;
pub mod window_snapshot;
