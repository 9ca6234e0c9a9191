//! Verified state, message and decision logic of the Lumidox II controller GUI.

pub mod text;
pub mod error;
pub mod device_state;
pub mod app_state;
pub mod unified_state;
pub mod device_messages;
pub mod ui_messages;
pub mod messages;
pub mod device_handlers;
pub mod ui_handlers;
pub mod handlers;
pub mod gui;
pub mod launch;
pub mod fallback;
pub mod view;
pub mod controls;
pub mod display;
pub mod error_display;
pub mod factory;
pub mod layout;
pub mod application;
pub mod laws;
