//! The decisions of a Flutter embedder for Windows and of its build tool.
pub mod build_tool;
pub mod chars;
pub mod compositor;
pub mod documents;
pub mod egl;
pub mod engine;
pub mod error_utils;
pub mod events;
pub mod flags;
pub mod flion_engine;
pub mod key_messages;
pub mod keyboard;
pub mod mouse_cursor;
pub mod platform_views;
pub mod plugin_registrant;
pub mod plugins;
pub mod pointer;
pub mod registry;
pub mod render_thread;
pub mod renderer;
pub mod resize_controller;
pub mod settings;
pub mod small_string;
pub mod standard_method_channel;
pub mod task_runner;
pub mod text_input;
pub mod utf16;
pub mod utf8_text;
pub mod views;
pub mod window;
