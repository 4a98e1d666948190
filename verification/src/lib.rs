pub mod browser;
pub mod config;
pub mod doubao;
pub mod doubao_stream;
pub mod json;
pub mod mimo_tts;
pub mod mouse_hook;
pub mod selection;
pub mod shortcut;
pub mod text;
pub mod translate;
pub mod tray;
pub mod tts;
