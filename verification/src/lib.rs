//! Verified core of a local-first voice dictation tool: application state,
//! text normalisation and prompt shaping, the dictation pipeline's decisions,
//! SenseVoice model directories, the Qwen-ASR realtime protocol, global
//! shortcut handling and the tray icon bitmap.

pub mod hotkeys;
pub mod json;
pub mod qwen_asr;
pub mod sensevoice;
pub mod services;
pub mod state;
pub mod text;
pub mod tray;
