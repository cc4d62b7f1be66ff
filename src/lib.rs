//! Text-to-speech dispatch for a chat bot.
//!
//! A voice selector such as `tiktok-en_us_002` names one of several speech
//! services. `tts::TTS::request` plans the one call that service takes,
//! `tts::TTS::from_response` normalizes its answer, and `tts::TTS::download`
//! says what to write, and where, to turn that answer into an audio file.
//! The caller performs the network and file work in between.

pub mod text;
pub mod artifact;
pub mod provider;
pub mod json;
pub mod tts;
pub mod config;
