//! The decisions behind a meeting prompt: recognising a meeting from the windows of a browser,
//! asking whether to record it, and starting and ending recordings that nobody asked for.
//!
//! Everything here is a function of plain values. Reading windows, clocks and settings, and
//! showing or hiding the prompt, is left to the program around the library.

pub mod auto_recording;
pub mod clock;
pub mod detect;
pub mod placement;
pub mod prompt_call_laws;
pub mod prompt_laws;
pub mod prompt_logic;
pub mod recording_call_laws;
pub mod recording_laws;
pub mod runtime;
pub mod runtime_call_laws;
pub mod runtime_laws;
pub mod search_call_laws;
pub mod search_laws;
pub mod settings;
pub mod shell_laws;
pub mod text;
pub mod text_laws;
pub mod title_call_laws;
pub mod title_laws;
pub mod window_title;
pub mod worker;
pub mod x11;
