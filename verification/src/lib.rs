//! The logic of Typist, a voice-driven typist for the terminal.
//!
//! Speech is cut into segments (`vad`), transcribed (`transcriber`, with `wav` for the upload and
//! `audio`, `wav` and `mp3` for files), taken for dictation, an editing command or conversation
//! (`llm`, or `intent` without a language model), and applied to a document (`document`).  The
//! application state (`ui`) reacts to the events of this pipeline (`session`) and to keys
//! (`keys`), and `panels` says what is on the screen.  `config` and `cli` read the settings.
//!
//! Devices, files, the network and the terminal are outside: the library takes what was read
//! and says what is to be done.  `history` holds what is true of the document whatever is done
//! to it, and `text_laws` what is true of the operations on texts; the laws of the other modules
//! stand at their ends.
pub mod audio;
pub mod cli;
pub mod clock;
pub mod config;
pub mod document;
pub mod events;
pub mod history;
pub mod intent;
pub mod json;
pub mod keys;
pub mod llm;
pub mod mp3;
pub mod panels;
pub mod session;
pub mod text;
pub mod text_laws;
pub mod transcriber;
pub mod typer;
pub mod ui;
pub mod vad;
pub mod wav;
