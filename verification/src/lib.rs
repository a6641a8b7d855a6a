//! Push-to-talk speech-to-text for a desktop shell: the user holds a key,
//! speaks, and releases the key; what was said is typed into the window
//! that has the focus.
//!
//! This crate holds the decisions of that pipeline. The audio device, the
//! keyboard, the speech model, the settings file and the threads between
//! them belong to the program around it, which hands the crate plain
//! values and the callbacks that do the outside work.
//!
//! - `config`: the settings record, its rules and its defaults.
//! - `hotkey`: the keys that can trigger a recording, and their names.
//! - `recorder`, `resample`: the capture buffer and its 16 kHz frames.
//! - `monitor`: key events to recording sessions to frames.
//! - `gpu`, `transcriber`: GPU support, model loading with fallback to the
//!   CPU, and transcription.
//! - `worker`: what is done with a frame of the queue.
//! - `processor`, `commands`: the lifecycle of the pipeline and the
//!   operations of the shell.
//! - `desktop`: the shell's own settings, windows and shortcuts.
//! - `text`, `sorting`: operations on text.

pub mod commands;
pub mod config;
pub mod desktop;
pub mod gpu;
pub mod hotkey;
pub mod monitor;
pub mod processor;
pub mod recorder;
pub mod resample;
pub mod sorting;
pub mod text;
pub mod transcriber;
pub mod worker;
