//! Verified core of the Echo meeting assistant: the on-disk layout of its
//! configuration, the bookkeeping of the audio-capture worker, the recording
//! facade above it, and the WAV container that the worker writes.

pub mod audio;
pub mod capture;
pub mod channel;
pub mod config;
pub mod paths;
pub mod wav;
pub mod worker;
