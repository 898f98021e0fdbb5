//! Verified core of the botcast worker and its script runtime.
//!
//! The library holds the decisions of the worker: URN parsing, manuscript
//! planning, the speech-synthesis loop and its subtitle timeline, the task
//! queue round, episode scheduling and storage paths, page decoding, feed
//! reading, URN resolution, and the argument handling and name bindings of
//! the functions that scripts call. Network, file and process work is left to
//! the caller, which hands results back as plain values.

pub mod audio;
pub mod episode;
pub mod feed;
pub mod error;
pub mod fmt;
pub mod generation;
pub mod http;
pub mod imports;
pub mod manuscript;
pub mod plugins;
pub mod registry;
pub mod requests;
pub mod resolve;
pub mod scrape;
pub mod script;
pub mod scripts;
pub mod srt;
pub mod synthesis;
pub mod task;
pub mod text;
pub mod urn;
pub mod voicevox;
