//! Streaming speech front end: the bookkeeping between an audio capture
//! callback and the voice-activity detector and recognizer that it feeds.
//!
//! Sample values are generic throughout; the numeric work on them (mixing
//! channels, blending neighbours) is handed in by the caller, so that every
//! index, length and state transition here is verified.
pub mod capability;
pub mod capture;
pub mod control;
pub mod driver;
pub mod queue;
pub mod resample;
pub mod segmenter;
