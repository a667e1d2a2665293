//! Batch orchestration for converting scanned page images into archival
//! derivatives, OCR text and layout XML, with a content-addressed record of
//! what was produced.

pub mod artifact;
pub mod clock;
pub mod console;
pub mod digest;
pub mod discovery;
pub mod followup;
pub mod job;
pub mod manifest;
pub mod orchestrator;
pub mod pipeline;
pub mod report;
pub mod server;
pub mod sorting;
pub mod text;
pub mod tools;
