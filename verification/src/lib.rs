//! Verified core of the Kiri screenshot and screen-recording application:
//! recording policy, annotation styling, capture bookkeeping, OCR provider
//! settings, and library-location state.

pub mod annotation;
pub mod annotation_document;
pub mod audio;
pub mod asset;
pub mod asset_index;
pub mod capture;
pub mod editor;
pub mod frame;
pub mod frontend;
pub mod frozen;
pub mod gif;
pub mod library_location;
pub mod library_migration;
pub mod library_status;
pub mod media_import;
pub mod media_pipeline;
pub mod ocr_provider;
pub mod ocr_retry;
pub mod policy;
pub mod recording;
pub mod recording_recovery;
pub mod recording_session;
pub mod shortcut;
pub mod text;
pub mod tray;
pub mod video_project;
