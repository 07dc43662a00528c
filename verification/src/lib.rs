//! Quick-entry core: slug generation, filename derivation, configuration
//! resolution over layered persisted settings, and note-document assembly.
pub mod filename;
pub mod json;
pub mod note;
pub mod resolve;
pub mod shortcut;
pub mod slug;
pub mod text;
