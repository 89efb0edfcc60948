//! Discovery and typed extraction of calendar, task and contact
//! records from desktop data-server backends.
//!
//! The pipeline: backends are discovered and classified from grouped
//! key/value configuration blobs (`keyfile`, `source`), a per-backend
//! session is routed (`endpoint`), a query is built (`query`), raw
//! calendar/contact text is parsed into a property model (`markup`,
//! `model`) and extracted into typed records (`extract`, `event`,
//! `task`, `contact`), and the per-backend results are merged
//! best-effort and filtered (`collect`). Around the pipeline,
//! `config` decides what is enabled, and `resources` and `tools`
//! describe what the connector exposes.

pub mod collect;
pub mod config;
pub mod contact;
pub mod endpoint;
pub mod error;
pub mod event;
pub mod extract;
pub mod keyfile;
pub mod markup;
pub mod model;
pub mod query;
pub mod resources;
pub mod source;
pub mod task;
pub mod text;
pub mod tools;

pub use config::Config;
pub use contact::Contact;
pub use endpoint::SourceKind;
pub use error::ExtractError;
pub use event::Event;
pub use keyfile::KeyFile;
pub use model::{CompKind, Component, Prop, PropValue};
pub use source::{SourceInfo, SourceType};
pub use task::Task;
