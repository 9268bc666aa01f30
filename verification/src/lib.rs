//! Project-local Python environments and their lock files: where they live,
//! what a lock holds, and which outside work each operation asks for.
//!
//! The library decides and the caller acts. [`Project`] turns an operation
//! into a [`Task`]; the caller performs the [`Action`] the task asks for and
//! hands back the [`Event`] that answers it, until the task is over.

pub mod codec;
pub mod error;
pub mod lock;
pub mod operations;
pub mod paths;
pub mod project;
pub mod record;
pub mod settings;
pub mod task;
pub mod text;
pub mod theorems;

pub use crate::codec::Metadata;
pub use crate::error::Error;
pub use crate::paths::Paths;
pub use crate::paths::DEV_LOCK_FILENAME;
pub use crate::paths::PROD_LOCK_FILENAME;
pub use crate::project::PostInstallAction;
pub use crate::project::Project;
pub use crate::record::DependencyRecord;
pub use crate::settings::PlatformLayout;
pub use crate::settings::PythonInfo;
pub use crate::settings::Settings;
pub use crate::task::Action;
pub use crate::task::Event;
pub use crate::task::Task;
