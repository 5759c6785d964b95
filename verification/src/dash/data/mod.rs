//! The dashboard's stored records.

pub mod app;
pub mod env;
pub mod key;
pub mod machine;
pub mod project;
pub mod storage;
pub mod user;

pub use app::App;
pub use env::Env;
pub use key::Key;
pub use machine::Machine;
pub use project::Project;
pub use storage::Storage;
pub use user::{Deployment, Github, Source, UserData};
