//! Launch supervision for an embedded backend process: installing the
//! embedded artifact, learning the port the backend listens on, deciding
//! when it is ready, and handing the outcome to the desktop frontend.

pub mod config;
pub mod delivery;
pub mod digest;
pub mod extract;
pub mod platform;
pub mod port;
pub mod probe;
pub mod supervisor;
pub mod text;

pub use platform::get_backend_name;
