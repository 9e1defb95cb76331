//! Declarative authorization for request handlers.
//!
//! A handler is declared together with the authorities its caller must hold.
//! The crate decides whether a caller's attached authorities satisfy such a
//! requirement, picks the response for a denial, and writes the guarded
//! version of a handler from its declaration.

pub mod arguments;
pub mod attach;
pub mod authority;
pub mod condition;
pub mod config;
pub mod declaration;
pub mod endpoint;
pub mod macros;
pub mod meaning;
pub mod protect;
pub mod syntax;
pub mod text;

pub use attach::AttachAuthorities;
pub use config::{GrantErrorConfig, GrantsConfig};
pub use macros::{has_any_permission, has_any_role, has_permissions, has_roles};
