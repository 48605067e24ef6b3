//! Native-menu-to-application command bridge of a desktop note-taking
//! application.
//!
//! The crate has two components, composed in one direction (native shell
//! toward view layer):
//!
//! - the menu model ([`menu`]): an immutable menu topology (groups, labeled
//!   entries, separators, accelerators) built from a declarative description
//!   and validated at build time;
//! - the command dispatcher ([`dispatch`]): binds each interactive menu entry
//!   to a stable command identifier and, on user activation, emits exactly one
//!   command invocation toward the view layer.
//!
//! The fixed menu declaration of the application itself lives in [`catalog`].

pub mod catalog;
pub mod dispatch;
pub mod menu;
