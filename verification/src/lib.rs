//! Resolver for a language-server binary: decides, step by step, how to
//! locate an already-installed binary or fetch and unpack the latest release,
//! keeping the working directory down to a single version directory.
//!
//! The decisions live here and are verified; the host glue performs the
//! filesystem and network actions the resolver asks for and hands the
//! outcomes back as events.

pub mod error;
pub mod platform;
pub mod release;
pub mod resolver;

pub use error::{ResolveError, Status};
pub use platform::{Arch, ArchiveKind, Os};
pub use release::{Asset, ReleaseInfo};
pub use resolver::{Action, Event, Resolver, State};
