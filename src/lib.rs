//! Dotfile management: the decisions that move a configuration file into a
//! backup store behind a symlink ("collect") and back again ("restore"),
//! and the check that no two managed paths nest inside one another.
//!
//! The library never touches the filesystem itself. It is handed what was
//! observed on disk and answers with the steps to perform; the effect of
//! those steps is modelled over an abstract filesystem so that the laws of
//! the state machine can be proved.

mod text;
pub mod paths;
pub mod model;
pub mod link;
pub mod laws;
pub mod conflict;
pub mod dotfiles;
pub mod config;

pub use dotfiles::{Dotfiles, Progress};

pub use link::{Link, Observation, Outcome, PathKind, SkipReason, Step};
pub use paths::{expand_home_dir, join_path, DotError};
